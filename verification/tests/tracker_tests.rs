use face_tracking_pico::errors::{native_call_result, xr_succeeded, TrackerError};
use face_tracking_pico::modes::{
    compute, TRACKING_MODE_FACE_BIT, TRACKING_MODE_LIPSYNC, TRACKING_MODE_LIPSYNC_BLEND_SHAPES,
};
use face_tracking_pico::record::{
    FaceTrackingRecord, BLEND_SHAPE_COUNT, EMOTION_COUNT, PICO_FACE_EXPRESSION_COUNT,
    RESERVED_COUNT, VIDEO_INPUT_COUNT,
};
use face_tracking_pico::tracker::{
    check_capability, CapabilityToken, EntryPointName, FaceTrackerPico, NativeCall,
};

fn token() -> CapabilityToken {
    check_capability(true, false, true).expect("base capability advertised")
}

fn tracker() -> FaceTrackerPico {
    FaceTrackerPico::new(token(), Some(0x1000), Some(0x2000), Some(0x3000), Some(0x4000))
        .expect("all four entry points resolved")
}

fn filled_record(time: i64) -> FaceTrackingRecord {
    let mut record = FaceTrackingRecord::zeroed();
    record.time = time;
    for i in 0..BLEND_SHAPE_COUNT {
        record.blend_shape_weight[i] = (0.01 * i as f32).to_bits();
    }
    record
}

#[test]
fn mode_mask_truth_table() {
    assert_eq!(compute(false, false), 0x0);
    assert_eq!(compute(true, false), 0x8);
    assert_eq!(compute(false, true), 0x2100);
    assert_eq!(compute(true, true), 0x2108);
}

#[test]
fn mode_bits_compose_the_masks() {
    assert_eq!(TRACKING_MODE_FACE_BIT, 0x8);
    assert_eq!(TRACKING_MODE_LIPSYNC, 0x2000);
    assert_eq!(TRACKING_MODE_LIPSYNC_BLEND_SHAPES, 0x100);
    assert_eq!(
        compute(true, true),
        TRACKING_MODE_FACE_BIT | TRACKING_MODE_LIPSYNC | TRACKING_MODE_LIPSYNC_BLEND_SHAPES
    );
}

#[test]
fn status_convention_is_non_negative_success() {
    assert!(xr_succeeded(0));
    assert!(xr_succeeded(3));
    assert!(!xr_succeeded(-1));
    assert_eq!(native_call_result(0), Ok(()));
    assert_eq!(
        native_call_result(-7),
        Err(TrackerError::NativeCallFailure { status: -7 })
    );
}

#[test]
fn capability_absent_fails_construction() {
    let r = check_capability(true, true, false);
    assert_eq!(r.unwrap_err(), TrackerError::CapabilityMissing);
}

#[test]
fn capability_present_fixes_the_mask() {
    let t = check_capability(true, true, true).unwrap();
    assert_eq!(t.mode_mask(), 0x2108);
    let t = check_capability(false, false, true).unwrap();
    assert_eq!(t.mode_mask(), 0x0);
}

#[test]
fn entry_point_symbols() {
    assert_eq!(EntryPointName::StartEyeTracking.symbol(), "xrStartEyeTrackingPICO");
    assert_eq!(EntryPointName::StopEyeTracking.symbol(), "xrStopEyeTrackingPICO");
    assert_eq!(EntryPointName::SetTrackingMode.symbol(), "xrSetTrackingModePICO");
    assert_eq!(EntryPointName::GetFaceTrackingData.symbol(), "xrGetFaceTrackingDataPICO");
}

#[test]
fn required_entry_points_in_resolution_order() {
    let v = token().required_entry_points();
    assert_eq!(
        v,
        vec![
            EntryPointName::StartEyeTracking,
            EntryPointName::StopEyeTracking,
            EntryPointName::SetTrackingMode,
            EntryPointName::GetFaceTrackingData,
        ]
    );
}

#[test]
fn any_single_unresolved_symbol_fails_construction() {
    let addr = Some(0x1000);
    let cases: [(Option<usize>, Option<usize>, Option<usize>, Option<usize>); 4] = [
        (None, addr, addr, addr),
        (addr, None, addr, addr),
        (addr, addr, None, addr),
        (addr, addr, addr, None),
    ];
    for (a, b, c, d) in cases {
        let r = FaceTrackerPico::new(token(), a, b, c, d);
        assert_eq!(r.unwrap_err(), TrackerError::EntryPointUnresolvable);
    }
}

#[test]
fn all_resolved_symbols_yield_a_tracker() {
    let r = FaceTrackerPico::new(token(), Some(1), Some(2), Some(3), Some(4));
    assert!(r.is_ok());
}

#[test]
fn start_issues_start_tracking_first() {
    let t = tracker();
    assert_eq!(t.start_face_tracking(), NativeCall::StartTracking { addr: 0x1000 });
}

#[test]
fn successful_start_proceeds_to_set_mode_with_the_mask() {
    let t = tracker();
    let c = t.start_face_tracking_after_start(0).unwrap();
    assert_eq!(c, NativeCall::SetTrackingMode { addr: 0x3000, mask: 0x8 });
    assert_eq!(t.start_face_tracking_after_set_mode(0), Ok(()));
}

#[test]
fn failed_start_short_circuits() {
    let t = tracker();
    let r = t.start_face_tracking_after_start(-2);
    assert_eq!(r.unwrap_err(), TrackerError::NativeCallFailure { status: -2 });
}

#[test]
fn failed_set_mode_surfaces_the_status() {
    let t = tracker();
    let r = t.start_face_tracking_after_set_mode(-9);
    assert_eq!(r.unwrap_err(), TrackerError::NativeCallFailure { status: -9 });
}

#[test]
fn stop_carries_the_constructed_mask() {
    let t = tracker();
    // Intervening polls do not disturb the mask.
    let _ = t.get_face_tracking_data(123);
    let _ = t.get_face_tracking_data(456);
    assert_eq!(
        t.stop_face_tracking(),
        NativeCall::StopTracking { addr: 0x2000, mask: compute(true, false) }
    );
    assert_eq!(t.stop_face_tracking_outcome(0), Ok(()));
    assert_eq!(
        t.stop_face_tracking_outcome(-4),
        Err(TrackerError::NativeCallFailure { status: -4 })
    );
}

#[test]
fn poll_builds_a_zeroed_record_each_time() {
    let t = tracker();
    let (c, record) = t.get_face_tracking_data(987654321);
    assert_eq!(
        c,
        NativeCall::GetFaceTrackingData { addr: 0x4000, time: 987654321, index: 0 }
    );
    assert_eq!(record.time, 0);
    assert_eq!(record.laughing_probability, 0);
    assert_eq!(record.blend_shape_weight, vec![0; BLEND_SHAPE_COUNT]);
    assert_eq!(record.is_video_input_valid, vec![0; VIDEO_INPUT_COUNT]);
    assert_eq!(record.emotion_probability, vec![0; EMOTION_COUNT]);
    assert_eq!(record.reserved, vec![0; RESERVED_COUNT]);
}

#[test]
fn poll_failure_surfaces_the_status() {
    let t = tracker();
    let record = filled_record(42);
    let r = t.get_face_tracking_data_outcome(-1, &record);
    assert_eq!(r.unwrap_err(), TrackerError::NativeCallFailure { status: -1 });
}

#[test]
fn poll_zero_timestamp_is_no_sample() {
    let t = tracker();
    let record = filled_record(0);
    let r = t.get_face_tracking_data_outcome(0, &record);
    assert_eq!(r, Ok(None));
}

#[test]
fn poll_fresh_sample_copies_the_weights_exactly() {
    let t = tracker();
    let record = filled_record(5_000_000);
    let r = t.get_face_tracking_data_outcome(0, &record).unwrap();
    let weights = r.expect("nonzero timestamp means a fresh sample");
    assert_eq!(weights.len(), PICO_FACE_EXPRESSION_COUNT);
    for i in 0..PICO_FACE_EXPRESSION_COUNT {
        assert_eq!(weights[i], record.blend_shape_weight[i]);
        // The bit patterns round-trip losslessly to the float values
        // the native record held.
        assert_eq!(f32::from_bits(weights[i]), 0.01 * i as f32);
    }
}

#[test]
fn poll_qualified_success_still_yields_the_sample() {
    // Positive status codes are qualified successes under the native
    // convention.
    let t = tracker();
    let record = filled_record(77);
    let r = t.get_face_tracking_data_outcome(3, &record);
    assert!(matches!(r, Ok(Some(_))));
}
