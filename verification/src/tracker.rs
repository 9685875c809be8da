//! The face-tracker handle and its construction and lifecycle logic.
//!
//! Construction runs in two guarded steps. First the capability check
//! ([`check_capability`]) verifies that the host session advertises the
//! prerequisite base eye/gaze tracking capability; only its success
//! yields a [`CapabilityToken`], and the token is the sole way to learn
//! which entry points to resolve and to build a tracker, so no entry
//! point is ever resolved — and no native call ever issued — for a
//! session that failed the capability check. Second, [`FaceTrackerPico::new`]
//! consumes the token and the four resolution outcomes: all four symbols
//! must have resolved, or construction fails as a whole and no
//! partially-resolved handle exists.
//!
//! The native calls themselves are foreign calls through the resolved
//! addresses and are performed by an unverified driver. Each lifecycle
//! method here returns the one [`NativeCall`] to perform next, and each
//! `..._after_...` / `..._outcome` method interprets the status the
//! driver got back, so the fixed call order (start-tracking strictly
//! before set-tracking-mode, with a short-circuit on failure) is decided
//! entirely by verified code.

use vstd::prelude::*;

use crate::errors::{native_call_result, xr_succeeded, xr_succeeded_spec, TrackerError};
use crate::modes::{compute, mode_mask_spec};
use crate::record::{FaceTrackingRecord, PICO_FACE_EXPRESSION_COUNT};

verus! {

/// One of the four vendor entry points, resolved by symbolic name
/// against the owning instance at construction.
#[derive(Clone, Copy, Debug, PartialEq, Eq, Structural)]
pub enum EntryPointName {
    /// Starts the tracking session.
    StartEyeTracking,
    /// Stops the tracking session.
    StopEyeTracking,
    /// Selects the tracking sub-modes of a started session.
    SetTrackingMode,
    /// Retrieves one face-tracking sample.
    GetFaceTrackingData,
}

impl EntryPointName {
    /// The symbolic name under which this entry point is resolved.
    pub open spec fn symbol_spec(self) -> Seq<char> {
        match self {
            EntryPointName::StartEyeTracking => "xrStartEyeTrackingPICO"@,
            EntryPointName::StopEyeTracking => "xrStopEyeTrackingPICO"@,
            EntryPointName::SetTrackingMode => "xrSetTrackingModePICO"@,
            EntryPointName::GetFaceTrackingData => "xrGetFaceTrackingDataPICO"@,
        }
    }

    /// The symbolic name under which this entry point is resolved.
    pub fn symbol(self) -> (s: &'static str)
        ensures
            s@ == self.symbol_spec(),
    {
        match self {
            EntryPointName::StartEyeTracking => "xrStartEyeTrackingPICO",
            EntryPointName::StopEyeTracking => "xrStopEyeTrackingPICO",
            EntryPointName::SetTrackingMode => "xrSetTrackingModePICO",
            EntryPointName::GetFaceTrackingData => "xrGetFaceTrackingDataPICO",
        }
    }
}

/// Evidence that the capability check passed for a session, carrying the
/// tracking-mode bitmask computed from the feature toggles given to the
/// check. A token can only be obtained from [`check_capability`], and
/// [`FaceTrackerPico::new`] demands one, so entry-point resolution is
/// only ever reached after a successful capability check.
#[derive(Clone, Copy, Debug)]
pub struct CapabilityToken {
    mask: u64,
}

impl CapabilityToken {
    /// The tracking-mode bitmask computed when the capability check passed.
    pub closed spec fn mask(self) -> u64 {
        self.mask
    }

    /// The tracking-mode bitmask computed when the capability check passed.
    pub fn mode_mask(&self) -> (m: u64)
        ensures
            m == self.mask(),
    {
        self.mask
    }

    /// The fixed list of the four entry points to resolve, in resolution
    /// order.
    pub fn required_entry_points(&self) -> (v: Vec<EntryPointName>)
        ensures
            v@ == seq![
                EntryPointName::StartEyeTracking,
                EntryPointName::StopEyeTracking,
                EntryPointName::SetTrackingMode,
                EntryPointName::GetFaceTrackingData,
            ],
    {
        let mut v: Vec<EntryPointName> = Vec::new();
        v.push(EntryPointName::StartEyeTracking);
        v.push(EntryPointName::StopEyeTracking);
        v.push(EntryPointName::SetTrackingMode);
        v.push(EntryPointName::GetFaceTrackingData);
        proof {
            assert(v@ =~= seq![
                EntryPointName::StartEyeTracking,
                EntryPointName::StopEyeTracking,
                EntryPointName::SetTrackingMode,
                EntryPointName::GetFaceTrackingData,
            ]);
        }
        v
    }
}

/// The capability check. It must run before any entry-point resolution:
/// if the base capability is absent it fails with
/// [`TrackerError::CapabilityMissing`] and yields no token, so no
/// resolution or other native call can be attempted for the session. On
/// success the returned token fixes the tracking-mode bitmask for the
/// lifetime of the handle built from it.
pub fn check_capability(visual: bool, audio: bool, supported: bool) -> (r: Result<
    CapabilityToken,
    TrackerError,
>)
    ensures
        supported ==> (r matches Ok(t) && t.mask() == mode_mask_spec(visual, audio)),
        !supported ==> r == Err::<CapabilityToken, TrackerError>(TrackerError::CapabilityMissing),
{
    if supported {
        Ok(CapabilityToken { mask: compute(visual, audio) })
    } else {
        Err(TrackerError::CapabilityMissing)
    }
}

/// One native call for the unverified driver to perform. Each variant
/// carries the resolved address of the entry point to call and the
/// arguments beyond the session handle, which the driver owns.
#[derive(Clone, Copy, Debug, PartialEq, Eq, Structural)]
pub enum NativeCall {
    /// Call start-tracking with the session handle.
    StartTracking { addr: usize },
    /// Call set-tracking-mode with the session handle and the mask.
    SetTrackingMode { addr: usize, mask: u64 },
    /// Call stop-tracking with the session handle and the mask.
    StopTracking { addr: usize, mask: u64 },
    /// Call get-face-tracking-data with the session handle, the
    /// requested timestamp, the reserved index (always zero), and a
    /// pointer to a zeroed record.
    GetFaceTrackingData { addr: usize, time: i64, index: i32 },
}

/// A fully-resolved face-tracker handle: the four resolved entry-point
/// addresses and the tracking-mode bitmask fixed at construction. The
/// handle is never observable partially resolved — [`FaceTrackerPico::new`]
/// either resolves all four entry points or returns an error and no
/// handle. No method takes `&mut self`: the mask and the addresses are
/// immutable for the handle's lifetime, so no sequence of polls or
/// lifecycle calls can alter the mask later passed to stop-tracking.
///
/// The unverified driver owns the session handle alongside this value;
/// the handle must be dropped no later than the session it was built
/// for. Release is implicit in dropping — the native surface has no
/// explicit destroy call, so none is modeled.
#[derive(Clone, Copy, Debug)]
pub struct FaceTrackerPico {
    mask: u64,
    start_eye_tracking: usize,
    stop_eye_tracking: usize,
    set_tracking_mode: usize,
    get_face_tracking_data: usize,
}

impl FaceTrackerPico {
    /// The tracking-mode bitmask fixed at construction.
    pub closed spec fn mode_mask(self) -> u64 {
        self.mask
    }

    /// Resolved address of the start-tracking entry point.
    pub closed spec fn start_addr(self) -> usize {
        self.start_eye_tracking
    }

    /// Resolved address of the stop-tracking entry point.
    pub closed spec fn stop_addr(self) -> usize {
        self.stop_eye_tracking
    }

    /// Resolved address of the set-tracking-mode entry point.
    pub closed spec fn set_mode_addr(self) -> usize {
        self.set_tracking_mode
    }

    /// Resolved address of the get-face-tracking-data entry point.
    pub closed spec fn get_data_addr(self) -> usize {
        self.get_face_tracking_data
    }

    /// What construction yields for a capability token and the four
    /// resolution outcomes: a handle holding every resolved address and
    /// the token's mask if all four symbols resolved, and
    /// [`TrackerError::EntryPointUnresolvable`] otherwise.
    pub closed spec fn new_spec(
        token: CapabilityToken,
        start: Option<usize>,
        stop: Option<usize>,
        set_mode: Option<usize>,
        get_data: Option<usize>,
    ) -> Result<FaceTrackerPico, TrackerError> {
        if start is Some && stop is Some && set_mode is Some && get_data is Some {
            Ok(
                FaceTrackerPico {
                    mask: token.mask(),
                    start_eye_tracking: start->0,
                    stop_eye_tracking: stop->0,
                    set_tracking_mode: set_mode->0,
                    get_face_tracking_data: get_data->0,
                },
            )
        } else {
            Err(TrackerError::EntryPointUnresolvable)
        }
    }

    /// Assemble a tracker handle from a passed capability check and the
    /// four entry-point resolution outcomes (`None` where the symbol did
    /// not resolve). Resolution of all four is required: if any one
    /// symbol failed to resolve, construction fails as a whole with
    /// [`TrackerError::EntryPointUnresolvable`], regardless of the other
    /// three, and no handle exists.
    pub fn new(
        token: CapabilityToken,
        start_eye_tracking: Option<usize>,
        stop_eye_tracking: Option<usize>,
        set_tracking_mode: Option<usize>,
        get_face_tracking_data: Option<usize>,
    ) -> (r: Result<FaceTrackerPico, TrackerError>)
        ensures
            r == Self::new_spec(
                token,
                start_eye_tracking,
                stop_eye_tracking,
                set_tracking_mode,
                get_face_tracking_data,
            ),
            (start_eye_tracking is Some && stop_eye_tracking is Some && set_tracking_mode is Some
                && get_face_tracking_data is Some) ==> (r matches Ok(t) && t.mode_mask()
                == token.mask() && t.start_addr() == start_eye_tracking->0 && t.stop_addr()
                == stop_eye_tracking->0 && t.set_mode_addr() == set_tracking_mode->0
                && t.get_data_addr() == get_face_tracking_data->0),
            !(start_eye_tracking is Some && stop_eye_tracking is Some && set_tracking_mode is Some
                && get_face_tracking_data is Some) ==> r == Err::<FaceTrackerPico, TrackerError>(
                TrackerError::EntryPointUnresolvable,
            ),
    {
        match (start_eye_tracking, stop_eye_tracking, set_tracking_mode, get_face_tracking_data) {
            (Some(start), Some(stop), Some(set_mode), Some(get_data)) => Ok(
                FaceTrackerPico {
                    mask: token.mode_mask(),
                    start_eye_tracking: start,
                    stop_eye_tracking: stop,
                    set_tracking_mode: set_mode,
                    get_face_tracking_data: get_data,
                },
            ),
            _ => Err(TrackerError::EntryPointUnresolvable),
        }
    }

    /// The first native call of the start lifecycle.
    pub closed spec fn start_call_spec(self) -> NativeCall {
        NativeCall::StartTracking { addr: self.start_eye_tracking }
    }

    /// The step after the start-tracking call returned: on success the
    /// set-tracking-mode call with the stored mask, on failure the error
    /// and no further call.
    pub closed spec fn after_start_spec(self, status: i32) -> Result<NativeCall, TrackerError> {
        if xr_succeeded_spec(status) {
            Ok(NativeCall::SetTrackingMode { addr: self.set_tracking_mode, mask: self.mask })
        } else {
            Err(TrackerError::NativeCallFailure { status })
        }
    }

    /// The one native call of the stop lifecycle.
    pub closed spec fn stop_call_spec(self) -> NativeCall {
        NativeCall::StopTracking { addr: self.stop_eye_tracking, mask: self.mask }
    }

    /// Begin the start lifecycle: the native call to perform first is
    /// always start-tracking; set-tracking-mode is never issued before
    /// its status has been seen by
    /// [`FaceTrackerPico::start_face_tracking_after_start`].
    pub fn start_face_tracking(&self) -> (c: NativeCall)
        ensures
            c == self.start_call_spec(),
            c == (NativeCall::StartTracking { addr: self.start_addr() }),
    {
        NativeCall::StartTracking { addr: self.start_eye_tracking }
    }

    /// Continue the start lifecycle with the status the start-tracking
    /// call returned. Only a success proceeds to the set-tracking-mode
    /// call, with the exact mask stored at construction; a failure
    /// short-circuits, surfaces the status unchanged, and issues no
    /// further call — the session is then not confirmed started, and the
    /// caller must treat it as "tracking is not active". The handle
    /// itself keeps no lifecycle state, so after a failure the caller
    /// may deliberately retry by beginning the start lifecycle again
    /// with the same handle.
    pub fn start_face_tracking_after_start(&self, status: i32) -> (r: Result<
        NativeCall,
        TrackerError,
    >)
        ensures
            r == self.after_start_spec(status),
            xr_succeeded_spec(status) ==> r == Ok::<NativeCall, TrackerError>(
                NativeCall::SetTrackingMode { addr: self.set_mode_addr(), mask: self.mode_mask() },
            ),
            !xr_succeeded_spec(status) ==> r == Err::<NativeCall, TrackerError>(
                TrackerError::NativeCallFailure { status },
            ),
    {
        if xr_succeeded(status) {
            Ok(NativeCall::SetTrackingMode { addr: self.set_tracking_mode, mask: self.mask })
        } else {
            Err(TrackerError::NativeCallFailure { status })
        }
    }

    /// Finish the start lifecycle with the status the set-tracking-mode
    /// call returned: success completes the start, a failure is surfaced
    /// unchanged.
    pub fn start_face_tracking_after_set_mode(&self, status: i32) -> (r: Result<(), TrackerError>)
        ensures
            xr_succeeded_spec(status) ==> r == Ok::<(), TrackerError>(()),
            !xr_succeeded_spec(status) ==> r == Err::<(), TrackerError>(
                TrackerError::NativeCallFailure { status },
            ),
    {
        native_call_result(status)
    }

    /// The stop lifecycle: one stop-tracking call, carrying the very
    /// mask that was computed at construction — unchanged by any
    /// intervening poll or lifecycle call, since nothing ever mutates
    /// the handle.
    pub fn stop_face_tracking(&self) -> (c: NativeCall)
        ensures
            c == self.stop_call_spec(),
            c == (NativeCall::StopTracking { addr: self.stop_addr(), mask: self.mode_mask() }),
    {
        NativeCall::StopTracking { addr: self.stop_eye_tracking, mask: self.mask }
    }

    /// Finish the stop lifecycle with the status the stop-tracking call
    /// returned: a failure is surfaced unchanged, and is not retried.
    pub fn stop_face_tracking_outcome(&self, status: i32) -> (r: Result<(), TrackerError>)
        ensures
            xr_succeeded_spec(status) ==> r == Ok::<(), TrackerError>(()),
            !xr_succeeded_spec(status) ==> r == Err::<(), TrackerError>(
                TrackerError::NativeCallFailure { status },
            ),
    {
        native_call_result(status)
    }

    /// Begin a poll for the sample at `time`: the native call to perform
    /// (with the reserved index fixed at zero) together with the fresh,
    /// fully zeroed record the call must be given to fill. A zeroed
    /// record is built for every poll and never reused, so a stale
    /// timestamp from an earlier poll can never be misread as a fresh
    /// sample.
    pub fn get_face_tracking_data(&self, time: i64) -> (r: (NativeCall, FaceTrackingRecord))
        ensures
            r.0 == (NativeCall::GetFaceTrackingData { addr: self.get_data_addr(), time, index: 0 }),
            r.1.wf(),
            r.1.is_zeroed(),
    {
        (
            NativeCall::GetFaceTrackingData { addr: self.get_face_tracking_data, time, index: 0 },
            FaceTrackingRecord::zeroed(),
        )
    }

    /// Finish a poll with the status the get-face-tracking-data call
    /// returned and the record it filled. A failing status is surfaced
    /// unchanged. On success, a record timestamp of exactly zero is the
    /// vendor's sentinel for "no fresh sample at or before the requested
    /// time" and yields `None` — a normal, frequent outcome, not an
    /// error. A nonzero timestamp yields the leading
    /// [`PICO_FACE_EXPRESSION_COUNT`] blend-shape weights, copied
    /// bit-for-bit out of the record into an owned sequence.
    pub fn get_face_tracking_data_outcome(&self, status: i32, record: &FaceTrackingRecord) -> (r:
        Result<Option<Vec<u32>>, TrackerError>)
        requires
            record.wf(),
        ensures
            !xr_succeeded_spec(status) ==> r == Err::<Option<Vec<u32>>, TrackerError>(
                TrackerError::NativeCallFailure { status },
            ),
            xr_succeeded_spec(status) && record.time == 0 ==> r == Ok::<
                Option<Vec<u32>>,
                TrackerError,
            >(None),
            xr_succeeded_spec(status) && record.time != 0 ==> (r matches Ok(w) && w matches Some(
                weights,
            ) && weights@ == record.blend_shape_weight@.subrange(
                0,
                PICO_FACE_EXPRESSION_COUNT as int,
            )),
    {
        if !xr_succeeded(status) {
            return Err(TrackerError::NativeCallFailure { status });
        }
        if record.time != 0 {
            let mut weights: Vec<u32> = Vec::new();
            let mut i: usize = 0;
            while i < PICO_FACE_EXPRESSION_COUNT
                invariant
                    i <= PICO_FACE_EXPRESSION_COUNT,
                    record.wf(),
                    weights@ =~= record.blend_shape_weight@.subrange(0, i as int),
                decreases PICO_FACE_EXPRESSION_COUNT - i,
            {
                weights.push(record.blend_shape_weight[i]);
                i = i + 1;
                proof {
                    assert(weights@ =~= record.blend_shape_weight@.subrange(0, i as int));
                }
            }
            Ok(Some(weights))
        } else {
            Ok(None)
        }
    }
}

/// Law: the start lifecycle is ordered and short-circuits. Its first
/// native call is always start-tracking; a set-tracking-mode call can
/// only arise from a success status of the start-tracking call, and it
/// then carries the mask fixed at construction; a failure status yields
/// the failure itself, unchanged, and no further call.
pub proof fn lemma_start_short_circuit(t: FaceTrackerPico, status: i32)
    ensures
        t.start_call_spec() matches NativeCall::StartTracking { .. },
        t.after_start_spec(status) is Ok ==> xr_succeeded_spec(status),
        t.after_start_spec(status) matches Ok(c) ==> (c matches NativeCall::SetTrackingMode {
            mask,
            ..
        } && mask == t.mode_mask()),
        !xr_succeeded_spec(status) ==> t.after_start_spec(status) == Err::<
            NativeCall,
            TrackerError,
        >(TrackerError::NativeCallFailure { status }),
{
}

/// Law: the stop-tracking call of every handle carries exactly the
/// bitmask that was computed from the feature toggles when the
/// capability check passed at construction time.
pub proof fn lemma_stop_uses_constructed_mask(
    visual: bool,
    audio: bool,
    token: CapabilityToken,
    start: usize,
    stop: usize,
    set_mode: usize,
    get_data: usize,
    t: FaceTrackerPico,
)
    requires
        token.mask() == mode_mask_spec(visual, audio),
        FaceTrackerPico::new_spec(token, Some(start), Some(stop), Some(set_mode), Some(get_data))
            == Ok::<FaceTrackerPico, TrackerError>(t),
    ensures
        t.stop_call_spec() == (NativeCall::StopTracking {
            addr: stop,
            mask: mode_mask_spec(visual, audio),
        }),
{
}

} // verus!
