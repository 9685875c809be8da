//! The per-poll face-tracking sample record.
//!
//! The native get-face-tracking-data call fills a fixed-layout binary
//! record. This module models that record as plain values: the 64-bit
//! timestamp and, for each 32-bit float field, its raw bit pattern as a
//! `u32`. Carrying bit patterns instead of floats keeps the copy across
//! the boundary exact (bit-for-bit, including any non-finite values); the
//! unverified driver converts with the standard float/bits round trip,
//! which is lossless.
//!
//! A record is built zero-initialized on every poll and never reused: the
//! native call may write only part of it, and a stale nonzero timestamp
//! left over from an earlier call would be misread as a fresh sample.

use vstd::prelude::*;

verus! {

/// Number of blend-shape weight entries in the native record.
pub const BLEND_SHAPE_COUNT: usize = 72;

/// Number of video-input-validity entries in the native record.
pub const VIDEO_INPUT_COUNT: usize = 10;

/// Number of emotion-probability entries in the native record.
pub const EMOTION_COUNT: usize = 10;

/// Number of reserved entries in the native record. They must be
/// allocated so the native call has the full record to write into, but
/// their contents are never interpreted.
pub const RESERVED_COUNT: usize = 128;

/// Number of meaningful expression channels returned by a poll. The
/// native record carries [`BLEND_SHAPE_COUNT`] weights, but only this
/// leading subrange holds defined expression channels; a successful poll
/// deliberately truncates to it rather than returning the raw buffer.
pub const PICO_FACE_EXPRESSION_COUNT: usize = 52;

/// Mirror of the fixed-layout record filled by the native
/// get-face-tracking-data call, field for field and in field order, with
/// every 32-bit float carried as its raw bit pattern.
pub struct FaceTrackingRecord {
    /// Timestamp of the sample; exactly zero is the vendor's sentinel
    /// for "no fresh sample at or before the requested time".
    pub time: i64,
    /// Blend-shape weights, [`BLEND_SHAPE_COUNT`] entries.
    pub blend_shape_weight: Vec<u32>,
    /// Video-input validity, [`VIDEO_INPUT_COUNT`] entries.
    pub is_video_input_valid: Vec<u32>,
    /// Laughing probability scalar.
    pub laughing_probability: u32,
    /// Emotion probabilities, [`EMOTION_COUNT`] entries.
    pub emotion_probability: Vec<u32>,
    /// Reserved tail, [`RESERVED_COUNT`] entries, never interpreted.
    pub reserved: Vec<u32>,
}

impl FaceTrackingRecord {
    /// The record has exactly the field sizes of the native layout.
    pub open spec fn wf(self) -> bool {
        &&& self.blend_shape_weight@.len() == BLEND_SHAPE_COUNT
        &&& self.is_video_input_valid@.len() == VIDEO_INPUT_COUNT
        &&& self.emotion_probability@.len() == EMOTION_COUNT
        &&& self.reserved@.len() == RESERVED_COUNT
    }

    /// Every field of the record, the timestamp included, is zero.
    pub open spec fn is_zeroed(self) -> bool {
        &&& self.time == 0
        &&& self.laughing_probability == 0
        &&& forall|i: int|
            0 <= i < self.blend_shape_weight@.len() ==> self.blend_shape_weight@[i] == 0
        &&& forall|i: int|
            0 <= i < self.is_video_input_valid@.len() ==> self.is_video_input_valid@[i] == 0
        &&& forall|i: int|
            0 <= i < self.emotion_probability@.len() ==> self.emotion_probability@[i] == 0
        &&& forall|i: int| 0 <= i < self.reserved@.len() ==> self.reserved@[i] == 0
    }

    /// Build a fresh, fully zero-initialized record with the exact field
    /// sizes of the native layout.
    pub fn zeroed() -> (r: FaceTrackingRecord)
        ensures
            r.wf(),
            r.is_zeroed(),
    {
        FaceTrackingRecord {
            time: 0,
            blend_shape_weight: zero_entries(BLEND_SHAPE_COUNT),
            is_video_input_valid: zero_entries(VIDEO_INPUT_COUNT),
            laughing_probability: 0,
            emotion_probability: zero_entries(EMOTION_COUNT),
            reserved: zero_entries(RESERVED_COUNT),
        }
    }
}

/// A vector of `n` zero entries.
fn zero_entries(n: usize) -> (v: Vec<u32>)
    ensures
        v@.len() == n,
        forall|i: int| 0 <= i < v@.len() ==> v@[i] == 0,
{
    let mut v: Vec<u32> = Vec::new();
    let mut i: usize = 0;
    while i < n
        invariant
            i <= n,
            v@.len() == i,
            forall|j: int| 0 <= j < v@.len() ==> v@[j] == 0,
        decreases n - i,
    {
        v.push(0);
        i = i + 1;
    }
    v
}

} // verus!
