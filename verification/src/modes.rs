//! Derivation of the tracking-mode bitmask from the two feature toggles.
//!
//! The mask is computed once, at construction of a tracker handle, and is
//! fixed for the handle's lifetime; the same value is later passed to the
//! native set-tracking-mode and stop-tracking calls.

use vstd::prelude::*;

verus! {

/// Mode bit requesting visual (camera-driven) blend-shape tracking.
pub const TRACKING_MODE_FACE_BIT: u64 = 0x0000_0008;

/// Mode bit requesting audio-driven lipsync tracking.
pub const TRACKING_MODE_LIPSYNC: u64 = 0x0000_2000;

/// Mode bit requesting audio-driven lipsync blend shapes.
pub const TRACKING_MODE_LIPSYNC_BLEND_SHAPES: u64 = 0x0000_0100;

/// The tracking-mode bitmask requested for a given pair of feature
/// toggles, as a truth table: visual tracking contributes the face bit,
/// audio tracking contributes both lipsync bits, and nothing else is ever
/// set.
pub open spec fn mode_mask_spec(visual: bool, audio: bool) -> u64 {
    if visual && audio {
        0x2108u64
    } else if visual {
        0x8u64
    } else if audio {
        0x2100u64
    } else {
        0u64
    }
}

/// Compute the tracking-mode bitmask for the requested feature toggles by
/// or-ing the corresponding mode bits together.
pub fn compute(visual: bool, audio: bool) -> (mask: u64)
    ensures
        mask == mode_mask_spec(visual, audio),
{
    let mut mask: u64 = 0;
    if visual {
        mask = mask | TRACKING_MODE_FACE_BIT;
    }
    if audio {
        mask = mask | TRACKING_MODE_LIPSYNC | TRACKING_MODE_LIPSYNC_BLEND_SHAPES;
    }
    proof {
        assert(0u64 | 0x8u64 == 0x8u64) by (bit_vector);
        assert(0u64 | 0x2000u64 | 0x100u64 == 0x2100u64) by (bit_vector);
        assert(0x8u64 | 0x2000u64 | 0x100u64 == 0x2108u64) by (bit_vector);
    }
    mask
}

} // verus!
