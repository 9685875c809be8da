//! The capability check run against a live OpenXR session.
//!
//! The only fact the check needs from the session is whether the instance
//! it descends from was created with the base eye-gaze-interaction
//! extension enabled. That one read crosses into the `openxr` crate and
//! is trusted; everything decided from it is verified in
//! [`crate::tracker::check_capability`].

use vstd::prelude::*;

use crate::errors::TrackerError;
use crate::modes::mode_mask_spec;
use crate::tracker::{check_capability, CapabilityToken};

verus! {

#[verifier::external_type_specification]
#[verifier::external_body]
#[verifier::reject_recursive_types(G)]
pub struct ExSession<G>(openxr::Session<G>);

#[verifier::external_type_specification]
#[verifier::external_body]
pub struct ExAnyGraphics(openxr::AnyGraphics);

/// Relies on `openxr::Session::instance`, `openxr::Instance::exts` and
/// the `ext_eye_gaze_interaction` field of `openxr::InstanceExtensions`:
/// whether the instance the session descends from was created with the
/// base eye-gaze-interaction extension enabled. The value is immutable
/// state recorded at instance creation; nothing further is promised of
/// it.
#[verifier::external_body]
fn eye_gaze_supported(session: &openxr::Session<openxr::AnyGraphics>) -> bool {
    session.instance().exts().ext_eye_gaze_interaction.is_some()
}

/// The capability check applied to a live session: verifies that the host
/// instance advertises the prerequisite base eye/gaze tracking
/// capability, before any entry-point resolution. Whatever the session
/// reports, the outcome is exact: a token carrying the mask computed
/// from the feature toggles where the capability is advertised, and
/// [`TrackerError::CapabilityMissing`] — never any other error — where
/// it is not.
pub fn check_session_capability(
    session: &openxr::Session<openxr::AnyGraphics>,
    visual: bool,
    audio: bool,
) -> (r: Result<CapabilityToken, TrackerError>)
    ensures
        r matches Ok(t) ==> t.mask() == mode_mask_spec(visual, audio),
        r matches Err(e) ==> e == TrackerError::CapabilityMissing,
{
    let supported = eye_gaze_supported(session);
    check_capability(visual, audio, supported)
}

} // verus!
