//! Error kinds of the tracking subsystem and the status-code convention
//! of the native calls.
//!
//! Every error is returned to the immediate caller; nothing is retried,
//! logged or swallowed. A poll that finds no fresh sample is not an
//! error and is represented as `None`, never as a `TrackerError`.

use vstd::prelude::*;

verus! {

/// A failure of the tracking subsystem.
#[derive(Clone, Copy, Debug, PartialEq, Eq, Structural)]
pub enum TrackerError {
    /// The prerequisite base eye/gaze tracking capability is not
    /// advertised by the host session. Raised only at construction.
    CapabilityMissing,
    /// At least one of the four required native symbols could not be
    /// resolved. Raised only at construction; no partially-usable
    /// tracker is ever returned.
    EntryPointUnresolvable,
    /// A native call returned a non-success status at runtime. Carries
    /// the underlying status code unchanged.
    NativeCallFailure { status: i32 },
}

/// Status-code convention of the native ABI: a non-negative status
/// reports success (including qualified successes), a negative status
/// reports failure.
pub open spec fn xr_succeeded_spec(status: i32) -> bool {
    status >= 0
}

/// Whether a native status code reports success.
pub fn xr_succeeded(status: i32) -> (r: bool)
    ensures
        r == xr_succeeded_spec(status),
{
    status >= 0
}

/// Fold a native status code into the subsystem's result type: success
/// becomes `Ok(())`, failure is surfaced unchanged as a
/// [`TrackerError::NativeCallFailure`] carrying the status code.
pub fn native_call_result(status: i32) -> (r: Result<(), TrackerError>)
    ensures
        xr_succeeded_spec(status) ==> r == Ok::<(), TrackerError>(()),
        !xr_succeeded_spec(status) ==> r == Err::<(), TrackerError>(
            TrackerError::NativeCallFailure { status },
        ),
{
    if status >= 0 {
        Ok(())
    } else {
        Err(TrackerError::NativeCallFailure { status })
    }
}

} // verus!
