//! Typed integration of a vendor-specific facial-expression-tracking
//! extension into an OpenXR client.
//!
//! The library models the decision logic of the integration: capability
//! negotiation, all-or-nothing resolution of the four vendor entry points,
//! derivation of the tracking-mode bitmask, the fixed order of the native
//! calls in the start/stop lifecycle, and interpretation of the per-frame
//! sample record (including the zero-timestamp "no fresh sample" sentinel).
//!
//! The native calls themselves are foreign calls through dynamically
//! resolved function pointers; they cannot be made from verified code, so
//! every function here is a pure step: it hands the caller the next
//! [`tracker::NativeCall`] to perform and interprets the status code and
//! record the caller got back. A thin unverified driver owns the session
//! and the typed pointers and performs the calls in the order the library
//! dictates.

pub mod capability;
pub mod errors;
pub mod modes;
pub mod record;
pub mod tracker;

pub use modes::compute;
