//! The demo's error taxonomy.  Every failure is fatal: the host surfaces it
//! and stops; there is no retry policy.

use vstd::prelude::*;

verus! {

/// What can go wrong across one run of the demo.
#[derive(Clone, Copy, PartialEq, Eq, Structural, Debug)]
pub enum RenderError {
    /// No compatible graphics backend, adapter or device was found at
    /// startup; raised by the host.
    DeviceInitFailure,
    /// The next render target could not be acquired for a frame; raised by
    /// the host.
    BackendUnavailable,
    /// A non-positive viewport aspect ratio reached the transform builder.
    InvalidAspectRatio,
}

} // verus!
