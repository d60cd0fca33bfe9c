//! Error taxonomy of the core.
//!
//! Setup failures are fatal: no partially usable pipeline is left behind.
//! An upload with a snapshot of the wrong length is a contract violation and
//! is rejected before any device-facing work would happen. Transient device
//! errors (device lost, out of memory) are outside this core's contract and
//! are the host's to handle.

use vstd::prelude::*;

verus! {

/// A fatal error during one-time setup. No GPU resource may be created once
/// setup has reported one of these.
#[derive(Clone, Copy, PartialEq, Eq, Structural, Debug)]
pub enum SetupError {
    /// The requested site count was zero: there is nothing to animate and no
    /// buffer contents to define.
    NoSites,
    /// The requested multisample count is not one the pipeline supports
    /// (no antialiasing, or four samples per pixel).
    UnsupportedSampleCount,
    /// A buffer of the requested site count would exceed the binding size
    /// limit of the chosen buffer kind.
    BufferTooLarge,
}

/// Rejection of a per-frame buffer upload, raised before anything reaches
/// the device queue.
#[derive(Clone, Copy, PartialEq, Eq, Structural, Debug)]
pub enum UploadError {
    /// The snapshot does not hold exactly one record per site of the store;
    /// writing it would silently truncate or corrupt the device buffer.
    LengthMismatch { expected: usize, actual: usize },
}

} // verus!
