//! Error categories surfaced by the capture facade.

use vstd::prelude::*;

verus! {

/// The errors a capture operation can surface.
///
/// Each variant carries a human-readable description of the failure.
#[derive(Debug, Clone, PartialEq, Eq)]
pub enum NokhwaError {
    /// Opening a device for a network address failed (malformed address or
    /// failed connection attempt).
    OpenDeviceError(String),
    /// Starting active frame delivery failed.
    OpenStreamError(String),
    /// Stopping active frame delivery failed.
    StreamShutdownError(String),
    /// Reading or decoding a frame failed, or an upload was rejected before
    /// any texture was allocated.
    ReadFrameError(String),
    /// A frame could not be processed, e.g. the caller's buffer is too small
    /// to receive it.
    ProcessFrameError(String),
    /// The requested capability is not supported for this device.
    NotImplementedError(String),
}

impl NokhwaError {
    /// The description carried by the error.
    pub fn message(&self) -> (r: &str)
        ensures
            r@ == self.spec_message(),
    {
        match self {
            NokhwaError::OpenDeviceError(m) => m.as_str(),
            NokhwaError::OpenStreamError(m) => m.as_str(),
            NokhwaError::StreamShutdownError(m) => m.as_str(),
            NokhwaError::ReadFrameError(m) => m.as_str(),
            NokhwaError::ProcessFrameError(m) => m.as_str(),
            NokhwaError::NotImplementedError(m) => m.as_str(),
        }
    }

    /// The description carried by the error, at the specification level.
    pub open spec fn spec_message(&self) -> Seq<char> {
        match self {
            NokhwaError::OpenDeviceError(m) => m@,
            NokhwaError::OpenStreamError(m) => m@,
            NokhwaError::StreamShutdownError(m) => m@,
            NokhwaError::ReadFrameError(m) => m@,
            NokhwaError::ProcessFrameError(m) => m@,
            NokhwaError::NotImplementedError(m) => m@,
        }
    }
}

} // verus!
