//! Error kinds of the library.

use vstd::prelude::*;

verus! {

/// Errors of the frame codec.
#[derive(Debug, Clone, Copy, PartialEq, Eq, Structural)]
pub enum FrameError {
    /// Fewer bytes than a frame header.
    TooShort(usize),
    /// The declared payload length exceeds the largest frame.
    TooLarge { size: usize, max: usize },
    /// The frame is not yet fully buffered.
    Incomplete { expected: usize, got: usize },
}

/// Errors of the library's operations.
///
/// A device that rejected a command (`Protocol`), a device that never
/// answered (`Timeout`) and a local precondition that failed
/// (`InvalidCoordinates`, `InvalidPublicKey`) are told apart by kind.
#[derive(Debug, Clone)]
pub enum Error {
    /// The transport failed; the connection is lost.
    Transport { message: String },
    /// A frame could not be decoded.
    Frame(FrameError),
    /// The device answered with an error, or with an unexpected response.
    Protocol { message: String },
    /// No matching response arrived within the bound.
    Timeout { timeout_ms: u64 },
    /// There is no live transport.
    NotConnected,
    /// A public key could not be parsed.
    InvalidPublicKey { reason: String },
    /// Coordinates outside the valid range.
    InvalidCoordinates { reason: String },
    /// An event could not be handed on.
    ChannelSend,
    /// The event channel was closed.
    ChannelClosed,
}

} // verus!
