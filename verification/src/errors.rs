//! The error taxonomy of the client core.

use vstd::prelude::*;
use crate::frame::Frame;

verus! {

/// Every way a protocol operation or the connection itself can fail.
///
/// `TransportError` and `UnexpectedConnectionClose` are fatal to the whole
/// connection; `UnexpectedFrame` is fatal only to the operation that was
/// waiting; `HandshakeFailed` ends connection establishment; and
/// `ProtocolViolation` reports a frame addressed to a channel id with no
/// registered channel.
#[derive(Clone, Debug, PartialEq)]
pub enum Error {
    /// The underlying byte transport failed.
    TransportError,
    /// The inbound stream ended while a frame was still awaited.
    UnexpectedConnectionClose,
    /// A handshake stage saw a method other than the one it expected.
    HandshakeFailed,
    /// A strict wait received a non-matching frame: what was expected, and
    /// the frame that was found.
    UnexpectedFrame(String, Frame),
    /// A frame arrived for a channel id that no channel owns.
    ProtocolViolation(u16),
}

} // verus!
