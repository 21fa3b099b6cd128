//! The failures that the client reports to its caller.

use vstd::prelude::*;

verus! {

/// What the message codec found wrong with a message or a datagram.
#[derive(Debug, Clone, Copy, PartialEq, Eq, Structural)]
pub enum CodecError {
    /// Fewer than the four bytes of a header.
    InvalidHeader,
    /// The message does not fit into one datagram.
    InvalidPacketLength,
    /// The token is longer than the protocol allows, or runs past the end.
    InvalidTokenLength,
    /// An option number that cannot be represented.
    InvalidOptionDelta,
    /// An option whose length cannot be represented or runs past the end.
    InvalidOptionLength,
}

/// A failure of the channel below the client, as the channel's owner numbers it.
#[derive(Debug, Clone, Copy, PartialEq, Eq, Structural)]
pub struct TransportError {
    pub code: i32,
}

/// Every failure is handed to the caller; nothing is retried here.
#[derive(Debug, Clone, Copy, PartialEq, Eq, Structural)]
pub enum Error {
    /// The request could not be put into a datagram and was not sent.
    Encoding(CodecError),
    /// A received datagram is not a well-formed message.
    Decoding(CodecError),
    /// No matching response arrived before the deadline.
    Timeout,
    /// The channel failed while sending or receiving.
    Transport(TransportError),
    /// The payload of the response does not have the shape the caller expects.
    Deserialization,
}

} // verus!
