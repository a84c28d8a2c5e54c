//! Reassembly of length-prefixed ISO 8583 messages from a TCP byte stream.
//!
//! The wire format is `[2 bytes length, big-endian][length bytes of body]`,
//! repeated back-to-back. Reads from the stream give no alignment guarantee,
//! so a chunk may hold part of a message, exactly one, or several. The
//! [`message_machine::StateMachine`] reassembles the exact sequence of
//! complete message bodies in arrival order; [`framing`] holds the
//! mathematical model it is verified against.

use vstd::prelude::*;

pub mod framing;
pub mod iso_message;
pub mod message_helpers;
pub mod message_machine;

pub use iso_message::IsoMessage;
pub use iso_message::IsoMessageTypes;
pub use message_machine::State;
pub use message_machine::StateMachine;

verus! {

/// Number of bytes in the length prefix that precedes every message body.
pub const LENGTH_PREFIX_SIZE: usize = 2;

/// How a `process` call or a message-type lookup can fail.
#[derive(Clone, Copy, Debug, PartialEq, Eq, Structural)]
pub enum ProtocolError {
    /// Fewer than two bytes were available where a length prefix was expected.
    MalformedLength,
    /// A body's leading four bytes match none of the known MTI codes.
    UnknownMessageType,
}

} // verus!
