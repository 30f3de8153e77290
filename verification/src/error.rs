//! The errors of the relay.

use vstd::prelude::*;

verus! {

/// What is wrong with a frame: the header declares no payload, or more than
/// the relay takes.
#[derive(Debug, Clone, Copy, PartialEq, Eq, Hash, Structural)]
pub enum FrameFault {
    /// The declared payload length is zero or negative.
    BelowZero,
    /// The declared payload length reaches the cap, or the type code names
    /// no packet type.
    TooLong,
    /// The bytes end before the frame does.
    Incomplete,
}

/// An error of the receive stage.
#[derive(Debug)]
pub enum ReceiverError {
    /// The frame is not accepted; the text says why.
    InvalidInput(String),
}

/// An error of the bot module.
#[derive(Debug, Clone, Copy)]
pub enum BasicDummyError {
    /// The bot could not join the relay; the text says why.
    JoinRelayError(&'static str),
}

/// An error of a connection.
#[derive(Debug)]
pub enum ConnectionError {
    /// The processor stage takes no more packets: the packet of the
    /// connection that could not be handed on.
    TypeError(u64, crate::packet::Packet),
}

/// The text of the error that rejects a frame for a length of zero or less.
pub const BELOW_ZERO: &'static str = "packet length below zero";

/// The text of the error that rejects a frame for its length or its type.
pub const TOO_LONG: &'static str = "packet length too long";

/// The text of the error that rejects a frame that ends too early.
pub const INCOMPLETE: &'static str = "unexpected end of frame";

impl FrameFault {
    /// The text that says what is wrong.
    pub open spec fn spec_text(self) -> Seq<char> {
        match self {
            FrameFault::BelowZero => BELOW_ZERO@,
            FrameFault::TooLong => TOO_LONG@,
            FrameFault::Incomplete => INCOMPLETE@,
        }
    }

    /// The error of the receive stage for this fault.
    pub fn into_error(self) -> (error: ReceiverError)
        ensures
            error.spec_message() == self.spec_text(),
    {
        match self {
            FrameFault::BelowZero => ReceiverError::InvalidInput(BELOW_ZERO.to_owned()),
            FrameFault::TooLong => ReceiverError::InvalidInput(TOO_LONG.to_owned()),
            FrameFault::Incomplete => ReceiverError::InvalidInput(INCOMPLETE.to_owned()),
        }
    }
}

impl ReceiverError {
    /// The text of the error.
    pub open spec fn spec_message(self) -> Seq<char> {
        match self {
            ReceiverError::InvalidInput(text) => text@,
        }
    }

    /// The text of the error.
    pub fn message(&self) -> (text: String)
        ensures
            text@ == self.spec_message(),
    {
        match self {
            ReceiverError::InvalidInput(text) => text.clone(),
        }
    }
}

impl BasicDummyError {
    /// The reason that the error carries.
    pub fn reason(&self) -> (text: &'static str)
        ensures
            self matches BasicDummyError::JoinRelayError(reason) && text@ == reason@,
    {
        match self {
            BasicDummyError::JoinRelayError(reason) => reason,
        }
    }
}

} // verus!
