//! The error taxonomy of a chat session.
use vstd::prelude::*;

verus! {

/// What can go wrong in a chat session.
#[derive(Clone, Copy, Debug, PartialEq, Eq, Structural)]
pub enum ChatError {
    /// A payload is not the encoding of any message; the event is skipped.
    MalformedMessage,
    /// The transport could not broadcast a payload.
    BroadcastFailed,
    /// The input source reached its end; a normal way to stop.
    InputClosed,
    /// Reading the input source failed; the input side stops.
    InputIOError,
    /// The inbound event stream failed; the session stops.
    ReceiveFailed,
}

} // verus!
