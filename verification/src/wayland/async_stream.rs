//! The decisions of an asynchronous stream of input method events.
use vstd::prelude::*;

use crate::types::InputMethodEvent;

verus! {

/// What a stream learns while it is polled
#[derive(Debug)]
pub enum StreamInput {
    /// The input method was asked for its next event
    Event(Option<InputMethodEvent>),
    /// The connection can be read
    Readable,
    /// The connection cannot be watched any more
    Failed,
    /// The connection cannot be read yet
    NotReadable,
}

/// What a stream does next
#[derive(Debug)]
pub enum StreamStep {
    /// Yield an event
    Yield(InputMethodEvent),
    /// Ask whether the connection can be read
    PollReadable,
    /// Ask the input method for its next event
    AskEvent,
    /// End
    End,
    /// Wait until the connection can be read
    Wait,
}

/// One step of polling a stream. Polling starts with asking for an event.
pub fn poll_next(input: StreamInput) -> (r: StreamStep)
    ensures
        r == match input {
            StreamInput::Event(Some(event)) => StreamStep::Yield(event),
            StreamInput::Event(None) => StreamStep::PollReadable,
            StreamInput::Readable => StreamStep::AskEvent,
            StreamInput::Failed => StreamStep::End,
            StreamInput::NotReadable => StreamStep::Wait,
        },
{
    match input {
        StreamInput::Event(Some(event)) => StreamStep::Yield(event),
        StreamInput::Event(None) => StreamStep::PollReadable,
        StreamInput::Readable => StreamStep::AskEvent,
        StreamInput::Failed => StreamStep::End,
        StreamInput::NotReadable => StreamStep::Wait,
    }
}

} // verus!
