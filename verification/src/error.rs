//! The reasons for which a request is turned away.

use vstd::prelude::*;

verus! {

/// Why a request left the task list untouched.
#[derive(Debug, Clone, Copy, PartialEq, Eq, Structural)]
pub enum TodoError {
    /// The text of a new task holds nothing but white space.
    EmptyText,
    /// No task carries the identifier that was asked for.
    NotFound,
    /// The frame is not text, or not a command object with the fields its action needs.
    MalformedMessage,
    /// The command object names an action that is not part of the protocol.
    UnknownAction,
    /// The frame carries binary data, which the protocol never uses.
    BinaryFrame,
}

impl TodoError {
    /// A line for the server's log.
    pub fn message(&self) -> (line: String)
        ensures
            line@ == match *self {
                TodoError::EmptyText => "Task text cannot be empty"@,
                TodoError::NotFound => "Task not found"@,
                TodoError::MalformedMessage => "Malformed WebSocket message"@,
                TodoError::UnknownAction => "Unknown WebSocket action"@,
                TodoError::BinaryFrame => "Received WebSocket binary message"@,
            },
    {
        match self {
            TodoError::EmptyText => "Task text cannot be empty".to_owned(),
            TodoError::NotFound => "Task not found".to_owned(),
            TodoError::MalformedMessage => "Malformed WebSocket message".to_owned(),
            TodoError::UnknownAction => "Unknown WebSocket action".to_owned(),
            TodoError::BinaryFrame => "Received WebSocket binary message".to_owned(),
        }
    }
}

} // verus!
