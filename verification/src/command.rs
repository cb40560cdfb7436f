//! The commands that a subscriber may send over its channel.

use vstd::prelude::*;
use vstd::utf8::{decode_utf8, valid_utf8};
use serde_json::Value;
use crate::error::TodoError;
use crate::json::{as_text, json_of, json_parsed, member, parse, Json};
use crate::text::string_from_utf8;

verus! {

/// A command, decoded.
#[derive(Debug)]
pub enum Command {
    /// Asks for the whole list.
    GetTasks,
    /// Asks for a new task with this text.
    AddTask { text: String },
    /// Asks to invert the completion flag of the task with this identifier.
    ToggleTask { id: String },
}

/// A command as a mathematical value.
pub enum CommandView {
    GetTasks,
    AddTask { text: Seq<char> },
    ToggleTask { id: Seq<char> },
}

impl View for Command {
    type V = CommandView;

    open spec fn view(&self) -> CommandView {
        match *self {
            Command::GetTasks => CommandView::GetTasks,
            Command::AddTask { text } => CommandView::AddTask { text: text@ },
            Command::ToggleTask { id } => CommandView::ToggleTask { id: id@ },
        }
    }
}

/// The view of a decoding result.
pub open spec fn decoded_view(decoded: Result<Command, TodoError>) -> Result<
    CommandView,
    TodoError,
> {
    match decoded {
        Ok(command) => Ok(command@),
        Err(error) => Err(error),
    }
}

/// The command that the string members `action`, `text` and `id` of a command
/// object stand for. An object without an action, or without the member that
/// its action needs, is malformed; an action outside the protocol is unknown,
/// whatever else the object holds.
pub open spec fn command_of_fields(
    action: Option<Seq<char>>,
    text: Option<Seq<char>>,
    id: Option<Seq<char>>,
) -> Result<CommandView, TodoError> {
    match action {
        None => Err(TodoError::MalformedMessage),
        Some(action) => if action == "get_tasks"@ {
            Ok(CommandView::GetTasks)
        } else if action == "add_task"@ {
            match text {
                Some(text) => Ok(CommandView::AddTask { text }),
                None => Err(TodoError::MalformedMessage),
            }
        } else if action == "toggle_task"@ {
            match id {
                Some(id) => Ok(CommandView::ToggleTask { id }),
                None => Err(TodoError::MalformedMessage),
            }
        } else {
            Err(TodoError::UnknownAction)
        },
    }
}

/// The command that a JSON document stands for.
pub open spec fn command_of_json(document: Json) -> Result<CommandView, TodoError> {
    command_of_fields(
        document.text_member("action"@),
        document.text_member("text"@),
        document.text_member("id"@),
    )
}

/// The command that a text stands for: it has to be JSON.
pub open spec fn command_of_text(text: Seq<char>) -> Result<CommandView, TodoError> {
    match json_parsed(text) {
        Some(document) => command_of_json(document),
        None => Err(TodoError::MalformedMessage),
    }
}

/// The command that the bytes of a text frame stand for: they have to be UTF-8.
pub open spec fn command_of_bytes(bytes: Seq<u8>) -> Result<CommandView, TodoError> {
    if valid_utf8(bytes) {
        command_of_text(decode_utf8(bytes))
    } else {
        Err(TodoError::MalformedMessage)
    }
}

/// The string member `key` of a document, copied out.
fn text_member(document: &Value, key: &str) -> (text: Option<String>)
    ensures
        text is Some <==> json_of(*document).text_member(key@) is Some,
        text matches Some(t) ==> json_of(*document).text_member(key@) == Some(t@),
{
    match member(document, key) {
        Some(inner) => match as_text(inner) {
            Some(text) => Some(text.to_owned()),
            None => None,
        },
        None => None,
    }
}

/// The view of an optional string.
pub open spec fn text_view(text: Option<String>) -> Option<Seq<char>> {
    match text {
        Some(t) => Some(t@),
        None => None,
    }
}

impl Command {
    /// Decodes a command from the string members of a command object.
    pub fn from_fields(
        action: Option<String>,
        text: Option<String>,
        id: Option<String>,
    ) -> (decoded: Result<Command, TodoError>)
        ensures
            decoded_view(decoded) == command_of_fields(
                text_view(action),
                text_view(text),
                text_view(id),
            ),
    {
        let action = match action {
            Some(action) => action,
            None => { return Err(TodoError::MalformedMessage); },
        };
        if action == "get_tasks".to_owned() {
            Ok(Command::GetTasks)
        } else if action == "add_task".to_owned() {
            match text {
                Some(text) => Ok(Command::AddTask { text }),
                None => Err(TodoError::MalformedMessage),
            }
        } else if action == "toggle_task".to_owned() {
            match id {
                Some(id) => Ok(Command::ToggleTask { id }),
                None => Err(TodoError::MalformedMessage),
            }
        } else {
            Err(TodoError::UnknownAction)
        }
    }

    /// Decodes a command from a parsed JSON document.
    pub fn from_json(document: &Value) -> (decoded: Result<Command, TodoError>)
        ensures
            decoded_view(decoded) == command_of_json(json_of(*document)),
    {
        Command::from_fields(
            text_member(document, "action"),
            text_member(document, "text"),
            text_member(document, "id"),
        )
    }

    /// Decodes a command from JSON text.
    pub fn from_text(text: &str) -> (decoded: Result<Command, TodoError>)
        ensures
            decoded_view(decoded) == command_of_text(text@),
    {
        match parse(text) {
            Ok(document) => Command::from_json(&document),
            Err(_) => Err(TodoError::MalformedMessage),
        }
    }

    /// Decodes a command from the payload of a text frame.
    pub fn from_bytes(bytes: Vec<u8>) -> (decoded: Result<Command, TodoError>)
        ensures
            decoded_view(decoded) == command_of_bytes(bytes@),
    {
        match string_from_utf8(bytes) {
            Ok(text) => Command::from_text(text.as_str()),
            Err(_) => Err(TodoError::MalformedMessage),
        }
    }
}

} // verus!
