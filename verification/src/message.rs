//! Messages as flat records, as the scope-based traversal reports them.

use crate::ast::opt_text;
use vstd::prelude::*;
use vstd::std_specs::convert::{FromSpec, FromSpecImpl};

verus! {

/// What a flat message record holds.
pub struct MessageModel {
    pub id: Seq<char>,
    pub message: Seq<char>,
    pub description: Option<Seq<char>>,
    pub file_path: Option<Seq<char>>,
    pub line: Option<u32>,
    pub column: Option<u32>,
}

/// A message with the place where it was found.
#[derive(Debug, Clone, PartialEq, Eq)]
pub struct Message {
    pub id: String,
    pub message: String,
    pub description: Option<String>,
    pub file_path: Option<String>,
    pub line: Option<u32>,
    pub column: Option<u32>,
}

impl View for Message {
    type V = MessageModel;

    open spec fn view(&self) -> MessageModel {
        MessageModel {
            id: self.id@,
            message: self.message@,
            description: opt_text(self.description),
            file_path: opt_text(self.file_path),
            line: self.line,
            column: self.column,
        }
    }
}

/// A message as a traversal found it in a module.
#[derive(Debug, Clone, PartialEq, Eq)]
pub struct ExtractedMessage {
    pub id: String,
    pub message: String,
    pub description: Option<String>,
    pub file_path: Option<String>,
    pub line: Option<u32>,
    pub column: Option<u32>,
}

impl View for ExtractedMessage {
    type V = MessageModel;

    open spec fn view(&self) -> MessageModel {
        MessageModel {
            id: self.id@,
            message: self.message@,
            description: opt_text(self.description),
            file_path: opt_text(self.file_path),
            line: self.line,
            column: self.column,
        }
    }
}

/// The models of a list of extracted messages.
pub open spec fn found_model(ms: Seq<ExtractedMessage>) -> Seq<MessageModel> {
    ms.map_values(|m: ExtractedMessage| m@)
}

impl From<Message> for ExtractedMessage {
    fn from(message: Message) -> (r: Self) {
        Self {
            id: message.id,
            message: message.message,
            description: message.description,
            file_path: message.file_path,
            line: message.line,
            column: message.column,
        }
    }
}

impl FromSpecImpl<Message> for ExtractedMessage {
    open spec fn obeys_from_spec() -> bool {
        true
    }

    open spec fn from_spec(message: Message) -> Self {
        ExtractedMessage {
            id: message.id,
            message: message.message,
            description: message.description,
            file_path: message.file_path,
            line: message.line,
            column: message.column,
        }
    }
}

impl From<ExtractedMessage> for Message {
    fn from(message: ExtractedMessage) -> (r: Self) {
        Self {
            id: message.id,
            message: message.message,
            description: message.description,
            file_path: message.file_path,
            line: message.line,
            column: message.column,
        }
    }
}

impl FromSpecImpl<ExtractedMessage> for Message {
    open spec fn obeys_from_spec() -> bool {
        true
    }

    open spec fn from_spec(message: ExtractedMessage) -> Self {
        Message {
            id: message.id,
            message: message.message,
            description: message.description,
            file_path: message.file_path,
            line: message.line,
            column: message.column,
        }
    }
}

/// Converting a record keeps what it holds, and converting back gives
/// the record again.
pub proof fn conversion_keeps_content(m: Message, e: ExtractedMessage)
    ensures
        <ExtractedMessage as FromSpec<Message>>::from_spec(m)@ == m@,
        <Message as FromSpec<ExtractedMessage>>::from_spec(e)@ == e@,
        <Message as FromSpec<ExtractedMessage>>::from_spec(
            <ExtractedMessage as FromSpec<Message>>::from_spec(m),
        ) == m,
        <ExtractedMessage as FromSpec<Message>>::from_spec(
            <Message as FromSpec<ExtractedMessage>>::from_spec(e),
        ) == e,
{
}

} // verus!
