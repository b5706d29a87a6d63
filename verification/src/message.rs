//! Rendered messages: who speaks, and what is said.

use vstd::prelude::*;
use messageforge::{BaseMessage, MessageEnum};

verus! {

/// Who a rendered message comes from.
#[derive(Debug, Clone, Copy, PartialEq, Eq, Structural)]
pub enum MessageType {
    Ai,
    Human,
    System,
    Tool,
}

impl MessageType {
    /// The role tag of this kind of message, as it is written in a
    /// serialised message list.
    pub fn as_str(&self) -> (r: &'static str)
        ensures
            r@ == match *self {
                MessageType::Ai => "ai"@,
                MessageType::Human => "human"@,
                MessageType::System => "system"@,
                MessageType::Tool => "tool"@,
            },
    {
        match self {
            MessageType::Ai => "ai",
            MessageType::Human => "human",
            MessageType::System => "system",
            MessageType::Tool => "tool",
        }
    }
}

/// A rendered message.
#[derive(Debug)]
pub struct Message {
    pub message_type: MessageType,
    pub content: String,
}

/// A `Message` with its content as a character sequence.
pub struct MessageView {
    pub message_type: MessageType,
    pub content: Seq<char>,
}

impl View for Message {
    type V = MessageView;

    open spec fn view(&self) -> MessageView {
        MessageView { message_type: self.message_type, content: self.content@ }
    }
}

/// The views of a list of messages, in order.
pub open spec fn message_views(messages: Seq<Message>) -> Seq<MessageView> {
    Seq::new(messages.len(), |i: int| messages[i]@)
}

impl Message {
    /// A message of the given kind with the given content.
    pub fn new(message_type: MessageType, content: &str) -> (r: Self)
        ensures
            r@ == (MessageView { message_type, content: content@ }),
    {
        Message { message_type, content: content.to_owned() }
    }

    /// What is said.
    pub fn content(&self) -> (r: &str)
        ensures
            r@ == self@.content,
    {
        self.content.as_str()
    }

    /// Who speaks.
    pub fn message_type(&self) -> (r: MessageType)
        ensures
            r == self@.message_type,
    {
        self.message_type
    }

    /// The role tag of the speaker.
    pub fn role(&self) -> (r: &'static str)
        ensures
            r@ == match self@.message_type {
                MessageType::Ai => "ai"@,
                MessageType::Human => "human"@,
                MessageType::System => "system"@,
                MessageType::Tool => "tool"@,
            },
    {
        self.message_type.as_str()
    }
}

impl Clone for Message {
    fn clone(&self) -> (r: Self)
        ensures
            r@ == self@,
    {
        Message { message_type: self.message_type, content: self.content.clone() }
    }
}

/// What a serialised list of messages decodes to: the messages, each with
/// its kind and content, or the decoder's error message.
pub uninterp spec fn decoded_history(payload: Seq<char>) -> Result<Seq<MessageView>, Seq<char>>;

/// The view of a list of messages or an error message.
pub open spec fn history_view(r: Result<Vec<Message>, String>) -> Result<
    Seq<MessageView>,
    Seq<char>,
> {
    match r {
        Ok(messages) => Ok(message_views(messages@)),
        Err(message) => Err(message@),
    }
}

/// Decodes a JSON array of message objects with `serde_json::from_str`, as a
/// list of `messageforge::MessageEnum`, and keeps of each message its kind
/// and its content. Where the decoder fails, the outcome is the text of its
/// error.
#[verifier::external_body]
pub(crate) fn decode_history(payload: &str) -> (r: Result<Vec<Message>, String>)
    ensures
        history_view(r) == decoded_history(payload@),
{
    let decoded: Vec<MessageEnum> = match serde_json::from_str(payload) {
        Ok(list) => list,
        Err(e) => return Err(e.to_string()),
    };
    let mut messages = Vec::new();
    for m in decoded.iter() {
        let message_type = match m {
            MessageEnum::Ai(_) => MessageType::Ai,
            MessageEnum::Human(_) => MessageType::Human,
            MessageEnum::System(_) => MessageType::System,
            MessageEnum::Tool(_) => MessageType::Tool,
        };
        messages.push(Message { message_type, content: m.content().to_string() });
    }
    Ok(messages)
}

} // verus!
