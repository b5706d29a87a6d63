//! The roles a chat entry can be given.

use vstd::prelude::*;
use crate::message::{Message, MessageType};
use crate::template_format::TemplateError;

verus! {

/// The role of a chat entry.
#[derive(Debug, Clone, Copy, PartialEq, Eq, Hash, Structural)]
pub enum Role {
    System,
    Human,
    Ai,
    /// Stands for a list of earlier messages; never speaks itself.
    Placeholder,
}

/// A role was asked for a message that it cannot produce.
#[derive(Debug, Clone, Copy, PartialEq, Eq, Structural)]
pub struct InvalidRoleError;

/// The kind of message a role speaks as, where it speaks at all.
pub open spec fn role_message_type(role: Role) -> Option<MessageType> {
    match role {
        Role::System => Some(MessageType::System),
        Role::Human => Some(MessageType::Human),
        Role::Ai => Some(MessageType::Ai),
        Role::Placeholder => None,
    }
}

impl Role {
    /// The message that this role speaks with `content`. The placeholder
    /// role speaks none.
    pub fn to_message(&self, content: &str) -> (r: Result<Message, InvalidRoleError>)
        ensures
            match r {
                Ok(m) => role_message_type(*self) == Some(m@.message_type) && m@.content
                    == content@,
                Err(_) => *self == Role::Placeholder,
            },
    {
        match self {
            Role::System => Ok(Message::new(MessageType::System, content)),
            Role::Human => Ok(Message::new(MessageType::Human, content)),
            Role::Ai => Ok(Message::new(MessageType::Ai, content)),
            Role::Placeholder => Err(InvalidRoleError),
        }
    }

    /// The name of the role, in lower case.
    pub fn as_str(&self) -> (r: &'static str)
        ensures
            r@ == match *self {
                Role::System => "system"@,
                Role::Human => "human"@,
                Role::Ai => "ai"@,
                Role::Placeholder => "placeholder"@,
            },
    {
        match self {
            Role::System => "system",
            Role::Human => "human",
            Role::Ai => "ai",
            Role::Placeholder => "placeholder",
        }
    }
}

impl From<InvalidRoleError> for TemplateError {
    fn from(e: InvalidRoleError) -> (r: TemplateError)
    {
        TemplateError::InvalidRoleError
    }
}

impl vstd::std_specs::convert::FromSpecImpl<InvalidRoleError> for TemplateError {
    open spec fn obeys_from_spec() -> bool {
        true
    }

    open spec fn from_spec(e: InvalidRoleError) -> TemplateError {
        TemplateError::InvalidRoleError
    }
}

} // verus!
