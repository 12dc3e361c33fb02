//! Chat messages and the transcript entries built from them.

use vstd::prelude::*;

verus! {

/// Who wrote a message.
#[derive(Clone, Copy, Debug, PartialEq, Eq, Structural)]
pub enum Role {
    /// The person at the terminal.
    User,
    /// The language model.
    Assistant,
}

impl Role {
    /// The tag under which the completion service knows the role.
    pub open spec fn spec_name(self) -> Seq<char> {
        match self {
            Role::User => "user"@,
            Role::Assistant => "assistant"@,
        }
    }

    /// Returns the tag under which the completion service knows the role.
    pub fn name(self) -> (name: &'static str)
        ensures
            name@ == self.spec_name(),
    {
        match self {
            Role::User => "user",
            Role::Assistant => "assistant",
        }
    }
}

/// One message of a chat.
#[derive(Debug, PartialEq, Eq)]
pub struct Message {
    /// Who wrote the message.
    pub role: Role,
    /// The text of the message.
    pub content: String,
    /// A display name that stands in for the role when the chat is shown.
    pub name: Option<String>,
}

impl Clone for Message {
    fn clone(&self) -> (copy: Self)
        ensures
            copy == *self,
    {
        let name = match &self.name {
            Some(name) => Some(name.clone()),
            None => None,
        };
        Message { role: self.role, content: self.content.clone(), name }
    }
}

/// A message together with its embedding, the unit a transcript is made of.
///
/// The embedding is held as the bit patterns of its single-precision
/// coordinates.
#[derive(Debug, PartialEq, Eq)]
pub struct EmbeddedMessage {
    /// The message.
    pub message: Message,
    /// The bit patterns of the embedding's coordinates.
    pub embedding: Vec<u32>,
}

impl Clone for EmbeddedMessage {
    fn clone(&self) -> (copy: Self)
        ensures
            copy.message == self.message,
            copy.embedding@ == self.embedding@,
    {
        EmbeddedMessage { message: self.message.clone(), embedding: self.embedding.clone() }
    }
}

} // verus!
