//! The transcript of a chat: its entries in the order in which they were
//! written.

use vstd::prelude::*;
use crate::message::{EmbeddedMessage, Message, Role};

verus! {

/// The entry that a text written by `role` becomes. It carries no display
/// name.
pub open spec fn entry(role: Role, content: String, embedding: Vec<u32>) -> EmbeddedMessage {
    EmbeddedMessage { message: Message { role, content, name: None }, embedding }
}

/// The messages of a transcript, without their embeddings.
pub open spec fn messages_of(chat: Seq<EmbeddedMessage>) -> Seq<Message> {
    Seq::new(chat.len(), |i: int| chat[i].message)
}

/// Appends a text written by `role`, with its embedding, to a transcript.
pub fn push_message(
    chat: &mut Vec<EmbeddedMessage>,
    role: Role,
    content: String,
    embedding: Vec<u32>,
)
    ensures
        final(chat)@ == old(chat)@.push(entry(role, content, embedding)),
{
    chat.push(EmbeddedMessage { message: Message { role, content, name: None }, embedding });
}

/// Copies the messages out of a transcript, in order: the list that is
/// sent to the completion service.
pub fn messages(chat: &Vec<EmbeddedMessage>) -> (list: Vec<Message>)
    ensures
        list@ == messages_of(chat@),
{
    let mut list: Vec<Message> = Vec::new();
    let mut i: usize = 0;
    while i < chat.len()
        invariant
            i <= chat.len(),
            list@ == messages_of(chat@.subrange(0, i as int)),
        decreases chat.len() - i,
    {
        list.push(chat[i].message.clone());
        assert(list@ =~= messages_of(chat@.subrange(0, i + 1)));
        i += 1;
    }
    assert(chat@.subrange(0, i as int) == chat@);
    list
}

} // verus!
