//! Rendering of a transcript for the terminal.

use vstd::prelude::*;
use crate::message::{EmbeddedMessage, Message};

verus! {

/// The line that announces a message: its display name, or the tag of its
/// role where it has none.
pub open spec fn heading(message: Message) -> Seq<char> {
    match message.name {
        Some(name) => name@,
        None => message.role.spec_name(),
    }
}

/// A message as it is shown: the heading and a colon on a line, the text on
/// the next, and an empty line.
pub open spec fn shown_message(message: Message) -> Seq<char> {
    heading(message) + seq![':', '\n'] + message.content@ + seq!['\n', '\n']
}

/// A transcript as it is shown: its messages, each as it is shown, one
/// after the other.
pub open spec fn shown(chat: Seq<EmbeddedMessage>) -> Seq<char>
    decreases chat.len(),
{
    if chat.len() == 0 {
        Seq::empty()
    } else {
        shown(chat.drop_last()) + shown_message(chat.last().message)
    }
}

/// Returns the line that announces a message, without the colon.
pub fn speaker(message: &Message) -> (name: &str)
    ensures
        name@ == heading(*message),
{
    match &message.name {
        Some(name) => name.as_str(),
        None => message.role.name(),
    }
}

/// Renders a transcript for the terminal.
pub fn show_chat(chat: &Vec<EmbeddedMessage>) -> (text: String)
    ensures
        text@ == shown(chat@),
{
    let mut text = String::new();
    let mut i: usize = 0;
    while i < chat.len()
        invariant
            i <= chat.len(),
            text@ == shown(chat@.subrange(0, i as int)),
        decreases chat.len() - i,
    {
        let message = &chat[i].message;
        proof {
            reveal_strlit(":\n");
            reveal_strlit("\n\n");
            assert(":\n"@ =~= seq![':', '\n']);
            assert("\n\n"@ =~= seq!['\n', '\n']);
            assert(chat@.subrange(0, i + 1).drop_last() =~= chat@.subrange(0, i as int));
        }
        text.append(speaker(message));
        text.append(":\n");
        text.append(message.content.as_str());
        text.append("\n\n");
        i += 1;
    }
    assert(chat@.subrange(0, i as int) == chat@);
    text
}

} // verus!
