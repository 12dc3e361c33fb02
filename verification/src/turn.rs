//! One turn of a chat, as a machine that decides and leaves the doing to
//! its caller.
//!
//! A turn takes the user's text, has it embedded, sends the transcript to
//! the completion service, gathers the reply as it streams in, has the
//! reply embedded, splits the transcript and hands the current part out to
//! be stored. The machine holds the turn's state. Its caller performs each
//! action that the machine asks for and reports what came of it as the next
//! event. A caller that cannot perform an action abandons the turn; nothing
//! has been stored by then, since storing is the last action of a turn.

use vstd::prelude::*;
use crate::embedding::{accept_embedding, embedding_error, EmbeddingError};
use crate::message::{EmbeddedMessage, Message, Role};
use crate::partition::{
    current_part,
    keeps_last_exchange,
    lemma_split_keeps_last_exchange,
    split_chat,
    split_error,
    SplitError,
    MIN_SPLIT_LEN,
};
use crate::score::Similarity;
use crate::text::{blank, is_blank, strip_trailing_newline, without_newline};
use crate::transcript::{entry, messages, messages_of, push_message};

verus! {

/// Why a turn failed.
#[derive(Clone, Copy, Debug, PartialEq, Eq, Structural)]
pub enum TurnError {
    /// The user's text is empty or holds nothing but white space.
    BlankMessage,
    /// The embedding service's answer was not accepted.
    Embedding(EmbeddingError),
    /// The transcript could not be split.
    Split(SplitError),
    /// The event is not the one that the turn was waiting for.
    Unexpected,
}

/// Where a turn stands.
#[derive(Debug, PartialEq, Eq)]
pub enum Turn {
    /// The user's text is awaited.
    Start,
    /// The stored transcript is awaited.
    Loading { text: String },
    /// The embedding of the user's text is awaited.
    EmbeddingRequest { chat: Vec<EmbeddedMessage>, text: String },
    /// The reply is streaming in; `reply` holds what has come of it so far.
    Streaming { chat: Vec<EmbeddedMessage>, reply: String },
    /// The embedding of the reply is awaited.
    EmbeddingReply { chat: Vec<EmbeddedMessage>, reply: String },
    /// The similarities of the earlier entries to the last exchange are
    /// awaited.
    Comparing { chat: Vec<EmbeddedMessage> },
    /// The turn is over: the transcript was handed out, or the turn failed.
    Done,
}

/// What the caller reports to a turn.
#[derive(Debug, PartialEq, Eq)]
pub enum Event {
    /// The text that the user entered.
    Input(String),
    /// The stored transcript; empty where none is stored.
    Loaded(Vec<EmbeddedMessage>),
    /// The embeddings that the embedding service answered with.
    Embedded(Vec<Vec<u32>>),
    /// A piece of the streamed reply: the text of its first choice, if it
    /// has one.
    Delta(Option<String>),
    /// The stream of the reply has ended.
    End,
    /// The similarities of every entry but the last two, in order.
    Compared(Vec<Similarity>),
}

/// What a turn asks its caller to do next.
#[derive(Debug, PartialEq, Eq)]
pub enum Action {
    /// Read the stored transcript and report it.
    Load,
    /// Have the text embedded and report the answer.
    Embed(String),
    /// Send the messages to the completion service and report the pieces of
    /// the reply as they arrive.
    Complete(Vec<Message>),
    /// Write the text to the terminal and report the next piece.
    Print(String),
    /// Report the next piece.
    Continue,
    /// Measure the similarities of the entries of `Turn::chat` and report
    /// them.
    Compare,
    /// Store the transcript. The turn is over.
    Persist(Vec<EmbeddedMessage>),
    /// Give up. The turn is over and nothing is stored.
    Fail(TurnError),
}

/// The reply as it enters the transcript: what streamed in, closed by a
/// line feed, without its final line terminator.
pub open spec fn finished_reply(streamed: Seq<char>) -> Seq<char> {
    without_newline(streamed.push('\n'))
}

/// The turn failed with `error`.
pub open spec fn failed(next: Turn, action: Action, error: TurnError) -> bool {
    next is Done && action == Action::Fail(error)
}

/// Whether a turn in state `turn` that is told `event` may go on in state
/// `next` and ask for `action`.
pub open spec fn steps(turn: Turn, event: Event, next: Turn, action: Action) -> bool {
    match (turn, event) {
        (Turn::Start, Event::Input(input)) => {
            if is_blank(input@) {
                failed(next, action, TurnError::BlankMessage)
            } else {
                &&& next matches Turn::Loading { text }
                &&& text@ == without_newline(input@)
                &&& action is Load
            }
        },
        (Turn::Loading { text }, Event::Loaded(stored)) => {
            &&& next matches Turn::EmbeddingRequest { chat, text: kept }
            &&& chat@ == stored@
            &&& kept == text
            &&& action matches Action::Embed(sent)
            &&& sent == text
        },
        (Turn::EmbeddingRequest { chat, text }, Event::Embedded(data)) => {
            match embedding_error(data@) {
                Some(error) => failed(next, action, TurnError::Embedding(error)),
                None => {
                    &&& next matches Turn::Streaming { chat: grown, reply }
                    &&& grown@ == chat@.push(entry(Role::User, text, data@[0]))
                    &&& reply@ == Seq::<char>::empty()
                    &&& action matches Action::Complete(list)
                    &&& list@ == messages_of(grown@)
                },
            }
        },
        (Turn::Streaming { chat, reply }, Event::Delta(Some(piece))) => {
            &&& next matches Turn::Streaming { chat: kept, reply: grown }
            &&& kept@ == chat@
            &&& grown@ == reply@ + piece@
            &&& action == Action::Print(piece)
        },
        (Turn::Streaming { chat, reply }, Event::Delta(None)) => {
            &&& next matches Turn::Streaming { chat: kept, reply: same }
            &&& kept@ == chat@
            &&& same@ == reply@
            &&& action is Continue
        },
        (Turn::Streaming { chat, reply }, Event::End) => {
            &&& next matches Turn::EmbeddingReply { chat: kept, reply: finished }
            &&& kept@ == chat@
            &&& finished@ == finished_reply(reply@)
            &&& action matches Action::Embed(sent)
            &&& sent@ == finished@
        },
        (Turn::EmbeddingReply { chat, reply }, Event::Embedded(data)) => {
            match embedding_error(data@) {
                Some(error) => failed(next, action, TurnError::Embedding(error)),
                None => {
                    let grown = chat@.push(entry(Role::Assistant, reply, data@[0]));
                    if grown.len() < MIN_SPLIT_LEN {
                        &&& next is Done
                        &&& action matches Action::Persist(current)
                        &&& current@ == grown
                    } else {
                        &&& next matches Turn::Comparing { chat: kept }
                        &&& kept@ == grown
                        &&& action is Compare
                    }
                },
            }
        },
        (Turn::Comparing { chat }, Event::Compared(similarities)) => {
            match split_error(chat@, similarities@) {
                Some(error) => failed(next, action, TurnError::Split(error)),
                None => {
                    &&& next is Done
                    &&& action matches Action::Persist(current)
                    &&& current@ == current_part(chat@, similarities@)
                },
            }
        },
        _ => failed(next, action, TurnError::Unexpected),
    }
}

/// Whatever a turn hands out to be stored after the similarities were
/// reported is an end piece of the transcript that it held, with the last
/// request and the last response in it.
pub proof fn lemma_persisted_keeps_last_exchange(
    turn: Turn,
    event: Event,
    next: Turn,
    action: Action,
)
    requires
        steps(turn, event, next, action),
        turn is Comparing,
        action is Persist,
    ensures
        keeps_last_exchange(turn->Comparing_chat@, action->Persist_0@),
{
    match (turn, event) {
        (Turn::Comparing { chat }, Event::Compared(similarities)) => {
            lemma_split_keeps_last_exchange(chat@, similarities@);
        },
        _ => {},
    }
}

/// A turn that fails is over, and it fails on every event that it was not
/// waiting for. A turn hands a transcript out to be stored only as its
/// last action.
pub proof fn lemma_turn_ends(turn: Turn, event: Event, next: Turn, action: Action)
    requires
        steps(turn, event, next, action),
    ensures
        action is Fail || action is Persist ==> next is Done,
        turn is Done ==> action == Action::Fail(TurnError::Unexpected),
{
}

impl Turn {
    /// Begins a turn.
    pub fn new() -> (turn: Turn)
        ensures
            turn is Start,
    {
        Turn::Start
    }

    /// Whether the turn is over.
    pub fn is_done(&self) -> (done: bool)
        ensures
            done == (self is Done),
    {
        match self {
            Turn::Done => true,
            _ => false,
        }
    }

    /// The transcript that the turn holds, if it holds one.
    pub fn chat(&self) -> (held: Option<&Vec<EmbeddedMessage>>)
        ensures
            held == match *self {
                Turn::EmbeddingRequest { chat, .. } => Some(&chat),
                Turn::Streaming { chat, .. } => Some(&chat),
                Turn::EmbeddingReply { chat, .. } => Some(&chat),
                Turn::Comparing { chat } => Some(&chat),
                _ => None,
            },
    {
        match self {
            Turn::EmbeddingRequest { chat, .. } => Some(chat),
            Turn::Streaming { chat, .. } => Some(chat),
            Turn::EmbeddingReply { chat, .. } => Some(chat),
            Turn::Comparing { chat } => Some(chat),
            _ => None,
        }
    }

    /// Takes the turn one step on: decides, from where the turn stands and
    /// what the caller reports, where it stands next and what the caller is
    /// to do.
    pub fn step(self, event: Event) -> (result: (Turn, Action))
        ensures
            steps(self, event, result.0, result.1),
    {
        match (self, event) {
            (Turn::Start, Event::Input(input)) => {
                if blank(input.as_str()) {
                    (Turn::Done, Action::Fail(TurnError::BlankMessage))
                } else {
                    let text = strip_trailing_newline(input.as_str()).to_owned();
                    (Turn::Loading { text }, Action::Load)
                }
            },
            (Turn::Loading { text }, Event::Loaded(stored)) => {
                let sent = text.clone();
                (Turn::EmbeddingRequest { chat: stored, text }, Action::Embed(sent))
            },
            (Turn::EmbeddingRequest { chat, text }, Event::Embedded(data)) => {
                match accept_embedding(data) {
                    Err(error) => (Turn::Done, Action::Fail(TurnError::Embedding(error))),
                    Ok(embedding) => {
                        let mut chat = chat;
                        push_message(&mut chat, Role::User, text, embedding);
                        let list = messages(&chat);
                        (Turn::Streaming { chat, reply: String::new() }, Action::Complete(list))
                    },
                }
            },
            (Turn::Streaming { chat, reply }, Event::Delta(Some(piece))) => {
                let mut reply = reply;
                reply.append(piece.as_str());
                (Turn::Streaming { chat, reply }, Action::Print(piece))
            },
            (Turn::Streaming { chat, reply }, Event::Delta(None)) => {
                (Turn::Streaming { chat, reply }, Action::Continue)
            },
            (Turn::Streaming { chat, reply }, Event::End) => {
                let mut reply = reply;
                proof {
                    reveal_strlit("\n");
                    assert(reply@ + "\n"@ =~= reply@.push('\n'));
                }
                reply.append("\n");
                let finished = strip_trailing_newline(reply.as_str()).to_owned();
                let sent = finished.clone();
                (Turn::EmbeddingReply { chat, reply: finished }, Action::Embed(sent))
            },
            (Turn::EmbeddingReply { chat, reply }, Event::Embedded(data)) => {
                match accept_embedding(data) {
                    Err(error) => (Turn::Done, Action::Fail(TurnError::Embedding(error))),
                    Ok(embedding) => {
                        let mut chat = chat;
                        push_message(&mut chat, Role::Assistant, reply, embedding);
                        if chat.len() < MIN_SPLIT_LEN {
                            (Turn::Done, Action::Persist(chat))
                        } else {
                            (Turn::Comparing { chat }, Action::Compare)
                        }
                    },
                }
            },
            (Turn::Comparing { chat }, Event::Compared(similarities)) => {
                match split_chat(chat, &similarities) {
                    Err(error) => (Turn::Done, Action::Fail(TurnError::Split(error))),
                    Ok((current, _)) => (Turn::Done, Action::Persist(current)),
                }
            },
            _ => (Turn::Done, Action::Fail(TurnError::Unexpected)),
        }
    }
}

} // verus!
