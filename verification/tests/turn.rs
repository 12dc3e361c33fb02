use cligpt::embedding::EmbeddingError;
use cligpt::message::{EmbeddedMessage, Message, Role};
use cligpt::partition::SplitError;
use cligpt::score::Similarity;
use cligpt::turn::{Action, Event, Turn, TurnError};

fn embedding_of(seed: u32) -> Vec<u32> {
    (0..1536u32).map(|i| seed.wrapping_mul(31).wrapping_add(i)).collect()
}

fn message_of(role: Role, content: &str) -> Message {
    Message { role, content: content.to_string(), name: None }
}

fn entry_of(role: Role, content: &str, seed: u32) -> EmbeddedMessage {
    EmbeddedMessage { message: message_of(role, content), embedding: embedding_of(seed) }
}

fn stored(len: usize) -> Vec<EmbeddedMessage> {
    (0..len)
        .map(|n| {
            let role = if n % 2 == 0 { Role::User } else { Role::Assistant };
            entry_of(role, &format!("earlier {n}"), n as u32)
        })
        .collect()
}

fn similar(values: &[f32]) -> Vec<Similarity> {
    values.iter().map(|v| Similarity { request: v.to_bits(), response: v.to_bits() }).collect()
}

/// Takes a turn from its start to the end of the reply's stream.
fn until_reply(existing: Vec<EmbeddedMessage>, input: &str, pieces: &[&str]) -> (Turn, Action) {
    let (turn, action) = Turn::new().step(Event::Input(input.to_string()));
    assert_eq!(action, Action::Load);
    let (turn, action) = turn.step(Event::Loaded(existing));
    assert!(matches!(action, Action::Embed(_)));
    let (mut turn, action) = turn.step(Event::Embedded(vec![embedding_of(100)]));
    assert!(matches!(action, Action::Complete(_)));
    for piece in pieces {
        let (next, action) = turn.step(Event::Delta(Some(piece.to_string())));
        assert_eq!(action, Action::Print(piece.to_string()));
        turn = next;
    }
    turn.step(Event::End)
}

#[test]
fn first_turn_of_a_chat() {
    let turn = Turn::new();
    assert_eq!(turn, Turn::Start);
    assert!(!turn.is_done());
    assert_eq!(turn.chat(), None);

    let (turn, action) = turn.step(Event::Input("Hello".to_string()));
    assert_eq!(action, Action::Load);
    assert_eq!(turn, Turn::Loading { text: "Hello".to_string() });

    let (turn, action) = turn.step(Event::Loaded(vec![]));
    assert_eq!(action, Action::Embed("Hello".to_string()));
    assert_eq!(turn, Turn::EmbeddingRequest { chat: vec![], text: "Hello".to_string() });

    let (turn, action) = turn.step(Event::Embedded(vec![embedding_of(1)]));
    assert_eq!(action, Action::Complete(vec![message_of(Role::User, "Hello")]));
    assert_eq!(turn.chat(), Some(&vec![entry_of(Role::User, "Hello", 1)]));

    let (turn, action) = turn.step(Event::Delta(Some("Hi".to_string())));
    assert_eq!(action, Action::Print("Hi".to_string()));
    let (turn, action) = turn.step(Event::Delta(Some(" there".to_string())));
    assert_eq!(action, Action::Print(" there".to_string()));
    let (turn, action) = turn.step(Event::Delta(Some("!".to_string())));
    assert_eq!(action, Action::Print("!".to_string()));
    assert_eq!(
        turn,
        Turn::Streaming {
            chat: vec![entry_of(Role::User, "Hello", 1)],
            reply: "Hi there!".to_string()
        }
    );

    let (turn, action) = turn.step(Event::End);
    assert_eq!(action, Action::Embed("Hi there!".to_string()));
    assert!(!turn.is_done());

    let (turn, action) = turn.step(Event::Embedded(vec![embedding_of(2)]));
    assert_eq!(
        action,
        Action::Persist(vec![
            entry_of(Role::User, "Hello", 1),
            entry_of(Role::Assistant, "Hi there!", 2),
        ])
    );
    assert_eq!(turn, Turn::Done);
    assert!(turn.is_done());
}

#[test]
fn empty_input_fails_before_anything_is_asked() {
    let (turn, action) = Turn::new().step(Event::Input(String::new()));
    assert_eq!(action, Action::Fail(TurnError::BlankMessage));
    assert_eq!(turn, Turn::Done);
}

#[test]
fn blank_input_fails() {
    for input in [" ", "\n", "\r\n", " \t \n\n", "\u{a0}\u{3000}"] {
        let (turn, action) = Turn::new().step(Event::Input(input.to_string()));
        assert_eq!(action, Action::Fail(TurnError::BlankMessage));
        assert!(turn.is_done());
    }
}

#[test]
fn input_loses_one_trailing_line_terminator() {
    let (turn, _) = Turn::new().step(Event::Input("Hello\n".to_string()));
    assert_eq!(turn, Turn::Loading { text: "Hello".to_string() });
    let (turn, _) = Turn::new().step(Event::Input("Hello\r\n".to_string()));
    assert_eq!(turn, Turn::Loading { text: "Hello".to_string() });
    let (turn, _) = Turn::new().step(Event::Input("Hello\n\n".to_string()));
    assert_eq!(turn, Turn::Loading { text: "Hello\n".to_string() });
    let (turn, _) = Turn::new().step(Event::Input("  Hello  ".to_string()));
    assert_eq!(turn, Turn::Loading { text: "  Hello  ".to_string() });
}

#[test]
fn whole_transcript_is_sent_to_the_service() {
    let (turn, _) = Turn::new().step(Event::Input("third".to_string()));
    let (turn, _) = turn.step(Event::Loaded(stored(2)));
    let (turn, action) = turn.step(Event::Embedded(vec![embedding_of(9)]));
    assert_eq!(
        action,
        Action::Complete(vec![
            message_of(Role::User, "earlier 0"),
            message_of(Role::Assistant, "earlier 1"),
            message_of(Role::User, "third"),
        ])
    );
    let mut grown = stored(2);
    grown.push(entry_of(Role::User, "third", 9));
    assert_eq!(turn, Turn::Streaming { chat: grown, reply: String::new() });
}

#[test]
fn display_names_are_sent_along() {
    let mut existing = stored(2);
    existing[0].message.name = Some("Ada".to_string());
    let (turn, _) = Turn::new().step(Event::Input("third".to_string()));
    let (turn, _) = turn.step(Event::Loaded(existing));
    let (_, action) = turn.step(Event::Embedded(vec![embedding_of(9)]));
    let mut first = message_of(Role::User, "earlier 0");
    first.name = Some("Ada".to_string());
    assert_eq!(
        action,
        Action::Complete(vec![
            first,
            message_of(Role::Assistant, "earlier 1"),
            message_of(Role::User, "third"),
        ])
    );
}

#[test]
fn piece_without_text_changes_nothing() {
    let (turn, _) = Turn::new().step(Event::Input("Hello".to_string()));
    let (turn, _) = turn.step(Event::Loaded(vec![]));
    let (turn, _) = turn.step(Event::Embedded(vec![embedding_of(1)]));
    let (turn, action) = turn.step(Event::Delta(None));
    assert_eq!(action, Action::Continue);
    let (turn, _) = turn.step(Event::Delta(Some("a".to_string())));
    let (turn, action) = turn.step(Event::Delta(None));
    assert_eq!(action, Action::Continue);
    let (turn, action) = turn.step(Event::Delta(Some(String::new())));
    assert_eq!(action, Action::Print(String::new()));
    let (turn, _) = turn.step(Event::Delta(Some("b".to_string())));
    assert_eq!(
        turn,
        Turn::Streaming { chat: vec![entry_of(Role::User, "Hello", 1)], reply: "ab".to_string() }
    );
}

#[test]
fn reply_is_closed_and_stripped_once() {
    let (turn, action) = until_reply(vec![], "Hello", &["Hi", " there", "!"]);
    assert_eq!(action, Action::Embed("Hi there!".to_string()));
    assert_eq!(
        turn,
        Turn::EmbeddingReply {
            chat: vec![entry_of(Role::User, "Hello", 100)],
            reply: "Hi there!".to_string()
        }
    );
    let (_, action) = until_reply(vec![], "Hello", &["Hi\n"]);
    assert_eq!(action, Action::Embed("Hi\n".to_string()));
    let (_, action) = until_reply(vec![], "Hello", &["Hi\r"]);
    assert_eq!(action, Action::Embed("Hi".to_string()));
    let (_, action) = until_reply(vec![], "Hello", &[]);
    assert_eq!(action, Action::Embed(String::new()));
    let (_, action) = until_reply(vec![], "Hello", &["\r", "\n"]);
    assert_eq!(action, Action::Embed("\r\n".to_string()));
}

#[test]
fn second_turn_is_stored_after_comparing() {
    let (turn, _) = until_reply(stored(2), "third", &["fourth"]);
    let (turn, action) = turn.step(Event::Embedded(vec![embedding_of(200)]));
    assert_eq!(action, Action::Compare);
    let mut all = stored(2);
    all.push(entry_of(Role::User, "third", 100));
    all.push(entry_of(Role::Assistant, "fourth", 200));
    assert_eq!(turn.chat(), Some(&all));
    assert_eq!(turn, Turn::Comparing { chat: all.clone() });
    let (turn, action) = turn.step(Event::Compared(similar(&[0.3, 0.4])));
    assert_eq!(action, Action::Persist(all));
    assert_eq!(turn, Turn::Done);
}

#[test]
fn outdated_entries_are_not_stored() {
    let (turn, _) = until_reply(stored(6), "seventh", &["eighth"]);
    let (turn, action) = turn.step(Event::Embedded(vec![embedding_of(200)]));
    assert_eq!(action, Action::Compare);
    let (turn, action) = turn.step(Event::Compared(similar(&[0.5, 0.5, 0.1, 0.4, 0.9, 0.8])));
    let mut kept = stored(6).split_off(2);
    kept.push(entry_of(Role::User, "seventh", 100));
    kept.push(entry_of(Role::Assistant, "eighth", 200));
    assert_eq!(action, Action::Persist(kept));
    assert!(turn.is_done());
}

#[test]
fn turn_after_six_entries_with_unlike_opening() {
    // The two opening entries are unlike the last exchange, the four after
    // them like it. The least similar entry is the first of all, so the cut
    // falls in front of it and all eight entries are stored.
    let (turn, _) = until_reply(stored(6), "seventh", &["eighth"]);
    let (turn, _) = turn.step(Event::Embedded(vec![embedding_of(200)]));
    let (_, action) = turn.step(Event::Compared(similar(&[0.05, 0.1, 0.95, 0.9, 0.92, 0.97])));
    let mut all = stored(6);
    all.push(entry_of(Role::User, "seventh", 100));
    all.push(entry_of(Role::Assistant, "eighth", 200));
    assert_eq!(action, Action::Persist(all));
}

#[test]
fn missing_embedding_fails_the_turn() {
    let (turn, _) = Turn::new().step(Event::Input("Hello".to_string()));
    let (turn, _) = turn.step(Event::Loaded(stored(2)));
    let (turn, action) = turn.step(Event::Embedded(vec![]));
    assert_eq!(action, Action::Fail(TurnError::Embedding(EmbeddingError::Missing)));
    assert_eq!(turn, Turn::Done);
}

#[test]
fn embedding_of_wrong_length_fails_the_turn() {
    let (turn, _) = Turn::new().step(Event::Input("Hello".to_string()));
    let (turn, _) = turn.step(Event::Loaded(stored(2)));
    let (turn, action) = turn.step(Event::Embedded(vec![vec![0; 3]]));
    assert_eq!(
        action,
        Action::Fail(TurnError::Embedding(EmbeddingError::WrongLength { found: 3 }))
    );
    assert!(turn.is_done());

    let (turn, _) = until_reply(stored(2), "third", &["fourth"]);
    let (turn, action) = turn.step(Event::Embedded(vec![vec![0; 1537]]));
    assert_eq!(
        action,
        Action::Fail(TurnError::Embedding(EmbeddingError::WrongLength { found: 1537 }))
    );
    assert!(turn.is_done());
}

#[test]
fn faulty_similarities_fail_the_turn() {
    let (turn, _) = until_reply(stored(2), "third", &["fourth"]);
    let (turn, _) = turn.step(Event::Embedded(vec![embedding_of(200)]));
    let (turn, action) = turn.step(Event::Compared(similar(&[0.3])));
    assert_eq!(
        action,
        Action::Fail(TurnError::Split(SplitError::SimilarityCount { expected: 2, found: 1 }))
    );
    assert!(turn.is_done());

    let (turn, _) = until_reply(stored(2), "third", &["fourth"]);
    let (turn, _) = turn.step(Event::Embedded(vec![embedding_of(200)]));
    let (turn, action) = turn.step(Event::Compared(similar(&[0.3, f32::NAN])));
    assert_eq!(
        action,
        Action::Fail(TurnError::Split(SplitError::UndefinedSimilarity { index: 1 }))
    );
    assert!(turn.is_done());
}

#[test]
fn event_out_of_turn_fails() {
    let unexpected = Action::Fail(TurnError::Unexpected);
    assert_eq!(Turn::new().step(Event::End), (Turn::Done, Action::Fail(TurnError::Unexpected)));
    assert_eq!(Turn::new().step(Event::Loaded(vec![])).1, unexpected);
    assert_eq!(Turn::new().step(Event::Delta(None)).1, unexpected);
    assert_eq!(Turn::Done.step(Event::Input("Hello".to_string())).1, unexpected);
    assert_eq!((Turn::Loading { text: "x".to_string() }).step(Event::End).1, unexpected);
    let waiting = Turn::EmbeddingRequest { chat: vec![], text: "x".to_string() };
    assert_eq!(waiting.step(Event::Compared(vec![])).1, unexpected);
    let streaming = Turn::Streaming { chat: vec![], reply: String::new() };
    assert_eq!(streaming.step(Event::Embedded(vec![embedding_of(1)])).1, unexpected);
    let embedding = Turn::EmbeddingReply { chat: vec![], reply: String::new() };
    assert_eq!(embedding.step(Event::Delta(Some("x".to_string()))), (Turn::Done, Action::Fail(TurnError::Unexpected)));
    let comparing = Turn::Comparing { chat: stored(4) };
    assert_eq!(comparing.step(Event::Input("x".to_string())).1, unexpected);
}

#[test]
fn finished_turn_accepts_nothing() {
    let (turn, _) = Turn::new().step(Event::Input(String::new()));
    let (turn, action) = turn.step(Event::Loaded(vec![]));
    assert_eq!(action, Action::Fail(TurnError::Unexpected));
    assert!(turn.is_done());
}
