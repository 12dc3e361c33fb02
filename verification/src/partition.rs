//! Splitting a transcript into the part that is still sent to the model and
//! the part that is set aside.
//!
//! The last two entries of a transcript are the last request and the last
//! response. Every earlier entry is a candidate and has a score that says
//! how similar it is to that last exchange. The transcript is cut in front
//! of the least similar candidate, provided the most similar candidate comes
//! after it. Only the least similar candidate says where the cut falls; the
//! most similar one says whether there is a cut at all.
//!
//! Where several candidates share the highest score, the earliest of them
//! is the most similar: the search for it runs from the front and keeps
//! what it met first. Where several share the lowest score, the latest of
//! them is the least similar: the search for it runs from the back and
//! keeps what it met first.

use vstd::prelude::*;
use crate::message::{EmbeddedMessage, Role};
use crate::score::{score, spec_score, Similarity};

verus! {

/// The shortest transcript that is ever cut.
pub const MIN_SPLIT_LEN: usize = 4;

/// Why a transcript could not be split.
#[derive(Clone, Copy, Debug, PartialEq, Eq, Structural)]
pub enum SplitError {
    /// The similarities do not number one for each candidate.
    SimilarityCount { expected: usize, found: usize },
    /// Both similarities of the candidate at `index` are NaN.
    UndefinedSimilarity { index: usize },
}

/// `n` is the most similar candidate: none scores higher, and every earlier
/// one scores lower. Among equal maxima the earliest is the most similar.
pub open spec fn is_most_similar(scores: Seq<i32>, n: int) -> bool {
    &&& 0 <= n < scores.len()
    &&& forall|j: int| 0 <= j < scores.len() ==> scores[j] <= scores[n]
    &&& forall|j: int| 0 <= j < n ==> scores[j] < scores[n]
}

/// `n` is the least similar candidate: none scores lower, and every later
/// one scores higher. Among equal minima the latest is the least similar.
pub open spec fn is_least_similar(scores: Seq<i32>, n: int) -> bool {
    &&& 0 <= n < scores.len()
    &&& forall|j: int| 0 <= j < scores.len() ==> scores[n] <= scores[j]
    &&& forall|j: int| n < j < scores.len() ==> scores[n] < scores[j]
}

/// The index of the most similar candidate.
pub open spec fn most_similar_index(scores: Seq<i32>) -> int {
    choose|n: int| is_most_similar(scores, n)
}

/// The index of the least similar candidate.
pub open spec fn least_similar_index(scores: Seq<i32>) -> int {
    choose|n: int| is_least_similar(scores, n)
}

/// There is only one most similar candidate.
pub proof fn lemma_most_similar_unique(scores: Seq<i32>, a: int, b: int)
    requires
        is_most_similar(scores, a),
        is_most_similar(scores, b),
    ensures
        a == b,
{
    if a < b {
        assert(scores[a] < scores[b]);
        assert(scores[b] <= scores[a]);
    } else if b < a {
        assert(scores[b] < scores[a]);
        assert(scores[a] <= scores[b]);
    }
}

/// There is only one least similar candidate.
pub proof fn lemma_least_similar_unique(scores: Seq<i32>, a: int, b: int)
    requires
        is_least_similar(scores, a),
        is_least_similar(scores, b),
    ensures
        a == b,
{
    if a < b {
        assert(scores[a] < scores[b]);
        assert(scores[b] <= scores[a]);
    } else if b < a {
        assert(scores[b] < scores[a]);
        assert(scores[a] <= scores[b]);
    }
}

/// Finds the most similar candidate. There is none among no candidates.
///
/// The candidates are gone through from the earliest to the latest, and of
/// equal scores the one met first stays.
pub fn most_similar(scores: &Vec<i32>) -> (found: Option<usize>)
    ensures
        scores.len() == 0 ==> found is None,
        scores.len() > 0 ==> found == Some(most_similar_index(scores@) as usize),
        found matches Some(n) ==> is_most_similar(scores@, n as int),
{
    if scores.len() == 0 {
        return None;
    }
    let mut best: usize = 0;
    let mut i: usize = 1;
    while i < scores.len()
        invariant
            1 <= i <= scores.len(),
            is_most_similar(scores@.subrange(0, i as int), best as int),
        decreases scores.len() - i,
    {
        if scores[i] > scores[best] {
            best = i;
        }
        i += 1;
    }
    proof {
        assert(scores@.subrange(0, i as int) == scores@);
        lemma_most_similar_unique(scores@, best as int, most_similar_index(scores@));
    }
    Some(best)
}

/// Finds the least similar candidate. There is none among no candidates.
///
/// The candidates are gone through from the latest back to the earliest,
/// and of equal scores the one met first stays.
pub fn least_similar(scores: &Vec<i32>) -> (found: Option<usize>)
    ensures
        scores.len() == 0 ==> found is None,
        scores.len() > 0 ==> found == Some(least_similar_index(scores@) as usize),
        found matches Some(n) ==> is_least_similar(scores@, n as int),
{
    let len: usize = scores.len();
    if len == 0 {
        return None;
    }
    let mut best: usize = len - 1;
    let mut i: usize = len - 1;
    while i > 0
        invariant
            len == scores.len(),
            i <= best < len,
            forall|j: int| i <= j < len ==> scores[best as int] <= scores[j],
            forall|j: int| best < j < len ==> scores[best as int] < scores[j],
        decreases i,
    {
        i -= 1;
        if scores[i] < scores[best] {
            best = i;
        }
    }
    proof {
        assert(is_least_similar(scores@, best as int));
        lemma_least_similar_unique(scores@, best as int, least_similar_index(scores@));
    }
    Some(best)
}

/// The most similar candidate never scores below the least similar one.
pub proof fn lemma_most_not_below_least(scores: Seq<i32>)
    requires
        scores.len() > 0,
    ensures
        is_most_similar(scores, most_similar_index(scores)),
        is_least_similar(scores, least_similar_index(scores)),
        scores[most_similar_index(scores)] >= scores[least_similar_index(scores)],
{
    lemma_extremes_exist(scores);
}

/// Among one or more candidates there is a most and a least similar one.
pub proof fn lemma_extremes_exist(scores: Seq<i32>)
    requires
        scores.len() > 0,
    ensures
        is_most_similar(scores, most_similar_index(scores)),
        is_least_similar(scores, least_similar_index(scores)),
    decreases scores.len(),
{
    if scores.len() == 1 {
        assert(is_most_similar(scores, 0));
        assert(is_least_similar(scores, 0));
    } else {
        let front = scores.drop_last();
        let last = scores.len() - 1;
        lemma_extremes_exist(front);
        let most = most_similar_index(front);
        let least = least_similar_index(front);
        assert forall|j: int| 0 <= j < front.len() implies front[j] == scores[j] by {}
        if scores[last] > scores[most] {
            assert(is_most_similar(scores, last));
        } else {
            assert(is_most_similar(scores, most));
        }
        if scores[last] <= scores[least] {
            assert(is_least_similar(scores, last));
        } else {
            assert(is_least_similar(scores, least));
        }
    }
}

/// Every candidate has a score.
pub open spec fn all_defined(similarities: Seq<Similarity>) -> bool {
    forall|i: int|
        0 <= i < similarities.len() ==> spec_score(#[trigger] similarities[i]) is Some
}

/// `i` is the first candidate without a score.
pub open spec fn is_first_undefined(similarities: Seq<Similarity>, i: int) -> bool {
    &&& 0 <= i < similarities.len()
    &&& spec_score(similarities[i]) is None
    &&& forall|j: int| 0 <= j < i ==> spec_score(#[trigger] similarities[j]) is Some
}

/// The index of the first candidate without a score.
pub open spec fn first_undefined(similarities: Seq<Similarity>) -> int {
    choose|i: int| is_first_undefined(similarities, i)
}

/// The scores of the candidates, in the order of the candidates.
pub open spec fn spec_scores(similarities: Seq<Similarity>) -> Seq<i32> {
    Seq::new(similarities.len(), |i: int| spec_score(similarities[i]).unwrap())
}

/// Computes the score of every candidate, or reports the first candidate
/// that has none.
pub fn scores(similarities: &Vec<Similarity>) -> (result: Result<Vec<i32>, usize>)
    ensures
        match result {
            Ok(scores) => all_defined(similarities@) && scores@ == spec_scores(similarities@),
            Err(index) => {
                &&& !all_defined(similarities@)
                &&& is_first_undefined(similarities@, index as int)
                &&& index == first_undefined(similarities@)
            },
        },
{
    let mut scores: Vec<i32> = Vec::new();
    let mut i: usize = 0;
    while i < similarities.len()
        invariant
            i <= similarities.len(),
            scores.len() == i,
            forall|j: int| 0 <= j < i ==> spec_score(#[trigger] similarities@[j]) == Some(scores@[j]),
        decreases similarities.len() - i,
    {
        match score(similarities[i]) {
            Some(value) => {
                scores.push(value);
            },
            None => {
                proof {
                    let first = first_undefined(similarities@);
                    assert(is_first_undefined(similarities@, i as int));
                    if first < i {
                        assert(spec_score(similarities@[first]) is Some);
                    } else if i < first {
                        assert(spec_score(similarities@[i as int]) is Some);
                    }
                }
                return Err(i);
            },
        }
        i += 1;
    }
    assert(scores@ =~= spec_scores(similarities@));
    Ok(scores)
}

/// Where an entry's turn begins: an assistant's entry is moved one place
/// back, onto the request that it answers, and any other entry keeps its
/// place. An assistant's entry that opens the transcript has no request
/// before it and keeps its place too.
pub open spec fn request_index(chat: Seq<EmbeddedMessage>, n: int) -> int {
    if 0 < n < chat.len() && chat[n].message.role == Role::Assistant {
        n - 1
    } else {
        n
    }
}

/// Moves the index of an entry to where the entry's turn begins.
pub fn request_of(chat: &Vec<EmbeddedMessage>, n: usize) -> (start: usize)
    ensures
        start == request_index(chat@, n as int),
{
    if 0 < n && n < chat.len() && chat[n].message.role == Role::Assistant {
        n - 1
    } else {
        n
    }
}

/// Where the turn of the most similar candidate begins.
pub open spec fn most_similar_turn(chat: Seq<EmbeddedMessage>, scores: Seq<i32>) -> int {
    request_index(chat, most_similar_index(scores))
}

/// Where the turn of the least similar candidate begins.
pub open spec fn least_similar_turn(chat: Seq<EmbeddedMessage>, scores: Seq<i32>) -> int {
    request_index(chat, least_similar_index(scores))
}

/// Where a transcript with the given candidate scores is cut: in front of
/// the turn of the least similar candidate, if the turn of the most similar
/// candidate begins after it, and nowhere otherwise.
pub open spec fn cut_point(chat: Seq<EmbeddedMessage>, scores: Seq<i32>) -> Option<int> {
    if most_similar_turn(chat, scores) <= least_similar_turn(chat, scores) {
        None
    } else {
        Some(least_similar_turn(chat, scores))
    }
}

/// The reason, if any, for which a transcript with these similarities is
/// not split. A transcript shorter than `MIN_SPLIT_LEN` is never at fault:
/// its similarities are not looked at.
pub open spec fn split_error(
    chat: Seq<EmbeddedMessage>,
    similarities: Seq<Similarity>,
) -> Option<SplitError> {
    if chat.len() < MIN_SPLIT_LEN {
        None
    } else if similarities.len() != chat.len() - 2 {
        Some(
            SplitError::SimilarityCount {
                expected: (chat.len() - 2) as usize,
                found: similarities.len() as usize,
            },
        )
    } else if !all_defined(similarities) {
        Some(SplitError::UndefinedSimilarity { index: first_undefined(similarities) as usize })
    } else {
        None
    }
}

/// Where a transcript is cut, given the similarities of its candidates.
pub open spec fn split_point(
    chat: Seq<EmbeddedMessage>,
    similarities: Seq<Similarity>,
) -> Option<int> {
    if chat.len() < MIN_SPLIT_LEN {
        None
    } else {
        cut_point(chat, spec_scores(similarities))
    }
}

/// The part of a transcript that stays current: what stands behind the
/// cut, or all of it where it is not cut.
pub open spec fn current_part(
    chat: Seq<EmbeddedMessage>,
    similarities: Seq<Similarity>,
) -> Seq<EmbeddedMessage> {
    match split_point(chat, similarities) {
        Some(cut) => chat.subrange(cut, chat.len() as int),
        None => chat,
    }
}

/// The part of a transcript that is outdated: what stands in front of the
/// cut, which may be nothing, or `None` where it is not cut.
pub open spec fn outdated_part(
    chat: Seq<EmbeddedMessage>,
    similarities: Seq<Similarity>,
) -> Option<Seq<EmbeddedMessage>> {
    match split_point(chat, similarities) {
        Some(cut) => Some(chat.subrange(0, cut)),
        None => None,
    }
}

/// `current` is an end piece of `chat` that holds its last two entries, or
/// all of it.
pub open spec fn keeps_last_exchange(
    chat: Seq<EmbeddedMessage>,
    current: Seq<EmbeddedMessage>,
) -> bool {
    &&& current.len() <= chat.len()
    &&& current.len() >= 2 || current.len() == chat.len()
    &&& current == chat.subrange(chat.len() - current.len(), chat.len() as int)
}

/// A cut leaves at least the last candidate, the last request and the last
/// response behind it.
pub proof fn lemma_cut_point_bounds(chat: Seq<EmbeddedMessage>, scores: Seq<i32>)
    requires
        scores.len() > 0,
        scores.len() + 2 == chat.len(),
    ensures
        cut_point(chat, scores) matches Some(cut) ==> 0 <= cut <= chat.len() - 3,
{
    lemma_extremes_exist(scores);
}

/// A transcript that is too short to be cut is split without fault and is
/// not cut, whatever the similarities are.
pub proof fn lemma_short_transcript_stays_whole(
    chat: Seq<EmbeddedMessage>,
    similarities: Seq<Similarity>,
)
    requires
        chat.len() < MIN_SPLIT_LEN,
    ensures
        split_error(chat, similarities) is None,
        split_point(chat, similarities) is None,
{
}

/// Wherever a transcript is cut, its last two entries stay in the current
/// part: the cut has at least three entries behind it.
pub proof fn lemma_split_keeps_last_exchange(
    chat: Seq<EmbeddedMessage>,
    similarities: Seq<Similarity>,
)
    requires
        split_error(chat, similarities) is None,
    ensures
        split_point(chat, similarities) matches Some(cut) ==> 0 <= cut <= chat.len() - 3,
        keeps_last_exchange(chat, current_part(chat, similarities)),
{
    assert(chat.subrange(0, chat.len() as int) == chat);
    if chat.len() >= MIN_SPLIT_LEN {
        lemma_cut_point_bounds(chat, spec_scores(similarities));
    }
}

/// A transcript is not cut unless the turn of its most similar candidate
/// begins after the turn of its least similar one.
pub proof fn lemma_no_split_unless_most_follows_least(
    chat: Seq<EmbeddedMessage>,
    similarities: Seq<Similarity>,
)
    requires
        chat.len() >= MIN_SPLIT_LEN,
        most_similar_turn(chat, spec_scores(similarities)) <= least_similar_turn(
            chat,
            spec_scores(similarities),
        ),
    ensures
        split_point(chat, similarities) is None,
        current_part(chat, similarities) == chat,
        outdated_part(chat, similarities) is None,
{
}

/// Splits a transcript into the entries that stay current and those that
/// are outdated.
///
/// `similarities` holds, for each entry but the last two and in the order
/// of the entries, its similarities to the last request and the last
/// response. A transcript of fewer than four entries is returned whole,
/// whatever the similarities are. A longer one is cut in front of the turn
/// of its least similar candidate if the turn of its most similar candidate
/// begins later; else it is returned whole.
pub fn split_chat(chat: Vec<EmbeddedMessage>, similarities: &Vec<Similarity>) -> (result: Result<
    (Vec<EmbeddedMessage>, Option<Vec<EmbeddedMessage>>),
    SplitError,
>)
    ensures
        match result {
            Ok((current, outdated)) => {
                &&& split_error(chat@, similarities@) is None
                &&& current@ == current_part(chat@, similarities@)
                &&& match outdated {
                    Some(outdated) => outdated_part(chat@, similarities@) == Some(outdated@),
                    None => outdated_part(chat@, similarities@) is None,
                }
            },
            Err(error) => split_error(chat@, similarities@) == Some(error),
        },
        chat.len() < MIN_SPLIT_LEN ==> (result matches Ok((current, None)) && current@ == chat@),
        result matches Ok((current, _)) ==> keeps_last_exchange(chat@, current@),
        result matches Ok((current, Some(outdated))) ==> outdated@ + current@ == chat@,
        result is Ok && chat.len() >= MIN_SPLIT_LEN && most_similar_turn(
            chat@,
            spec_scores(similarities@),
        ) <= least_similar_turn(chat@, spec_scores(similarities@)) ==> (result matches Ok(
            (current, None),
        ) && current@ == chat@),
{
    if chat.len() < MIN_SPLIT_LEN {
        assert(chat@.subrange(0, chat@.len() as int) == chat@);
        return Ok((chat, None));
    }
    let candidates: usize = chat.len() - 2;
    if similarities.len() != candidates {
        return Err(SplitError::SimilarityCount { expected: candidates, found: similarities.len() });
    }
    let scores = match scores(similarities) {
        Ok(scores) => scores,
        Err(index) => {
            return Err(SplitError::UndefinedSimilarity { index });
        },
    };
    let most: usize = most_similar(&scores).unwrap();
    let least: usize = least_similar(&scores).unwrap();
    let most_start: usize = request_of(&chat, most);
    let least_start: usize = request_of(&chat, least);
    if most_start <= least_start {
        assert(chat@.subrange(0, chat@.len() as int) == chat@);
        return Ok((chat, None));
    }
    let mut outdated = chat;
    let current = outdated.split_off(least_start);
    proof {
        lemma_cut_point_bounds(chat@, scores@);
    }
    Ok((current, Some(outdated)))
}

} // verus!
