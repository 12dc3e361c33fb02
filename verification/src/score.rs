//! Similarity scores.
//!
//! How similar two embeddings are is measured outside this crate. The
//! measured values arrive here as bit patterns and are compared by rank.

use vstd::prelude::*;
use crate::single::{rank, spec_rank};

verus! {

/// How similar an earlier entry of a transcript is to the last exchange:
/// the bit patterns of its similarity to the last request and to the last
/// response.
#[derive(Clone, Copy, Debug, PartialEq, Eq, Structural)]
pub struct Similarity {
    /// Similarity to the last request.
    pub request: u32,
    /// Similarity to the last response.
    pub response: u32,
}

/// The score of an entry: the rank of the larger of its two similarities.
/// A NaN gives way to the other value, and the score is undefined only
/// where both are NaN.
pub open spec fn spec_score(s: Similarity) -> Option<i32> {
    match (spec_rank(s.request), spec_rank(s.response)) {
        (Some(a), Some(b)) => Some(if a >= b { a } else { b }),
        (Some(a), None) => Some(a),
        (None, Some(b)) => Some(b),
        (None, None) => None,
    }
}

/// Computes the score of an entry from its two similarities.
pub fn score(s: Similarity) -> (r: Option<i32>)
    ensures
        r == spec_score(s),
{
    match (rank(s.request), rank(s.response)) {
        (Some(a), Some(b)) => Some(if a >= b { a } else { b }),
        (Some(a), None) => Some(a),
        (None, Some(b)) => Some(b),
        (None, None) => None,
    }
}

} // verus!
