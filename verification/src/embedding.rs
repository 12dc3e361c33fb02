//! Acceptance of what the embedding service answers.

use vstd::prelude::*;

verus! {

/// The number of coordinates that every embedding of the service has.
pub const EMBEDDING_LENGTH: usize = 1536;

/// Why an answer of the embedding service is not accepted.
#[derive(Clone, Copy, Debug, PartialEq, Eq, Structural)]
pub enum EmbeddingError {
    /// The answer holds no embedding at all.
    Missing,
    /// The first embedding of the answer has `found` coordinates.
    WrongLength { found: usize },
}

/// The fault for which an answer is rejected, or `None` if its first
/// embedding is accepted. Only the first embedding of an answer counts.
pub open spec fn embedding_error(data: Seq<Vec<u32>>) -> Option<EmbeddingError> {
    if data.len() == 0 {
        Some(EmbeddingError::Missing)
    } else if data[0].len() != EMBEDDING_LENGTH {
        Some(EmbeddingError::WrongLength { found: data[0].len() })
    } else {
        None
    }
}

/// Takes the first embedding out of an answer of the embedding service,
/// provided it has `EMBEDDING_LENGTH` coordinates.
pub fn accept_embedding(data: Vec<Vec<u32>>) -> (result: Result<Vec<u32>, EmbeddingError>)
    ensures
        match result {
            Ok(embedding) => embedding_error(data@) is None && embedding == data@[0],
            Err(error) => embedding_error(data@) == Some(error),
        },
{
    let mut data = data;
    if data.len() == 0 {
        return Err(EmbeddingError::Missing);
    }
    let first = data.swap_remove(0);
    if first.len() != EMBEDDING_LENGTH {
        return Err(EmbeddingError::WrongLength { found: first.len() });
    }
    Ok(first)
}

} // verus!
