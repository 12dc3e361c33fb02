//! Validation of the key that unlocks the completion service.
//!
//! A key is the prefix `sk-` followed by a secret of 40 to 50 ASCII letters
//! and digits.

use vstd::prelude::*;
use crate::text::{blank, is_blank};

verus! {

/// The number of characters in the prefix of a key.
pub const PREFIX_LEN: usize = 3;

/// The least number of characters that may follow the prefix.
pub const MIN_SECRET_LEN: usize = 40;

/// The greatest number of characters that may follow the prefix.
pub const MAX_SECRET_LEN: usize = 50;

/// Why a text is not accepted as a key. The variants stand in the order in
/// which the faults are looked for: a text with several faults is rejected
/// for the first of them.
#[derive(Clone, Copy, Debug, PartialEq, Eq, Structural)]
pub enum ApiKeyError {
    /// The text is empty.
    Empty,
    /// The text holds nothing but white space.
    Blank,
    /// The text does not start with `sk-`.
    MissingPrefix,
    /// The first character after the prefix that is neither an ASCII letter
    /// nor an ASCII digit.
    InvalidCharacter { character: char },
    /// Fewer than `MIN_SECRET_LEN` characters follow the prefix.
    TooShort,
    /// More than `MAX_SECRET_LEN` characters follow the prefix.
    TooLong,
}

/// The prefix that every key starts with.
pub open spec fn prefix() -> Seq<char> {
    seq!['s', 'k', '-']
}

/// Whether `key` starts with the prefix.
pub open spec fn has_prefix(key: Seq<char>) -> bool {
    key.len() >= PREFIX_LEN && key.subrange(0, PREFIX_LEN as int) == prefix()
}

/// Whether `c` is an ASCII letter or an ASCII digit.
pub open spec fn is_ascii_alphanumeric(c: char) -> bool {
    ||| '0' <= c <= '9'
    ||| 'A' <= c <= 'Z'
    ||| 'a' <= c <= 'z'
}

/// `i` is the place of the first character after the prefix that may not
/// stand in a key.
pub open spec fn is_first_invalid(key: Seq<char>, i: int) -> bool {
    &&& PREFIX_LEN <= i < key.len()
    &&& !is_ascii_alphanumeric(key[i])
    &&& forall|j: int| PREFIX_LEN <= j < i ==> is_ascii_alphanumeric(#[trigger] key[j])
}

/// Whether some character after the prefix may not stand in a key.
pub open spec fn has_invalid(key: Seq<char>) -> bool {
    exists|i: int| is_first_invalid(key, i)
}

/// The place of the first character after the prefix that may not stand in
/// a key.
pub open spec fn first_invalid(key: Seq<char>) -> int {
    choose|i: int| is_first_invalid(key, i)
}

/// The fault for which `key` is rejected, or `None` if it is accepted.
pub open spec fn api_key_error(key: Seq<char>) -> Option<ApiKeyError> {
    if key.len() == 0 {
        Some(ApiKeyError::Empty)
    } else if is_blank(key) {
        Some(ApiKeyError::Blank)
    } else if !has_prefix(key) {
        Some(ApiKeyError::MissingPrefix)
    } else if has_invalid(key) {
        Some(ApiKeyError::InvalidCharacter { character: key[first_invalid(key)] })
    } else if key.len() - PREFIX_LEN < MIN_SECRET_LEN {
        Some(ApiKeyError::TooShort)
    } else if key.len() - PREFIX_LEN > MAX_SECRET_LEN {
        Some(ApiKeyError::TooLong)
    } else {
        None
    }
}

/// Decides whether `c` is an ASCII letter or an ASCII digit.
pub fn ascii_alphanumeric(c: char) -> (b: bool)
    ensures
        b == is_ascii_alphanumeric(c),
{
    ('0' <= c && c <= '9') || ('A' <= c && c <= 'Z') || ('a' <= c && c <= 'z')
}

/// Decides whether `key` starts with the prefix.
pub fn starts_with_prefix(key: &str) -> (b: bool)
    ensures
        b == has_prefix(key@),
{
    let n: usize = key.unicode_len();
    if n < PREFIX_LEN {
        return false;
    }
    let b = key.get_char(0) == 's' && key.get_char(1) == 'k' && key.get_char(2) == '-';
    proof {
        if b {
            assert(key@.subrange(0, PREFIX_LEN as int) =~= prefix());
        } else {
            assert(key@.subrange(0, PREFIX_LEN as int)[0] == key@[0]);
            assert(key@.subrange(0, PREFIX_LEN as int)[1] == key@[1]);
            assert(key@.subrange(0, PREFIX_LEN as int)[2] == key@[2]);
        }
    }
    b
}

/// Finds the first character after the prefix that may not stand in a key.
pub fn find_invalid(key: &str) -> (found: Option<char>)
    ensures
        found is Some == has_invalid(key@),
        found matches Some(c) ==> c == key@[first_invalid(key@)],
{
    let n: usize = key.unicode_len();
    let mut i: usize = 0;
    for c in it: key.chars()
        invariant
            it.seq() == key@,
            n == key@.len(),
            i == it.index(),
            forall|j: int| PREFIX_LEN <= j < i ==> is_ascii_alphanumeric(#[trigger] key@[j]),
    {
        if i >= PREFIX_LEN && !ascii_alphanumeric(c) {
            proof {
                assert(is_first_invalid(key@, i as int));
                let first = first_invalid(key@);
                if first < i {
                    assert(is_ascii_alphanumeric(key@[first]));
                } else if i < first {
                    assert(is_ascii_alphanumeric(key@[i as int]));
                }
            }
            return Some(c);
        }
        i += 1;
    }
    proof {
        if has_invalid(key@) {
            let first = first_invalid(key@);
            assert(is_ascii_alphanumeric(key@[first]));
        }
    }
    None
}

/// Accepts `api_key` and returns it, or says why it is rejected.
pub fn api_key_parser(api_key: &str) -> (result: Result<String, ApiKeyError>)
    ensures
        match result {
            Ok(key) => api_key_error(api_key@) is None && key@ == api_key@,
            Err(error) => api_key_error(api_key@) == Some(error),
        },
{
    if api_key.is_empty() {
        return Err(ApiKeyError::Empty);
    }
    if blank(api_key) {
        return Err(ApiKeyError::Blank);
    }
    if !starts_with_prefix(api_key) {
        return Err(ApiKeyError::MissingPrefix);
    }
    if let Some(character) = find_invalid(api_key) {
        return Err(ApiKeyError::InvalidCharacter { character });
    }
    let secret_len: usize = api_key.unicode_len() - PREFIX_LEN;
    if secret_len < MIN_SECRET_LEN {
        return Err(ApiKeyError::TooShort);
    }
    if secret_len > MAX_SECRET_LEN {
        return Err(ApiKeyError::TooLong);
    }
    Ok(api_key.to_owned())
}

} // verus!
