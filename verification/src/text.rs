//! Text measures and predicates used by the validation policy.
//!
//! A text is modelled as its sequence of characters, and its length is the
//! number of characters in that sequence.

use vstd::prelude::*;
use vstd::utf8::encode_utf8;

verus! {

/// A text has no more characters than its UTF-8 encoding has bytes, since
/// every character is encoded in at least one byte.
proof fn lemma_encoding_is_no_shorter(s: Seq<char>)
    ensures
        s.len() <= encode_utf8(s).len(),
    decreases s.len(),
{
    if s.len() > 0 {
        lemma_encoding_is_no_shorter(s.drop_first());
    }
}

/// The number of characters in `s`.
pub fn char_count(s: &str) -> (n: usize)
    ensures
        n == s@.len(),
{
    // The stored bytes bound the count, so the counter cannot overflow.
    let limit: usize = s.as_bytes().len();
    proof {
        lemma_encoding_is_no_shorter(s@);
    }
    let mut n: usize = 0;
    for ch in it: s.chars()
        invariant
            it.seq() == s@,
            n == it.index(),
            s@.len() <= limit,
    {
        n = n + 1;
    }
    n
}

/// Whether the character `c` occurs anywhere in `s`.
pub fn contains_char(s: &str, c: char) -> (found: bool)
    ensures
        found == s@.contains(c),
{
    let mut found = false;
    for ch in it: s.chars()
        invariant
            it.seq() == s@,
            found <==> exists|j: int| 0 <= j < it.index() && s@[j] == c,
    {
        if ch == c {
            found = true;
        }
    }
    found
}

} // verus!
