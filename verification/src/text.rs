//! Small helpers on text as sequences of characters.

use vstd::prelude::*;
use vstd::std_specs::iter::IteratorSpec;

verus! {

/// Whether `token` stands in `text` at position `at`.
pub open spec fn occurs_at(text: Seq<char>, token: Seq<char>, at: int) -> bool {
    &&& 0 <= at
    &&& at + token.len() <= text.len()
    &&& text.subrange(at, at + token.len()) == token
}

/// Whether `token` stands somewhere in `text`.
pub open spec fn contains(text: Seq<char>, token: Seq<char>) -> bool {
    exists|at: int| occurs_at(text, token, at)
}

/// Collects the characters of `s` into a vector, in order.
pub fn chars_of(s: &str) -> (chars: Vec<char>)
    ensures
        chars@ == s@,
{
    let mut chars: Vec<char> = Vec::new();
    for c in it: s.chars()
        invariant
            chars@ == it.seq().take(it.index()),
            it.seq() == s@,
    {
        chars.push(c);
    }
    chars
}

/// Tells whether `token` stands in `text` at position `at`.
pub fn matches_at(text: &[char], token: &[char], at: usize) -> (found: bool)
    ensures
        found == occurs_at(text@, token@, at as int),
{
    let n: usize = text.len();
    let m: usize = token.len();
    if at > n || m > n - at {
        return false;
    }
    let mut k: usize = 0;
    while k < m
        invariant
            k <= m,
            m == token@.len(),
            n == text@.len(),
            at + m <= n,
            forall|j: int| 0 <= j < k ==> text@[at + j] == token@[j],
        decreases m - k,
    {
        if text[at + k] != token[k] {
            assert(text@.subrange(at as int, at + m)[k as int] != token@[k as int]);
            return false;
        }
        k = k + 1;
    }
    assert(text@.subrange(at as int, at + m) =~= token@);
    true
}

/// Tells whether `token` stands somewhere in `text`. The empty token stands
/// in every text.
pub fn contains_chars(text: &[char], token: &[char]) -> (found: bool)
    ensures
        found == contains(text@, token@),
{
    let n: usize = text.len();
    let m: usize = token.len();
    if m > n {
        return false;
    }
    let last: usize = n - m;
    let mut at: usize = 0;
    while !matches_at(text, token, at)
        invariant
            at <= last,
            last + m == n,
            n == text@.len(),
            m == token@.len(),
            forall|j: int| 0 <= j < at ==> !occurs_at(text@, token@, j),
        decreases last - at,
    {
        if at == last {
            return false;
        }
        at = at + 1;
    }
    assert(occurs_at(text@, token@, at as int));
    true
}

} // verus!
