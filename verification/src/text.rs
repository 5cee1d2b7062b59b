//! Reading a module name.
//!
//! A module name is made of tokens with `_` between them, as in
//! `ESP01_SHRGB_03`. The second token is the identifier: it holds the words
//! that tell the kind of the device.

use vstd::prelude::*;

verus! {

/// The character between two tokens.
pub const SEPARATOR: char = '_';

/// Where the token that starts at `start` ends: at the next separator, or at
/// the end of the text.
pub open spec fn token_end(text: Seq<char>, start: int) -> int
    decreases text.len() - start,
{
    if start >= text.len() || text[start] == SEPARATOR {
        start
    } else {
        token_end(text, start + 1)
    }
}

/// The second token of `text`, if `text` has a separator at all. It is
/// empty where another separator, or nothing, follows the first.
pub open spec fn identifier_of(text: Seq<char>) -> Option<Seq<char>> {
    let first = token_end(text, 0);
    if first >= text.len() {
        None
    } else {
        Some(text.subrange(first + 1, token_end(text, first + 1)))
    }
}

/// `needle` stands in `hay` at the place `at`.
pub open spec fn occurs_at(hay: Seq<char>, needle: Seq<char>, at: int) -> bool {
    0 <= at && at + needle.len() <= hay.len() && hay.subrange(at, at + needle.len()) == needle
}

/// `needle` stands somewhere in `hay`.
pub open spec fn contains_text(hay: Seq<char>, needle: Seq<char>) -> bool {
    exists|at: int| occurs_at(hay, needle, at)
}

/// A token holds no separator, and it ends at one or at the end of the text.
pub proof fn lemma_token_end(text: Seq<char>, start: int)
    requires
        0 <= start <= text.len(),
    ensures
        start <= token_end(text, start) <= text.len(),
        forall|k: int| start <= k < token_end(text, start) ==> text[k] != SEPARATOR,
        token_end(text, start) < text.len() ==> text[token_end(text, start)] == SEPARATOR,
    decreases text.len() - start,
{
    if start < text.len() && text[start] != SEPARATOR {
        lemma_token_end(text, start + 1);
    }
}

/// A text without a separator has no identifier, and any other has one.
pub proof fn lemma_identifier_exists(text: Seq<char>)
    ensures
        identifier_of(text) is Some <==> text.contains(SEPARATOR),
{
    lemma_token_end(text, 0);
    let first = token_end(text, 0);
    if first < text.len() {
        assert(text[first] == SEPARATOR);
    }
}

/// The characters of `s`, in order.
pub fn chars_of(s: &str) -> (v: Vec<char>)
    ensures
        v@ == s@,
{
    let mut v: Vec<char> = Vec::new();
    for c in it: s.chars()
        invariant
            it.seq() == s@,
            v@ == it.seq().take(it.index() as int),
    {
        v.push(c);
    }
    v
}

/// Finds where the token that starts at `start` ends.
pub fn find_token_end(text: &Vec<char>, start: usize) -> (end: usize)
    requires
        start <= text@.len(),
    ensures
        end == token_end(text@, start as int),
        start <= end <= text@.len(),
{
    let mut at: usize = start;
    while at < text.len() && text[at] != SEPARATOR
        invariant
            start <= at <= text@.len(),
            token_end(text@, start as int) == token_end(text@, at as int),
        decreases text@.len() - at,
    {
        at = at + 1;
    }
    at
}

/// The second token of a module name, if the name has a separator.
pub fn identifier(text: &Vec<char>) -> (r: Option<Vec<char>>)
    ensures
        match r {
            Some(token) => identifier_of(text@) == Some(token@),
            None => identifier_of(text@) is None,
        },
{
    let first = find_token_end(text, 0);
    if first >= text.len() {
        return None;
    }
    let start: usize = first + 1;
    let end = find_token_end(text, start);
    let mut token: Vec<char> = Vec::new();
    let mut at: usize = start;
    while at < end
        invariant
            start <= at <= end <= text@.len(),
            token@ == text@.subrange(start as int, at as int),
        decreases end - at,
    {
        token.push(text[at]);
        at = at + 1;
    }
    Some(token)
}

/// Whether `needle` stands in `hay` at the place `at`.
pub fn matches_at(hay: &Vec<char>, needle: &Vec<char>, at: usize) -> (r: bool)
    requires
        at + needle@.len() <= hay@.len(),
    ensures
        r == occurs_at(hay@, needle@, at as int),
{
    let hay_len: usize = hay.len();
    let needle_len: usize = needle.len();
    let mut k: usize = 0;
    while k < needle_len
        invariant
            k <= needle_len == needle@.len(),
            at + needle_len <= hay_len == hay@.len(),
            forall|j: int| 0 <= j < k ==> hay@[at + j] == needle@[j],
        decreases needle_len - k,
    {
        if hay[at + k] != needle[k] {
            assert(hay@.subrange(at as int, at + needle@.len())[k as int] != needle@[k as int]);
            return false;
        }
        k = k + 1;
    }
    assert(hay@.subrange(at as int, at + needle@.len()) =~= needle@);
    true
}

/// Whether `needle` stands somewhere in `hay`.
pub fn has_text(hay: &Vec<char>, needle: &Vec<char>) -> (r: bool)
    ensures
        r == contains_text(hay@, needle@),
{
    if needle.len() > hay.len() {
        return false;
    }
    let last: usize = hay.len() - needle.len();
    let mut at: usize = 0;
    while at < last
        invariant
            at <= last,
            last == hay@.len() - needle@.len(),
            forall|j: int| 0 <= j < at ==> !occurs_at(hay@, needle@, j),
        decreases last - at,
    {
        if matches_at(hay, needle, at) {
            return true;
        }
        at = at + 1;
    }
    matches_at(hay, needle, last)
}

} // verus!
