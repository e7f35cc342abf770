//! Characters and character sequences: the two notions of blank space that the
//! dialect knows, trimming, and the search for a fixed piece of text.
//!
//! A document is handled as a sequence of characters (`Seq<char>` in
//! contracts, `[char]` in code), so that every position is a character
//! position, whatever the characters are.

use vstd::prelude::*;
use vstd::slice::slice_subrange;
use vstd::string::StrSliceExecFns;

verus! {

/// `String::push` appends one character at the end of the string and changes
/// nothing else.
pub assume_specification[ String::push ](s: &mut String, ch: char)
    ensures
        final(s)@ == old(s)@.push(ch),
;

/// Blank space between tokens: space, tab, carriage return, line feed.
pub open spec fn is_multispace(c: char) -> bool {
    c == ' ' || c == '\t' || c == '\r' || c == '\n'
}

/// Blank space that trimming removes: the characters with the Unicode
/// property `White_Space`.
pub open spec fn is_whitespace(c: char) -> bool {
    ||| '\u{9}' <= c <= '\u{D}'
    ||| c == ' '
    ||| c == '\u{85}'
    ||| c == '\u{A0}'
    ||| c == '\u{1680}'
    ||| '\u{2000}' <= c <= '\u{200A}'
    ||| c == '\u{2028}'
    ||| c == '\u{2029}'
    ||| c == '\u{202F}'
    ||| c == '\u{205F}'
    ||| c == '\u{3000}'
}

/// The first position at or after `from` that holds no multispace character
/// (the length of `s` if there is none).
pub open spec fn multispace_end(s: Seq<char>, from: int) -> int
    decreases s.len() - from,
{
    if 0 <= from < s.len() && is_multispace(s[from]) {
        multispace_end(s, from + 1)
    } else {
        from
    }
}

/// `s` without its leading multispace characters.
pub open spec fn skip_multispace(s: Seq<char>) -> Seq<char> {
    s.skip(multispace_end(s, 0))
}

/// The first position at or after `from` that holds no whitespace (the
/// length of `s` if there is none).
pub open spec fn whitespace_end(s: Seq<char>, from: int) -> int
    decreases s.len() - from,
{
    if 0 <= from < s.len() && is_whitespace(s[from]) {
        whitespace_end(s, from + 1)
    } else {
        from
    }
}

/// The position after the last character before `to` that is no whitespace,
/// not going below `low`.
pub open spec fn whitespace_start(s: Seq<char>, low: int, to: int) -> int
    decreases to - low,
{
    if low < to <= s.len() && is_whitespace(s[to - 1]) {
        whitespace_start(s, low, to - 1)
    } else {
        to
    }
}

/// `s` without its leading and trailing whitespace.
pub open spec fn trim(s: Seq<char>) -> Seq<char> {
    let from = whitespace_end(s, 0);
    s.subrange(from, whitespace_start(s, from, s.len() as int))
}

/// Whether `pat` stands in `s` at position `at`.
pub open spec fn has_at(s: Seq<char>, at: int, pat: Seq<char>) -> bool {
    0 <= at && at + pat.len() <= s.len() && s.subrange(at, at + pat.len()) == pat
}

/// The first position at or after `from` at which `pat` stands in `s`.
pub open spec fn find_from(s: Seq<char>, from: int, pat: Seq<char>) -> Option<int>
    decreases s.len() - from,
{
    if from < 0 || from + pat.len() > s.len() {
        None
    } else if has_at(s, from, pat) {
        Some(from)
    } else if from < s.len() {
        find_from(s, from + 1, pat)
    } else {
        None
    }
}

/// Skipping multispace goes forwards, and not beyond the end of the text.
pub proof fn lemma_multispace_end_bounds(s: Seq<char>, from: int)
    requires
        0 <= from <= s.len(),
    ensures
        from <= multispace_end(s, from) <= s.len(),
    decreases s.len() - from,
{
    if from < s.len() && is_multispace(s[from]) {
        lemma_multispace_end_bounds(s, from + 1);
    }
}

/// Tells whether `c` is a multispace character.
pub fn multispace(c: char) -> (r: bool)
    ensures
        r == is_multispace(c),
{
    c == ' ' || c == '\t' || c == '\r' || c == '\n'
}

/// Tells whether `c` is whitespace.
pub fn whitespace(c: char) -> (r: bool)
    ensures
        r == is_whitespace(c),
{
    ('\u{9}' <= c && c <= '\u{D}') || c == ' ' || c == '\u{85}' || c == '\u{A0}' || c
        == '\u{1680}' || ('\u{2000}' <= c && c <= '\u{200A}') || c == '\u{2028}' || c
        == '\u{2029}' || c == '\u{202F}' || c == '\u{205F}' || c == '\u{3000}'
}

/// The characters of `s`, one by one.
pub fn to_chars(s: &str) -> (r: Vec<char>)
    ensures
        r@ == s@,
{
    let mut r: Vec<char> = Vec::new();
    for c in it: s.chars()
        invariant
            r@ == it.seq().take(it.index() as int),
            it.seq() == s@,
    {
        r.push(c);
    }
    r
}

/// A string made of the characters of `chars`.
pub fn from_chars(chars: &[char]) -> (r: String)
    ensures
        r@ == chars@,
{
    let mut r = String::new();
    let mut i: usize = 0;
    while i < chars.len()
        invariant
            i <= chars.len(),
            r@ == chars@.take(i as int),
        decreases chars.len() - i,
    {
        r.push(chars[i]);
        i += 1;
        assert(chars@.take(i as int) =~= chars@.take(i - 1).push(chars@[i - 1]));
    }
    assert(chars@.take(i as int) =~= chars@);
    r
}

/// Drops the leading multispace characters of `input`.
pub fn skip_blank(input: &[char]) -> (r: &[char])
    ensures
        r@ == skip_multispace(input@),
        r@.len() <= input@.len(),
{
    proof {
        lemma_multispace_end_bounds(input@, 0);
    }
    let mut i: usize = 0;
    while i < input.len() && multispace(input[i])
        invariant
            i <= input.len(),
            multispace_end(input@, 0) == multispace_end(input@, i as int),
        decreases input.len() - i,
    {
        i += 1;
    }
    slice_subrange(input, i, input.len())
}

/// Drops the leading and trailing whitespace of `input`.
pub fn trim_chars(input: &[char]) -> (r: &[char])
    ensures
        r@ == trim(input@),
{
    let mut from: usize = 0;
    while from < input.len() && whitespace(input[from])
        invariant
            from <= input.len(),
            whitespace_end(input@, 0) == whitespace_end(input@, from as int),
        decreases input.len() - from,
    {
        from += 1;
    }
    let mut to: usize = input.len();
    while from < to && whitespace(input[to - 1])
        invariant
            from <= to <= input.len(),
            whitespace_start(input@, from as int, input.len() as int) == whitespace_start(
                input@,
                from as int,
                to as int,
            ),
        decreases to - from,
    {
        to -= 1;
    }
    slice_subrange(input, from, to)
}

/// Tells whether `pat` stands in `input` at position `at`.
pub fn matches_at(input: &[char], at: usize, pat: &str) -> (r: bool)
    ensures
        r == has_at(input@, at as int, pat@),
{
    let n = pat.unicode_len();
    if at > input.len() || n > input.len() - at {
        return false;
    }
    let mut k: usize = 0;
    while k < n
        invariant
            k <= n,
            n == pat@.len(),
            at + n <= input.len(),
            forall|j: int| 0 <= j < k ==> input@[at + j] == pat@[j],
        decreases n - k,
    {
        if input[at + k] != pat.get_char(k) {
            assert(input@.subrange(at as int, at + n)[k as int] != pat@[k as int]);
            return false;
        }
        k += 1;
    }
    assert(input@.subrange(at as int, at + n) =~= pat@);
    true
}

/// Finds the first position at or after `from` at which `pat` stands in
/// `input`.
pub fn find(input: &[char], from: usize, pat: &str) -> (r: Option<usize>)
    ensures
        match r {
            Some(at) => find_from(input@, from as int, pat@) == Some(at as int),
            None => find_from(input@, from as int, pat@) is None,
        },
{
    let n = pat.unicode_len();
    let mut at: usize = from;
    while at < input.len() && n <= input.len() - at
        invariant
            from <= at,
            n == pat@.len(),
            find_from(input@, from as int, pat@) == find_from(input@, at as int, pat@),
        decreases input.len() - at,
    {
        if matches_at(input, at, pat) {
            return Some(at);
        }
        at += 1;
    }
    if matches_at(input, at, pat) {
        Some(at)
    } else {
        None
    }
}

} // verus!
