//! What the scanner makes of the texts that the serializer writes: one
//! lemma for each kind of token.

use crate::canonical::{
    begins_banner, is_atom, is_comment, is_comment_text, is_plain_word, is_quoted, is_scalar,
};
use crate::end_reason::PlistIResultEndReason;
use crate::scanner::{
    banner, banner_tag, ends_in_section, is_delimiter, lemma_multispace_end_shift, next_token,
    piece, scan_from, section_name, ScanModel, Span, Token,
};
use crate::serializer::comment_suffix;
use crate::text::{
    find_from, has_at, is_multispace, is_whitespace, lemma_multispace_end_bounds, multispace_end,
    skip_multispace, trim, whitespace_end, whitespace_start,
};
use vstd::prelude::*;

verus! {

/// The state behind the text of a token: the text began at position 0 and
/// has not ended.
pub open spec fn after_text(phase: int) -> ScanModel {
    ScanModel {
        in_quote: false,
        phase,
        comment: Span::unset(),
        value: Span { begin: Some(0), end: None },
    }
}

/// The state inside the quotes of a text that began at position 0.
pub open spec fn in_quotes() -> ScanModel {
    ScanModel {
        in_quote: true,
        phase: 0,
        comment: Span::unset(),
        value: Span { begin: Some(0), end: None },
    }
}

/// A character that does not end the token is taken in, and the scan goes
/// on behind it.
pub proof fn lemma_scan_step(t: Seq<char>, i: int, st: ScanModel)
    requires
        0 <= i < t.len(),
        !(st.open() && is_delimiter(t[i])),
    ensures
        scan_from(t, i, st) == scan_from(t, i + 1, st.step(t, i)),
{
}

/// The scan passes over the rest of a plain word.
proof fn lemma_plain_from(t: Seq<char>, k: int, i: int, p: int) -> (q: int)
    requires
        0 < i <= k <= t.len(),
        is_plain_word(t.take(k)),
        p == 0 || p == 1,
        p == 1 ==> t[i - 1] == '/',
    ensures
        q == 0 || q == 1,
        scan_from(t, i, after_text(p)) == scan_from(t, k, after_text(q)),
    decreases k - i,
{
    if i == k {
        p
    } else {
        let a = t.take(k);
        assert(a[i] == t[i]);
        assert(a[i - 1] == t[i - 1]);
        assert(!is_delimiter(a[i]) && a[i] != ' ' && a[i] != '"');
        assert(!(a[i - 1] == '/' && a[i] == '*'));
        let turned: int = if t[i] == '/' {
            1
        } else {
            0
        };
        lemma_scan_step(t, i, after_text(p));
        assert(after_text(p).step(t, i) == after_text(turned));
        lemma_plain_from(t, k, i + 1, turned)
    }
}

/// The scan passes over the inside of a text in quotes and its closing
/// quote.
proof fn lemma_quoted_from(t: Seq<char>, k: int, i: int)
    requires
        0 < i < k <= t.len(),
        is_quoted(t.take(k)),
    ensures
        scan_from(t, i, in_quotes()) == scan_from(t, k, after_text(0)),
    decreases k - i,
{
    let a = t.take(k);
    assert(a[i] == t[i]);
    assert(a[i - 1] == t[i - 1]);
    lemma_scan_step(t, i, in_quotes());
    if i == k - 1 {
        assert(a[k - 1] == '"' && a[k - 2] != '\\');
        assert(in_quotes().step(t, i) == after_text(0));
    } else {
        assert(a[i] == '"' ==> a[i - 1] == '\\');
        assert(in_quotes().step(t, i) == in_quotes());
        lemma_quoted_from(t, k, i + 1);
    }
}

/// The scan passes over a name or a value that stands at the beginning of
/// the text.
pub proof fn lemma_scan_atom(t: Seq<char>, k: int) -> (q: int)
    requires
        0 < k <= t.len(),
        is_atom(t.take(k)),
    ensures
        q == 0 || q == 1,
        scan_from(t, 0, ScanModel::start()) == scan_from(t, k, after_text(q)),
{
    let a = t.take(k);
    assert(a[0] == t[0]);
    if is_plain_word(a) {
        assert(!is_delimiter(a[0]) && a[0] != ' ' && a[0] != '"');
        lemma_scan_step(t, 0, ScanModel::start());
        let turned: int = if t[0] == '/' {
            1
        } else {
            0
        };
        assert(ScanModel::start().step(t, 0) == after_text(turned));
        lemma_plain_from(t, k, 1, turned)
    } else {
        lemma_scan_step(t, 0, ScanModel::start());
        assert(ScanModel::start().step(t, 0) == in_quotes());
        lemma_quoted_from(t, k, 1);
        0
    }
}

/// The state behind a text that stands from position 0 up to `k`.
pub open spec fn text_done(k: int, phase: int) -> ScanModel {
    ScanModel {
        in_quote: false,
        phase,
        comment: Span::unset(),
        value: Span { begin: Some(0), end: Some(k) },
    }
}

/// The state inside the comment behind a text that stands up to `k`.
pub open spec fn in_comment(k: int, begin: Option<int>) -> ScanModel {
    ScanModel {
        in_quote: false,
        phase: 2,
        comment: Span { begin, end: None },
        value: Span { begin: Some(0), end: Some(k) },
    }
}

/// The state behind the comment.
pub open spec fn comment_done(k: int, begin: int, end: int, phase: int) -> ScanModel {
    ScanModel {
        in_quote: false,
        phase,
        comment: Span { begin: Some(begin), end: Some(end) },
        value: Span { begin: Some(0), end: Some(k) },
    }
}

/// Trimming leaves a text as it is that has no whitespace at its ends.
pub proof fn lemma_trim_comment_text(c: Seq<char>)
    requires
        is_comment_text(c),
    ensures
        trim(c) == c,
{
    assert(whitespace_end(c, 0) == 0);
    assert(whitespace_start(c, 0, c.len() as int) == c.len());
    assert(c.subrange(0, c.len() as int) =~= c);
}

/// The scan passes over the text of a comment.
proof fn lemma_comment_body(t: Seq<char>, k: int, b: int, j: int, c: Seq<char>)
    requires
        0 <= b,
        0 <= j <= c.len(),
        b + c.len() < t.len(),
        is_comment_text(c),
        forall|q: int| 0 <= q < c.len() ==> t[b + q] == #[trigger] c[q],
        t[b + c.len()] == ' ',
    ensures
        scan_from(
            t,
            b + j,
            in_comment(
                k,
                if j == 0 {
                    None
                } else {
                    Some(b)
                },
            ),
        ) == scan_from(
            t,
            b + c.len(),
            in_comment(
                k,
                if c.len() == 0 {
                    None
                } else {
                    Some(b)
                },
            ),
        ),
    decreases c.len() - j,
{
    if j < c.len() {
        let st = in_comment(
            k,
            if j == 0 {
                None
            } else {
                Some(b)
            },
        );
        assert(t[b + j] == c[j]);
        if j == 0 {
            assert(!is_whitespace(c[0]));
        }
        if j < c.len() - 1 {
            assert(t[b + j + 1] == c[j + 1]);
            assert(!(c[j] == '*' && c[j + 1] == '/'));
        }
        lemma_scan_step(t, b + j, st);
        assert(st.step(t, b + j) == in_comment(k, Some(b)));
        lemma_comment_body(t, k, b, j + 1, c);
    }
}

/// Where a text stands, its characters stand one by one.
pub proof fn lemma_has_at_chars(t: Seq<char>, k: int, pat: Seq<char>)
    requires
        has_at(t, k, pat),
    ensures
        forall|q: int| 0 <= q < pat.len() ==> t[k + q] == #[trigger] pat[q],
{
    assert forall|q: int| 0 <= q < pat.len() implies t[k + q] == #[trigger] pat[q] by {
        assert(t.subrange(k, k + pat.len())[q] == t[k + q]);
    }
}

/// The space that may stand between a key and its `=`.
pub open spec fn pad_text(pad: bool) -> Seq<char> {
    if pad {
        seq![' ']
    } else {
        Seq::empty()
    }
}

/// Behind a name or a value: the comment that may follow it, then the
/// delimiter `d`, with a space before it where `pad` is set. The token has
/// the text, the comment and the tag of `d`, and what stands behind `d` is
/// left.
pub proof fn lemma_scan_tail(
    t: Seq<char>,
    k: int,
    p: int,
    c: Option<Seq<char>>,
    pad: bool,
    d: char,
)
    requires
        0 <= k,
        p == 0 || p == 1,
        is_comment(c),
        d == ';' || d == ',' || d == '=',
        has_at(t, k, comment_suffix(c) + pad_text(pad) + seq![d]),
    ensures
        scan_from(t, k, after_text(p)) == (Token {
            text: t.take(k),
            comment: c,
            reason: PlistIResultEndReason::of_char(d),
            rest: t.skip(k + comment_suffix(c).len() + pad_text(pad).len() + 1),
        }),
{
    reveal_strlit(" ");
    reveal_strlit("/* ");
    reveal_strlit(" */");
    let follow = comment_suffix(c) + pad_text(pad) + seq![d];
    lemma_has_at_chars(t, k, follow);
    assert(piece(t, 0, k) =~= t.take(k));
    match c {
        None => {
            assert(comment_suffix(c).len() == 0);
            if pad {
                assert(follow[0] == ' ' && follow[1] == d);
                assert(t[k] == ' ' && t[k + 1] == d);
                lemma_scan_step(t, k, after_text(p));
                assert(after_text(p).step(t, k) == text_done(k, 0));
            } else {
                assert(follow[0] == d);
                assert(t[k] == d);
            }
        },
        Some(text) => {
            let n = text.len() as int;
            let suffix = comment_suffix(c);
            assert(suffix =~= seq![' ', '/', '*', ' '] + text + seq![' ', '*', '/']);
            assert(suffix.len() == n + 7);
            assert(forall|q: int| 0 <= q < suffix.len() ==> follow[q] == suffix[q]);
            assert(follow[0] == ' ' && follow[1] == '/' && follow[2] == '*' && follow[3] == ' ');
            assert(t[k] == ' ' && t[k + 1] == '/' && t[k + 2] == '*' && t[k + 3] == ' ');
            let b = k + 4;
            assert forall|q: int| 0 <= q < n implies t[b + q] == #[trigger] text[q] by {
                assert(follow[4 + q] == suffix[4 + q]);
                assert(t[k + (4 + q)] == follow[4 + q]);
            }
            assert(follow[n + 4] == suffix[n + 4] && follow[n + 5] == suffix[n + 5] && follow[n + 6]
                == suffix[n + 6]);
            assert(t[k + (n + 4)] == ' ' && t[k + (n + 5)] == '*' && t[k + (n + 6)] == '/');
            lemma_scan_step(t, k, after_text(p));
            assert(after_text(p).step(t, k) == text_done(k, 0));
            lemma_scan_step(t, k + 1, text_done(k, 0));
            assert(text_done(k, 0).step(t, k + 1) == text_done(k, 1));
            lemma_scan_step(t, k + 2, text_done(k, 1));
            assert(text_done(k, 1).step(t, k + 2) == in_comment(k, None));
            lemma_scan_step(t, k + 3, in_comment(k, None));
            assert(in_comment(k, None).step(t, k + 3) == in_comment(k, None));
            lemma_comment_body(t, k, b, 0, text);
            let begin: Option<int> = if n == 0 {
                None
            } else {
                Some(b)
            };
            lemma_scan_step(t, b + n, in_comment(k, begin));
            assert(in_comment(k, begin).step(t, b + n) == in_comment(k, begin));
            lemma_scan_step(t, b + n + 1, in_comment(k, begin));
            let cb: int = if n == 0 {
                b + n + 1
            } else {
                b
            };
            assert(in_comment(k, begin).step(t, b + n + 1) == comment_done(k, cb, b + n, 0));
            lemma_scan_step(t, b + n + 2, comment_done(k, cb, b + n, 0));
            assert(comment_done(k, cb, b + n, 0).step(t, b + n + 2) == comment_done(
                k,
                cb,
                b + n,
                1,
            ));
            let e = b + n + 3;
            lemma_trim_comment_text(text);
            if n == 0 {
                assert(piece(t, cb, b + n) =~= text);
            } else {
                assert(piece(t, cb, b + n) =~= text);
            }
            if pad {
                assert(follow[n + 7] == ' ' && follow[n + 8] == d);
                assert(t[k + (n + 7)] == ' ' && t[k + (n + 8)] == d);
                lemma_scan_step(t, e, comment_done(k, cb, b + n, 1));
                assert(comment_done(k, cb, b + n, 1).step(t, e) == comment_done(k, cb, b + n, 0));
            } else {
                assert(follow[n + 7] == d);
                assert(t[k + (n + 7)] == d);
            }
        },
    }
}

/// A text of multispace characters only.
pub open spec fn is_blank(lead: Seq<char>) -> bool {
    forall|i: int| 0 <= i < lead.len() ==> is_multispace(#[trigger] lead[i])
}

/// Skipping multispace in a text that begins with multispace goes on behind
/// that beginning.
proof fn lemma_blank_end(lead: Seq<char>, x: Seq<char>, i: int)
    requires
        is_blank(lead),
        0 <= i <= lead.len(),
    ensures
        multispace_end(lead + x, i) == lead.len() + multispace_end(x, 0),
    decreases lead.len() - i,
{
    let s = lead + x;
    if i < lead.len() {
        assert(s[i] == lead[i]);
        lemma_blank_end(lead, x, i + 1);
    } else {
        assert(s.skip(i) =~= x);
        lemma_multispace_end_shift(s, i, 0);
    }
}

/// Multispace before a text does not change what is left when multispace is
/// skipped.
pub proof fn lemma_skip_lead(lead: Seq<char>, x: Seq<char>)
    requires
        is_blank(lead),
    ensures
        skip_multispace(lead + x) == skip_multispace(x),
        next_token(lead + x) == next_token(x),
{
    lemma_blank_end(lead, x, 0);
    lemma_multispace_end_bounds(x, 0);
    assert((lead + x).skip(lead.len() + multispace_end(x, 0)) =~= x.skip(multispace_end(x, 0)));
}

/// A text that does not begin with multispace loses nothing when multispace
/// is skipped.
pub proof fn lemma_skip_nothing(t: Seq<char>)
    requires
        t.len() == 0 || !is_multispace(t[0]),
    ensures
        skip_multispace(t) == t,
{
    assert(t.skip(0) =~= t);
}

/// A text that does not begin with `/*` does not begin with a banner.
pub proof fn lemma_no_banner(t: Seq<char>, is_end: bool)
    requires
        t.len() < 2 || t[0] != '/' || t[1] != '*',
        t.len() == 0 || !is_multispace(t[0]),
    ensures
        banner(t, is_end) is None,
{
    reveal_strlit("/* End");
    reveal_strlit("/* Begin");
    let tag = banner_tag(is_end);
    if has_at(t, 0, tag) {
        lemma_has_at_chars(t, 0, tag);
        assert(t[0] == tag[0] && t[1] == tag[1]);
    }
}

/// The token of a name or a value with the comment that may follow it and
/// the delimiter `d` behind them.
pub proof fn lemma_token_atom(
    a: Seq<char>,
    c: Option<Seq<char>>,
    pad: bool,
    d: char,
    rest: Seq<char>,
)
    requires
        is_atom(a),
        a.len() > 0,
        is_comment(c),
        d == ';' || d == ',' || d == '=',
    ensures
        next_token(a + comment_suffix(c) + pad_text(pad) + seq![d] + rest) == (Token {
            text: a,
            comment: c,
            reason: PlistIResultEndReason::of_char(d),
            rest,
        }),
{
    reveal_strlit(" ");
    reveal_strlit("/* ");
    reveal_strlit(" */");
    let follow = comment_suffix(c) + pad_text(pad) + seq![d];
    let t = a + comment_suffix(c) + pad_text(pad) + seq![d] + rest;
    let k = a.len() as int;
    assert(t =~= a + follow + rest);
    assert(t.take(k) =~= a);
    assert(t.subrange(k, k + follow.len()) =~= follow);
    assert(t[0] == a[0]);
    assert(follow[0] != '*') by {
        match c {
            Some(text) => {
                assert(comment_suffix(c) =~= seq![' ', '/', '*', ' '] + text + seq![' ', '*', '/']);
                assert(follow[0] == comment_suffix(c)[0]);
            },
            None => {
                assert(comment_suffix(c).len() == 0);
            },
        }
    }
    if k >= 2 {
        assert(t[1] == a[1]);
        if is_plain_word(a) {
            assert(!(a[0] == '/' && a[1] == '*'));
        }
    } else {
        assert(t[1] == follow[0]);
    }
    lemma_skip_nothing(t);
    lemma_no_banner(t, false);
    lemma_no_banner(t, true);
    let p = lemma_scan_atom(t, k);
    lemma_scan_tail(t, k, p, c, pad, d);
    assert(t.skip(k + comment_suffix(c).len() + pad_text(pad).len() + 1) =~= rest);
}

/// The scan passes over a comment from the space behind its `/*` on, and
/// the delimiter `d` behind the comment ends the token, with a space before
/// it where `pad` is set. The text of the token is what the state holds:
/// it ends at `v`.
pub proof fn lemma_scan_comment(
    t: Seq<char>,
    j: int,
    v: int,
    text: Seq<char>,
    pad: bool,
    d: char,
)
    requires
        0 <= j,
        is_comment_text(text),
        d == ';' || d == ',' || d == '=',
        has_at(t, j, seq![' '] + text + seq![' ', '*', '/'] + pad_text(pad) + seq![d]),
    ensures
        scan_from(t, j, in_comment(v, None)) == (Token {
            text: piece(t, 0, v),
            comment: Some(text),
            reason: PlistIResultEndReason::of_char(d),
            rest: t.skip(j + text.len() + 4 + pad_text(pad).len() + 1),
        }),
{
    let n = text.len() as int;
    let inside = seq![' '] + text + seq![' ', '*', '/'];
    let follow = inside + pad_text(pad) + seq![d];
    lemma_has_at_chars(t, j, follow);
    assert(inside.len() == n + 4);
    assert(forall|q: int| 0 <= q < inside.len() ==> follow[q] == inside[q]);
    assert(follow[0] == ' ');
    assert(t[j] == ' ');
    let b = j + 1;
    assert forall|q: int| 0 <= q < n implies t[b + q] == #[trigger] text[q] by {
        assert(follow[1 + q] == inside[1 + q]);
        assert(t[j + (1 + q)] == follow[1 + q]);
    }
    assert(follow[n + 1] == inside[n + 1] && follow[n + 2] == inside[n + 2] && follow[n + 3]
        == inside[n + 3]);
    assert(t[j + (n + 1)] == ' ' && t[j + (n + 2)] == '*' && t[j + (n + 3)] == '/');
    lemma_scan_step(t, j, in_comment(v, None));
    assert(in_comment(v, None).step(t, j) == in_comment(v, None));
    lemma_comment_body(t, v, b, 0, text);
    let begin: Option<int> = if n == 0 {
        None
    } else {
        Some(b)
    };
    lemma_scan_step(t, b + n, in_comment(v, begin));
    assert(in_comment(v, begin).step(t, b + n) == in_comment(v, begin));
    lemma_scan_step(t, b + n + 1, in_comment(v, begin));
    let cb: int = if n == 0 {
        b + n + 1
    } else {
        b
    };
    assert(in_comment(v, begin).step(t, b + n + 1) == comment_done(v, cb, b + n, 0));
    lemma_scan_step(t, b + n + 2, comment_done(v, cb, b + n, 0));
    assert(comment_done(v, cb, b + n, 0).step(t, b + n + 2) == comment_done(v, cb, b + n, 1));
    let e = b + n + 3;
    lemma_trim_comment_text(text);
    assert(piece(t, cb, b + n) =~= text);
    if pad {
        assert(follow[n + 4] == ' ' && follow[n + 5] == d);
        assert(t[j + (n + 4)] == ' ' && t[j + (n + 5)] == d);
        lemma_scan_step(t, e, comment_done(v, cb, b + n, 1));
        assert(comment_done(v, cb, b + n, 1).step(t, e) == comment_done(v, cb, b + n, 0));
    } else {
        assert(follow[n + 4] == d);
        assert(t[j + (n + 4)] == d);
    }
}

/// A comment that does not begin like a banner is no banner.
proof fn lemma_comment_is_no_banner(t: Seq<char>, text: Seq<char>, is_end: bool)
    requires
        !begins_banner(Some(text)),
        has_at(t, 0, seq!['/', '*', ' '] + text + seq![' ']),
    ensures
        banner(t, is_end) is None,
{
    reveal_strlit("/* End");
    reveal_strlit("/* Begin");
    reveal_strlit("Begin");
    reveal_strlit("End");
    let head = seq!['/', '*', ' '] + text + seq![' '];
    let n = text.len() as int;
    lemma_has_at_chars(t, 0, head);
    assert(t[0int + 0] == head[0]);
    assert(multispace_end(t, 0) == 0);
    let tag = banner_tag(is_end);
    if has_at(t, 0, tag) {
        lemma_has_at_chars(t, 0, tag);
        let word = tag.len() - 3;
        if n >= word {
            assert forall|q: int| 0 <= q < word implies text[q] == #[trigger] tag[3 + q] by {
                assert(head[3 + q] == text[q]);
                assert(t[0 + (3 + q)] == head[3 + q]);
                assert(t[0 + (3 + q)] == tag[3 + q]);
            }
            if is_end {
                assert(text[0] == tag[3int + 0] && text[1] == tag[3int + 1] && text[2] == tag[3int + 2]);
                assert(text.subrange(0, 3) =~= "End"@);
            } else {
                assert(text[0] == tag[3int + 0] && text[1] == tag[3int + 1] && text[2] == tag[3int + 2]);
                assert(text[3] == tag[3int + 3] && text[4] == tag[3int + 4]);
                assert(text.subrange(0, 5) =~= "Begin"@);
            }
        } else {
            assert(head[3 + n] == ' ');
            assert(t[0 + (3 + n)] == head[3 + n]);
            assert(t[0 + (3 + n)] == tag[3 + n]);
        }
    }
}

/// The token of nothing but the comment that may stand there and the
/// delimiter `d` behind it: its text is empty.
pub proof fn lemma_token_empty(c: Option<Seq<char>>, pad: bool, d: char, rest: Seq<char>)
    requires
        is_comment(c),
        !begins_banner(c),
        d == ';' || d == ',' || d == '=',
    ensures
        next_token(comment_suffix(c) + pad_text(pad) + seq![d] + rest) == (Token {
            text: Seq::empty(),
            comment: c,
            reason: PlistIResultEndReason::of_char(d),
            rest,
        }),
{
    reveal_strlit(" ");
    reveal_strlit("/* ");
    reveal_strlit(" */");
    let whole = comment_suffix(c) + pad_text(pad) + seq![d] + rest;
    match c {
        None => {
            let t = seq![d] + rest;
            assert(whole =~= pad_text(pad) + t);
            lemma_skip_lead(pad_text(pad), t);
            assert(t[0] == d);
            lemma_skip_nothing(t);
            lemma_no_banner(t, false);
            lemma_no_banner(t, true);
            assert(t.skip(1) =~= rest);
        },
        Some(text) => {
            let n = text.len() as int;
            let follow = seq![' '] + text + seq![' ', '*', '/'] + pad_text(pad) + seq![d];
            let t = seq!['/', '*'] + follow + rest;
            assert(comment_suffix(c) =~= seq![' ', '/', '*', ' '] + text + seq![' ', '*', '/']);
            assert(whole =~= seq![' '] + t);
            lemma_skip_lead(seq![' '], t);
            assert(t[0] == '/' && t[1] == '*');
            lemma_skip_nothing(t);
            assert(t.subrange(0, n + 4) =~= seq!['/', '*', ' '] + text + seq![' ']);
            lemma_comment_is_no_banner(t, text, false);
            lemma_comment_is_no_banner(t, text, true);
            lemma_scan_step(t, 0, ScanModel::start());
            assert(ScanModel::start().step(t, 0) == after_text(1));
            lemma_scan_step(t, 1, after_text(1));
            assert(after_text(1).step(t, 1) == in_comment(0, None));
            assert(t.subrange(2, 2 + follow.len() as int) =~= follow);
            lemma_scan_comment(t, 2, 0, text, pad, d);
            assert(piece(t, 0, 0) =~= Seq::<char>::empty());
            assert(t.skip(2 + n + 4 + pad_text(pad).len() + 1) =~= rest);
        },
    }
}

/// The token of a name or a value with the comment that may follow it and
/// the delimiter `d` behind them.
pub proof fn lemma_token_scalar(
    a: Seq<char>,
    c: Option<Seq<char>>,
    pad: bool,
    d: char,
    rest: Seq<char>,
)
    requires
        is_scalar(a, c),
        d == ';' || d == ',' || d == '=',
    ensures
        next_token(a + comment_suffix(c) + pad_text(pad) + seq![d] + rest) == (Token {
            text: a,
            comment: c,
            reason: PlistIResultEndReason::of_char(d),
            rest,
        }),
{
    if a.len() == 0 {
        lemma_token_empty(c, pad, d, rest);
        assert(a + comment_suffix(c) + pad_text(pad) + seq![d] + rest =~= comment_suffix(c)
            + pad_text(pad) + seq![d] + rest);
        assert(a =~= Seq::<char>::empty());
    } else {
        lemma_token_atom(a, c, pad, d, rest);
    }
}

/// The token of a delimiter that opens a container.
pub proof fn lemma_token_open(d: char, rest: Seq<char>)
    requires
        d == '{' || d == '(',
    ensures
        next_token(seq![d] + rest) == (Token {
            text: Seq::empty(),
            comment: None,
            reason: PlistIResultEndReason::of_char(d),
            rest,
        }),
{
    let t = seq![d] + rest;
    assert(t[0] == d);
    lemma_skip_nothing(t);
    lemma_no_banner(t, false);
    lemma_no_banner(t, true);
    assert(t.skip(1) =~= rest);
}

/// The token of a delimiter that closes a container, with its semicolon.
pub proof fn lemma_token_close(d: char, rest: Seq<char>)
    requires
        d == '}' || d == ')',
    ensures
        next_token(seq![d, ';'] + rest) == (Token {
            text: Seq::empty(),
            comment: None,
            reason: if d == '}' {
                PlistIResultEndReason::ArrayEnd
            } else {
                PlistIResultEndReason::TupleEnd
            },
            rest,
        }),
{
    let t = seq![d, ';'] + rest;
    assert(t[0] == d && t[1] == ';');
    lemma_skip_nothing(t);
    lemma_no_banner(t, false);
    lemma_no_banner(t, true);
    assert(t.skip(2) =~= rest);
}

/// A closing brace with no semicolon behind it ends the document.
pub proof fn lemma_token_end(rest: Seq<char>)
    requires
        rest.len() == 0 || rest[0] != ';',
    ensures
        next_token(seq!['}'] + rest).reason is Eof,
{
    let t = seq!['}'] + rest;
    assert(t[0] == '}');
    if rest.len() > 0 {
        assert(t[1] == rest[0]);
    }
    lemma_skip_nothing(t);
    lemma_no_banner(t, false);
    lemma_no_banner(t, true);
}

/// The search finds a text where it stands first.
pub proof fn lemma_find_first(t: Seq<char>, from: int, at: int, pat: Seq<char>)
    requires
        0 <= from <= at,
        has_at(t, at, pat),
        forall|q: int| from <= q < at ==> !has_at(t, q, pat),
    ensures
        find_from(t, from, pat) == Some(at),
    decreases at - from,
{
    if from < at {
        lemma_find_first(t, from + 1, at, pat);
    }
}

/// Skipping whitespace forwards stops at the first character that is none.
proof fn lemma_whitespace_end_at(s: Seq<char>, i: int, a: int)
    requires
        0 <= i <= a <= s.len(),
        forall|q: int| i <= q < a ==> is_whitespace(#[trigger] s[q]),
        a == s.len() || !is_whitespace(s[a]),
    ensures
        whitespace_end(s, i) == a,
    decreases a - i,
{
    if i < a {
        lemma_whitespace_end_at(s, i + 1, a);
    }
}

/// Skipping whitespace backwards stops behind the last character that is
/// none.
proof fn lemma_whitespace_start_at(s: Seq<char>, low: int, b: int, j: int)
    requires
        0 <= low <= b <= j <= s.len(),
        forall|q: int| b <= q < j ==> is_whitespace(#[trigger] s[q]),
        b == low || !is_whitespace(s[b - 1]),
    ensures
        whitespace_start(s, low, j) == b,
    decreases j - b,
{
    if b < j {
        assert(is_whitespace(s[j - 1]));
        lemma_whitespace_start_at(s, low, b, j - 1);
    }
}

/// Trimming takes exactly the whitespace at the two ends.
pub proof fn lemma_trim_exact(s: Seq<char>, a: int, b: int)
    requires
        0 <= a <= b <= s.len(),
        forall|q: int| 0 <= q < a ==> is_whitespace(#[trigger] s[q]),
        forall|q: int| b <= q < s.len() ==> is_whitespace(#[trigger] s[q]),
        a < b ==> !is_whitespace(s[a]) && !is_whitespace(s[b - 1]),
        a == b ==> b == s.len(),
    ensures
        trim(s) == s.subrange(a, b),
{
    lemma_whitespace_end_at(s, 0, a);
    lemma_whitespace_start_at(s, a, b, s.len() as int);
}

/// The inside of a banner as it is written: a space, the name, and the word
/// `section` between two spaces.
pub open spec fn banner_inside(name: Seq<char>) -> Seq<char> {
    seq![' '] + name + seq![' ', 's', 'e', 'c', 't', 'i', 'o', 'n', ' ']
}

/// The name that is read from the inside of a written banner is the name
/// that was written.
pub proof fn lemma_section_name(name: Seq<char>)
    requires
        is_comment_text(name),
    ensures
        section_name(banner_inside(name)) == name,
{
    reveal_strlit("section");
    let inner = banner_inside(name);
    let n = name.len() as int;
    let word = seq!['s', 'e', 'c', 't', 'i', 'o', 'n'];
    assert("section"@ =~= word);
    assert(inner.len() == n + 10);
    assert(forall|q: int| 0 <= q < n ==> inner[1 + q] == name[q]);
    assert(inner[0] == ' ' && inner[n + 1] == ' ' && inner[n + 2] == 's' && inner[n + 8] == 'n'
        && inner[n + 9] == ' ');
    let a: int = if n == 0 {
        2
    } else {
        1
    };
    if n > 0 {
        assert(inner[1] == name[0]);
    }
    assert forall|q: int| 0 <= q < a implies is_whitespace(#[trigger] inner[q]) by {}
    assert forall|q: int| n + 9 <= q < inner.len() implies is_whitespace(#[trigger] inner[q]) by {}
    lemma_trim_exact(inner, a, n + 9);
    let u = inner.subrange(a, n + 9);
    assert(trim(inner) == u);
    assert(u.subrange(u.len() - 7, u.len() as int) =~= word);
    if n > 0 {
        assert(u[u.len() - 8] == inner[n + 1]);
    }
    assert(ends_in_section(u));
    let head = u.take(u.len() - 7);
    if n == 0 {
        assert(head =~= name);
        lemma_trim_comment_text(name);
    } else {
        assert(head =~= name + seq![' ']);
        assert(forall|q: int| 0 <= q < n ==> head[q] == name[q]);
        assert(head[n] == ' ');
        assert forall|q: int| n <= q < head.len() implies is_whitespace(#[trigger] head[q]) by {}
        assert(head[0] == name[0]);
        assert(head[n - 1] == name[n - 1]);
        lemma_trim_exact(head, 0, n);
        assert(head.subrange(0, n) =~= name);
    }
}

/// A banner as it is written.
pub open spec fn banner_text(is_end: bool, name: Seq<char>) -> Seq<char> {
    banner_tag(is_end) + banner_inside(name) + seq!['*', '/']
}

/// The token of a written banner: its text is the name, and what is left is
/// what stands behind the banner and the multispace that follows it.
#[verifier::rlimit(40)]
#[verifier::spinoff_prover]
pub proof fn lemma_token_banner(is_end: bool, name: Seq<char>, rest: Seq<char>)
    requires
        is_comment_text(name),
    ensures
        next_token(banner_text(is_end, name) + rest) == (Token {
            text: name,
            comment: None,
            reason: if is_end {
                PlistIResultEndReason::SectionEnd
            } else {
                PlistIResultEndReason::SectionBegin
            },
            rest: skip_multispace(rest),
        }),
{
    reveal_strlit("/* End");
    reveal_strlit("/* Begin");
    reveal_strlit("*/");
    let tag = banner_tag(is_end);
    let inner = banner_inside(name);
    let t = banner_text(is_end, name) + rest;
    let g = tag.len() as int;
    let n = name.len() as int;
    let close = g + n + 10;
    assert(t =~= tag + inner + seq!['*', '/'] + rest);
    assert(t[0] == tag[0]);
    lemma_skip_nothing(t);
    assert(t.subrange(0, g) =~= tag);
    assert(has_at(t, 0, tag));
    if is_end {
        if has_at(t, 0, banner_tag(false)) {
            lemma_has_at_chars(t, 0, banner_tag(false));
            assert(t[3] == banner_tag(false)[3]);
            assert(t[3] == tag[3]);
        }
    }
    assert(t.subrange(g, close) =~= inner);
    assert(t.subrange(close, close + 2) =~= "*/"@);
    assert forall|q: int| g <= q < close implies !has_at(t, q, "*/"@) by {
        if has_at(t, q, "*/"@) {
            lemma_has_at_chars(t, q, "*/"@);
            assert(t[q + 0] == "*/"@[0] && t[q + 1] == "*/"@[1]);
            assert(t[q] == inner[q - g]);
            if q + 1 < close {
                assert(t[q + 1] == inner[q + 1 - g]);
            }
            let j = q - g;
            if 1 <= j < n + 1 {
                assert(inner[j] == name[j - 1]);
                if j < n {
                    assert(inner[j + 1] == name[j]);
                    assert(!(name[j - 1] == '*' && name[j] == '/'));
                } else {
                    assert(inner[j + 1] == ' ');
                }
            }
        }
    }
    lemma_find_first(t, g, close, "*/"@);
    lemma_section_name(name);
    assert(t.skip(close + 2) =~= rest);
    lemma_multispace_end_bounds(rest, 0);
    lemma_multispace_end_shift(t, close + 2, 0);
    assert(t.skip(multispace_end(t, close + 2)) =~= rest.skip(multispace_end(rest, 0)));
}

/// A comment that stands directly behind a text, with no space between
/// them, ends the text there, and nothing inside it ends the token: the
/// token has the text before the comment, the comment, and the tag of the
/// delimiter behind the comment. This holds whatever the text ends in, a
/// slash too.
pub proof fn law_comment_directly_behind_text(
    a: Seq<char>,
    c: Seq<char>,
    pad: bool,
    d: char,
    rest: Seq<char>,
)
    requires
        is_atom(a),
        a.len() > 0,
        is_comment_text(c),
        d == ';' || d == ',' || d == '=',
    ensures
        next_token(
            a + seq!['/', '*', ' '] + c + seq![' ', '*', '/'] + pad_text(pad) + seq![d] + rest,
        ) == (Token {
            text: a,
            comment: Some(c),
            reason: PlistIResultEndReason::of_char(d),
            rest,
        }),
{
    let follow = seq![' '] + c + seq![' ', '*', '/'] + pad_text(pad) + seq![d];
    let t = a + seq!['/', '*', ' '] + c + seq![' ', '*', '/'] + pad_text(pad) + seq![d] + rest;
    let k = a.len() as int;
    assert(t =~= a + seq!['/', '*'] + follow + rest);
    assert(t.take(k) =~= a);
    assert(t[0] == a[0]);
    assert(t[k] == '/' && t[k + 1] == '*');
    if k >= 2 {
        assert(t[1] == a[1]);
        if is_plain_word(a) {
            assert(!(a[0] == '/' && a[1] == '*'));
        }
    }
    lemma_skip_nothing(t);
    lemma_no_banner(t, false);
    lemma_no_banner(t, true);
    let q = lemma_scan_atom(t, k);
    lemma_scan_step(t, k, after_text(q));
    assert(after_text(q).step(t, k) == after_text(1));
    lemma_scan_step(t, k + 1, after_text(1));
    assert(after_text(1).step(t, k + 1) == in_comment(k, None));
    assert(t.subrange(k + 2, k + 2 + follow.len() as int) =~= follow);
    lemma_scan_comment(t, k + 2, k, c, pad, d);
    assert(piece(t, 0, k) =~= a);
    assert(t.skip(k + 2 + c.len() + 4 + pad_text(pad).len() + 1) =~= rest);
}

/// A slash and a star open a comment wherever they stand outside quotes and
/// comments, whatever stands before the slash.
pub proof fn law_slash_star_opens_comment(t: Seq<char>, i: int, st: ScanModel)
    requires
        0 <= i,
        i + 1 < t.len(),
        st.open(),
        t[i] == '/',
        t[i + 1] == '*',
    ensures
        st.step(t, i).step(t, i + 1).phase == 2,
        !st.step(t, i).step(t, i + 1).in_quote,
{
}

/// A star and a slash close the comment in which they stand.
pub proof fn law_star_slash_closes_comment(t: Seq<char>, i: int, st: ScanModel)
    requires
        0 <= i,
        i + 1 < t.len(),
        !st.in_quote,
        st.phase == 2,
        t[i] == '*',
        t[i + 1] == '/',
    ensures
        st.step(t, i).phase == 0,
        !st.step(t, i).in_quote,
{
}

/// Nothing inside a comment ends the token: from a position inside a
/// comment the scan goes on, still inside the comment, up to any position
/// before which the comment is not closed.
pub proof fn law_comment_hides_delimiters(t: Seq<char>, i: int, j: int, st: ScanModel) -> (behind:
    ScanModel)
    requires
        0 <= i <= j <= t.len(),
        !st.in_quote,
        st.phase == 2,
        forall|q: int| i <= q < j && q + 1 < t.len() ==> !(#[trigger] t[q] == '*' && t[q + 1] == '/'),
    ensures
        !behind.in_quote,
        behind.phase == 2,
        behind.value == st.value,
        scan_from(t, i, st) == scan_from(t, j, behind),
    decreases j - i,
{
    if i < j {
        lemma_scan_step(t, i, st);
        assert(!(t[i] == '*' && i + 1 < t.len() && t[i + 1] == '/'));
        law_comment_hides_delimiters(t, i + 1, j, st.step(t, i))
    } else {
        st
    }
}

/// Nothing inside quotes ends the token: from a position inside quotes the
/// scan goes on, still inside the quotes, up to any position before which
/// no quote stands without a backslash before it.
pub proof fn law_quotes_hide_delimiters(t: Seq<char>, i: int, j: int, st: ScanModel)
    requires
        0 < i <= j <= t.len(),
        st.in_quote,
        st.phase < 2,
        forall|q: int| i <= q < j ==> !(#[trigger] t[q] == '"' && t[q - 1] != '\\'),
    ensures
        scan_from(t, i, st) == scan_from(t, j, st),
    decreases j - i,
{
    if i < j {
        lemma_scan_step(t, i, st);
        assert(!(t[i] == '"' && t[i - 1] != '\\'));
        assert(st.step(t, i) == st);
        law_quotes_hide_delimiters(t, i + 1, j, st);
    }
}

} // verus!
