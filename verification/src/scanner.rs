//! The scanner: it cuts the text of a document into tokens.
//!
//! A token is the text before a delimiter, the comment that may stand beside
//! that text, and a tag that says which delimiter it was. The banners that
//! open and close a section look like comments and are tokens of their own.

use crate::end_reason::PlistIResultEndReason;
use crate::text::{
    find, find_from, from_chars, has_at, lemma_multispace_end_bounds, matches_at, multispace,
    multispace_end, skip_blank, skip_multispace, trim, trim_chars,
};
use vstd::prelude::*;
use vstd::slice::slice_subrange;
use vstd::string::StrSliceExecFns;

verus! {

/// A piece of the text that is being scanned, as the two positions that may
/// each be known or not.
pub ghost struct Span {
    pub begin: Option<int>,
    pub end: Option<int>,
}

impl Span {
    /// Neither end is known.
    pub open spec fn unset() -> Span {
        Span { begin: None, end: None }
    }

    /// Both ends are known.
    pub open spec fn is_set(self) -> bool {
        self.begin is Some && self.end is Some
    }

    /// Exactly one end is known.
    pub open spec fn is_incomplete(self) -> bool {
        (self.begin is Some) != (self.end is Some)
    }

    /// The first position, 0 while it is not known.
    pub open spec fn first(self) -> int {
        match self.begin {
            Some(b) => b,
            None => 0,
        }
    }

    /// The position behind the piece, 0 while it is not known.
    pub open spec fn behind(self) -> int {
        match self.end {
            Some(e) => e,
            None => 0,
        }
    }
}

/// The two ends of a piece of text, each with a flag that says whether it
/// has been set.
pub struct StringItemSlice {
    pub begin: usize,
    pub end: usize,
    pub begin_set: bool,
    pub end_set: bool,
}

impl View for StringItemSlice {
    type V = Span;

    open spec fn view(&self) -> Span {
        Span {
            begin: if self.begin_set {
                Some(self.begin as int)
            } else {
                None
            },
            end: if self.end_set {
                Some(self.end as int)
            } else {
                None
            },
        }
    }
}

impl StringItemSlice {
    /// Both positions are 0 until they are set: nothing else is read of
    /// them.
    pub open spec fn wf(&self) -> bool {
        &&& !self.begin_set ==> self.begin == 0
        &&& !self.end_set ==> self.end == 0
    }

    /// A piece of which neither end is set.
    pub fn new() -> (r: Self)
        ensures
            r@ == Span::unset(),
            r.wf(),
    {
        StringItemSlice { begin: 0, end: 0, begin_set: false, end_set: false }
    }

    /// Tells whether both ends are set.
    pub fn is_set(&self) -> (r: bool)
        ensures
            r == self@.is_set(),
    {
        self.begin_set && self.end_set
    }

    /// Tells whether exactly one end is set.
    pub fn is_incomplete(&self) -> (r: bool)
        ensures
            r == self@.is_incomplete(),
    {
        self.begin_set != self.end_set
    }

    /// The first position, 0 while it is not set.
    pub fn first(&self) -> (r: usize)
        ensures
            r == self@.first(),
    {
        if self.begin_set {
            self.begin
        } else {
            0
        }
    }

    /// The position behind the piece, 0 while it is not set.
    pub fn behind(&self) -> (r: usize)
        ensures
            r == self@.behind(),
    {
        if self.end_set {
            self.end
        } else {
            0
        }
    }

    /// Sets the first position.
    pub fn set_begin(&mut self, val: usize)
        ensures
            final(self)@ == (Span { begin: Some(val as int), end: old(self)@.end }),
            final(self).end == old(self).end,
            old(self).wf() ==> final(self).wf(),
    {
        self.begin = val;
        self.begin_set = true;
    }

    /// Sets the position behind the piece.
    pub fn set_end(&mut self, val: usize)
        ensures
            final(self)@ == (Span { begin: old(self)@.begin, end: Some(val as int) }),
            final(self).begin == old(self).begin,
            old(self).wf() ==> final(self).wf(),
    {
        self.end = val;
        self.end_set = true;
    }
}

/// What the scanner knows in the middle of a token.
pub ghost struct ScanModel {
    /// Inside a quoted piece of text.
    pub in_quote: bool,
    /// 0 outside a comment, 1 behind a `/` that may open one, 2 inside one.
    pub phase: int,
    /// Where the comment stands.
    pub comment: Span,
    /// Where the text of the token stands.
    pub value: Span,
}

/// The flags and positions of a scan in progress.
pub struct ScanState {
    pub is_inside_quote: bool,
    pub is_parsing_comment: u8,
    pub comment_begin_end: StringItemSlice,
    pub value_begin_end: StringItemSlice,
}

impl View for ScanState {
    type V = ScanModel;

    open spec fn view(&self) -> ScanModel {
        ScanModel {
            in_quote: self.is_inside_quote,
            phase: self.is_parsing_comment as int,
            comment: self.comment_begin_end@,
            value: self.value_begin_end@,
        }
    }
}

/// A token, and the text that is left behind it.
pub ghost struct Token {
    pub text: Seq<char>,
    pub comment: Option<Seq<char>>,
    pub reason: PlistIResultEndReason,
    pub rest: Seq<char>,
}

/// The characters that end a token where they stand outside quotes and
/// comments.
pub open spec fn is_delimiter(c: char) -> bool {
    c == '\t' || c == '\r' || c == '\n' || c == ';' || c == ',' || c == '{' || c == '}' || c
        == '(' || c == ')' || c == '='
}

/// The characters of `t` from `from` up to `to`; nothing where these are not
/// two positions of `t` in this order.
pub open spec fn piece(t: Seq<char>, from: int, to: int) -> Seq<char> {
    if 0 <= from <= to <= t.len() {
        t.subrange(from, to)
    } else {
        Seq::empty()
    }
}

impl ScanModel {
    /// At the first character of a token.
    pub open spec fn start() -> ScanModel {
        ScanModel { in_quote: false, phase: 0, comment: Span::unset(), value: Span::unset() }
    }

    /// A delimiter counts: the scan is neither inside quotes nor inside a
    /// comment.
    pub open spec fn open(self) -> bool {
        !self.in_quote && self.phase < 2
    }

    /// The state behind the character at `i`, which did not end the token.
    ///
    /// - Inside quotes only a quote that no backslash precedes matters: it
    ///   closes them.
    /// - Inside a comment the first character that is no space begins the
    ///   comment's text, and `*/` ends the comment; the text ends one
    ///   position before the star.
    /// - Elsewhere the first character that is no space begins the token's
    ///   text, and the first space behind it ends that text. `/*` opens a
    ///   comment, whatever stands before the slash, and ends the text
    ///   before the slash unless it has ended. A quote that no backslash
    ///   precedes opens quotes.
    pub open spec fn step(self, t: Seq<char>, i: int) -> ScanModel {
        let c = t[i];
        let escaped = i > 0 && t[i - 1] == '\\';
        if self.in_quote && self.phase < 2 {
            ScanModel { in_quote: !(c == '"' && !escaped), ..self }
        } else if !self.in_quote && self.phase == 2 {
            let begin = if self.comment.begin is None && c != ' ' {
                Some(i)
            } else {
                self.comment.begin
            };
            if c == '*' && i + 1 < t.len() && t[i + 1] == '/' {
                ScanModel { phase: 0, comment: Span { begin, end: Some(i - 1) }, ..self }
            } else {
                ScanModel { comment: Span { begin, end: self.comment.end }, ..self }
            }
        } else if self.value.begin is None && c == ' ' {
            self
        } else {
            let end1 = if self.value.is_incomplete() && c == ' ' {
                Some(i)
            } else {
                self.value.end
            };
            let phase = if c == '/' && self.phase <= 1 {
                1
            } else if self.phase == 1 && c == '*' {
                2
            } else if self.phase == 1 {
                0
            } else {
                self.phase
            };
            let end2 = if self.phase == 1 && c == '*' && end1 is None {
                Some(i - 1)
            } else {
                end1
            };
            let begin = if self.value.begin is None {
                Some(i)
            } else {
                self.value.begin
            };
            let in_quote = if !self.in_quote && c == '"' {
                !escaped
            } else {
                self.in_quote
            };
            ScanModel { in_quote, phase, comment: self.comment, value: Span { begin, end: end2 } }
        }
    }

    /// The comment of the token that ends now: the trimmed text of the
    /// comment's piece, if a comment was seen.
    pub open spec fn comment_at(self, t: Seq<char>) -> Option<Seq<char>> {
        if self.comment.is_set() || self.comment.is_incomplete() {
            Some(trim(piece(t, self.comment.first(), self.comment.behind())))
        } else {
            None
        }
    }

    /// The text of the token that the delimiter at `i` ends: the piece whose
    /// ends are known, or what stands from its beginning up to the
    /// delimiter.
    pub open spec fn text_at(self, t: Seq<char>, i: int) -> Seq<char> {
        if self.value.is_set() {
            piece(t, self.value.first(), self.value.behind())
        } else if self.value.is_incomplete() {
            piece(t, self.value.first(), i)
        } else {
            Seq::empty()
        }
    }

    /// The token that the delimiter at `i` ends. A `;` behind `}` or `)`
    /// belongs to the delimiter: `};` ends an array and `);` a tuple.
    pub open spec fn token_at(self, t: Seq<char>, i: int) -> Token {
        let c = t[i];
        let semicolon = i + 1 < t.len() && t[i + 1] == ';';
        let reason = if c == '}' && semicolon {
            PlistIResultEndReason::ArrayEnd
        } else {
            PlistIResultEndReason::of_char(c)
        };
        let next = if (c == '}' || c == ')') && semicolon {
            i + 2
        } else {
            i + 1
        };
        Token { text: self.text_at(t, i), comment: self.comment_at(t), reason, rest: t.skip(next) }
    }
}

/// The token that a scan of `t` gives which has come to position `i` in the
/// state `st`: it ends at the first delimiter that counts. Where there is
/// none, the token is empty, tagged `Eof`, and all of `t` is left.
pub open spec fn scan_from(t: Seq<char>, i: int, st: ScanModel) -> Token
    decreases t.len() - i,
{
    if i < 0 || i >= t.len() {
        Token {
            text: Seq::empty(),
            comment: None,
            reason: PlistIResultEndReason::Eof,
            rest: t,
        }
    } else if st.open() && is_delimiter(t[i]) {
        st.token_at(t, i)
    } else {
        scan_from(t, i + 1, st.step(t, i))
    }
}

/// Whether `u` ends in the word `section`.
pub open spec fn ends_in_section(u: Seq<char>) -> bool {
    let n = "section"@.len();
    &&& has_at(u, u.len() - n, "section"@)
    &&& (u.len() == n || crate::text::is_whitespace(u[u.len() - n - 1]))
}

/// The name in a banner whose inside is `inner`: a banner reads
/// `/* Begin NAME section */` (or `End`), and the name is what stands before
/// the word `section`, trimmed. Without that word all of the inside,
/// trimmed, is the name.
pub open spec fn section_name(inner: Seq<char>) -> Seq<char> {
    let u = trim(inner);
    if ends_in_section(u) {
        trim(u.take(u.len() - "section"@.len()))
    } else {
        u
    }
}

/// The word that opens a banner.
pub open spec fn banner_tag(is_end: bool) -> Seq<char> {
    if is_end {
        "/* End"@
    } else {
        "/* Begin"@
    }
}

/// The banner at the front of `t`, as the name in it and the text that is
/// left: `t` is multispace, the tag, anything up to the first `*/`, and
/// multispace again.
pub open spec fn banner(t: Seq<char>, is_end: bool) -> Option<(Seq<char>, Seq<char>)> {
    let from = multispace_end(t, 0);
    let tag = banner_tag(is_end);
    if has_at(t, from, tag) {
        match find_from(t, from + tag.len(), "*/"@) {
            Some(close) => Some(
                (
                    section_name(t.subrange(from + tag.len(), close)),
                    t.skip(multispace_end(t, close + 2)),
                ),
            ),
            None => None,
        }
    } else {
        None
    }
}

/// Where the content behind a document's header begins: the header is the
/// line `// !$*UTF8*$!`, multispace, `{` and multispace again.
pub open spec fn header_end(s: Seq<char>) -> Option<int> {
    let tag = "// !$*UTF8*$!"@;
    let brace = multispace_end(s, tag.len() as int);
    if has_at(s, 0, tag) && brace < s.len() && s[brace] == '{' {
        Some(multispace_end(s, brace + 1))
    } else {
        None
    }
}

/// The first token of `s`: multispace is skipped, then a banner that stands
/// there is a token of its own, and anything else is scanned up to its
/// delimiter.
pub open spec fn next_token(s: Seq<char>) -> Token {
    let t = skip_multispace(s);
    match banner(t, false) {
        Some((name, rest)) => Token {
            text: name,
            comment: None,
            reason: PlistIResultEndReason::SectionBegin,
            rest,
        },
        None => match banner(t, true) {
            Some((name, rest)) => Token {
                text: name,
                comment: None,
                reason: PlistIResultEndReason::SectionEnd,
                rest,
            },
            None => scan_from(t, 0, ScanModel::start()),
        },
    }
}

/// What a scanned token stands for: the text that is left, and the token's
/// text, comment and tag.
pub open spec fn token_of(r: (&[char], (String, Option<String>, PlistIResultEndReason))) -> Token {
    Token {
        text: r.1.0@,
        comment: match r.1.1 {
            Some(c) => Some(c@),
            None => None,
        },
        reason: r.1.2,
        rest: r.0@,
    }
}

/// Tells whether `c` is a delimiter.
pub fn delimiter(c: char) -> (r: bool)
    ensures
        r == is_delimiter(c),
{
    c == '\t' || c == '\r' || c == '\n' || c == ';' || c == ',' || c == '{' || c == '}' || c
        == '(' || c == ')' || c == '='
}

/// The characters of `t` from `from` up to `to`, or nothing.
fn piece_of(t: &[char], from: usize, to: usize) -> (r: &[char])
    ensures
        r@ == piece(t@, from as int, to as int),
{
    if from <= to && to <= t.len() {
        slice_subrange(t, from, to)
    } else {
        slice_subrange(t, 0, 0)
    }
}

impl ScanState {
    /// Every position that is not set is 0.
    pub open spec fn wf(&self) -> bool {
        &&& self.comment_begin_end.wf()
        &&& self.value_begin_end.wf()
        &&& self.is_parsing_comment <= 2
    }

    /// The state at the first character of a token.
    pub fn new() -> (r: Self)
        ensures
            r@ == ScanModel::start(),
            r.wf(),
    {
        ScanState {
            is_inside_quote: false,
            is_parsing_comment: 0,
            comment_begin_end: StringItemSlice::new(),
            value_begin_end: StringItemSlice::new(),
        }
    }

    /// Tells whether a delimiter counts now.
    pub fn open_to_delimiters(&self) -> (r: bool)
        ensures
            r == self@.open(),
    {
        !self.is_inside_quote && self.is_parsing_comment < 2
    }

    /// Takes in the character at `i`, which does not end the token. At the
    /// first position no comment can be open or about to open: the position
    /// before the star that opens a comment, or before the one that closes
    /// it, is the end of a piece.
    pub fn step(&mut self, t: &[char], i: usize)
        requires
            i < t.len(),
            i == 0 ==> old(self)@.phase != 1 && old(self)@.phase != 2,
        ensures
            final(self)@ == old(self)@.step(t@, i as int),
            old(self).wf() ==> final(self).wf(),
    {
        let c = t[i];
        let escaped = i > 0 && t[i - 1] == '\\';
        if self.is_inside_quote && self.is_parsing_comment < 2 {
            if c == '"' && !escaped {
                self.is_inside_quote = false;
            }
        } else if !self.is_inside_quote && self.is_parsing_comment == 2 {
            if !self.comment_begin_end.begin_set && c != ' ' {
                self.comment_begin_end.set_begin(i);
            }
            if c == '*' && i + 1 < t.len() && t[i + 1] == '/' {
                self.is_parsing_comment = 0;
                self.comment_begin_end.set_end(i - 1);
            }
        } else if !self.value_begin_end.begin_set && c == ' ' {
        } else {
            if self.value_begin_end.is_incomplete() && c == ' ' {
                self.value_begin_end.set_end(i);
            }
            if c == '/' && self.is_parsing_comment <= 1 {
                self.is_parsing_comment = 1;
            } else if self.is_parsing_comment == 1 && c == '*' {
                if !self.value_begin_end.end_set {
                    self.value_begin_end.set_end(i - 1);
                }
                self.is_parsing_comment = 2;
            } else if self.is_parsing_comment == 1 {
                self.is_parsing_comment = 0;
            }
            if !self.value_begin_end.begin_set {
                self.value_begin_end.set_begin(i);
            }
            if !self.is_inside_quote && c == '"' {
                self.is_inside_quote = !escaped;
            }
        }
    }

    /// The token that the delimiter at `i` ends, and the text behind it.
    pub fn token_at<'a>(&self, t: &'a [char], i: usize) -> (r: (
        &'a [char],
        (String, Option<String>, PlistIResultEndReason),
    ))
        requires
            i < t.len(),
            is_delimiter(t@[i as int]),
        ensures
            token_of(r) == self@.token_at(t@, i as int),
            r.0@.len() < t@.len(),
    {
        let c = t[i];
        let comment = if self.comment_begin_end.is_set() || self.comment_begin_end.is_incomplete() {
            Some(
                from_chars(
                    trim_chars(
                        piece_of(
                            t,
                            self.comment_begin_end.first(),
                            self.comment_begin_end.behind(),
                        ),
                    ),
                ),
            )
        } else {
            None
        };
        let text = if self.value_begin_end.is_set() {
            from_chars(piece_of(t, self.value_begin_end.first(), self.value_begin_end.behind()))
        } else if self.value_begin_end.is_incomplete() {
            from_chars(piece_of(t, self.value_begin_end.first(), i))
        } else {
            String::new()
        };
        let semicolon = i + 1 < t.len() && t[i + 1] == ';';
        let reason = if c == '}' && semicolon {
            PlistIResultEndReason::ArrayEnd
        } else {
            PlistIResultEndReason::new(c)
        };
        let next: usize = if (c == '}' || c == ')') && semicolon {
            i + 2
        } else {
            i + 1
        };
        (slice_subrange(t, next, t.len()), (text, comment, reason))
    }
}

/// Reading the fixed pieces of a document: its header and the banners of its
/// sections.
pub trait XcodeParserStringHelper {
    /// The characters of `self`.
    spec fn chars(&self) -> Seq<char>;

    /// The content behind the header of a document, or nothing where `self`
    /// does not begin with the header.
    fn validate_header(&self) -> (r: Option<&[char]>)
        ensures
            match r {
                Some(rest) => {
                    &&& header_end(self.chars()) is Some
                    &&& rest@ == self.chars().skip(header_end(self.chars())->0)
                    &&& rest@.len() <= self.chars().len()
                },
                None => header_end(self.chars()) is None,
            },
    ;

    /// The banner at the front of `self`: the text behind it and the name in
    /// it. `is_end` chooses between the banner that closes a section and
    /// the one that opens it.
    fn get_section_name(&self, is_end: bool) -> (r: Option<(&[char], String)>)
        ensures
            match r {
                Some((rest, name)) => banner(self.chars(), is_end) == Some((name@, rest@)),
                None => banner(self.chars(), is_end) is None,
            },
    ;
}

/// The name in a banner, from what stands between the tag and `*/`.
fn name_in_banner(inner: &[char]) -> (r: String)
    ensures
        r@ == section_name(inner@),
{
    let u = trim_chars(inner);
    let n = "section".unicode_len();
    if u.len() >= n && matches_at(u, u.len() - n, "section") && (u.len() == n
        || crate::text::whitespace(u[u.len() - n - 1])) {
        let head = slice_subrange(u, 0, u.len() - n);
        from_chars(trim_chars(head))
    } else {
        from_chars(u)
    }
}

impl XcodeParserStringHelper for [char] {
    open spec fn chars(&self) -> Seq<char> {
        self@
    }

    fn validate_header(&self) -> (r: Option<&[char]>) {
        let tag = "// !$*UTF8*$!";
        if !matches_at(self, 0, tag) {
            return None;
        }
        let n = tag.unicode_len();
        let lead = slice_subrange(self, n, self.len());
        let brace = self.len() - skip_blank(lead).len();
        proof {
            lemma_multispace_end_bounds(lead@, 0);
            lemma_multispace_end_shift(self@, n as int, 0);
        }
        if brace < self.len() && self[brace] == '{' {
            let behind = slice_subrange(self, brace + 1, self.len());
            let rest = skip_blank(behind);
            proof {
                lemma_multispace_end_bounds(behind@, 0);
                lemma_multispace_end_shift(self@, brace + 1, 0);
                assert(rest@ =~= self@.skip(multispace_end(self@, brace + 1)));
            }
            Some(rest)
        } else {
            None
        }
    }

    fn get_section_name(&self, is_end: bool) -> (r: Option<(&[char], String)>) {
        let tag = if is_end {
            "/* End"
        } else {
            "/* Begin"
        };
        let lead = skip_blank(self);
        let from = self.len() - lead.len();
        proof {
            lemma_multispace_end_bounds(self@, 0);
        }
        if !matches_at(self, from, tag) {
            return None;
        }
        let n = tag.unicode_len();
        match find(self, from + n, "*/") {
            Some(close) => {
                proof {
                    lemma_find_from_bounds(self@, from + n, "*/"@);
                    reveal_strlit("*/");
                }
                let name = name_in_banner(slice_subrange(self, from + n, close));
                let behind = slice_subrange(self, close + 2, self.len());
                let rest = skip_blank(behind);
                proof {
                    lemma_multispace_end_bounds(behind@, 0);
                    lemma_multispace_end_shift(self@, close + 2, 0);
                    assert(rest@ =~= self@.skip(multispace_end(self@, close + 2)));
                }
                Some((rest, name))
            },
            None => None,
        }
    }
}

/// Skipping multispace in what stands behind position `k` is skipping it in
/// the whole text from `k` on.
pub proof fn lemma_multispace_end_shift(s: Seq<char>, k: int, from: int)
    requires
        0 <= k <= s.len(),
        0 <= from <= s.len() - k,
    ensures
        multispace_end(s.skip(k), from) + k == multispace_end(s, from + k),
    decreases s.len() - k - from,
{
    if from < s.len() - k && crate::text::is_multispace(s[from + k]) {
        lemma_multispace_end_shift(s, k, from + 1);
    }
}

/// Where `find_from` finds the text, the text stands, at or behind the
/// position from which it was sought.
pub proof fn lemma_find_from_bounds(s: Seq<char>, from: int, pat: Seq<char>)
    requires
        0 <= from,
    ensures
        match find_from(s, from, pat) {
            Some(at) => from <= at && has_at(s, at, pat),
            None => true,
        },
    decreases s.len() - from,
{
    if from + pat.len() <= s.len() && !has_at(s, from, pat) && from < s.len() {
        lemma_find_from_bounds(s, from + 1, pat);
    }
}

/// Scans the first token of `input`, and hands back the text that is left
/// behind it with the token's text, comment and tag.
pub fn get_item_from_plist(input: &[char]) -> (r: (
    &[char],
    (String, Option<String>, PlistIResultEndReason),
))
    ensures
        token_of(r) == next_token(input@),
        r.0@.len() <= input@.len(),
        !(r.1.2 is Eof) ==> r.0@.len() < input@.len(),
{
    let t = skip_blank(input);
    proof {
        lemma_multispace_end_bounds(input@, 0);
    }
    if let Some((rest, name)) = t.get_section_name(false) {
        proof {
            lemma_banner_shortens(t@, false);
        }
        return (rest, (name, None, PlistIResultEndReason::SectionBegin));
    }
    if let Some((rest, name)) = t.get_section_name(true) {
        proof {
            lemma_banner_shortens(t@, true);
        }
        return (rest, (name, None, PlistIResultEndReason::SectionEnd));
    }
    let mut st = ScanState::new();
    let mut i: usize = 0;
    while i < t.len()
        invariant
            i <= t.len(),
            st.wf(),
            i == 0 ==> st@.phase == 0,
            t@.len() <= input@.len(),
            next_token(input@) == scan_from(t@, 0, ScanModel::start()),
            scan_from(t@, 0, ScanModel::start()) == scan_from(t@, i as int, st@),
        decreases t.len() - i,
    {
        if st.open_to_delimiters() && delimiter(t[i]) {
            return st.token_at(t, i);
        }
        st.step(t, i);
        i += 1;
    }
    (t, (String::new(), None, PlistIResultEndReason::Eof))
}

/// A banner takes at least its tag from the text.
pub proof fn lemma_banner_shortens(t: Seq<char>, is_end: bool)
    ensures
        match banner(t, is_end) {
            Some((name, rest)) => rest.len() < t.len(),
            None => true,
        },
{
    reveal_strlit("/* End");
    reveal_strlit("/* Begin");
    reveal_strlit("*/");
    let from = multispace_end(t, 0);
    let tag = banner_tag(is_end);
    if has_at(t, from, tag) {
        lemma_find_from_bounds(t, from + tag.len(), "*/"@);
        match find_from(t, from + tag.len(), "*/"@) {
            Some(close) => {
                lemma_multispace_end_bounds(t, close + 2);
            },
            None => {},
        }
    }
}

} // verus!
