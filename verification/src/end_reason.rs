//! The tag that the scanner gives each token: which delimiter ended it.

use vstd::prelude::*;

verus! {

/// What ended a token.
///
/// | text | tag |
/// |------|-----|
/// | `=`  | `KeyEnd` |
/// | `;`  | `ValueEnd` |
/// | `,`  | `TupleValueEnd` |
/// | `{`  | `ArrayBegin` |
/// | `};` | `ArrayEnd` |
/// | `(`  | `TupleBegin` |
/// | `)`, `);` | `TupleEnd` |
/// | `}` with no `;` behind it | `Eof` |
/// | tab, carriage return, line feed | `LineFeed` |
/// | a `Begin` banner | `SectionBegin` |
/// | an `End` banner | `SectionEnd` |
/// | the end of the text | `Eof` |
#[derive(Debug, Clone, Copy, PartialEq, Eq)]
pub enum PlistIResultEndReason {
    ValueEnd,
    KeyEnd,
    ArrayBegin,
    ArrayEnd,
    TupleBegin,
    TupleEnd,
    TupleValueEnd,
    WhiteSpace,
    LineFeed,
    SectionBegin,
    SectionEnd,
    Eof,
}

impl PlistIResultEndReason {
    /// The characters that have a tag.
    pub open spec fn is_known(c: char) -> bool {
        c == ' ' || c == '\t' || c == '\r' || c == '\n' || c == '=' || c == ',' || c == ';' || c
            == '{' || c == '}' || c == '(' || c == ')'
    }

    /// The tag of a single character, taken by itself. A closing brace alone
    /// ends the document: only the scanner, which sees the semicolon behind
    /// it, can tell the end of an array.
    pub open spec fn of_char(c: char) -> Self {
        if c == ' ' {
            PlistIResultEndReason::WhiteSpace
        } else if c == '\t' || c == '\r' || c == '\n' {
            PlistIResultEndReason::LineFeed
        } else if c == '=' {
            PlistIResultEndReason::KeyEnd
        } else if c == ',' {
            PlistIResultEndReason::TupleValueEnd
        } else if c == ';' {
            PlistIResultEndReason::ValueEnd
        } else if c == '{' {
            PlistIResultEndReason::ArrayBegin
        } else if c == '(' {
            PlistIResultEndReason::TupleBegin
        } else if c == ')' {
            PlistIResultEndReason::TupleEnd
        } else {
            PlistIResultEndReason::Eof
        }
    }

    /// A tag that opens a container.
    pub open spec fn is_begin(self) -> bool {
        self is ArrayBegin || self is TupleBegin || self is SectionBegin
    }

    /// A tag that closes a container.
    pub open spec fn is_end(self) -> bool {
        self is ArrayEnd || self is TupleEnd || self is SectionEnd
    }

    /// The tag of the character `c`. A character without a tag is a defect
    /// of the caller, not of a document, and is ruled out.
    pub fn new(c: char) -> (r: Self)
        requires
            Self::is_known(c),
        ensures
            r == Self::of_char(c),
    {
        if c == ' ' {
            PlistIResultEndReason::WhiteSpace
        } else if c == '\t' || c == '\r' || c == '\n' {
            PlistIResultEndReason::LineFeed
        } else if c == '=' {
            PlistIResultEndReason::KeyEnd
        } else if c == ',' {
            PlistIResultEndReason::TupleValueEnd
        } else if c == ';' {
            PlistIResultEndReason::ValueEnd
        } else if c == '{' {
            PlistIResultEndReason::ArrayBegin
        } else if c == '(' {
            PlistIResultEndReason::TupleBegin
        } else if c == ')' {
            PlistIResultEndReason::TupleEnd
        } else {
            PlistIResultEndReason::Eof
        }
    }
}

} // verus!
