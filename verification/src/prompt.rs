//! What the answer to a question means that is answered with yes or no.

use crate::text::{from_chars, to_chars, trim, trim_chars};
use vstd::prelude::*;
use vstd::string::StrSliceExecFns;

verus! {

/// `text` in lower case, as `str::to_lowercase` gives it.
pub uninterp spec fn lowercase(text: Seq<char>) -> Seq<char>;

/// `str::to_lowercase`: the text in lower case, which depends on the text
/// alone. Nothing is claimed of its characters.
#[verifier::external_body]
fn to_lowercase(text: &str) -> (r: String)
    ensures
        r@ == lowercase(text@),
{
    text.to_lowercase()
}

/// What an answer means that has been trimmed and put in lower case: no
/// answer is a no, an answer that begins with `y` is a yes, one that begins
/// with `n` is a no, and any other is no answer to the question.
pub open spec fn meaning(answer: Seq<char>) -> Option<bool> {
    if answer.len() == 0 {
        Some(false)
    } else if answer[0] == 'y' {
        Some(true)
    } else if answer[0] == 'n' {
        Some(false)
    } else {
        None
    }
}

/// Reading the answers of the user.
pub struct CommandLineParser {}

impl CommandLineParser {
    /// The meaning of an answer that has been trimmed and put in lower
    /// case; `None` where the question has to be asked again.
    pub fn decide(answer: &str) -> (r: Option<bool>)
        ensures
            r == meaning(answer@),
    {
        if answer.unicode_len() == 0 {
            Some(false)
        } else {
            let first = answer.get_char(0);
            if first == 'y' {
                Some(true)
            } else if first == 'n' {
                Some(false)
            } else {
                None
            }
        }
    }

    /// The meaning of the line that the user has typed: the line is
    /// trimmed and put in lower case, and then taken as `decide` takes it.
    pub fn interpret(line: &str) -> (r: Option<bool>)
        ensures
            r == meaning(lowercase(trim(line@))),
    {
        let chars = to_chars(line);
        let trimmed = from_chars(trim_chars(chars.as_slice()));
        let lowered = to_lowercase(trimmed.as_str());
        Self::decide(lowered.as_str())
    }
}

} // verus!
