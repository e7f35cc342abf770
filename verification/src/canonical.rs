//! The trees that reading gives back as they were written: which texts a
//! name, a value or a comment may be, and which shapes a tree may have; and
//! the code that tells whether a tree is one of them.

use crate::scanner::{delimiter, is_delimiter};
use crate::text::{has_at, is_whitespace, matches_at, to_chars, whitespace};
use crate::types::{lemma_node_of, text_of, PlistItem, PlistNode};
use vstd::prelude::*;
use vstd::string::StrSliceExecFns;

verus! {

/// A word without quotes: no delimiter, no space, no quote, and nowhere the
/// two characters that open a comment.
pub open spec fn is_plain_word(a: Seq<char>) -> bool {
    &&& a.len() > 0
    &&& forall|i: int| 0 <= i < a.len() ==> !is_delimiter(#[trigger] a[i]) && a[i] != ' ' && a[i] != '"'
    &&& forall|i: int| 0 <= i < a.len() - 1 ==> !(#[trigger] a[i] == '/' && a[i + 1] == '*')
}

/// A text in quotes: it begins and ends with a quote, every quote in between
/// has a backslash before it, and the closing quote has none.
pub open spec fn is_quoted(a: Seq<char>) -> bool {
    &&& a.len() >= 2
    &&& a[0] == '"'
    &&& a[a.len() - 1] == '"'
    &&& a[a.len() - 2] != '\\'
    &&& forall|i: int| 0 < i < a.len() - 1 && #[trigger] a[i] == '"' ==> a[i - 1] == '\\'
}

/// What a name or a value may be: nothing, a plain word or a text in
/// quotes.
pub open spec fn is_atom(a: Seq<char>) -> bool {
    a.len() == 0 || is_plain_word(a) || is_quoted(a)
}

/// Whether the comment begins like the inside of a banner: with `Begin` or
/// with `End`. Where no text stands before such a comment, the comment is
/// read as a banner.
pub open spec fn begins_banner(c: Option<Seq<char>>) -> bool {
    match c {
        Some(t) => has_at(t, 0, "Begin"@) || has_at(t, 0, "End"@),
        None => false,
    }
}

/// A name or a value with the comment beside it, as they come back when
/// they are written: the text is an atom, the comment is one that comes
/// back, and a comment that begins like a banner has a text before it.
pub open spec fn is_scalar(text: Seq<char>, comment: Option<Seq<char>>) -> bool {
    &&& is_atom(text)
    &&& is_comment(comment)
    &&& text.len() == 0 ==> !begins_banner(comment)
}

/// A text with no whitespace at either end and without the two characters
/// `*/`.
pub open spec fn is_comment_text(t: Seq<char>) -> bool {
    &&& t.len() > 0 ==> !is_whitespace(t[0]) && !is_whitespace(t[t.len() - 1])
    &&& forall|i: int| 0 <= i < t.len() - 1 ==> !(#[trigger] t[i] == '*' && t[i + 1] == '/')
}

/// A comment that comes back as it was written, or no comment.
pub open spec fn is_comment(c: Option<Seq<char>>) -> bool {
    match c {
        Some(t) => is_comment_text(t),
        None => true,
    }
}

/// A tuple value whose text and comment come back as written.
pub open spec fn is_entry(node: PlistNode) -> bool {
    match node {
        PlistNode::TupleValue { text, comment } => is_scalar(text, comment),
        _ => false,
    }
}

/// A node that may stand in a document, in an array or in a section, and
/// comes back as it was written:
///
/// - a key with a value, or with an array of such nodes;
/// - a tuple of tuple values;
/// - a section of such nodes;
///
/// where every name and value is nothing, a plain word or a text in
/// quotes, every comment is free of `*/` and of whitespace at its ends, and
/// so is the name of every section; and where no text stands before a
/// comment, the comment does not begin with `Begin` or `End`.
pub open spec fn is_member(node: PlistNode) -> bool
    decreases node,
{
    match node {
        PlistNode::Item { key, value } => {
            &&& is_scalar(key.name, key.comment)
            &&& match *value {
                PlistNode::Value { text, comment } => is_scalar(text, comment),
                PlistNode::Array { items } => forall|i: int|
                    0 <= i < items.len() ==> is_member(#[trigger] items[i]),
                _ => false,
            }
        },
        PlistNode::TupleItem { name, items } => {
            &&& is_atom(name)
            &&& forall|i: int| 0 <= i < items.len() ==> is_entry(#[trigger] items[i])
        },
        PlistNode::SectionItem { name, items } => {
            &&& is_comment_text(name)
            &&& forall|i: int| 0 <= i < items.len() ==> is_member(#[trigger] items[i])
        },
        _ => false,
    }
}

/// How many tokens the text of `node` is made of.
pub open spec fn tokens(node: PlistNode) -> nat
    decreases node, 0nat,
{
    match node {
        PlistNode::Value { .. } => 1,
        PlistNode::TupleValue { .. } => 1,
        PlistNode::Item { key, value } => match *value {
            PlistNode::Array { items } => 3 + tokens_all(items, items.len()),
            _ => 2,
        },
        PlistNode::TupleItem { name, items } => 3 + items.len(),
        PlistNode::SectionItem { name, items } => 2 + tokens_all(items, items.len()),
        PlistNode::Array { items } => 2 + tokens_all(items, items.len()),
    }
}

/// How many tokens the texts of the first `count` nodes of `items` are made
/// of.
pub open spec fn tokens_all(items: Seq<PlistNode>, count: nat) -> nat
    decreases items, count,
{
    if count == 0 || count > items.len() {
        0
    } else {
        tokens_all(items, (count - 1) as nat) + tokens(items[count - 1])
    }
}

/// Tells whether `a` is a plain word.
pub fn plain_word(a: &[char]) -> (r: bool)
    ensures
        r == is_plain_word(a@),
{
    if a.len() == 0 {
        return false;
    }
    let mut i: usize = 0;
    while i < a.len()
        invariant
            i <= a.len(),
            forall|j: int|
                0 <= j < i ==> !is_delimiter(#[trigger] a@[j]) && a@[j] != ' ' && a@[j] != '"',
            forall|j: int| 0 <= j < i - 1 ==> !(#[trigger] a@[j] == '/' && a@[j + 1] == '*'),
        decreases a.len() - i,
    {
        let c = a[i];
        if delimiter(c) || c == ' ' || c == '"' {
            return false;
        }
        if i > 0 && a[i - 1] == '/' && c == '*' {
            assert(a@[i - 1] == '/' && a@[i - 1 + 1] == '*');
            return false;
        }
        i += 1;
    }
    true
}

/// Tells whether `a` is a text in quotes.
pub fn quoted(a: &[char]) -> (r: bool)
    ensures
        r == is_quoted(a@),
{
    let n = a.len();
    if n < 2 || a[0] != '"' || a[n - 1] != '"' || a[n - 2] == '\\' {
        return false;
    }
    let mut i: usize = 1;
    while i < n - 1
        invariant
            1 <= i <= n - 1,
            n == a.len(),
            forall|j: int| 0 < j < i && #[trigger] a@[j] == '"' ==> a@[j - 1] == '\\',
        decreases n - i,
    {
        if a[i] == '"' && a[i - 1] != '\\' {
            return false;
        }
        i += 1;
    }
    true
}

/// Tells whether `text` is nothing, a plain word or a text in quotes.
pub fn atom(text: &str) -> (r: bool)
    ensures
        r == is_atom(text@),
{
    let chars = to_chars(text);
    chars.len() == 0 || plain_word(chars.as_slice()) || quoted(chars.as_slice())
}

/// Tells whether `text` and the comment beside it come back as they are
/// written.
pub fn scalar(text: &str, held: &Option<String>) -> (r: bool)
    ensures
        r == is_scalar(text@, text_of(*held)),
{
    if !atom(text) || !comment(held) {
        return false;
    }
    if text.unicode_len() > 0 {
        return true;
    }
    match held {
        Some(c) => {
            let chars = to_chars(c.as_str());
            !matches_at(chars.as_slice(), 0, "Begin") && !matches_at(chars.as_slice(), 0, "End")
        },
        None => true,
    }
}

/// Tells whether `text` has no whitespace at its ends and nowhere the two
/// characters that end a comment.
pub fn comment_text(text: &str) -> (r: bool)
    ensures
        r == is_comment_text(text@),
{
    let t = to_chars(text);
    let n = t.len();
    if n == 0 {
        return true;
    }
    if whitespace(t[0]) || whitespace(t[n - 1]) {
        return false;
    }
    let mut i: usize = 0;
    while i < n - 1
        invariant
            i <= n - 1,
            n == t.len(),
            t@ == text@,
            forall|j: int| 0 <= j < i ==> !(#[trigger] t@[j] == '*' && t@[j + 1] == '/'),
        decreases n - i,
    {
        if t[i] == '*' && t[i + 1] == '/' {
            assert(t@[i as int] == '*' && t@[i + 1] == '/');
            return false;
        }
        i += 1;
    }
    true
}

/// Tells whether `comment` comes back as it is written.
pub fn comment(held: &Option<String>) -> (r: bool)
    ensures
        r == is_comment(text_of(*held)),
{
    match held {
        Some(text) => comment_text(text.as_str()),
        None => true,
    }
}

/// The tokens of more nodes are no fewer.
pub proof fn lemma_tokens_grow(items: Seq<PlistNode>, a: nat, b: nat)
    requires
        a <= b <= items.len(),
    ensures
        tokens_all(items, a) <= tokens_all(items, b),
    decreases b,
{
    if a < b {
        lemma_tokens_grow(items, a, (b - 1) as nat);
    }
}

/// Whether all of `items` are members whose texts together are made of no
/// more than `budget` tokens.
pub open spec fn fit(items: Seq<PlistNode>, budget: int) -> bool {
    &&& forall|i: int| 0 <= i < items.len() ==> is_member(#[trigger] items[i])
    &&& tokens_all(items, items.len()) <= budget
}

/// Goes through the tuple values `items`.
pub fn entries(items: &Vec<PlistItem>) -> (r: bool)
    ensures
        r == forall|i: int| 0 <= i < items.len() ==> is_entry(#[trigger] items.deep_view()[i]),
{
    let mut i: usize = 0;
    while i < items.len()
        invariant
            i <= items.len(),
            forall|j: int| 0 <= j < i ==> is_entry(#[trigger] items.deep_view()[j]),
        decreases items.len() - i,
    {
        proof {
            lemma_node_of(items[i as int]);
            assert(items.deep_view()[i as int] == items[i as int]@);
        }
        let good = match &items[i] {
            PlistItem::TupleValue(value) => scalar(value.value.as_str(), &value.comment),
            _ => false,
        };
        if !good {
            return false;
        }
        i += 1;
    }
    true
}

/// Goes through the nodes `items` with a budget of tokens. The answer is
/// what is left of the budget, if the nodes are members and the budget is
/// enough for them.
pub fn members(items: &Vec<PlistItem>, budget: usize) -> (r: Option<usize>)
    ensures
        r is Some <==> fit(items.deep_view(), budget as int),
        r is Some ==> r->0 == budget - tokens_all(items.deep_view(), items.len() as nat),
    decreases items, 1nat,
{
    let ghost nodes = items.deep_view();
    let mut left = budget;
    let mut i: usize = 0;
    while i < items.len()
        invariant
            i <= items.len(),
            nodes == items.deep_view(),
            forall|j: int| 0 <= j < i ==> is_member(#[trigger] nodes[j]),
            left == budget - tokens_all(nodes, i as nat),
        decreases items.len() - i,
    {
        proof {
            assert(nodes[i as int] == items[i as int]@);
            lemma_tokens_grow(nodes, (i + 1) as nat, items.len() as nat);
        }
        match member(&items[i], left) {
            Some(rest) => {
                left = rest;
            },
            None => {
                return None;
            },
        }
        i += 1;
    }
    Some(left)
}

/// Looks at the node `item` with a budget of tokens. The answer is what is
/// left of the budget, if the node is a member and the budget is enough for
/// it.
pub fn member(item: &PlistItem, budget: usize) -> (r: Option<usize>)
    ensures
        r is Some <==> is_member(item@) && tokens(item@) <= budget,
        r is Some ==> r->0 == budget - tokens(item@),
    decreases item, 0nat,
{
    proof {
        lemma_node_of(*item);
    }
    match item {
        PlistItem::Item(kv) => {
            proof {
                lemma_node_of(*kv.value);
            }
            if !scalar(kv.key.name.as_str(), &kv.key.comment) {
                return None;
            }
            match &*kv.value {
                PlistItem::Value(value) => {
                    if scalar(value.value.as_str(), &value.comment) && budget >= 2 {
                        Some(budget - 2)
                    } else {
                        None
                    }
                },
                PlistItem::Array(items) => {
                    if budget >= 3 {
                        members(items, budget - 3)
                    } else {
                        None
                    }
                },
                _ => None,
            }
        },
        PlistItem::TupleItem(tuple) => {
            if atom(tuple.name.as_str()) && entries(&tuple.items) && budget >= 3 && tuple.items.len()
                <= budget - 3 {
                Some(budget - 3 - tuple.items.len())
            } else {
                None
            }
        },
        PlistItem::SectionItem(section) => {
            if comment_text(section.name.as_str()) && budget >= 2 {
                members(&section.items, budget - 2)
            } else {
                None
            }
        },
        _ => None,
    }
}

} // verus!
