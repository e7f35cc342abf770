//! The tree of a document: the node types, what each of them stands for in
//! contracts, and the primitives that build nodes.

use crate::end_reason::PlistIResultEndReason;
use crate::serializer::{comment_text, StringSerializer};
use vstd::prelude::*;
use vstd::string::StringExecFns;

verus! {

/// What a key is: its name and the comment beside it.
pub ghost struct KeyNode {
    pub name: Seq<char>,
    pub comment: Option<Seq<char>>,
}

/// What a node is, as contracts see it.
pub ghost enum PlistNode {
    /// A scalar that a semicolon ends.
    Value { text: Seq<char>, comment: Option<Seq<char>> },
    /// A scalar inside a tuple, which a comma ends.
    TupleValue { text: Seq<char>, comment: Option<Seq<char>> },
    /// A key with its value.
    Item { key: KeyNode, value: Box<PlistNode> },
    /// The nodes between a `Begin` and an `End` banner.
    SectionItem { name: Seq<char>, items: Seq<PlistNode> },
    /// A named list in parentheses.
    TupleItem { name: Seq<char>, items: Seq<PlistNode> },
    /// A list in braces.
    Array { items: Seq<PlistNode> },
}

/// The name of a key, with the comment that may stand beside it.
#[derive(Debug, PartialEq, Eq)]
pub struct PlistKey {
    pub name: String,
    pub comment: Option<String>,
}

/// A scalar that a semicolon ends.
#[derive(Debug, PartialEq, Eq)]
pub struct PlistValue {
    pub value: String,
    pub comment: Option<String>,
}

/// A scalar inside a tuple.
#[derive(Debug, PartialEq, Eq)]
pub struct PlistTupleValue {
    pub value: String,
    pub comment: Option<String>,
}

/// A key with its value: a scalar, an array or a tuple.
#[derive(Debug, PartialEq, Eq)]
pub struct PlistKeyValueItem {
    pub key: Box<PlistKey>,
    pub value: Box<PlistItem>,
}

/// The nodes between a `Begin` and an `End` banner of one name.
#[derive(Debug, PartialEq, Eq)]
pub struct PlistSectionItem {
    pub name: String,
    pub items: Vec<PlistItem>,
}

/// A named list in parentheses, whose entries end in commas.
#[derive(Debug, PartialEq, Eq)]
pub struct PlistTupleItem {
    pub name: String,
    pub items: Vec<PlistItem>,
}

/// A node of the tree.
#[derive(Debug, PartialEq, Eq)]
pub enum PlistItem {
    Value(PlistValue),
    TupleValue(PlistTupleValue),
    Item(PlistKeyValueItem),
    SectionItem(PlistSectionItem),
    TupleItem(PlistTupleItem),
    Array(Vec<PlistItem>),
}

/// The characters of an optional string.
pub open spec fn text_of(s: Option<String>) -> Option<Seq<char>> {
    match s {
        Some(s) => Some(s@),
        None => None,
    }
}

/// What the key `key` stands for.
pub open spec fn key_of(key: PlistKey) -> KeyNode {
    KeyNode { name: key.name@, comment: text_of(key.comment) }
}

/// What the node `item` stands for. A list of nodes stands for the sequence
/// of what its members stand for, in the same order.
pub open spec fn node_of(item: PlistItem) -> PlistNode
    decreases item,
{
    match item {
        PlistItem::Value(v) => PlistNode::Value { text: v.value@, comment: text_of(v.comment) },
        PlistItem::TupleValue(v) => PlistNode::TupleValue {
            text: v.value@,
            comment: text_of(v.comment),
        },
        PlistItem::Item(kv) => PlistNode::Item {
            key: key_of(*kv.key),
            value: Box::new(node_of(*kv.value)),
        },
        PlistItem::SectionItem(s) => PlistNode::SectionItem {
            name: s.name@,
            items: Seq::new(
                s.items.len() as nat,
                |i: int|
                    if 0 <= i < s.items.len() {
                        node_of(s.items[i])
                    } else {
                        arbitrary()
                    },
            ),
        },
        PlistItem::TupleItem(t) => PlistNode::TupleItem {
            name: t.name@,
            items: Seq::new(
                t.items.len() as nat,
                |i: int|
                    if 0 <= i < t.items.len() {
                        node_of(t.items[i])
                    } else {
                        arbitrary()
                    },
            ),
        },
        PlistItem::Array(items) => PlistNode::Array {
            items: Seq::new(
                items.len() as nat,
                |i: int|
                    if 0 <= i < items.len() {
                        node_of(items[i])
                    } else {
                        arbitrary()
                    },
            ),
        },
    }
}

impl View for PlistKey {
    type V = KeyNode;

    open spec fn view(&self) -> KeyNode {
        key_of(*self)
    }
}

impl DeepView for PlistKey {
    type V = KeyNode;

    open spec fn deep_view(&self) -> KeyNode {
        key_of(*self)
    }
}

impl View for PlistItem {
    type V = PlistNode;

    open spec fn view(&self) -> PlistNode {
        node_of(*self)
    }
}

impl DeepView for PlistItem {
    type V = PlistNode;

    open spec fn deep_view(&self) -> PlistNode {
        node_of(*self)
    }
}

impl View for PlistValue {
    type V = PlistNode;

    open spec fn view(&self) -> PlistNode {
        PlistNode::Value { text: self.value@, comment: text_of(self.comment) }
    }
}

impl View for PlistTupleValue {
    type V = PlistNode;

    open spec fn view(&self) -> PlistNode {
        PlistNode::TupleValue { text: self.value@, comment: text_of(self.comment) }
    }
}

impl View for PlistKeyValueItem {
    type V = PlistNode;

    open spec fn view(&self) -> PlistNode {
        PlistNode::Item { key: key_of(*self.key), value: Box::new(node_of(*self.value)) }
    }
}

impl View for PlistSectionItem {
    type V = PlistNode;

    open spec fn view(&self) -> PlistNode {
        PlistNode::SectionItem { name: self.name@, items: self.items.deep_view() }
    }
}

impl View for PlistTupleItem {
    type V = PlistNode;

    open spec fn view(&self) -> PlistNode {
        PlistNode::TupleItem { name: self.name@, items: self.items.deep_view() }
    }
}

/// The view of a node, case by case, with each list of children seen as the
/// list's own deep view.
pub proof fn lemma_node_of(item: PlistItem)
    ensures
        node_of(item) == match item {
            PlistItem::Value(v) => v@,
            PlistItem::TupleValue(v) => v@,
            PlistItem::Item(kv) => kv@,
            PlistItem::SectionItem(s) => s@,
            PlistItem::TupleItem(t) => t@,
            PlistItem::Array(items) => PlistNode::Array { items: items.deep_view() },
        },
{
    match item {
        PlistItem::SectionItem(s) => {
            assert(node_of(item)->SectionItem_items =~= s.items.deep_view());
        },
        PlistItem::TupleItem(t) => {
            assert(node_of(item)->TupleItem_items =~= t.items.deep_view());
        },
        PlistItem::Array(items) => {
            assert(node_of(item)->Array_items =~= items.deep_view());
        },
        _ => {},
    }
}

/// Pushing a node onto a list appends what the node stands for to what the
/// list stands for.
pub proof fn lemma_push_deep_view(before: Vec<PlistItem>, after: Vec<PlistItem>, item: PlistItem)
    requires
        after@ == before@.push(item),
    ensures
        after.deep_view() == before.deep_view().push(item@),
{
    assert(after.deep_view() =~= before.deep_view().push(item@));
}

/// A node that is made from the text and the comment of one token.
pub trait PlistItemCustomDeserializeCompatible: Sized {
    /// Whether `self` holds exactly `text` and `comment`.
    spec fn holds(&self, text: Seq<char>, comment: Option<Seq<char>>) -> bool;

    /// The node that holds the text and the comment of the token `input`.
    fn from_plist_result(input: &(&str, Option<String>, PlistIResultEndReason)) -> (r: Self)
        ensures
            r.holds(input.0@, text_of(input.1)),
    ;
}

/// A copy of an optional string.
pub fn copy_text(text: &Option<String>) -> (r: Option<String>)
    ensures
        text_of(r) == text_of(*text),
{
    match text {
        Some(s) => Some(s.clone()),
        None => None,
    }
}

/// An optional string slice as an owned string.
pub fn own_text(text: Option<&str>) -> (r: Option<String>)
    ensures
        text_of(r) == slice_text(text),
{
    match text {
        Some(s) => Some(s.to_owned()),
        None => None,
    }
}

/// The characters of an optional string slice.
pub open spec fn slice_text(s: Option<&str>) -> Option<Seq<char>> {
    match s {
        Some(s) => Some(s@),
        None => None,
    }
}

impl PlistItemCustomDeserializeCompatible for PlistKey {
    open spec fn holds(&self, text: Seq<char>, comment: Option<Seq<char>>) -> bool {
        self@ == (KeyNode { name: text, comment })
    }

    fn from_plist_result(input: &(&str, Option<String>, PlistIResultEndReason)) -> (r: Self) {
        PlistKey { name: input.0.to_owned(), comment: copy_text(&input.1) }
    }
}

impl PlistItemCustomDeserializeCompatible for PlistValue {
    open spec fn holds(&self, text: Seq<char>, comment: Option<Seq<char>>) -> bool {
        self@ == (PlistNode::Value { text, comment })
    }

    fn from_plist_result(input: &(&str, Option<String>, PlistIResultEndReason)) -> (r: Self) {
        PlistValue { value: input.0.to_owned(), comment: copy_text(&input.1) }
    }
}

impl PlistItemCustomDeserializeCompatible for PlistTupleValue {
    open spec fn holds(&self, text: Seq<char>, comment: Option<Seq<char>>) -> bool {
        self@ == (PlistNode::TupleValue { text, comment })
    }

    fn from_plist_result(input: &(&str, Option<String>, PlistIResultEndReason)) -> (r: Self) {
        PlistTupleValue { value: input.0.to_owned(), comment: copy_text(&input.1) }
    }
}

impl PlistKey {
    /// The key in one line: the name, a space, and the comment as it is
    /// written.
    pub fn to_text(&self) -> (r: String)
        ensures
            r@ == self.name@ + " "@ + comment_text(text_of(self.comment)),
    {
        let mut r = String::new();
        r.append(self.name.as_str());
        r.append(" ");
        r.append(self.comment.as_comment().as_str());
        assert(r@ =~= self.name@ + " "@ + comment_text(text_of(self.comment)));
        r
    }
}

impl PlistValue {
    /// A value node.
    pub fn create(value: &str, comment: Option<String>) -> (r: PlistItem)
        ensures
            r@ == (PlistNode::Value { text: value@, comment: text_of(comment) }),
    {
        PlistItem::Value(PlistValue { value: value.to_owned(), comment })
    }
}

impl PlistTupleValue {
    /// A tuple value node.
    pub fn create(value: &str, comment: Option<String>) -> (r: PlistItem)
        ensures
            r@ == (PlistNode::TupleValue { text: value@, comment: text_of(comment) }),
    {
        PlistItem::TupleValue(PlistTupleValue { value: value.to_owned(), comment })
    }
}

/// The tuple values that stand for the pairs of text and comment in
/// `entries`, in the same order.
pub open spec fn tuple_values(entries: Seq<(&str, Option<String>)>) -> Seq<PlistNode> {
    Seq::new(
        entries.len(),
        |i: int| PlistNode::TupleValue { text: entries[i].0@, comment: text_of(entries[i].1) },
    )
}

/// The items that stand for the pairs of key and value in `pairs`, in the
/// same order, none of them with a comment.
pub open spec fn plain_items(pairs: Seq<(&str, &str)>) -> Seq<PlistNode> {
    Seq::new(
        pairs.len(),
        |i: int|
            PlistNode::Item {
                key: KeyNode { name: pairs[i].0@, comment: None },
                value: Box::new(PlistNode::Value { text: pairs[i].1@, comment: None }),
            },
    )
}

impl PlistTupleItem {
    /// A tuple named `name` with one tuple value for each pair of text and
    /// comment, in the order given.
    pub fn create(name: &str, items_names_comments: Vec<(&str, Option<String>)>) -> (r: PlistItem)
        ensures
            r@ == (PlistNode::TupleItem {
                name: name@,
                items: tuple_values(items_names_comments@),
            }),
    {
        let ghost entries = items_names_comments@;
        let mut items: Vec<PlistItem> = Vec::new();
        for pair in it: items_names_comments
            invariant
                it.seq() == entries,
                items.deep_view() =~= tuple_values(entries).take(it.index() as int),
        {
            let (key, val) = pair;
            let ghost before = items;
            let item = PlistTupleValue::create(key, val);
            items.push(item);
            proof {
                lemma_push_deep_view(before, items, item);
                assert(item@ == tuple_values(entries)[it.index() as int]);
            }
        }
        let r = PlistItem::TupleItem(PlistTupleItem { name: name.to_owned(), items });
        proof {
            lemma_node_of(r);
            assert(items.deep_view() =~= tuple_values(entries));
        }
        r
    }
}

impl PlistSectionItem {
    /// A section named `name` that holds `items`.
    pub fn create(name: &str, items: Vec<PlistItem>) -> (r: PlistItem)
        ensures
            r@ == (PlistNode::SectionItem { name: name@, items: items.deep_view() }),
    {
        let r = PlistItem::SectionItem(PlistSectionItem { name: name.to_owned(), items });
        proof {
            lemma_node_of(r);
        }
        r
    }
}

impl PlistKeyValueItem {
    /// One item for each pair of key and value, without comments, in the
    /// order given.
    pub fn create_value_type_by_array(key_val_items: Vec<(&str, &str)>) -> (r: Vec<PlistItem>)
        ensures
            r.deep_view() == plain_items(key_val_items@),
    {
        let mut items: Vec<PlistItem> = Vec::new();
        let mut i: usize = 0;
        while i < key_val_items.len()
            invariant
                i <= key_val_items.len(),
                items.deep_view() =~= plain_items(key_val_items@).take(i as int),
            decreases key_val_items.len() - i,
        {
            let (key, val) = key_val_items[i];
            let ghost before = items;
            let item = PlistKeyValueItem::create_value_type(key, None, val, None);
            items.push(item);
            proof {
                lemma_push_deep_view(before, items, item);
                assert(item@ == plain_items(key_val_items@)[i as int]);
            }
            i += 1;
        }
        assert(items.deep_view() =~= plain_items(key_val_items@));
        items
    }

    /// The item `key = value;`, each side with the comment given for it.
    pub fn create_value_type(
        key: &str,
        key_comment: Option<&str>,
        value: &str,
        value_comment: Option<&str>,
    ) -> (r: PlistItem)
        ensures
            r@ == (PlistNode::Item {
                key: KeyNode { name: key@, comment: slice_text(key_comment) },
                value: Box::new(
                    PlistNode::Value { text: value@, comment: slice_text(value_comment) },
                ),
            }),
    {
        let held = PlistItem::Value(
            PlistValue { value: value.to_owned(), comment: own_text(value_comment) },
        );
        proof {
            lemma_node_of(held);
        }
        PlistItem::Item(
            PlistKeyValueItem {
                key: Box::new(PlistKey { name: key.to_owned(), comment: own_text(key_comment) }),
                value: Box::new(held),
            },
        )
    }

    /// The item `key = { ... };` whose array holds `value`.
    pub fn create_array_type(key: &str, key_comment: Option<&str>, value: Vec<PlistItem>) -> (r:
        PlistItem)
        ensures
            r@ == (PlistNode::Item {
                key: KeyNode { name: key@, comment: slice_text(key_comment) },
                value: Box::new(PlistNode::Array { items: value.deep_view() }),
            }),
    {
        let array = PlistItem::Array(value);
        proof {
            lemma_node_of(array);
        }
        PlistItem::Item(
            PlistKeyValueItem {
                key: Box::new(PlistKey { name: key.to_owned(), comment: own_text(key_comment) }),
                value: Box::new(array),
            },
        )
    }
}

} // verus!
