//! From a tree to text: what each node is written as, and the code that
//! writes it.

use crate::types::{
    lemma_node_of, text_of, KeyNode, PlistItem, PlistKey, PlistKeyValueItem,
    PlistNode, PlistSectionItem, PlistTupleItem, PlistTupleValue, PlistValue,
};
use vstd::prelude::*;
use vstd::string::StringExecFns;

verus! {

/// `n` tab characters; none where `n` is not positive.
pub open spec fn tabs(n: int) -> Seq<char> {
    Seq::new(
        if n > 0 {
            n as nat
        } else {
            0
        },
        |i: int| '\t',
    )
}

/// A comment as it is written: `/* text */`.
pub open spec fn wrapped(text: Seq<char>) -> Seq<char> {
    "/* "@ + text + " */"@
}

/// An optional comment as it is written; nothing where there is none.
pub open spec fn comment_text(comment: Option<Seq<char>>) -> Seq<char> {
    match comment {
        Some(text) => wrapped(text),
        None => Seq::empty(),
    }
}

/// What follows a name or a value that may carry a comment: a space and the
/// comment, or nothing.
pub open spec fn comment_suffix(comment: Option<Seq<char>>) -> Seq<char> {
    match comment {
        Some(text) => " "@ + wrapped(text),
        None => Seq::empty(),
    }
}

/// A key as it is written: `name`, or `name /* comment */`.
pub open spec fn render_key(key: KeyNode) -> Seq<char> {
    key.name + comment_suffix(key.comment)
}

/// How many levels of indentation the writing of `node` adds at most.
pub open spec fn height(node: PlistNode) -> nat
    decreases node, 0nat,
{
    match node {
        PlistNode::Value { .. } => 0,
        PlistNode::TupleValue { .. } => 0,
        PlistNode::Item { key, value } => height(*value),
        PlistNode::SectionItem { name, items } => max_height(items, items.len()),
        PlistNode::TupleItem { name, items } => 1 + max_height(items, items.len()),
        PlistNode::Array { items } => if items.len() == 0 {
            0
        } else {
            1 + max_height(items, items.len())
        },
    }
}

/// The largest height among the first `count` nodes of `items`.
pub open spec fn max_height(items: Seq<PlistNode>, count: nat) -> nat
    decreases items, count,
{
    if count == 0 || count > items.len() {
        0
    } else {
        let rest = max_height(items, (count - 1) as nat);
        let last = height(items[count - 1]);
        if last > rest {
            last
        } else {
            rest
        }
    }
}

/// The text of `node` at indentation `n`.
///
/// - A value is `value;` and a line end, a tuple value is `value,`; a
///   comment, where there is one, stands before the punctuation.
/// - A key with its value is the indentation, the key, ` = ` and the value.
/// - An array is `{`, its children on lines of their own one level deeper,
///   and `};` at the array's own level; an empty array is `{};`.
/// - A tuple is `name = (`, its entries, and ` );`; with two entries or more,
///   each entry stands on a line of its own.
/// - A section is its `Begin` banner after an empty line, its children at the
///   section's own level, and its `End` banner.
pub open spec fn render(node: PlistNode, n: int) -> Seq<char>
    decreases node, 0nat,
{
    match node {
        PlistNode::Value { text, comment } => text + comment_suffix(comment) + ";\n"@,
        PlistNode::TupleValue { text, comment } => text + comment_suffix(comment) + ","@,
        PlistNode::Item { key, value } => tabs(n) + render_key(key) + " = "@ + render(*value, n),
        PlistNode::SectionItem { name, items } => "\n/* Begin "@ + name + " section */\n"@
            + render_all(items, n, items.len()) + "/* End "@ + name + " section */\n"@,
        PlistNode::TupleItem { name, items } => if items.len() > 1 {
            tabs(n) + name + " = ("@ + "\n"@ + render_entries(items, n + 1, true, items.len())
                + tabs(n) + " );\n"@
        } else {
            tabs(n) + name + " = ("@ + render_entries(items, n + 1, false, items.len())
                + " );\n"@
        },
        PlistNode::Array { items } => if items.len() == 0 {
            "{};\n"@
        } else {
            "{"@ + "\n"@ + render_all(items, n + 1, items.len()) + tabs(n) + "};\n"@
        },
    }
}

/// The texts of the first `count` nodes of `items`, one after the other.
pub open spec fn render_all(items: Seq<PlistNode>, n: int, count: nat) -> Seq<char>
    decreases items, count,
{
    if count == 0 || count > items.len() {
        Seq::empty()
    } else {
        render_all(items, n, (count - 1) as nat) + render(items[count - 1], n)
    }
}

/// The first `count` entries of a tuple: each is a space and the entry's
/// text, and where `lines` is set also the indentation before the text and a
/// line end behind it.
pub open spec fn render_entries(items: Seq<PlistNode>, n: int, lines: bool, count: nat) -> Seq<
    char,
>
    decreases items, count,
{
    if count == 0 || count > items.len() {
        Seq::empty()
    } else if lines {
        render_entries(items, n, lines, (count - 1) as nat) + " "@ + tabs(n) + render(
            items[count - 1],
            n,
        ) + "\n"@
    } else {
        render_entries(items, n, lines, (count - 1) as nat) + " "@ + render(items[count - 1], n)
    }
}

/// A whole document: the two header lines, the nodes at indentation 2, an
/// empty line and the closing brace.
pub open spec fn render_document(items: Seq<PlistNode>) -> Seq<char> {
    "// !$*UTF8*$!\n{\n"@ + render_all(items, 2, items.len()) + "\n}\n"@
}

/// Writing comments and indentation.
pub trait StringSerializer {
    /// The comment that `self` is written as.
    spec fn as_comment_text(&self) -> Seq<char>;

    /// `self` as a comment: `/* text */`, or nothing where there is no text.
    fn as_comment(&self) -> (r: String)
        ensures
            r@ == self.as_comment_text(),
    ;

    /// `number_of_tabs` tab characters.
    fn get_tabs(number_of_tabs: i32) -> (r: String)
        ensures
            r@ == tabs(number_of_tabs as int),
    ;
}

impl StringSerializer for String {
    open spec fn as_comment_text(&self) -> Seq<char> {
        wrapped(self@)
    }

    fn as_comment(&self) -> (r: String) {
        let mut r = String::new();
        r.append("/* ");
        r.append(self.as_str());
        r.append(" */");
        assert(r@ =~= wrapped(self@));
        r
    }

    fn get_tabs(number_of_tabs: i32) -> (r: String) {
        let mut r = String::new();
        let mut i: i32 = 0;
        while i < number_of_tabs
            invariant
                0 <= i,
                i <= number_of_tabs || i == 0,
                r@ == tabs(i as int),
            decreases number_of_tabs - i,
        {
            r.push('\t');
            i = i + 1;
            assert(tabs(i as int) =~= tabs(i - 1).push('\t'));
        }
        assert(tabs(i as int) =~= tabs(number_of_tabs as int));
        r
    }
}

impl StringSerializer for Option<String> {
    open spec fn as_comment_text(&self) -> Seq<char> {
        comment_text(text_of(*self))
    }

    fn as_comment(&self) -> (r: String) {
        match self {
            Some(val) => val.as_comment(),
            None => String::new(),
        }
    }

    fn get_tabs(number_of_tabs: i32) -> (r: String) {
        String::get_tabs(number_of_tabs)
    }
}

/// Writes ` /* comment */` behind `out` where there is a comment.
fn push_comment(out: &mut String, comment: &Option<String>)
    ensures
        final(out)@ == old(out)@ + comment_suffix(text_of(*comment)),
{
    match comment {
        Some(text) => {
            out.append(" ");
            out.append(text.as_comment().as_str());
            assert(out@ =~= old(out)@ + comment_suffix(text_of(*comment)));
        },
        None => {
            assert(out@ =~= old(out)@ + comment_suffix(text_of(*comment)));
        },
    }
}

/// Writes a key.
fn serialize_key(key: &PlistKey) -> (r: String)
    ensures
        r@ == render_key(key@),
{
    let mut r = String::new();
    r.append(key.name.as_str());
    push_comment(&mut r, &key.comment);
    assert(r@ =~= render_key(key@));
    r
}

/// Writes a value.
fn serialize_value(value: &PlistValue) -> (r: String)
    ensures
        r@ == render(value@, 0),
        forall|n: int| #[trigger] render(value@, n) == render(value@, 0),
{
    let mut r = String::new();
    r.append(value.value.as_str());
    push_comment(&mut r, &value.comment);
    r.append(";\n");
    assert(r@ =~= render(value@, 0));
    r
}

/// Writes a tuple value.
fn serialize_tuple_value(value: &PlistTupleValue) -> (r: String)
    ensures
        r@ == render(value@, 0),
        forall|n: int| #[trigger] render(value@, n) == render(value@, 0),
{
    let mut r = String::new();
    r.append(value.value.as_str());
    push_comment(&mut r, &value.comment);
    r.append(",");
    assert(r@ =~= render(value@, 0));
    r
}

/// No node is higher than the highest.
proof fn lemma_max_height(items: Seq<PlistNode>, count: nat, i: int)
    requires
        0 <= i < count <= items.len(),
    ensures
        height(items[i]) <= max_height(items, count),
    decreases count,
{
    if i < count - 1 {
        lemma_max_height(items, (count - 1) as nat, i);
    }
}

/// Writes the nodes of `items` one after the other.
fn serialize_all(items: &Vec<PlistItem>, number_of_tabs: &mut i32) -> (r: String)
    requires
        *old(number_of_tabs) + max_height(items.deep_view(), items.len() as nat) <= i32::MAX,
    ensures
        r@ == render_all(items.deep_view(), *old(number_of_tabs) as int, items.len() as nat),
        *final(number_of_tabs) == *old(number_of_tabs),
    decreases items, 1nat,
{
    let ghost nodes = items.deep_view();
    let ghost n = *number_of_tabs as int;
    let mut r = String::new();
    let mut i: usize = 0;
    while i < items.len()
        invariant
            i <= items.len(),
            nodes == items.deep_view(),
            *number_of_tabs == n,
            n + max_height(nodes, items.len() as nat) <= i32::MAX,
            r@ == render_all(nodes, n, i as nat),
        decreases items.len() - i,
    {
        proof {
            lemma_max_height(nodes, items.len() as nat, i as int);
        }
        let text = serialize_item(&items[i], number_of_tabs);
        r.append(text.as_str());
        i += 1;
    }
    r
}

/// Writes the entries of a tuple.
fn serialize_entries(items: &Vec<PlistItem>, number_of_tabs: &mut i32) -> (r: String)
    requires
        *old(number_of_tabs) + max_height(items.deep_view(), items.len() as nat) <= i32::MAX,
    ensures
        r@ == render_entries(
            items.deep_view(),
            *old(number_of_tabs) as int,
            items.len() > 1,
            items.len() as nat,
        ),
        *final(number_of_tabs) == *old(number_of_tabs),
    decreases items, 1nat,
{
    let ghost nodes = items.deep_view();
    let ghost n = *number_of_tabs as int;
    let lines = items.len() > 1;
    let mut r = String::new();
    let mut i: usize = 0;
    while i < items.len()
        invariant
            i <= items.len(),
            nodes == items.deep_view(),
            *number_of_tabs == n,
            lines == (items.len() > 1),
            n + max_height(nodes, items.len() as nat) <= i32::MAX,
            r@ == render_entries(nodes, n, lines, i as nat),
        decreases items.len() - i,
    {
        proof {
            lemma_max_height(nodes, items.len() as nat, i as int);
        }
        let ghost before = r@;
        r.append(" ");
        if lines {
            r.append(String::get_tabs(*number_of_tabs).as_str());
        }
        let text = serialize_item(&items[i], number_of_tabs);
        r.append(text.as_str());
        if lines {
            r.append("\n");
        }
        i += 1;
        assert(r@ =~= render_entries(nodes, n, lines, i as nat));
    }
    r
}

/// Writes a key with its value.
fn serialize_key_value(kv: &PlistKeyValueItem, number_of_tabs: &mut i32) -> (r: String)
    requires
        *old(number_of_tabs) + height(kv@) <= i32::MAX,
    ensures
        r@ == render(kv@, *old(number_of_tabs) as int),
        *final(number_of_tabs) == *old(number_of_tabs),
    decreases kv, 0nat,
{
    let ghost n = *number_of_tabs as int;
    let mut r = String::get_tabs(*number_of_tabs);
    r.append(serialize_key(&kv.key).as_str());
    r.append(" = ");
    let text = serialize_item(&kv.value, number_of_tabs);
    r.append(text.as_str());
    assert(r@ =~= render(kv@, n));
    r
}

/// Writes a section.
fn serialize_section(section: &PlistSectionItem, number_of_tabs: &mut i32) -> (r: String)
    requires
        *old(number_of_tabs) + height(section@) <= i32::MAX,
    ensures
        r@ == render(section@, *old(number_of_tabs) as int),
        *final(number_of_tabs) == *old(number_of_tabs),
    decreases section, 0nat,
{
    let ghost n = *number_of_tabs as int;
    let mut r = String::new();
    r.append("\n/* Begin ");
    r.append(section.name.as_str());
    r.append(" section */\n");
    let text = serialize_all(&section.items, number_of_tabs);
    r.append(text.as_str());
    r.append("/* End ");
    r.append(section.name.as_str());
    r.append(" section */\n");
    assert(r@ =~= render(section@, n));
    r
}

/// Writes a tuple.
fn serialize_tuple(tuple: &PlistTupleItem, number_of_tabs: &mut i32) -> (r: String)
    requires
        *old(number_of_tabs) + height(tuple@) <= i32::MAX,
    ensures
        r@ == render(tuple@, *old(number_of_tabs) as int),
        *final(number_of_tabs) == *old(number_of_tabs),
    decreases tuple, 0nat,
{
    let ghost n = *number_of_tabs as int;
    let mut r = String::get_tabs(*number_of_tabs);
    r.append(tuple.name.as_str());
    r.append(" = (");
    if tuple.items.len() > 1 {
        r.append("\n");
    }
    *number_of_tabs = *number_of_tabs + 1;
    let text = serialize_entries(&tuple.items, number_of_tabs);
    r.append(text.as_str());
    *number_of_tabs = *number_of_tabs - 1;
    if tuple.items.len() > 1 {
        r.append(String::get_tabs(*number_of_tabs).as_str());
    }
    r.append(" );\n");
    assert(r@ =~= render(tuple@, n));
    r
}

/// Writes a node at the indentation `number_of_tabs`, which is the same
/// after the call as before it.
pub fn serialize_item(item: &PlistItem, number_of_tabs: &mut i32) -> (r: String)
    requires
        *old(number_of_tabs) + height(item@) <= i32::MAX,
    ensures
        r@ == render(item@, *old(number_of_tabs) as int),
        *final(number_of_tabs) == *old(number_of_tabs),
    decreases item, 0nat,
{
    let ghost n = *number_of_tabs as int;
    proof {
        lemma_node_of(*item);
    }
    match item {
        PlistItem::Value(value) => serialize_value(value),
        PlistItem::TupleValue(value) => serialize_tuple_value(value),
        PlistItem::Item(kv) => serialize_key_value(kv, number_of_tabs),
        PlistItem::SectionItem(section) => serialize_section(section, number_of_tabs),
        PlistItem::TupleItem(tuple) => serialize_tuple(tuple, number_of_tabs),
        PlistItem::Array(items) => {
            let mut r = String::new();
            if items.len() == 0 {
                r.append("{};\n");
                assert(r@ =~= render(item@, n));
            } else {
                r.append("{");
                r.append("\n");
                *number_of_tabs = *number_of_tabs + 1;
                let text = serialize_all(items, number_of_tabs);
                r.append(text.as_str());
                *number_of_tabs = *number_of_tabs - 1;
                r.append(String::get_tabs(*number_of_tabs).as_str());
                r.append("};\n");
                assert(r@ =~= render(item@, n));
            }
            r
        },
    }
}

/// Writing a whole document.
pub trait XcodePlistSerializer {
    /// The text that `self` is written as.
    spec fn document(&self) -> Seq<char>;

    /// The deepest indentation that the writing reaches.
    spec fn deepest(&self) -> nat;

    /// The document that holds the nodes of `self`.
    fn serialize(&self) -> (r: String)
        requires
            self.deepest() <= i32::MAX,
        ensures
            r@ == self.document(),
    ;
}

/// Writing one node at a given indentation.
pub trait InternalXcodePlistSerializer {
    /// The text that `self` is written as at indentation `n`.
    spec fn text(&self, n: int) -> Seq<char>;

    /// How many levels of indentation the writing adds at most.
    spec fn levels(&self) -> nat;

    /// The text of `self` at the indentation `number_of_tabs`, which is the
    /// same after the call as before it.
    fn serialize(&self, number_of_tabs: &mut i32) -> (r: String)
        requires
            *old(number_of_tabs) + self.levels() <= i32::MAX,
        ensures
            r@ == self.text(*old(number_of_tabs) as int),
            *final(number_of_tabs) == *old(number_of_tabs),
    ;
}

impl XcodePlistSerializer for Vec<PlistItem> {
    open spec fn document(&self) -> Seq<char> {
        render_document(self.deep_view())
    }

    open spec fn deepest(&self) -> nat {
        2 + max_height(self.deep_view(), self.len() as nat)
    }

    fn serialize(&self) -> (r: String) {
        let mut number_of_tabs: i32 = 2;
        let mut r = String::new();
        r.append("// !$*UTF8*$!\n{\n");
        let text = serialize_all(self, &mut number_of_tabs);
        r.append(text.as_str());
        r.append("\n}\n");
        assert(r@ =~= render_document(self.deep_view()));
        r
    }
}

impl InternalXcodePlistSerializer for PlistItem {
    open spec fn text(&self, n: int) -> Seq<char> {
        render(self@, n)
    }

    open spec fn levels(&self) -> nat {
        height(self@)
    }

    fn serialize(&self, number_of_tabs: &mut i32) -> (r: String) {
        serialize_item(self, number_of_tabs)
    }
}

impl InternalXcodePlistSerializer for PlistKey {
    open spec fn text(&self, n: int) -> Seq<char> {
        render_key(self@)
    }

    open spec fn levels(&self) -> nat {
        0
    }

    fn serialize(&self, number_of_tabs: &mut i32) -> (r: String) {
        serialize_key(self)
    }
}

impl InternalXcodePlistSerializer for PlistValue {
    open spec fn text(&self, n: int) -> Seq<char> {
        render(self@, n)
    }

    open spec fn levels(&self) -> nat {
        0
    }

    fn serialize(&self, number_of_tabs: &mut i32) -> (r: String) {
        serialize_value(self)
    }
}

impl InternalXcodePlistSerializer for PlistTupleValue {
    open spec fn text(&self, n: int) -> Seq<char> {
        render(self@, n)
    }

    open spec fn levels(&self) -> nat {
        0
    }

    fn serialize(&self, number_of_tabs: &mut i32) -> (r: String) {
        serialize_tuple_value(self)
    }
}

impl InternalXcodePlistSerializer for PlistKeyValueItem {
    open spec fn text(&self, n: int) -> Seq<char> {
        render(self@, n)
    }

    open spec fn levels(&self) -> nat {
        height(self@)
    }

    fn serialize(&self, number_of_tabs: &mut i32) -> (r: String) {
        serialize_key_value(self, number_of_tabs)
    }
}

impl InternalXcodePlistSerializer for PlistSectionItem {
    open spec fn text(&self, n: int) -> Seq<char> {
        render(self@, n)
    }

    open spec fn levels(&self) -> nat {
        height(self@)
    }

    fn serialize(&self, number_of_tabs: &mut i32) -> (r: String) {
        serialize_section(self, number_of_tabs)
    }
}

impl InternalXcodePlistSerializer for PlistTupleItem {
    open spec fn text(&self, n: int) -> Seq<char> {
        render(self@, n)
    }

    open spec fn levels(&self) -> nat {
        height(self@)
    }

    fn serialize(&self, number_of_tabs: &mut i32) -> (r: String) {
        serialize_tuple(self, number_of_tabs)
    }
}

} // verus!
