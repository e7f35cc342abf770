//! The tree builder: it takes the tokens of a document one by one and folds
//! them into the tree.
//!
//! The builder keeps a stack of keys that wait for their values and a stack
//! of lists, one for each container that is open, the document's own list
//! at the bottom. A token that opens a container pushes a list; a token that
//! closes one pops the list with the key that governs it and appends the
//! finished container to the list below.

use crate::end_reason::PlistIResultEndReason;
use crate::scanner::{get_item_from_plist, header_end, next_token, XcodeParserStringHelper};
use crate::text::{skip_blank, skip_multispace, to_chars};
use crate::types::{
    lemma_node_of, KeyNode, PlistItem, PlistItemCustomDeserializeCompatible, PlistKey,
    PlistKeyValueItem, PlistNode, PlistSectionItem, PlistTupleItem, PlistTupleValue, PlistValue,
};
use vstd::prelude::*;

verus! {

/// The most tokens that are taken from one document.
pub const MAX_ITERATIONS: usize = 5000;

/// Why a document could not be read. An offset is the position, counted in
/// characters from the beginning of the document, of the token that could
/// not be taken.
#[derive(Debug, Clone, Copy, PartialEq, Eq)]
pub enum ParseError {
    /// The text does not begin with the header of a document.
    HeaderInvalid,
    /// A token closes a container or ends a value, and no container is open
    /// or no key waits; or the banner that closes a section does not name
    /// the section that is open.
    StructuralUnderflow { offset: usize },
    /// The document's end was not reached within `MAX_ITERATIONS` tokens with
    /// every container closed.
    RunawayIteration,
    /// A tab or a line end stands inside a token.
    UnknownDelimiter { offset: usize },
}

/// The state of the builder.
pub ghost struct BuildModel {
    /// The keys that wait for a value, the latest last.
    pub keys: Seq<KeyNode>,
    /// The children gathered so far for each open container, the innermost
    /// last; the first list is the document's.
    pub lists: Seq<Seq<PlistNode>>,
}

impl BuildModel {
    /// Nothing read yet.
    pub open spec fn start() -> BuildModel {
        BuildModel { keys: Seq::empty(), lists: seq![Seq::empty()] }
    }

    /// The document's list is there.
    pub open spec fn wf(self) -> bool {
        self.lists.len() >= 1
    }

    /// How many containers are open.
    pub open spec fn depth(self) -> int {
        self.lists.len() - 1
    }

    /// `node` appended to the innermost list.
    pub open spec fn append(self, node: PlistNode) -> BuildModel {
        BuildModel {
            keys: self.keys,
            lists: self.lists.drop_last().push(self.lists.last().push(node)),
        }
    }

    /// A new innermost list.
    pub open spec fn opened(self) -> BuildModel {
        BuildModel { keys: self.keys, lists: self.lists.push(Seq::empty()) }
    }

    /// `key` waits.
    pub open spec fn with_key(self, key: KeyNode) -> BuildModel {
        BuildModel { keys: self.keys.push(key), lists: self.lists }
    }

    /// Whether a container can be closed: one is open and a key waits.
    pub open spec fn can_close(self) -> bool {
        self.lists.len() >= 2 && self.keys.len() >= 1
    }

    /// The innermost list and the latest key taken off, and `node` appended
    /// to the list below.
    pub open spec fn closed(self, node: PlistNode) -> BuildModel {
        (BuildModel { keys: self.keys.drop_last(), lists: self.lists.drop_last() }).append(node)
    }

    /// The state behind a token, or nothing where the token asks for a key
    /// or a container that is not there.
    ///
    /// - `KeyEnd`: the key waits.
    /// - `ValueEnd`: the latest key and the value make an item of the
    ///   innermost list.
    /// - `TupleValueEnd`: the tuple value joins the innermost list.
    /// - `ArrayBegin`, `TupleBegin`: a container opens.
    /// - `SectionBegin`: the banner's name waits as a key, and a container
    ///   opens.
    /// - `ArrayEnd`, `TupleEnd`, `SectionEnd`: the innermost list becomes an
    ///   array held by the latest key, or a tuple or a section named by it,
    ///   and joins the list below. The banner that closes a section has to
    ///   name the section: its name is the name of the latest key, which is
    ///   the name of the banner that opened the section unless a key was
    ///   left waiting inside it.
    pub open spec fn apply(
        self,
        text: Seq<char>,
        comment: Option<Seq<char>>,
        reason: PlistIResultEndReason,
    ) -> Option<BuildModel> {
        match reason {
            PlistIResultEndReason::KeyEnd => Some(self.with_key(KeyNode { name: text, comment })),
            PlistIResultEndReason::ValueEnd => if self.keys.len() >= 1 {
                Some(
                    (BuildModel { keys: self.keys.drop_last(), lists: self.lists }).append(
                        PlistNode::Item {
                            key: self.keys.last(),
                            value: Box::new(PlistNode::Value { text, comment }),
                        },
                    ),
                )
            } else {
                None
            },
            PlistIResultEndReason::TupleValueEnd => Some(
                self.append(PlistNode::TupleValue { text, comment }),
            ),
            PlistIResultEndReason::ArrayBegin => Some(self.opened()),
            PlistIResultEndReason::TupleBegin => Some(self.opened()),
            PlistIResultEndReason::SectionBegin => Some(
                self.with_key(KeyNode { name: text, comment }).opened(),
            ),
            PlistIResultEndReason::ArrayEnd => if self.can_close() {
                Some(
                    self.closed(
                        PlistNode::Item {
                            key: self.keys.last(),
                            value: Box::new(PlistNode::Array { items: self.lists.last() }),
                        },
                    ),
                )
            } else {
                None
            },
            PlistIResultEndReason::TupleEnd => if self.can_close() {
                Some(
                    self.closed(
                        PlistNode::TupleItem {
                            name: self.keys.last().name,
                            items: self.lists.last(),
                        },
                    ),
                )
            } else {
                None
            },
            PlistIResultEndReason::SectionEnd => if self.can_close() && text
                == self.keys.last().name {
                Some(
                    self.closed(
                        PlistNode::SectionItem {
                            name: self.keys.last().name,
                            items: self.lists.last(),
                        },
                    ),
                )
            } else {
                None
            },
            _ => Some(self),
        }
    }
}

/// What the builder makes of the text `s` from the state `st` with `fuel`
/// tokens left to take; `origin` is the length of the whole document.
///
/// The tokens are applied one by one. The token `Eof` ends the document: the
/// result is the document's list if no container is open. A tab or a line
/// end inside a token is refused, and so is a token that cannot be applied.
/// Where the tokens run out before the document has ended with every
/// container closed, the result is `RunawayIteration`.
pub open spec fn run(s: Seq<char>, st: BuildModel, fuel: nat, origin: int) -> Result<
    Seq<PlistNode>,
    ParseError,
>
    decreases fuel,
{
    let token = next_token(s);
    let offset = (origin - skip_multispace(s).len()) as usize;
    if fuel == 0 {
        Err(ParseError::RunawayIteration)
    } else if token.reason is Eof {
        if st.depth() == 0 {
            Ok(st.lists[0])
        } else {
            Err(ParseError::RunawayIteration)
        }
    } else if token.reason is LineFeed || token.reason is WhiteSpace {
        Err(ParseError::UnknownDelimiter { offset })
    } else {
        match st.apply(token.text, token.comment, token.reason) {
            Some(next) => run(token.rest, next, (fuel - 1) as nat, origin),
            None => Err(ParseError::StructuralUnderflow { offset }),
        }
    }
}

/// What reading the document `content` gives: its top-level nodes, or the
/// reason why it cannot be read.
pub open spec fn parse_document(content: Seq<char>) -> Result<Seq<PlistNode>, ParseError> {
    match header_end(content) {
        Some(k) => run(
            content.skip(k),
            BuildModel::start(),
            MAX_ITERATIONS as nat,
            content.len() as int,
        ),
        None => Err(ParseError::HeaderInvalid),
    }
}

/// How many of the tokens of `s` open a container (or close one, where
/// `closing` is set), among those that stand before the token `Eof` and
/// among the first `fuel`.
pub open spec fn count_tags(s: Seq<char>, fuel: nat, closing: bool) -> nat
    decreases fuel,
{
    let token = next_token(s);
    if fuel == 0 || token.reason is Eof {
        0
    } else {
        let here: nat = if (closing && token.reason.is_end()) || (!closing
            && token.reason.is_begin()) {
            1
        } else {
            0
        };
        here + count_tags(token.rest, (fuel - 1) as nat, closing)
    }
}

/// Where the builder comes to a result, the tokens that it took close as
/// many containers as they open and as were open before.
pub proof fn lemma_run_balanced(s: Seq<char>, st: BuildModel, fuel: nat, origin: int)
    requires
        st.wf(),
        run(s, st, fuel, origin) is Ok,
    ensures
        st.depth() + count_tags(s, fuel, false) == count_tags(s, fuel, true),
    decreases fuel,
{
    let token = next_token(s);
    if fuel > 0 && !(token.reason is Eof) {
        let next = st.apply(token.text, token.comment, token.reason)->0;
        lemma_run_balanced(token.rest, next, (fuel - 1) as nat, origin);
    }
}

/// The stacks of the builder.
pub struct TreeBuilder {
    pub keys: Vec<PlistKey>,
    pub lists: Vec<Vec<PlistItem>>,
}

impl View for TreeBuilder {
    type V = BuildModel;

    open spec fn view(&self) -> BuildModel {
        BuildModel { keys: self.keys.deep_view(), lists: self.lists.deep_view() }
    }
}

/// Pushing onto a vector appends to what the vector stands for.
pub proof fn lemma_deep_push<T: DeepView>(before: Vec<T>, after: Vec<T>, x: T)
    requires
        after@ == before@.push(x),
    ensures
        after.deep_view() == before.deep_view().push(x.deep_view()),
{
    assert(after.deep_view() =~= before.deep_view().push(x.deep_view()));
}

/// Popping a vector drops the last of what the vector stands for.
pub proof fn lemma_deep_pop<T: DeepView>(before: Vec<T>, after: Vec<T>)
    requires
        before@.len() > 0,
        after@ == before@.drop_last(),
    ensures
        after.deep_view() == before.deep_view().drop_last(),
        before.deep_view().last() == before@.last().deep_view(),
{
    assert(after.deep_view() =~= before.deep_view().drop_last());
}

impl TreeBuilder {
    /// The builder before the first token.
    pub fn new() -> (r: Self)
        ensures
            r@ == BuildModel::start(),
    {
        let mut lists: Vec<Vec<PlistItem>> = Vec::new();
        let ghost before = lists;
        let first: Vec<PlistItem> = Vec::new();
        lists.push(first);
        let r = TreeBuilder { keys: Vec::new(), lists };
        proof {
            lemma_deep_push(before, lists, first);
            assert(first.deep_view() =~= Seq::<PlistNode>::empty());
            assert(before.deep_view() =~= Seq::<Seq<PlistNode>>::empty());
            assert(r@.lists =~= seq![Seq::<PlistNode>::empty()]);
            assert(r@.keys =~= Seq::<KeyNode>::empty());
        }
        r
    }

    /// How many containers are open.
    pub fn depth(&self) -> (r: usize)
        requires
            self@.wf(),
        ensures
            r == self@.depth(),
    {
        self.lists.len() - 1
    }

    /// Appends `item` to the innermost list.
    fn append(&mut self, item: PlistItem)
        requires
            old(self)@.wf(),
        ensures
            final(self)@ == old(self)@.append(item@),
    {
        let ghost lists0 = self.lists;
        let mut top = self.lists.pop().unwrap();
        let ghost lists1 = self.lists;
        let ghost top0 = top;
        top.push(item);
        self.lists.push(top);
        proof {
            lemma_deep_pop(lists0, lists1);
            lemma_deep_push(top0, top, item);
            lemma_deep_push(lists1, self.lists, top);
        }
    }

    /// Opens a container.
    fn open(&mut self)
        ensures
            final(self)@ == old(self)@.opened(),
    {
        let ghost lists0 = self.lists;
        let list: Vec<PlistItem> = Vec::new();
        self.lists.push(list);
        proof {
            lemma_deep_push(lists0, self.lists, list);
            assert(list.deep_view() =~= Seq::<PlistNode>::empty());
        }
    }

    /// Lets `key` wait for its value.
    fn push_key(&mut self, key: PlistKey)
        ensures
            final(self)@ == old(self)@.with_key(key@),
    {
        let ghost keys0 = self.keys;
        self.keys.push(key);
        proof {
            lemma_deep_push(keys0, self.keys, key);
        }
    }

    /// Takes off the latest key.
    fn pop_key(&mut self) -> (key: PlistKey)
        requires
            old(self)@.keys.len() >= 1,
        ensures
            key@ == old(self)@.keys.last(),
            final(self)@ == (BuildModel {
                keys: old(self)@.keys.drop_last(),
                lists: old(self)@.lists,
            }),
    {
        let ghost keys0 = self.keys;
        let key = self.keys.pop().unwrap();
        proof {
            lemma_deep_pop(keys0, self.keys);
        }
        key
    }

    /// Takes off the innermost list.
    fn pop_list(&mut self) -> (list: Vec<PlistItem>)
        requires
            old(self)@.lists.len() >= 1,
        ensures
            list.deep_view() == old(self)@.lists.last(),
            final(self)@ == (BuildModel {
                keys: old(self)@.keys,
                lists: old(self)@.lists.drop_last(),
            }),
    {
        let ghost lists0 = self.lists;
        let list = self.lists.pop().unwrap();
        proof {
            lemma_deep_pop(lists0, self.lists);
        }
        list
    }

    /// Tells whether a container can be closed.
    fn can_close(&self) -> (r: bool)
        ensures
            r == self@.can_close(),
    {
        self.lists.len() >= 2 && self.keys.len() >= 1
    }

    /// Takes in one token. The answer is `false`, and the builder is as it
    /// was, where the token asks for a key or a container that is not
    /// there.
    pub fn apply(&mut self, text: String, comment: Option<String>, reason: PlistIResultEndReason) -> (r:
        bool)
        requires
            old(self)@.wf(),
        ensures
            match old(self)@.apply(text@, crate::types::text_of(comment), reason) {
                Some(next) => r && final(self)@ == next,
                None => !r && final(self)@ == old(self)@,
            },
            final(self)@.wf(),
    {
        let token = (text.as_str(), comment, reason);
        match reason {
            PlistIResultEndReason::KeyEnd => {
                self.push_key(PlistKey::from_plist_result(&token));
                true
            },
            PlistIResultEndReason::ValueEnd => {
                if self.keys.len() >= 1 {
                    let held = PlistItem::Value(PlistValue::from_plist_result(&token));
                    let key = self.pop_key();
                    let item = PlistItem::Item(
                        PlistKeyValueItem { key: Box::new(key), value: Box::new(held) },
                    );
                    proof {
                        lemma_node_of(held);
                        lemma_node_of(item);
                    }
                    self.append(item);
                    true
                } else {
                    false
                }
            },
            PlistIResultEndReason::TupleValueEnd => {
                let item = PlistItem::TupleValue(PlistTupleValue::from_plist_result(&token));
                proof {
                    lemma_node_of(item);
                }
                self.append(item);
                true
            },
            PlistIResultEndReason::ArrayBegin => {
                self.open();
                true
            },
            PlistIResultEndReason::TupleBegin => {
                self.open();
                true
            },
            PlistIResultEndReason::SectionBegin => {
                self.push_key(PlistKey::from_plist_result(&token));
                self.open();
                true
            },
            PlistIResultEndReason::ArrayEnd => {
                if self.can_close() {
                    let values = self.pop_list();
                    let key = self.pop_key();
                    let held = PlistItem::Array(values);
                    let item = PlistItem::Item(
                        PlistKeyValueItem { key: Box::new(key), value: Box::new(held) },
                    );
                    proof {
                        lemma_node_of(held);
                        lemma_node_of(item);
                    }
                    self.append(item);
                    true
                } else {
                    false
                }
            },
            PlistIResultEndReason::TupleEnd => {
                if self.can_close() {
                    let all_tuples = self.pop_list();
                    let key = self.pop_key();
                    let item = PlistItem::TupleItem(
                        PlistTupleItem { name: key.name, items: all_tuples },
                    );
                    proof {
                        lemma_node_of(item);
                    }
                    self.append(item);
                    true
                } else {
                    false
                }
            },
            PlistIResultEndReason::SectionEnd => {
                if self.can_close() && self.keys[self.keys.len() - 1].name == text {
                    let values = self.pop_list();
                    let key = self.pop_key();
                    let item = PlistItem::SectionItem(
                        PlistSectionItem { name: key.name, items: values },
                    );
                    proof {
                        lemma_node_of(item);
                    }
                    self.append(item);
                    true
                } else {
                    false
                }
            },
            _ => true,
        }
    }
}

/// A document that has been read.
pub struct XcodePbxProject {
    items: Vec<PlistItem>,
}

impl View for XcodePbxProject {
    type V = Seq<PlistNode>;

    closed spec fn view(&self) -> Seq<PlistNode> {
        self.items.deep_view()
    }
}

impl XcodePbxProject {
    /// The top-level nodes of the document, in the order of the text.
    pub fn items(&self) -> (r: &Vec<PlistItem>)
        ensures
            r.deep_view() == self@,
    {
        &self.items
    }

    /// Gives up the top-level nodes of the document.
    pub fn into_items(self) -> (r: Vec<PlistItem>)
        ensures
            r.deep_view() == self@,
    {
        self.items
    }

    /// Reads a document: the header, then the content behind it.
    ///
    /// The result is what `parse_document` says of the text: the tree, or
    /// `HeaderInvalid` where the text does not begin with the header, or the
    /// reason for which the builder stopped. A document that is read has as
    /// many tokens that open a container as tokens that close one.
    pub fn parse_from_string(content: &str) -> (r: Result<Self, ParseError>)
        ensures
            match r {
                Ok(project) => parse_document(content@) == Ok::<Seq<PlistNode>, ParseError>(
                    project@,
                ),
                Err(e) => parse_document(content@) == Err::<Seq<PlistNode>, ParseError>(e),
            },
            r is Ok ==> {
                let body = content@.skip(header_end(content@)->0);
                count_tags(body, MAX_ITERATIONS as nat, false) == count_tags(
                    body,
                    MAX_ITERATIONS as nat,
                    true,
                )
            },
    {
        let chars = to_chars(content);
        match chars.as_slice().validate_header() {
            Some(body) => {
                match Self::parse(body, chars.len()) {
                    Ok(items) => Ok(XcodePbxProject { items }),
                    Err(e) => Err(e),
                }
            },
            None => Err(ParseError::HeaderInvalid),
        }
    }

    /// Builds the tree of the content `input` of a document whose whole
    /// length is `origin`.
    pub fn parse(input: &[char], origin: usize) -> (r: Result<Vec<PlistItem>, ParseError>)
        requires
            input@.len() <= origin,
        ensures
            match r {
                Ok(items) => run(
                    input@,
                    BuildModel::start(),
                    MAX_ITERATIONS as nat,
                    origin as int,
                ) == Ok::<Seq<PlistNode>, ParseError>(items.deep_view()),
                Err(e) => run(input@, BuildModel::start(), MAX_ITERATIONS as nat, origin as int)
                    == Err::<Seq<PlistNode>, ParseError>(e),
            },
            r is Ok ==> count_tags(input@, MAX_ITERATIONS as nat, false) == count_tags(
                input@,
                MAX_ITERATIONS as nat,
                true,
            ),
    {
        let ghost whole = run(input@, BuildModel::start(), MAX_ITERATIONS as nat, origin as int);
        let mut builder = TreeBuilder::new();
        let mut rest = input;
        let mut iterations: usize = 0;
        while iterations < MAX_ITERATIONS
            invariant
                iterations <= MAX_ITERATIONS,
                builder@.wf(),
                rest@.len() <= origin,
                whole == run(input@, BuildModel::start(), MAX_ITERATIONS as nat, origin as int),
                whole == run(rest@, builder@, (MAX_ITERATIONS - iterations) as nat, origin as int),
            decreases MAX_ITERATIONS - iterations,
        {
            let offset = origin - skip_blank(rest).len();
            let (next, (text, comment, reason)) = get_item_from_plist(rest);
            match reason {
                PlistIResultEndReason::Eof => {
                    if builder.depth() == 0 {
                        let mut builder = builder;
                        let items = builder.pop_list();
                        proof {
                            lemma_run_balanced(
                                input@,
                                BuildModel::start(),
                                MAX_ITERATIONS as nat,
                                origin as int,
                            );
                        }
                        return Ok(items);
                    } else {
                        return Err(ParseError::RunawayIteration);
                    }
                },
                PlistIResultEndReason::LineFeed => {
                    return Err(ParseError::UnknownDelimiter { offset });
                },
                PlistIResultEndReason::WhiteSpace => {
                    return Err(ParseError::UnknownDelimiter { offset });
                },
                _ => {
                    if !builder.apply(text, comment, reason) {
                        return Err(ParseError::StructuralUnderflow { offset });
                    }
                },
            }
            rest = next;
            iterations += 1;
        }
        Err(ParseError::RunawayIteration)
    }
}

} // verus!
