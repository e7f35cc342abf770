//! Reading what was written: the builder takes the text of a tree apart
//! into the tree.

use crate::canonical::{
    fit, is_comment_text, is_entry, is_member, is_scalar, members, tokens, tokens_all,
};
use crate::end_reason::PlistIResultEndReason;
use crate::parser::{parse_document, run, BuildModel, ParseError, MAX_ITERATIONS};
use crate::scan_laws::{
    banner_text, is_blank, lemma_skip_lead, lemma_token_scalar, lemma_token_banner,
    lemma_token_close, lemma_token_end, lemma_token_open, pad_text,
};
use crate::scanner::{header_end, next_token, Token};
use crate::serializer::{
    comment_suffix, render, render_all, render_document, render_entries, render_key, tabs,
};
use crate::text::{is_multispace, lemma_multispace_end_bounds, multispace_end, skip_multispace};
use crate::types::{KeyNode, PlistItem, PlistNode};
use vstd::prelude::*;

verus! {

impl BuildModel {
    /// `nodes` appended to the innermost list.
    pub open spec fn append_all(self, nodes: Seq<PlistNode>) -> BuildModel {
        BuildModel {
            keys: self.keys,
            lists: self.lists.drop_last().push(self.lists.last() + nodes),
        }
    }
}

/// Appending nothing changes nothing.
pub proof fn lemma_append_none(st: BuildModel)
    requires
        st.wf(),
    ensures
        st.append_all(Seq::empty()) == st,
{
    assert(st.lists.last() + Seq::<PlistNode>::empty() =~= st.lists.last());
    assert(st.append_all(Seq::empty()).lists =~= st.lists);
}

/// Appending nodes and then one more is appending them all.
pub proof fn lemma_append_more(st: BuildModel, nodes: Seq<PlistNode>, node: PlistNode)
    requires
        st.wf(),
    ensures
        st.append_all(nodes).append(node) == st.append_all(nodes.push(node)),
        st.append_all(nodes).wf(),
        st.append(node).wf(),
{
    let a = st.append_all(nodes);
    assert(a.lists.drop_last() =~= st.lists.drop_last());
    assert(a.lists.last().push(node) =~= st.lists.last() + nodes.push(node));
    assert(a.append(node).lists =~= st.append_all(nodes.push(node)).lists);
}

/// A container that was opened under a key and has gathered `children`
/// closes into one node of the list below.
pub proof fn lemma_close(st: BuildModel, key: KeyNode, children: Seq<PlistNode>, node: PlistNode)
    requires
        st.wf(),
    ensures
        ({
            let inner = st.with_key(key).opened().append_all(children);
            &&& inner.wf()
            &&& inner.can_close()
            &&& inner.keys.last() == key
            &&& inner.lists.last() == children
            &&& inner.closed(node) == st.append(node)
        }),
        st.with_key(key).opened().wf(),
{
    let opened = st.with_key(key).opened();
    let inner = opened.append_all(children);
    assert(opened.lists.drop_last() =~= st.lists);
    assert(opened.lists.last() + children =~= children);
    assert(inner.lists =~= st.lists.push(children));
    assert(inner.lists.drop_last() =~= st.lists);
    assert(inner.keys.drop_last() =~= st.keys);
}

/// Multispace before a text does not change what the builder makes of it.
pub proof fn lemma_run_lead(
    lead: Seq<char>,
    x: Seq<char>,
    st: BuildModel,
    fuel: nat,
    origin: int,
)
    requires
        is_blank(lead),
    ensures
        run(lead + x, st, fuel, origin) == run(x, st, fuel, origin),
{
    lemma_skip_lead(lead, x);
    lemma_skip_lead(Seq::empty(), x);
}

/// One step of the builder: a token that can be applied is applied, and the
/// builder goes on with what is left.
pub proof fn lemma_run_token(
    s: Seq<char>,
    st: BuildModel,
    fuel: nat,
    origin: int,
    token: Token,
    next: BuildModel,
)
    requires
        fuel > 0,
        next_token(s) == token,
        !(token.reason is Eof),
        !(token.reason is LineFeed),
        !(token.reason is WhiteSpace),
        st.apply(token.text, token.comment, token.reason) == Some(next),
    ensures
        run(s, st, fuel, origin) == run(token.rest, next, (fuel - 1) as nat, origin),
{
}

/// Tabs are multispace.
pub proof fn lemma_tabs_blank(n: int)
    ensures
        is_blank(tabs(n)),
{
}

/// The builder reads the first `count` entries of a tuple.
pub proof fn lemma_read_entries(
    items: Seq<PlistNode>,
    count: nat,
    n: int,
    lines: bool,
    tail: Seq<char>,
    st: BuildModel,
    fuel: nat,
    origin: int,
)
    requires
        count <= items.len(),
        forall|i: int| 0 <= i < count ==> is_entry(#[trigger] items[i]),
        st.wf(),
        fuel >= count,
    ensures
        run(render_entries(items, n, lines, count) + tail, st, fuel, origin) == run(
            tail,
            st.append_all(items.take(count as int)),
            (fuel - count) as nat,
            origin,
        ),
    decreases count,
{
    reveal_strlit(" ");
    reveal_strlit(",");
    reveal_strlit("\n");
    if count == 0 {
        lemma_append_none(st);
        assert(items.take(0) =~= Seq::<PlistNode>::empty());
        assert(render_entries(items, n, lines, count) + tail =~= tail);
    } else {
        let last = items[count - 1];
        let before = render_entries(items, n, lines, (count - 1) as nat);
        let text = last->TupleValue_text;
        let comment = last->TupleValue_comment;
        let lead: Seq<char> = if lines {
            seq![' '] + tabs(n)
        } else {
            seq![' ']
        };
        let behind: Seq<char> = if lines {
            seq!['\n'] + tail
        } else {
            tail
        };
        let body = text + comment_suffix(comment) + pad_text(false) + seq![','] + behind;
        assert(is_entry(last));
        assert(render(last, n) =~= text + comment_suffix(comment) + seq![',']);
        assert(render_entries(items, n, lines, count) + tail =~= before + (lead + body));
        let st1 = st.append_all(items.take(count - 1));
        lemma_read_entries(items, (count - 1) as nat, n, lines, lead + body, st, fuel, origin);
        let fuel1 = (fuel - (count - 1)) as nat;
        lemma_append_more(st, items.take(count - 1), last);
        assert(items.take(count - 1).push(last) =~= items.take(count as int));
        lemma_tabs_blank(n);
        lemma_skip_lead(lead, body);
        lemma_token_scalar(text, comment, false, ',', behind);
        let token = Token {
            text,
            comment,
            reason: PlistIResultEndReason::TupleValueEnd,
            rest: behind,
        };
        lemma_run_token(lead + body, st1, fuel1, origin, token, st1.append(last));
        if lines {
            lemma_run_lead(seq!['\n'], tail, st1.append(last), (fuel1 - 1) as nat, origin);
        }
    }
}

/// Skipping multispace stops at the end of the text or before a character
/// that is none.
pub proof fn lemma_multispace_end_stops(s: Seq<char>, from: int)
    requires
        0 <= from <= s.len(),
    ensures
        multispace_end(s, from) == s.len() || !is_multispace(s[multispace_end(s, from)]),
        from <= multispace_end(s, from) <= s.len(),
    decreases s.len() - from,
{
    if from < s.len() && is_multispace(s[from]) {
        lemma_multispace_end_stops(s, from + 1);
    }
}

/// The builder makes the same of a text and of what is left of it when the
/// multispace at its front is skipped.
pub proof fn lemma_run_skip(s: Seq<char>, st: BuildModel, fuel: nat, origin: int)
    ensures
        run(skip_multispace(s), st, fuel, origin) == run(s, st, fuel, origin),
{
    lemma_multispace_end_stops(s, 0);
    let t = skip_multispace(s);
    if t.len() > 0 {
        assert(t[0] == s[multispace_end(s, 0)]);
    }
    crate::scan_laws::lemma_skip_nothing(t);
}

/// The builder reads a key: it waits, and the builder goes on behind the
/// `=`.
proof fn lemma_read_key(
    key: KeyNode,
    n: int,
    rest: Seq<char>,
    st: BuildModel,
    fuel: nat,
    origin: int,
)
    requires
        is_scalar(key.name, key.comment),
        fuel >= 1,
    ensures
        run(tabs(n) + render_key(key) + " = "@ + rest, st, fuel, origin) == run(
            rest,
            st.with_key(key),
            (fuel - 1) as nat,
            origin,
        ),
{
    reveal_strlit(" = ");
    let rest1 = seq![' '] + rest;
    let x1 = key.name + comment_suffix(key.comment) + pad_text(true) + seq!['='] + rest1;
    let whole = tabs(n) + render_key(key) + " = "@ + rest;
    assert(whole =~= tabs(n) + x1);
    lemma_tabs_blank(n);
    lemma_skip_lead(tabs(n), x1);
    lemma_token_scalar(key.name, key.comment, true, '=', rest1);
    let token1 = Token {
        text: key.name,
        comment: key.comment,
        reason: PlistIResultEndReason::KeyEnd,
        rest: rest1,
    };
    lemma_run_token(whole, st, fuel, origin, token1, st.with_key(key));
    lemma_run_lead(seq![' '], rest, st.with_key(key), (fuel - 1) as nat, origin);
}

/// The builder reads the delimiter that opens a container.
proof fn lemma_read_open(d: char, rest: Seq<char>, st: BuildModel, fuel: nat, origin: int)
    requires
        d == '{' || d == '(',
        fuel >= 1,
    ensures
        run(seq![d] + rest, st, fuel, origin) == run(rest, st.opened(), (fuel - 1) as nat, origin),
{
    lemma_token_open(d, rest);
    let token = Token {
        text: Seq::empty(),
        comment: None,
        reason: PlistIResultEndReason::of_char(d),
        rest,
    };
    lemma_run_token(seq![d] + rest, st, fuel, origin, token, st.opened());
}

/// The builder reads the delimiter that closes a container, and goes on
/// behind the line end that follows it.
proof fn lemma_read_close(
    d: char,
    lead: Seq<char>,
    tail: Seq<char>,
    st: BuildModel,
    next: BuildModel,
    fuel: nat,
    origin: int,
)
    requires
        d == '}' || d == ')',
        is_blank(lead),
        fuel >= 1,
        st.apply(
            Seq::empty(),
            None,
            if d == '}' {
                PlistIResultEndReason::ArrayEnd
            } else {
                PlistIResultEndReason::TupleEnd
            },
        ) == Some(next),
    ensures
        run(lead + seq![d, ';', '\n'] + tail, st, fuel, origin) == run(
            tail,
            next,
            (fuel - 1) as nat,
            origin,
        ),
{
    let rest4 = seq!['\n'] + tail;
    let x3 = seq![d, ';'] + rest4;
    let whole = lead + seq![d, ';', '\n'] + tail;
    assert(whole =~= lead + x3);
    lemma_skip_lead(lead, x3);
    lemma_token_close(d, rest4);
    let token = Token {
        text: Seq::empty(),
        comment: None,
        reason: if d == '}' {
            PlistIResultEndReason::ArrayEnd
        } else {
            PlistIResultEndReason::TupleEnd
        },
        rest: rest4,
    };
    lemma_run_token(whole, st, fuel, origin, token, next);
    lemma_run_lead(seq!['\n'], tail, next, (fuel - 1) as nat, origin);
}

/// The builder reads a key with its value.
proof fn lemma_read_value_item(
    node: PlistNode,
    n: int,
    tail: Seq<char>,
    st: BuildModel,
    fuel: nat,
    origin: int,
)
    requires
        is_member(node),
        node is Item,
        *node->Item_value is Value,
        st.wf(),
        fuel >= 2,
    ensures
        run(render(node, n) + tail, st, fuel, origin) == run(
            tail,
            st.append(node),
            (fuel - 2) as nat,
            origin,
        ),
{
    reveal_strlit(";\n");
    let key = node->Item_key;
    let value = *node->Item_value;
    let text = value->Value_text;
    let comment = value->Value_comment;
    let rest4 = seq!['\n'] + tail;
    let x2 = text + comment_suffix(comment) + pad_text(false) + seq![';'] + rest4;
    let st1 = st.with_key(key);
    assert(render(value, n) =~= text + comment_suffix(comment) + seq![';', '\n']);
    assert(render(node, n) + tail =~= tabs(n) + render_key(key) + " = "@ + x2);
    lemma_read_key(key, n, x2, st, fuel, origin);
    lemma_token_scalar(text, comment, false, ';', rest4);
    let token2 = Token { text, comment, reason: PlistIResultEndReason::ValueEnd, rest: rest4 };
    assert(st1.keys.drop_last() =~= st.keys);
    lemma_run_token(x2, st1, (fuel - 1) as nat, origin, token2, st.append(node));
    lemma_run_lead(seq!['\n'], tail, st.append(node), (fuel - 2) as nat, origin);
}

/// The builder reads a key with its array.
proof fn lemma_read_array_item(
    node: PlistNode,
    n: int,
    tail: Seq<char>,
    st: BuildModel,
    fuel: nat,
    origin: int,
)
    requires
        is_member(node),
        node is Item,
        *node->Item_value is Array,
        st.wf(),
        fuel >= tokens(node),
    ensures
        run(render(node, n) + tail, st, fuel, origin) == run(
            tail,
            st.append(node),
            (fuel - tokens(node)) as nat,
            origin,
        ),
    decreases node, 0nat,
{
    reveal_strlit("{");
    reveal_strlit("\n");
    reveal_strlit("{};\n");
    reveal_strlit("};\n");
    let key = node->Item_key;
    let value = *node->Item_value;
    let items = value->Array_items;
    let count = items.len();
    let lead: Seq<char> = if count == 0 {
        Seq::empty()
    } else {
        tabs(n)
    };
    let tail3 = lead + seq!['}', ';', '\n'] + tail;
    let inside = render_all(items, n + 1, count) + tail3;
    let rest2: Seq<char> = if count == 0 {
        inside
    } else {
        seq!['\n'] + inside
    };
    let x2 = seq!['{'] + rest2;
    if count == 0 {
        assert(render_all(items, n + 1, count) =~= Seq::<char>::empty());
        assert(render(value, n) =~= seq!['{', '}', ';', '\n']);
    } else {
        assert(render(value, n) =~= seq!['{', '\n'] + render_all(items, n + 1, count) + tabs(n)
            + seq!['}', ';', '\n']);
    }
    assert(render(node, n) + tail =~= tabs(n) + render_key(key) + " = "@ + x2);
    let st1 = st.with_key(key);
    let st2 = st1.opened();
    lemma_read_key(key, n, x2, st, fuel, origin);
    lemma_read_open('{', rest2, st1, (fuel - 1) as nat, origin);
    lemma_close(st, key, items, node);
    if count > 0 {
        lemma_run_lead(seq!['\n'], inside, st2, (fuel - 2) as nat, origin);
    }
    lemma_read_members(items, count, n + 1, tail3, st2, (fuel - 2) as nat, origin);
    assert(items.take(count as int) =~= items);
    let st3 = st2.append_all(items);
    let fuel3 = (fuel - 2 - tokens_all(items, count)) as nat;
    lemma_tabs_blank(n);
    lemma_read_close('}', lead, tail, st3, st.append(node), fuel3, origin);
}

/// The builder reads a tuple.
proof fn lemma_read_tuple(
    node: PlistNode,
    n: int,
    tail: Seq<char>,
    st: BuildModel,
    fuel: nat,
    origin: int,
)
    requires
        is_member(node),
        node is TupleItem,
        st.wf(),
        fuel >= tokens(node),
    ensures
        run(render(node, n) + tail, st, fuel, origin) == run(
            tail,
            st.append(node),
            (fuel - tokens(node)) as nat,
            origin,
        ),
{
    reveal_strlit("\n");
    reveal_strlit(" = ");
    reveal_strlit(" = (");
    reveal_strlit(" );\n");
    let name = node->TupleItem_name;
    let items = node->TupleItem_items;
    let count = items.len();
    let lines = count > 1;
    let key = KeyNode { name, comment: None };
    let lead: Seq<char> = if lines {
        tabs(n) + seq![' ']
    } else {
        seq![' ']
    };
    let tail3 = lead + seq![')', ';', '\n'] + tail;
    let inside = render_entries(items, n + 1, lines, count) + tail3;
    let rest2: Seq<char> = if lines {
        seq!['\n'] + inside
    } else {
        inside
    };
    let x2 = seq!['('] + rest2;
    assert(render_key(key) =~= name);
    assert(render(node, n) + tail =~= tabs(n) + render_key(key) + " = "@ + x2);
    let st1 = st.with_key(key);
    let st2 = st1.opened();
    lemma_read_key(key, n, x2, st, fuel, origin);
    lemma_read_open('(', rest2, st1, (fuel - 1) as nat, origin);
    lemma_close(st, key, items, node);
    if lines {
        lemma_run_lead(seq!['\n'], inside, st2, (fuel - 2) as nat, origin);
    }
    lemma_read_entries(items, count, n + 1, lines, tail3, st2, (fuel - 2) as nat, origin);
    assert(items.take(count as int) =~= items);
    let st3 = st2.append_all(items);
    let fuel3 = (fuel - 2 - count) as nat;
    lemma_tabs_blank(n);
    lemma_read_close(')', lead, tail, st3, st.append(node), fuel3, origin);
}

/// The builder reads a banner.
proof fn lemma_read_banner(
    is_end: bool,
    name: Seq<char>,
    lead: Seq<char>,
    tail: Seq<char>,
    st: BuildModel,
    next: BuildModel,
    fuel: nat,
    origin: int,
)
    requires
        is_comment_text(name),
        is_blank(lead),
        fuel >= 1,
        st.apply(
            name,
            None,
            if is_end {
                PlistIResultEndReason::SectionEnd
            } else {
                PlistIResultEndReason::SectionBegin
            },
        ) == Some(next),
    ensures
        run(lead + banner_text(is_end, name) + seq!['\n'] + tail, st, fuel, origin) == run(
            tail,
            next,
            (fuel - 1) as nat,
            origin,
        ),
{
    let rest1 = seq!['\n'] + tail;
    let x1 = banner_text(is_end, name) + rest1;
    let whole = lead + banner_text(is_end, name) + seq!['\n'] + tail;
    assert(whole =~= lead + x1);
    lemma_skip_lead(lead, x1);
    lemma_token_banner(is_end, name, rest1);
    let token = Token {
        text: name,
        comment: None,
        reason: if is_end {
            PlistIResultEndReason::SectionEnd
        } else {
            PlistIResultEndReason::SectionBegin
        },
        rest: skip_multispace(rest1),
    };
    lemma_run_token(whole, st, fuel, origin, token, next);
    lemma_run_skip(rest1, next, (fuel - 1) as nat, origin);
    lemma_run_lead(seq!['\n'], tail, next, (fuel - 1) as nat, origin);
}

/// The builder reads a section.
proof fn lemma_read_section(
    node: PlistNode,
    n: int,
    tail: Seq<char>,
    st: BuildModel,
    fuel: nat,
    origin: int,
)
    requires
        is_member(node),
        node is SectionItem,
        st.wf(),
        fuel >= tokens(node),
    ensures
        run(render(node, n) + tail, st, fuel, origin) == run(
            tail,
            st.append(node),
            (fuel - tokens(node)) as nat,
            origin,
        ),
    decreases node, 0nat,
{
    reveal_strlit("\n/* Begin ");
    reveal_strlit("/* End ");
    reveal_strlit("/* Begin");
    reveal_strlit("/* End");
    reveal_strlit(" section */\n");
    let name = node->SectionItem_name;
    let items = node->SectionItem_items;
    let count = items.len();
    let key = KeyNode { name, comment: None };
    let st2 = st.with_key(key).opened();
    let tail3 = Seq::<char>::empty() + banner_text(true, name) + seq!['\n'] + tail;
    let inside = render_all(items, n, count) + tail3;
    assert(render(node, n) + tail =~= seq!['\n'] + banner_text(false, name) + seq!['\n'] + inside);
    lemma_read_banner(false, name, seq!['\n'], inside, st, st2, fuel, origin);
    lemma_close(st, key, items, node);
    lemma_read_members(items, count, n, tail3, st2, (fuel - 1) as nat, origin);
    assert(items.take(count as int) =~= items);
    let st3 = st2.append_all(items);
    let fuel3 = (fuel - 1 - tokens_all(items, count)) as nat;
    lemma_read_banner(true, name, Seq::empty(), tail, st3, st.append(node), fuel3, origin);
}

/// The builder reads the text of a node and appends the node to the
/// innermost list.
pub proof fn lemma_read_member(
    node: PlistNode,
    n: int,
    tail: Seq<char>,
    st: BuildModel,
    fuel: nat,
    origin: int,
)
    requires
        is_member(node),
        st.wf(),
        fuel >= tokens(node),
    ensures
        run(render(node, n) + tail, st, fuel, origin) == run(
            tail,
            st.append(node),
            (fuel - tokens(node)) as nat,
            origin,
        ),
    decreases node, 1nat,
{
    match node {
        PlistNode::Item { key, value } => {
            match *value {
                PlistNode::Value { .. } => {
                    lemma_read_value_item(node, n, tail, st, fuel, origin);
                },
                PlistNode::Array { .. } => {
                    lemma_read_array_item(node, n, tail, st, fuel, origin);
                },
                _ => {},
            }
        },
        PlistNode::TupleItem { .. } => {
            lemma_read_tuple(node, n, tail, st, fuel, origin);
        },
        PlistNode::SectionItem { .. } => {
            lemma_read_section(node, n, tail, st, fuel, origin);
        },
        _ => {},
    }
}

/// The builder reads the texts of the first `count` nodes of `items` and
/// appends the nodes to the innermost list.
pub proof fn lemma_read_members(
    items: Seq<PlistNode>,
    count: nat,
    n: int,
    tail: Seq<char>,
    st: BuildModel,
    fuel: nat,
    origin: int,
)
    requires
        count <= items.len(),
        forall|i: int| 0 <= i < count ==> is_member(#[trigger] items[i]),
        st.wf(),
        fuel >= tokens_all(items, count),
    ensures
        run(render_all(items, n, count) + tail, st, fuel, origin) == run(
            tail,
            st.append_all(items.take(count as int)),
            (fuel - tokens_all(items, count)) as nat,
            origin,
        ),
    decreases items, count,
{
    if count == 0 {
        lemma_append_none(st);
        assert(items.take(0) =~= Seq::<PlistNode>::empty());
        assert(render_all(items, n, count) + tail =~= tail);
    } else {
        let last = items[count - 1];
        let before = render_all(items, n, (count - 1) as nat);
        assert(render_all(items, n, count) + tail =~= before + (render(last, n) + tail));
        lemma_read_members(items, (count - 1) as nat, n, render(last, n) + tail, st, fuel, origin);
        let st1 = st.append_all(items.take(count - 1));
        let fuel1 = (fuel - tokens_all(items, (count - 1) as nat)) as nat;
        lemma_append_more(st, items.take(count - 1), last);
        assert(items.take(count - 1).push(last) =~= items.take(count as int));
        lemma_read_member(last, n, tail, st1, fuel1, origin);
    }
}

/// Reading gives back what was written: the document that is written for
/// the nodes `items` is read as `items`. This holds of nodes that are
/// members (see `is_member`) and of a document within the limit of
/// `MAX_ITERATIONS` tokens, of which the end of the document is one.
pub proof fn law_round_trip(items: Seq<PlistNode>)
    requires
        forall|i: int| 0 <= i < items.len() ==> is_member(#[trigger] items[i]),
        tokens_all(items, items.len()) < MAX_ITERATIONS,
    ensures
        parse_document(render_document(items)) == Ok::<Seq<PlistNode>, ParseError>(items),
{
    reveal_strlit("// !$*UTF8*$!\n{\n");
    reveal_strlit("// !$*UTF8*$!");
    reveal_strlit("\n}\n");
    let doc = render_document(items);
    let body = render_all(items, 2, items.len());
    let foot = seq!['\n', '}', '\n'];
    let tag = "// !$*UTF8*$!"@;
    let origin = doc.len() as int;
    let fuel = MAX_ITERATIONS as nat;
    assert(doc =~= tag + seq!['\n', '{', '\n'] + body + foot);
    assert(doc.subrange(0, 13) =~= tag);
    assert(doc[13] == '\n' && doc[14] == '{' && doc[15] == '\n');
    assert(multispace_end(doc, 14) == 14);
    assert(multispace_end(doc, 13) == 14);
    let behind = doc.skip(15);
    assert(behind =~= seq!['\n'] + (body + foot));
    lemma_multispace_end_bounds(behind, 0);
    crate::scanner::lemma_multispace_end_shift(doc, 15, 0);
    let k = multispace_end(doc, 15);
    assert(header_end(doc) == Some(k));
    assert(doc.skip(k) =~= skip_multispace(behind));
    let st = BuildModel::start();
    lemma_run_skip(behind, st, fuel, origin);
    lemma_run_lead(seq!['\n'], body + foot, st, fuel, origin);
    lemma_read_members(items, items.len(), 2, foot, st, fuel, origin);
    assert(items.take(items.len() as int) =~= items);
    let done = st.append_all(items);
    let left = (fuel - tokens_all(items, items.len())) as nat;
    assert(foot =~= seq!['\n'] + (seq!['}'] + seq!['\n']));
    lemma_skip_lead(seq!['\n'], seq!['}'] + seq!['\n']);
    lemma_token_end(seq!['\n']);
    assert(done.lists =~= seq![items]) by {
        assert(st.lists.last() + items =~= items);
    }
}

/// Writing, reading and writing again gives the text of the first writing.
pub proof fn law_write_read_write(items: Seq<PlistNode>)
    requires
        forall|i: int| 0 <= i < items.len() ==> is_member(#[trigger] items[i]),
        tokens_all(items, items.len()) < MAX_ITERATIONS,
    ensures
        parse_document(render_document(items)) is Ok,
        render_document(parse_document(render_document(items))->Ok_0) == render_document(items),
{
    law_round_trip(items);
}

/// Tells whether `items` are members whose document stays within the limit
/// of `MAX_ITERATIONS` tokens. Where they are, the document that is written
/// for them is read back as they are.
pub fn reads_back(items: &Vec<PlistItem>) -> (r: bool)
    ensures
        r == fit(items.deep_view(), MAX_ITERATIONS - 1),
        r ==> parse_document(render_document(items.deep_view())) == Ok::<
            Seq<PlistNode>,
            ParseError,
        >(items.deep_view()),
{
    let r = members(items, MAX_ITERATIONS - 1).is_some();
    proof {
        if r {
            law_round_trip(items.deep_view());
        }
    }
    r
}

} // verus!
