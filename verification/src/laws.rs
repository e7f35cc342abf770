//! What holds of the library as a whole, stated over the functions that the
//! contracts of the code speak of.

use crate::canonical::{is_member, is_scalar, tokens, tokens_all};
use crate::id::{digits, hex, id_of, lemma_hex};
use crate::objects::{PBXContainerItemProxyIds, PBXNativeTargetIds, PBXTargetDependencyIds};
use crate::parser::{count_tags, parse_document, run, BuildModel, ParseError, MAX_ITERATIONS};
use crate::round_trip::law_round_trip;
use crate::scanner::next_token;
use crate::serializer::{render, render_document, render_entries, tabs, wrapped};
use crate::text::skip_multispace;
use crate::types::{KeyNode, PlistNode};
use vstd::prelude::*;

verus! {

/// An item whose key and value carry comments is written with these
/// comments as they are, each wrapped in `/*` and `*/`, and the document
/// that holds the item is read back with the same comments.
pub proof fn law_comments_are_kept(
    name: Seq<char>,
    key_comment: Seq<char>,
    text: Seq<char>,
    comment: Seq<char>,
    n: int,
)
    requires
        is_scalar(name, Some(key_comment)),
        is_scalar(text, Some(comment)),
    ensures
        ({
            let item = PlistNode::Item {
                key: KeyNode { name, comment: Some(key_comment) },
                value: Box::new(PlistNode::Value { text, comment: Some(comment) }),
            };
            &&& render(item, n) == tabs(n) + name + " "@ + wrapped(key_comment) + " = "@ + text
                + " "@ + wrapped(comment) + ";\n"@
            &&& parse_document(render_document(seq![item])) == Ok::<Seq<PlistNode>, ParseError>(
                seq![item],
            )
        }),
{
    let item = PlistNode::Item {
        key: KeyNode { name, comment: Some(key_comment) },
        value: Box::new(PlistNode::Value { text, comment: Some(comment) }),
    };
    let value = PlistNode::Value { text, comment: Some(comment) };
    assert(render(value, n) =~= text + " "@ + wrapped(comment) + ";\n"@);
    assert(render(item, n) =~= tabs(n) + name + " "@ + wrapped(key_comment) + " = "@ + text + " "@
        + wrapped(comment) + ";\n"@);
    assert(is_member(item));
    let items = seq![item];
    assert(tokens_all(items, 1) == 2) by {
        assert(tokens_all(items, 0) == 0);
        assert(items[0] == item);
        assert(tokens(item) == 2);
    }
    law_round_trip(items);
}

/// A document that is read has as many tokens that open a container as
/// tokens that close one.
pub proof fn law_depth_balance(content: Seq<char>)
    requires
        parse_document(content) is Ok,
    ensures
        ({
            let body = content.skip(crate::scanner::header_end(content)->0);
            count_tags(body, MAX_ITERATIONS as nat, false) == count_tags(
                body,
                MAX_ITERATIONS as nat,
                true,
            )
        }),
{
    let body = content.skip(crate::scanner::header_end(content)->0);
    crate::parser::lemma_run_balanced(
        body,
        BuildModel::start(),
        MAX_ITERATIONS as nat,
        content.len() as int,
    );
}

/// A token that closes a container while none is open stops the builder
/// with `StructuralUnderflow`, at the position of that token.
pub proof fn law_stray_close(s: Seq<char>, st: BuildModel, fuel: nat, origin: int)
    requires
        fuel > 0,
        st.depth() == 0,
        next_token(s).reason.is_end(),
    ensures
        run(s, st, fuel, origin) == Err::<Seq<PlistNode>, ParseError>(
            ParseError::StructuralUnderflow {
                offset: (origin - skip_multispace(s).len()) as usize,
            },
        ),
{
}

/// An array without children is written as `{};` and a line end, whatever
/// the indentation.
pub proof fn law_empty_array(n: int)
    ensures
        render(PlistNode::Array { items: Seq::empty() }, n) == "{};\n"@,
{
}

/// A tuple of one entry is written on one line: the entry stands between
/// the parentheses, with a space on each side.
pub proof fn law_single_entry(name: Seq<char>, entry: PlistNode, n: int)
    ensures
        render(PlistNode::TupleItem { name, items: seq![entry] }, n) == tabs(n) + name + " = ("@
            + " "@ + render(entry, n + 1) + " );\n"@,
{
    let items = seq![entry];
    assert(render_entries(items, n + 1, false, 0) =~= Seq::<char>::empty());
    assert(render_entries(items, n + 1, false, 1) =~= " "@ + render(entry, n + 1));
    assert(render(PlistNode::TupleItem { name, items }, n) =~= tabs(n) + name + " = ("@ + " "@
        + render(entry, n + 1) + " );\n"@);
}

/// A tuple of two entries or more is written with a line for each entry:
/// the opening parenthesis ends the first line, each entry stands on a line
/// of its own one level deeper, and the closing parenthesis stands on the
/// last line.
pub proof fn law_entry_lines(name: Seq<char>, items: Seq<PlistNode>, n: int, k: int)
    requires
        items.len() >= 2,
        0 <= k < items.len(),
    ensures
        render(PlistNode::TupleItem { name, items }, n) == tabs(n) + name + " = ("@ + "\n"@
            + render_entries(items, n + 1, true, items.len()) + tabs(n) + " );\n"@,
        render_entries(items, n + 1, true, (k + 1) as nat) == render_entries(
            items,
            n + 1,
            true,
            k as nat,
        ) + " "@ + tabs(n + 1) + render(items[k], n + 1) + "\n"@,
{
}

/// An identifier depends on the seed, the kind and the name alone: the same
/// three give the same identifier.
pub proof fn law_id_is_stable(
    seed: u64,
    kind: Seq<char>,
    name: Seq<char>,
    other_seed: u64,
    other_kind: Seq<char>,
    other_name: Seq<char>,
)
    requires
        seed == other_seed,
        kind == other_kind,
        name == other_name,
    ensures
        id_of(seed, kind, name) == id_of(other_seed, other_kind, other_name),
{
}

/// An identifier is 24 hexadecimal digits in upper case.
pub proof fn law_id_shape(seed: u64, kind: Seq<char>, name: Seq<char>)
    ensures
        id_of(seed, kind, name).len() == 24,
        forall|i: int| 0 <= i < 24 ==> digits().contains(#[trigger] id_of(seed, kind, name)[i]),
{
    reveal_strlit("CA60");
    reveal_strlit("0123456789ABCDEF");
    let first = crate::id::crc64_ecma_182(crate::id::kind_bytes(seed, kind));
    let second = crate::id::crc64_ecma_182(vstd::utf8::encode_utf8(name));
    let a = hex((first % 0x1_0000_0000) as nat, 8);
    let b = hex(second as nat, 12);
    lemma_hex((first % 0x1_0000_0000) as nat, 8);
    lemma_hex(second as nat, 12);
    let all = "CA60"@ + a + b;
    assert(digits()[12] == 'C' && digits()[10] == 'A' && digits()[6] == '6' && digits()[0] == '0');
    assert forall|i: int| 0 <= i < 24 implies digits().contains(
        #[trigger] id_of(seed, kind, name)[i],
    ) by {
        assert(id_of(seed, kind, name)[i] == all[i]);
        if i < 4 {
            assert(all[i] == "CA60"@[i]);
        } else if i < 4 + a.len() {
            assert(all[i] == a[i - 4]);
        } else {
            assert(all[i] == b[i - 4 - a.len()]);
        }
    }
}

/// A reference agrees with what it refers to: the dependencies of a project
/// name their targets and their proxies by the identifiers under which the
/// sections of the targets and of the proxies hold them.
pub proof fn law_references_agree(
    dependencies: PBXTargetDependencyIds,
    targets: PBXNativeTargetIds,
    proxies: PBXContainerItemProxyIds,
    id_base: u64,
    name: Seq<char>,
)
    requires
        dependencies.fixed(id_base, name),
        targets.fixed(id_base, name),
        proxies.fixed(id_base, name),
    ensures
        dependencies.ios_native_target_id@ == targets.ios@,
        dependencies.macos_native_target_id@ == targets.macos@,
        dependencies.ios_container_item_proxy_id@ == proxies.ios@,
        dependencies.macos_container_item_proxy_id@ == proxies.macos@,
{
}

} // verus!
