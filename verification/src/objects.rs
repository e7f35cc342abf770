//! The objects of a generated project: what every section has in common,
//! the identifiers that each section hands to the sections that refer to
//! its objects, and the lists in which objects and their lines are
//! gathered.

use crate::names::NameTable;
use crate::types::{
    lemma_node_of, lemma_push_deep_view, text_of, KeyNode, PlistItem, PlistNode, PlistTupleItem,
    PlistTupleValue,
};
use vstd::prelude::*;

verus! {

/// The line `isa = kind;` with which every object begins.
pub open spec fn isa(kind: Seq<char>) -> PlistNode {
    PlistNode::Item {
        key: KeyNode { name: "isa"@, comment: None },
        value: Box::new(PlistNode::Value { text: kind, comment: None }),
    }
}

/// The line `key = text;` of an object, without comments.
pub open spec fn line(key: Seq<char>, text: Seq<char>) -> PlistNode {
    PlistNode::Item {
        key: KeyNode { name: key, comment: None },
        value: Box::new(PlistNode::Value { text, comment: None }),
    }
}

/// The object with the identifier `id`, the comment `comment` beside it and
/// the lines `lines`.
pub open spec fn object(id: Seq<char>, comment: Seq<char>, lines: Seq<PlistNode>) -> PlistNode {
    PlistNode::Item {
        key: KeyNode { name: id, comment: Some(comment) },
        value: Box::new(PlistNode::Array { items: lines }),
    }
}

/// The item `key = text;`, each side with the comment given for it.
pub open spec fn value_item(
    key: Seq<char>,
    key_comment: Option<Seq<char>>,
    text: Seq<char>,
    comment: Option<Seq<char>>,
) -> PlistNode {
    PlistNode::Item {
        key: KeyNode { name: key, comment: key_comment },
        value: Box::new(PlistNode::Value { text, comment }),
    }
}

/// The item `key = { ... };` whose array holds `items`.
pub open spec fn array_item(
    key: Seq<char>,
    key_comment: Option<Seq<char>>,
    items: Seq<PlistNode>,
) -> PlistNode {
    PlistNode::Item {
        key: KeyNode { name: key, comment: key_comment },
        value: Box::new(PlistNode::Array { items }),
    }
}

/// An entry of a tuple.
pub open spec fn entry(text: Seq<char>, comment: Option<Seq<char>>) -> PlistNode {
    PlistNode::TupleValue { text, comment }
}

/// The tuple named `name` that holds `entries`.
pub open spec fn tuple_item(name: Seq<char>, entries: Seq<PlistNode>) -> PlistNode {
    PlistNode::TupleItem { name, items: entries }
}

/// The section of the kind `kind` that holds `items`.
pub open spec fn section(kind: Seq<char>, items: Seq<PlistNode>) -> PlistNode {
    PlistNode::SectionItem { name: kind, items }
}

/// Whether `node` is an object of kind `kind` with the identifier `id`: an
/// array that the identifier holds as its key and that begins with the
/// line `isa`.
pub open spec fn is_object(node: PlistNode, id: Seq<char>, kind: Seq<char>) -> bool {
    &&& node is Item
    &&& node->Item_key.name == id
    &&& *node->Item_value is Array
    &&& (*node->Item_value)->Array_items.len() >= 1
    &&& (*node->Item_value)->Array_items[0] == isa(kind)
}

/// Whether the object `node` carries `comment` beside its identifier.
pub open spec fn has_comment(node: PlistNode, comment: Seq<char>) -> bool {
    node is Item && node->Item_key.comment == Some(comment)
}

/// Whether the line at the place `at` of the object `node` gives `key` the
/// value `text`.
pub open spec fn has_line(node: PlistNode, at: int, key: Seq<char>, text: Seq<char>) -> bool {
    &&& node is Item
    &&& *node->Item_value is Array
    &&& 0 <= at < (*node->Item_value)->Array_items.len()
    &&& (*node->Item_value)->Array_items[at] is Item
    &&& (*node->Item_value)->Array_items[at]->Item_key.name == key
    &&& *(*node->Item_value)->Array_items[at]->Item_value is Value
    &&& (*(*node->Item_value)->Array_items[at]->Item_value)->Value_text == text
}

/// Whether `items` are objects of kind `kind` with the identifiers `ids`,
/// one for each and in the same order.
#[verifier::opaque]
pub open spec fn are_objects(items: Seq<PlistNode>, ids: Seq<Seq<char>>, kind: Seq<char>) -> bool {
    &&& items.len() == ids.len()
    &&& forall|i: int| 0 <= i < items.len() ==> is_object(#[trigger] items[i], ids[i], kind)
}

/// Whether `node` is the section of the kind `kind`, and holds one object
/// for each of the identifiers `ids`, in their order.
pub open spec fn is_section(node: PlistNode, kind: Seq<char>, ids: Seq<Seq<char>>) -> bool {
    &&& node is SectionItem
    &&& node->SectionItem_name == kind
    &&& are_objects(node->SectionItem_items, ids, kind)
}

/// The identifiers of the phases that link frameworks.
pub struct PBXFrameworksBuildPhaseIds {
    pub ios_framework: String,
    pub ios_tests_xctest: String,
    pub macos_framework: String,
    pub macos_tests_xctest: String,
}

/// The identifiers of the phases that compile sources.
pub struct PBXSourcesBuildPhaseIds {
    pub ios_docc: String,
    pub ios_tests_swift: String,
    pub macos_docc: String,
    pub macos_tests_swift: String,
}

/// The identifiers of the phases that copy resources.
pub struct PBXResourcesBuildPhaseIds {
    pub ios: String,
    pub ios_tests: String,
    pub macos: String,
    pub macos_tests: String,
}

/// The identifiers of the groups.
pub struct PBXGroupIds {
    pub groups: String,
    pub products: String,
    pub ios: String,
    pub ios_tests: String,
    pub macos: String,
    pub macos_tests: String,
    pub frameworks: String,
}

/// The identifiers of the phases that run a script.
pub struct PBXShellScriptBuildPhaseIds {
    pub ios: String,
    pub macos: String,
}

/// The identifiers of the build rules.
pub struct PBXBuildRuleIds {
    pub ios: String,
    pub macos: String,
}

/// The identifiers of the phases that copy headers.
pub struct PBXHeadersBuildPhaseIds {
    pub headers_ios: String,
    pub headers_macos: String,
}

/// The identifiers of the build files.
pub struct PBXBuildFileIds {
    pub ios_framework: String,
    pub ios_h: String,
    pub ios_docc: String,
    pub ios_tests_swift: String,
    pub macos_framework: String,
    pub macos_h: String,
    pub macos_docc: String,
    pub macos_tests_swift: String,
    /// For each interface definition file and each platform, under the
    /// file's name followed by `_ios` or `_macos`: the identifier of the
    /// build file, and the file's name.
    pub udl_files: NameTable<(String, String)>,
}

/// The identifiers of the references to files.
pub struct PBXFileReferenceIds {
    pub ios_framework: String,
    pub ios_h: String,
    pub ios_docc: String,
    pub ios_tests_xc: String,
    pub ios_tests_swift: String,
    pub macos_framework: String,
    pub macos_h: String,
    pub macos_docc: String,
    pub macos_tests_xc: String,
    pub macos_tests_swift: String,
    /// For each interface definition file, under its name: the identifier
    /// of the file's reference.
    pub udl_files: NameTable<String>,
}

/// The identifiers of the build configurations.
pub struct XCBuildConfigurationIds {
    pub shared_debug: String,
    pub shared_release: String,
    pub ios_debug: String,
    pub ios_release: String,
    pub ios_tests_debug: String,
    pub ios_tests_release: String,
    pub macos_debug: String,
    pub macos_release: String,
    pub macos_tests_debug: String,
    pub macos_tests_release: String,
}

/// The identifiers of the lists of configurations.
pub struct XCConfigurationListIds {
    pub shared: String,
    pub ios: String,
    pub ios_tests: String,
    pub macos: String,
    pub macos_test: String,
}

/// The identifiers of the targets.
pub struct PBXNativeTargetIds {
    pub ios: String,
    pub ios_tests: String,
    pub macos: String,
    pub macos_test: String,
}

/// The identifiers of the dependencies between targets, and of the targets
/// and proxies that the dependencies refer to.
pub struct PBXTargetDependencyIds {
    pub ios_id: String,
    pub macos_id: String,
    pub ios_native_target_id: String,
    pub macos_native_target_id: String,
    pub ios_container_item_proxy_id: String,
    pub macos_container_item_proxy_id: String,
}

/// The identifiers of the proxies of targets.
pub struct PBXContainerItemProxyIds {
    pub ios: String,
    pub macos: String,
}

/// The identifiers of all the objects of a project to which other objects
/// refer, section by section.
pub struct ProjectIds {
    pub references: PBXFileReferenceIds,
    pub build_files: PBXBuildFileIds,
    pub headers: PBXHeadersBuildPhaseIds,
    pub sources: PBXSourcesBuildPhaseIds,
    pub frameworks: PBXFrameworksBuildPhaseIds,
    pub rules: PBXBuildRuleIds,
    pub resources: PBXResourcesBuildPhaseIds,
    pub groups: PBXGroupIds,
    pub scripts: PBXShellScriptBuildPhaseIds,
    pub configurations: XCBuildConfigurationIds,
    pub lists: XCConfigurationListIds,
    pub dependencies: PBXTargetDependencyIds,
    pub targets: PBXNativeTargetIds,
}

/// A list of nodes that is made node by node.
pub struct Items {
    pub items: Vec<PlistItem>,
}

impl Items {
    /// What the nodes of the list stand for.
    pub open spec fn nodes(&self) -> Seq<PlistNode> {
        self.items.deep_view()
    }

    /// The empty list.
    pub fn new() -> (r: Self)
        ensures
            r.nodes() == Seq::<PlistNode>::empty(),
    {
        let r = Items { items: Vec::new() };
        assert(r.nodes() =~= Seq::<PlistNode>::empty());
        r
    }

    /// The list with `item` behind its nodes.
    pub fn with(self, item: PlistItem) -> (r: Self)
        ensures
            r.nodes() == self.nodes().push(item@),
    {
        let mut items = self.items;
        let ghost before = items;
        items.push(item);
        proof {
            lemma_push_deep_view(before, items, item);
        }
        Items { items }
    }

    /// The nodes of the list.
    pub fn done(self) -> (r: Vec<PlistItem>)
        ensures
            r.deep_view() == self.nodes(),
    {
        self.items
    }
}

/// The entries of a tuple, made entry by entry.
pub struct Entries {
    pub items: Vec<PlistItem>,
}

impl Entries {
    /// What the entries stand for.
    pub open spec fn nodes(&self) -> Seq<PlistNode> {
        self.items.deep_view()
    }

    /// No entries.
    pub fn new() -> (r: Self)
        ensures
            r.nodes() == Seq::<PlistNode>::empty(),
    {
        let r = Entries { items: Vec::new() };
        assert(r.nodes() =~= Seq::<PlistNode>::empty());
        r
    }

    /// The entries with one more behind them: the text `text` with the
    /// comment `comment`.
    pub fn with(self, text: &str, comment: Option<String>) -> (r: Self)
        ensures
            r.nodes() == self.nodes().push(entry(text@, text_of(comment))),
    {
        let mut items = self.items;
        let ghost before = items;
        let item = PlistTupleValue::create(text, comment);
        items.push(item);
        proof {
            lemma_push_deep_view(before, items, item);
        }
        Entries { items }
    }

    /// The tuple named `name` that holds the entries.
    pub fn tuple(self, name: &str) -> (r: PlistItem)
        ensures
            r@ == tuple_item(name@, self.nodes()),
    {
        let r = PlistItem::TupleItem(PlistTupleItem { name: name.to_owned(), items: self.items });
        proof {
            lemma_node_of(r);
        }
        r
    }
}

} // verus!
