//! The sections of the files of a project: the references to the files,
//! and the build files that put a referenced file into a build phase.

use crate::id::{derive_id, id_of};
use crate::names::{cat, named_id, object_id, NameTable};
use crate::objects::{
    are_objects, array_item, entry, is_section, isa, line, object, tuple_item, value_item, Entries,
    Items, PBXBuildFileIds, PBXFileReferenceIds,
};
use crate::types::{
    lemma_push_deep_view, slice_text, KeyNode, PlistItem, PlistKeyValueItem, PlistNode,
    PlistSectionItem,
};
use vstd::prelude::*;

verus! {

impl PBXFileReferenceIds {
    /// Each identifier is derived from the kind of its object and from the
    /// object's name, which begins with `name`.
    pub open spec fn fixed(&self, id_base: u64, name: Seq<char>) -> bool {
        let kind = "PBXFileReference"@;
        &&& self.ios_framework@ == named_id(id_base, kind, name, "_ios.framework"@)
        &&& self.ios_h@ == named_id(id_base, kind, name, "_ios.h"@)
        &&& self.ios_docc@ == named_id(id_base, kind, name, "_ios.docc"@)
        &&& self.ios_tests_xc@ == named_id(id_base, kind, name, "_iosTests.xctest"@)
        &&& self.ios_tests_swift@ == named_id(id_base, kind, name, "_iosTests.swift"@)
        &&& self.macos_framework@ == named_id(id_base, kind, name, "_macos.framework"@)
        &&& self.macos_h@ == named_id(id_base, kind, name, "_macos.h"@)
        &&& self.macos_docc@ == named_id(id_base, kind, name, "_macos.docc"@)
        &&& self.macos_tests_xc@ == named_id(id_base, kind, name, "_macosTests.xctest"@)
        &&& self.macos_tests_swift@ == named_id(id_base, kind, name, "_macosTests.swift"@)
    }

    /// The identifiers of the fixed references, in the order of the
    /// section.
    pub open spec fn fixed_ids(&self) -> Seq<Seq<char>> {
        seq![
            self.ios_framework@,
            self.ios_h@,
            self.ios_docc@,
            self.ios_tests_xc@,
            self.ios_tests_swift@,
            self.macos_framework@,
            self.macos_h@,
            self.macos_docc@,
            self.macos_tests_xc@,
            self.macos_tests_swift@,
        ]
    }

    /// The table holds the name of each of the first `count` files, with
    /// the identifier derived from that name.
    #[verifier::opaque]
    pub open spec fn covers(&self, id_base: u64, files: Seq<(String, String)>, count: int) -> bool {
        &&& self.udl_files.wf()
        &&& forall|i: int|
            0 <= i < count ==> self.udl_files.has(#[trigger] files[i].1@)
        &&& forall|name: Seq<char>|
            self.udl_files.has(name) ==> (#[trigger] self.udl_files.value_of(name))@ == id_of(
                id_base,
                "PBXFileReference"@,
                name,
            )
    }
}

/// The names of the first `count` files, each once, in the order in which
/// they first come.
pub open spec fn distinct_names(files: Seq<(String, String)>, count: int) -> Seq<Seq<char>>
    decreases count,
{
    if count <= 0 {
        Seq::empty()
    } else {
        let before = distinct_names(files, count - 1);
        if before.contains(files[count - 1].1@) {
            before
        } else {
            before.push(files[count - 1].1@)
        }
    }
}

/// The identifiers of the references to the first `count` files, each
/// derived from the file's name.
pub open spec fn file_reference_ids(id_base: u64, files: Seq<(String, String)>, count: int) -> Seq<
    Seq<char>,
> {
    Seq::new(count as nat, |i: int| id_of(id_base, "PBXFileReference"@, files[i].1@))
}

impl PBXBuildFileIds {
    /// Each identifier is derived from the kind of its object and from the
    /// object's name, which begins with `name`.
    pub open spec fn fixed(&self, id_base: u64, name: Seq<char>) -> bool {
        let kind = "PBXBuildFile"@;
        &&& self.ios_framework@ == named_id(id_base, kind, name, "_ios.framework"@)
        &&& self.ios_h@ == named_id(id_base, kind, name, "_ios.h"@)
        &&& self.ios_docc@ == named_id(id_base, kind, name, "_ios.docc"@)
        &&& self.ios_tests_swift@ == named_id(id_base, kind, name, "_iosTests.swift"@)
        &&& self.macos_framework@ == named_id(id_base, kind, name, "_macos.framework"@)
        &&& self.macos_h@ == named_id(id_base, kind, name, "_macos.h"@)
        &&& self.macos_docc@ == named_id(id_base, kind, name, "_macos.docc"@)
        &&& self.macos_tests_swift@ == named_id(id_base, kind, name, "_macosTests.swift"@)
    }

    /// The identifiers of the fixed build files, in the order of the
    /// section.
    pub open spec fn fixed_ids(&self) -> Seq<Seq<char>> {
        seq![
            self.ios_framework@,
            self.ios_h@,
            self.ios_docc@,
            self.ios_tests_swift@,
            self.macos_framework@,
            self.macos_h@,
            self.macos_docc@,
            self.macos_tests_swift@,
        ]
    }
}

/// The identifiers of the build files of the first `count` files: two for
/// each file, the one for iOS before the one for macOS.
pub open spec fn build_file_ids(id_base: u64, files: Seq<(String, String)>, count: int) -> Seq<
    Seq<char>,
> {
    Seq::new(
        (2 * count) as nat,
        |i: int|
            named_id(
                id_base,
                "PBXBuildFile"@,
                files[i / 2].1@,
                if i % 2 == 0 {
                    "_ios"@
                } else {
                    "_macos"@
                },
            ),
    )
}

/// The reference to a product of the project: a file named `file` of the
/// type `file_type`, which the build puts among the built products.
pub open spec fn product_file(id: Seq<char>, file: Seq<char>, file_type: Seq<char>) -> PlistNode {
    object(
        id,
        file,
        seq![
            isa("PBXFileReference"@),
            line("explicitFileType"@, file_type),
            line("includeInIndex"@, "0"@),
            line("path"@, file),
            line("sourceTree"@, "BUILT_PRODUCTS_DIR"@),
        ],
    )
}

/// The reference to a source of the project: a file named `file` of the
/// type `file_type`, which stands in its group.
pub open spec fn source_file(id: Seq<char>, file: Seq<char>, file_type: Seq<char>) -> PlistNode {
    object(
        id,
        file,
        seq![
            isa("PBXFileReference"@),
            line("lastKnownFileType"@, file_type),
            line("path"@, file),
            line("sourceTree"@, "\"<group>\""@),
        ],
    )
}

/// The reference to an interface definition file named `name` that stands
/// at `path`.
pub open spec fn udl_file(id: Seq<char>, path: Seq<char>, name: Seq<char>) -> PlistNode {
    object(
        id,
        name,
        seq![
            isa("PBXFileReference"@),
            line("lastKnownFileType"@, "text"@),
            line("name"@, name),
            line("path"@, path),
            line("sourceTree"@, "\"<group>\""@),
        ],
    )
}

/// The ten references that every project named `name` has: for iOS and then
/// for macOS the framework, its header, its documentation, its tests and
/// the source of the tests.
pub open spec fn fixed_references(id_base: u64, name: Seq<char>) -> Seq<PlistNode> {
    let kind = "PBXFileReference"@;
    seq![
        product_file(
            named_id(id_base, kind, name, "_ios.framework"@),
            name + "_ios.framework"@,
            "wrapper.framework"@,
        ),
        source_file(named_id(id_base, kind, name, "_ios.h"@), name + "_ios.h"@, "sourcecode.c.h"@),
        source_file(
            named_id(id_base, kind, name, "_ios.docc"@),
            name + "_ios.docc"@,
            "folder.documentationcatalog"@,
        ),
        product_file(
            named_id(id_base, kind, name, "_iosTests.xctest"@),
            name + "_iosTests.xctest"@,
            "wrapper.cfbundle"@,
        ),
        source_file(
            named_id(id_base, kind, name, "_iosTests.swift"@),
            name + "_iosTests.swift"@,
            "sourcecode.swift"@,
        ),
        product_file(
            named_id(id_base, kind, name, "_macos.framework"@),
            name + "_macos.framework"@,
            "wrapper.framework"@,
        ),
        source_file(
            named_id(id_base, kind, name, "_macos.h"@),
            name + "_macos.h"@,
            "sourcecode.c.h"@,
        ),
        source_file(
            named_id(id_base, kind, name, "_macos.docc"@),
            name + "_macos.docc"@,
            "folder.documentationcatalog"@,
        ),
        product_file(
            named_id(id_base, kind, name, "_macosTests.xctest"@),
            name + "_macosTests.xctest"@,
            "wrapper.cfbundle"@,
        ),
        source_file(
            named_id(id_base, kind, name, "_macosTests.swift"@),
            name + "_macosTests.swift"@,
            "sourcecode.swift"@,
        ),
    ]
}

/// The references to the first `count` interface definition files, each
/// under the identifier derived from the file's name.
pub open spec fn udl_references(id_base: u64, files: Seq<(String, String)>, count: int) -> Seq<
    PlistNode,
> {
    Seq::new(
        count as nat,
        |i: int| udl_file(
            id_of(id_base, "PBXFileReference"@, files[i].1@),
            files[i].0@,
            files[i].1@,
        ),
    )
}

/// The objects of the section of the file references: the ten fixed
/// references and behind them those to the first `count` interface
/// definition files.
pub open spec fn file_references(
    id_base: u64,
    name: Seq<char>,
    files: Seq<(String, String)>,
    count: int,
) -> Seq<PlistNode> {
    fixed_references(id_base, name) + udl_references(id_base, files, count)
}

/// Makes the reference to a product.
fn product_reference(id: &str, file: &str, file_type: &str) -> (r: PlistItem)
    ensures
        r@ == product_file(id@, file@, file_type@),
{
    let kind = "PBXFileReference";
    let lines = vec![
        PlistKeyValueItem::create_value_type("isa", None, kind, None),
        PlistKeyValueItem::create_value_type("explicitFileType", None, file_type, None),
        PlistKeyValueItem::create_value_type("includeInIndex", None, "0", None),
        PlistKeyValueItem::create_value_type("path", None, file, None),
        PlistKeyValueItem::create_value_type("sourceTree", None, "BUILT_PRODUCTS_DIR", None),
    ];
    assert(lines.deep_view() =~= seq![
        isa(kind@),
        line("explicitFileType"@, file_type@),
        line("includeInIndex"@, "0"@),
        line("path"@, file@),
        line("sourceTree"@, "BUILT_PRODUCTS_DIR"@),
    ]);
    PlistKeyValueItem::create_array_type(id, Some(file), lines)
}

/// Makes the reference to a source.
fn source_reference(id: &str, file: &str, file_type: &str) -> (r: PlistItem)
    ensures
        r@ == source_file(id@, file@, file_type@),
{
    let kind = "PBXFileReference";
    let lines = vec![
        PlistKeyValueItem::create_value_type("isa", None, kind, None),
        PlistKeyValueItem::create_value_type("lastKnownFileType", None, file_type, None),
        PlistKeyValueItem::create_value_type("path", None, file, None),
        PlistKeyValueItem::create_value_type("sourceTree", None, "\"<group>\"", None),
    ];
    assert(lines.deep_view() =~= seq![
        isa(kind@),
        line("lastKnownFileType"@, file_type@),
        line("path"@, file@),
        line("sourceTree"@, "\"<group>\""@),
    ]);
    PlistKeyValueItem::create_array_type(id, Some(file), lines)
}

/// Makes the reference to an interface definition file.
fn udl_reference(id: &str, path: &str, name: &str) -> (r: PlistItem)
    ensures
        r@ == udl_file(id@, path@, name@),
{
    let kind = "PBXFileReference";
    let lines = vec![
        PlistKeyValueItem::create_value_type("isa", None, kind, None),
        PlistKeyValueItem::create_value_type("lastKnownFileType", None, "text", None),
        PlistKeyValueItem::create_value_type("name", None, name, None),
        PlistKeyValueItem::create_value_type("path", None, path, None),
        PlistKeyValueItem::create_value_type("sourceTree", None, "\"<group>\"", None),
    ];
    assert(lines.deep_view() =~= seq![
        isa(kind@),
        line("lastKnownFileType"@, "text"@),
        line("name"@, name@),
        line("path"@, path@),
        line("sourceTree"@, "\"<group>\""@),
    ]);
    PlistKeyValueItem::create_array_type(id, Some(name), lines)
}

/// What the table of the build files holds, entry by entry: the name under
/// which the entry stands, the identifier of the build file, and the name
/// of the file.
pub open spec fn entries_of(table: NameTable<(String, String)>) -> Seq<
    (Seq<char>, Seq<char>, Seq<char>),
> {
    Seq::new(
        table.names.len() as nat,
        |i: int| (table.names[i]@, table.values[i].0@, table.values[i].1@),
    )
}

/// The entries `t` with the entry `e` put in: in the place of the entry
/// that stands under the same name, or at the end where there is none.
pub open spec fn put(
    t: Seq<(Seq<char>, Seq<char>, Seq<char>)>,
    e: (Seq<char>, Seq<char>, Seq<char>),
) -> Seq<(Seq<char>, Seq<char>, Seq<char>)> {
    if exists|i: int| 0 <= i < t.len() && (#[trigger] t[i]).0 == e.0 {
        t.update(choose|i: int| 0 <= i < t.len() && (#[trigger] t[i]).0 == e.0, e)
    } else {
        t.push(e)
    }
}

/// What the table of the build files holds for the first `count` files: for
/// each file an entry for iOS and one for macOS, under the file's name
/// followed by `_ios` and by `_macos`.
pub open spec fn build_file_entries(
    id_base: u64,
    files: Seq<(String, String)>,
    count: int,
) -> Seq<(Seq<char>, Seq<char>, Seq<char>)>
    decreases count,
{
    if count <= 0 {
        Seq::empty()
    } else {
        let name = files[count - 1].1@;
        put(
            put(
                build_file_entries(id_base, files, count - 1),
                (name + "_ios"@, named_id(id_base, "PBXBuildFile"@, name, "_ios"@), name),
            ),
            (name + "_macos"@, named_id(id_base, "PBXBuildFile"@, name, "_macos"@), name),
        )
    }
}

/// Letting a value belong to a name in the table is putting the entry into
/// what the table holds.
proof fn lemma_put(
    before: NameTable<(String, String)>,
    after: NameTable<(String, String)>,
    key: Seq<char>,
    value: (String, String),
)
    requires
        before.wf(),
        after.wf(),
        before.has(key) ==> after.keys() == before.keys(),
        before.has(key) ==> after.values@ == before.values@.update(before.index_of(key), value),
        !before.has(key) ==> after.keys() == before.keys().push(key),
        !before.has(key) ==> after.values@ == before.values@.push(value),
    ensures
        entries_of(after) == put(entries_of(before), (key, value.0@, value.1@)),
{
    let t = entries_of(before);
    let e = (key, value.0@, value.1@);
    assert(after.keys().len() == after.names.len());
    assert(before.keys().len() == before.names.len());
    if before.has(key) {
        let at = before.index_of(key);
        assert(t[at].0 == key);
        let c = choose|i: int| 0 <= i < t.len() && (#[trigger] t[i]).0 == e.0;
        assert(before.names[c]@ == key);
        assert(c == at);
        assert forall|j: int| 0 <= j < after.names.len() implies entries_of(after)[j] == t.update(
            at,
            e,
        )[j] by {
            assert(after.keys()[j] == before.keys()[j]);
        }
        assert(entries_of(after) =~= t.update(at, e));
    } else {
        if exists|i: int| 0 <= i < t.len() && (#[trigger] t[i]).0 == e.0 {
            let c = choose|i: int| 0 <= i < t.len() && (#[trigger] t[i]).0 == e.0;
            assert(before.names[c]@ == key);
        }
        assert forall|j: int| 0 <= j < after.names.len() implies entries_of(after)[j] == t.push(
            e,
        )[j] by {
            assert(after.keys()[j] == before.keys().push(key)[j]);
            if j < before.names.len() {
                assert(before.keys()[j] == before.names[j]@);
            }
        }
        assert(entries_of(after) =~= t.push(e));
    }
}

/// A build file: the object that puts the file with the reference
/// `reference` into a build phase.
pub open spec fn build_file(
    id: Seq<char>,
    comment: Seq<char>,
    reference: Seq<char>,
    reference_comment: Option<Seq<char>>,
) -> PlistNode {
    object(
        id,
        comment,
        seq![isa("PBXBuildFile"@), value_item("fileRef"@, None, reference, reference_comment)],
    )
}

/// The build file of a header that the framework makes public.
pub open spec fn public_header(
    id: Seq<char>,
    comment: Seq<char>,
    reference: Seq<char>,
    reference_comment: Option<Seq<char>>,
) -> PlistNode {
    object(
        id,
        comment,
        seq![
            isa("PBXBuildFile"@),
            value_item("fileRef"@, None, reference, reference_comment),
            array_item(
                "settings"@,
                None,
                Seq::empty().push(
                    tuple_item("ATTRIBUTES"@, Seq::empty().push(entry("Public"@, None))),
                ),
            ),
        ],
    )
}

/// The eight build files that every project named `name` has, each with
/// the reference of its file from `references`.
pub open spec fn fixed_build_files(
    id_base: u64,
    name: Seq<char>,
    references: PBXFileReferenceIds,
) -> Seq<PlistNode> {
    let kind = "PBXBuildFile"@;
    seq![
        build_file(
            named_id(id_base, kind, name, "_ios.framework"@),
            name + "_ios.framework in Frameworks"@,
            references.ios_framework@,
            Some(name + "_ios.framework"@),
        ),
        public_header(
            named_id(id_base, kind, name, "_ios.h"@),
            name + "_ios.h in Headers"@,
            references.ios_h@,
            Some(name + "_ios.h"@),
        ),
        build_file(
            named_id(id_base, kind, name, "_ios.docc"@),
            name + "_ios.docc in Sources"@,
            references.ios_docc@,
            Some(name + "_ios.docc"@),
        ),
        build_file(
            named_id(id_base, kind, name, "_iosTests.swift"@),
            name + "_iosTests.swift in Sources"@,
            references.ios_tests_swift@,
            Some(name + "_iosTests.swift"@),
        ),
        build_file(
            named_id(id_base, kind, name, "_macos.framework"@),
            name + "_macos.framework in Frameworks"@,
            references.macos_framework@,
            Some(name + "_macos.framework"@),
        ),
        public_header(
            named_id(id_base, kind, name, "_macos.h"@),
            name + "_macos.h in Headers"@,
            references.macos_h@,
            Some(name + "_macos.h"@),
        ),
        build_file(
            named_id(id_base, kind, name, "_macos.docc"@),
            name + "_macos.docc in Sources"@,
            references.macos_docc@,
            Some(name + "_macos.docc"@),
        ),
        build_file(
            named_id(id_base, kind, name, "_macosTests.swift"@),
            name + "_macosTests.swift in Sources"@,
            references.macos_tests_swift@,
            Some(name + "_macosTests.swift"@),
        ),
    ]
}

/// The build files of the first `count` interface definition files: two
/// for each file, the one for iOS before the one for macOS, each with the
/// reference derived from the file's name.
pub open spec fn udl_build_files(id_base: u64, files: Seq<(String, String)>, count: int) -> Seq<
    PlistNode,
> {
    Seq::new(
        (2 * count) as nat,
        |i: int|
            build_file(
                named_id(
                    id_base,
                    "PBXBuildFile"@,
                    files[i / 2].1@,
                    if i % 2 == 0 {
                        "_ios"@
                    } else {
                        "_macos"@
                    },
                ),
                files[i / 2].1@ + " in Sources"@,
                id_of(id_base, "PBXFileReference"@, files[i / 2].1@),
                None,
            ),
    )
}

/// The objects of the section of the build files: the eight fixed build
/// files and behind them those of the first `count` interface definition
/// files.
pub open spec fn build_files(
    id_base: u64,
    name: Seq<char>,
    references: PBXFileReferenceIds,
    files: Seq<(String, String)>,
    count: int,
) -> Seq<PlistNode> {
    fixed_build_files(id_base, name, references) + udl_build_files(id_base, files, count)
}

/// Makes a build file.
fn make_build_file(
    id: &str,
    comment: &str,
    reference: &str,
    reference_comment: Option<&str>,
) -> (r: PlistItem)
    ensures
        r@ == build_file(id@, comment@, reference@, slice_text(reference_comment)),
{
    let kind = "PBXBuildFile";
    let lines = vec![
        PlistKeyValueItem::create_value_type("isa", None, kind, None),
        PlistKeyValueItem::create_value_type("fileRef", None, reference, reference_comment),
    ];
    assert(lines.deep_view() =~= seq![
        isa(kind@),
        value_item("fileRef"@, None, reference@, slice_text(reference_comment)),
    ]);
    PlistKeyValueItem::create_array_type(id, Some(comment), lines)
}

/// Makes the build file of a public header.
fn make_public_header(
    id: &str,
    comment: &str,
    reference: &str,
    reference_comment: Option<&str>,
) -> (r: PlistItem)
    ensures
        r@ == public_header(id@, comment@, reference@, slice_text(reference_comment)),
{
    let kind = "PBXBuildFile";
    let settings = PlistKeyValueItem::create_array_type(
        "settings",
        None,
        Items::new().with(Entries::new().with("Public", None).tuple("ATTRIBUTES")).done(),
    );
    let lines = vec![
        PlistKeyValueItem::create_value_type("isa", None, kind, None),
        PlistKeyValueItem::create_value_type("fileRef", None, reference, reference_comment),
        settings,
    ];
    assert(lines.deep_view() =~= seq![
        isa(kind@),
        value_item("fileRef"@, None, reference@, slice_text(reference_comment)),
        settings@,
    ]);
    PlistKeyValueItem::create_array_type(id, Some(comment), lines)
}

/// Whether the build file `node` refers to the file whose reference has the
/// identifier `reference`: the second line of the object is
/// `fileRef = reference;`.
pub open spec fn refers_to(node: PlistNode, reference: Seq<char>) -> bool {
    &&& node is Item
    &&& *node->Item_value is Array
    &&& (*node->Item_value)->Array_items.len() >= 2
    &&& (*node->Item_value)->Array_items[1] == (PlistNode::Item {
        key: KeyNode { name: "fileRef"@, comment: None },
        value: Box::new(PlistNode::Value { text: reference, comment: None }),
    })
}

/// Whether the build files of the first `count` files, which stand behind
/// the eight fixed build files, refer to the references of these files.
#[verifier::opaque]
pub open spec fn build_files_refer(
    items: Seq<PlistNode>,
    id_base: u64,
    files: Seq<(String, String)>,
    count: int,
) -> bool {
    &&& items.len() == 8 + 2 * count
    &&& forall|i: int|
        0 <= i < 2 * count ==> refers_to(
            #[trigger] items[8 + i],
            id_of(id_base, "PBXFileReference"@, files[i / 2].1@),
        )
}

impl PlistKeyValueItem {
    /// The section of the file references of the project `xc_fw_name`: ten
    /// references that every project has, and one for each interface
    /// definition file, which is given as its path and its name.
    pub fn create_pbx_file_reference_section(
        xc_fw_name: &str,
        udl_files_path: &Vec<(String, String)>,
        id_base: u64,
    ) -> (r: (PBXFileReferenceIds, PlistItem))
        ensures
            r.0.fixed(id_base, xc_fw_name@),
            r.0.covers(id_base, udl_files_path@, udl_files_path.len() as int),
            r.0.udl_files.wf(),
            forall|name: Seq<char>|
                #[trigger] r.0.udl_files.has(name) ==> exists|j: int|
                    0 <= j < udl_files_path.len() && #[trigger] udl_files_path[j].1@ == name,
            r.0.udl_files.keys() == distinct_names(udl_files_path@, udl_files_path.len() as int),
            r.1@ == (PlistNode::SectionItem {
                name: "PBXFileReference"@,
                items: file_references(
                    id_base,
                    xc_fw_name@,
                    udl_files_path@,
                    udl_files_path.len() as int,
                ),
            }),
            is_section(
                r.1@,
                "PBXFileReference"@,
                r.0.fixed_ids() + file_reference_ids(
                    id_base,
                    udl_files_path@,
                    udl_files_path.len() as int,
                ),
            ),
    {
        proof {
            reveal(are_objects);
        }

        let kind = "PBXFileReference";
        let ios_framework = object_id(id_base, kind, xc_fw_name, "_ios.framework");
        let ios_h = object_id(id_base, kind, xc_fw_name, "_ios.h");
        let ios_docc = object_id(id_base, kind, xc_fw_name, "_ios.docc");
        let ios_tests_xc = object_id(id_base, kind, xc_fw_name, "_iosTests.xctest");
        let ios_tests_swift = object_id(id_base, kind, xc_fw_name, "_iosTests.swift");

        let macos_framework = object_id(id_base, kind, xc_fw_name, "_macos.framework");
        let macos_h = object_id(id_base, kind, xc_fw_name, "_macos.h");
        let macos_docc = object_id(id_base, kind, xc_fw_name, "_macos.docc");
        let macos_tests_xc = object_id(id_base, kind, xc_fw_name, "_macosTests.xctest");
        let macos_tests_swift = object_id(id_base, kind, xc_fw_name, "_macosTests.swift");
        let ios_framework_item = product_reference(
            ios_framework.as_str(),
            cat(xc_fw_name, "_ios.framework").as_str(),
            "wrapper.framework",
        );
        let ios_h_item = source_reference(
            ios_h.as_str(),
            cat(xc_fw_name, "_ios.h").as_str(),
            "sourcecode.c.h",
        );
        let ios_docc_item = source_reference(
            ios_docc.as_str(),
            cat(xc_fw_name, "_ios.docc").as_str(),
            "folder.documentationcatalog",
        );
        let ios_tests_xc_item = product_reference(
            ios_tests_xc.as_str(),
            cat(xc_fw_name, "_iosTests.xctest").as_str(),
            "wrapper.cfbundle",
        );
        let ios_swift_item = source_reference(
            ios_tests_swift.as_str(),
            cat(xc_fw_name, "_iosTests.swift").as_str(),
            "sourcecode.swift",
        );
        let macos_framework_item = product_reference(
            macos_framework.as_str(),
            cat(xc_fw_name, "_macos.framework").as_str(),
            "wrapper.framework",
        );
        let macos_h_item = source_reference(
            macos_h.as_str(),
            cat(xc_fw_name, "_macos.h").as_str(),
            "sourcecode.c.h",
        );
        let macos_docc_item = source_reference(
            macos_docc.as_str(),
            cat(xc_fw_name, "_macos.docc").as_str(),
            "folder.documentationcatalog",
        );
        let macos_tests_xc_item = product_reference(
            macos_tests_xc.as_str(),
            cat(xc_fw_name, "_macosTests.xctest").as_str(),
            "wrapper.cfbundle",
        );
        let macos_swift_item = source_reference(
            macos_tests_swift.as_str(),
            cat(xc_fw_name, "_macosTests.swift").as_str(),
            "sourcecode.swift",
        );

        let mut udl_files: NameTable<String> = NameTable::new();
        let mut items = vec![
            ios_framework_item,
            ios_h_item,
            ios_docc_item,
            ios_tests_xc_item,
            ios_swift_item,
            macos_framework_item,
            macos_h_item,
            macos_docc_item,
            macos_tests_xc_item,
            macos_swift_item,
        ];
        let ghost fixed_ids = seq![
            ios_framework@,
            ios_h@,
            ios_docc@,
            ios_tests_xc@,
            ios_tests_swift@,
            macos_framework@,
            macos_h@,
            macos_docc@,
            macos_tests_xc@,
            macos_tests_swift@,
        ];
        assert(are_objects(items.deep_view(), fixed_ids, kind@));
        assert(items.deep_view() =~= fixed_references(id_base, xc_fw_name@));
        assert(udl_references(id_base, udl_files_path@, 0) =~= Seq::<PlistNode>::empty());
        assert(udl_files.keys() =~= distinct_names(udl_files_path@, 0));
        assert(items.deep_view() =~= file_references(id_base, xc_fw_name@, udl_files_path@, 0));
        let mut i: usize = 0;
        while i < udl_files_path.len()
            invariant
                i <= udl_files_path.len(),
                kind@ == "PBXFileReference"@,
                udl_files.wf(),
                items.deep_view() == file_references(
                    id_base,
                    xc_fw_name@,
                    udl_files_path@,
                    i as int,
                ),
                forall|name: Seq<char>|
                    #[trigger] udl_files.has(name) ==> exists|j: int|
                        0 <= j < i && #[trigger] udl_files_path[j].1@ == name,
                udl_files.keys() == distinct_names(udl_files_path@, i as int),
                forall|j: int| 0 <= j < i ==> udl_files.has(#[trigger] udl_files_path[j].1@),
                forall|name: Seq<char>|
                    udl_files.has(name) ==> (#[trigger] udl_files.value_of(name))@ == id_of(
                        id_base,
                        kind@,
                        name,
                    ),
                are_objects(
                    items.deep_view(),
                    fixed_ids + file_reference_ids(id_base, udl_files_path@, i as int),
                    kind@,
                ),
            decreases udl_files_path.len() - i,
        {
            let path = udl_files_path[i].0.as_str();
            let udl_file_name = udl_files_path[i].1.as_str();
            let udl_file_id = derive_id(id_base, kind, udl_file_name);
            let udl_file_item = udl_reference(udl_file_id.as_str(), path, udl_file_name);
            let ghost before = items;
            let ghost ids_before = fixed_ids + file_reference_ids(
                id_base,
                udl_files_path@,
                i as int,
            );
            proof {
                udl_files.lemma_has(udl_file_name@);
            }
            udl_files.insert(udl_file_name.to_owned(), udl_file_id);
            items.push(udl_file_item);
            proof {
                reveal(are_objects);
                lemma_push_deep_view(before, items, udl_file_item);
                assert(fixed_ids + file_reference_ids(id_base, udl_files_path@, i + 1)
                    =~= ids_before.push(id_of(id_base, kind@, udl_file_name@)));
                assert(file_references(id_base, xc_fw_name@, udl_files_path@, i + 1)
                    =~= file_references(id_base, xc_fw_name@, udl_files_path@, i as int).push(
                    udl_file_item@,
                ));
                assert(udl_files_path[i as int].1@ == udl_file_name@);
            }
            i += 1;
        }

        let file_ref_ids = PBXFileReferenceIds {
            ios_framework,
            ios_h,
            ios_docc,
            ios_tests_xc,
            ios_tests_swift,
            macos_framework,
            macos_h,
            macos_docc,
            macos_tests_xc,
            macos_tests_swift,
            udl_files,
        };
        assert(file_ref_ids.fixed_ids() =~= fixed_ids);
        proof {
            reveal(PBXFileReferenceIds::covers);
        }
        (file_ref_ids, PlistSectionItem::create(kind, items))
    }

    /// The section of the build files of the project `name`: eight build
    /// files that every project has, and two for each interface definition
    /// file, one for iOS and one for macOS. Every build file refers to the
    /// reference of its file, so the references of all files are needed.
    pub fn create_pbx_build_file_section(
        pbx_file_ref_ids: &PBXFileReferenceIds,
        name: &str,
        udl_files_path: &Vec<(String, String)>,
        id_base: u64,
    ) -> (r: (PBXBuildFileIds, PlistItem))
        requires
            pbx_file_ref_ids.covers(id_base, udl_files_path@, udl_files_path.len() as int),
        ensures
            r.0.fixed(id_base, name@),
            r.0.udl_files.wf(),
            entries_of(r.0.udl_files) == build_file_entries(
                id_base,
                udl_files_path@,
                udl_files_path.len() as int,
            ),
            is_section(
                r.1@,
                "PBXBuildFile"@,
                r.0.fixed_ids() + build_file_ids(
                    id_base,
                    udl_files_path@,
                    udl_files_path.len() as int,
                ),
            ),
            build_files_refer(
                r.1@->SectionItem_items,
                id_base,
                udl_files_path@,
                udl_files_path.len() as int,
            ),
            r.1@ == (PlistNode::SectionItem {
                name: "PBXBuildFile"@,
                items: build_files(
                    id_base,
                    name@,
                    *pbx_file_ref_ids,
                    udl_files_path@,
                    udl_files_path.len() as int,
                ),
            }),
    {
        proof {
            reveal(are_objects);
            reveal(PBXFileReferenceIds::covers);
        }

        let kind = "PBXBuildFile";
        let ios_framework = object_id(id_base, kind, name, "_ios.framework");
        let ios_h = object_id(id_base, kind, name, "_ios.h");
        let ios_docc = object_id(id_base, kind, name, "_ios.docc");
        let ios_tests_swift = object_id(id_base, kind, name, "_iosTests.swift");

        let macos_framework = object_id(id_base, kind, name, "_macos.framework");
        let macos_h = object_id(id_base, kind, name, "_macos.h");
        let macos_docc = object_id(id_base, kind, name, "_macos.docc");
        let macos_tests_swift =
            object_id(id_base, kind, name, "_macosTests.swift");

        let ios_framework_item = make_build_file(
            ios_framework.as_str(),
            cat(name, "_ios.framework in Frameworks").as_str(),
            pbx_file_ref_ids.ios_framework.as_str(),
            Some(cat(name, "_ios.framework").as_str()),
        );
        let ios_h_item = make_public_header(
            ios_h.as_str(),
            cat(name, "_ios.h in Headers").as_str(),
            pbx_file_ref_ids.ios_h.as_str(),
            Some(cat(name, "_ios.h").as_str()),
        );
        let ios_docc_item = make_build_file(
            ios_docc.as_str(),
            cat(name, "_ios.docc in Sources").as_str(),
            pbx_file_ref_ids.ios_docc.as_str(),
            Some(cat(name, "_ios.docc").as_str()),
        );
        let ios_tests_swift_item = make_build_file(
            ios_tests_swift.as_str(),
            cat(name, "_iosTests.swift in Sources").as_str(),
            pbx_file_ref_ids.ios_tests_swift.as_str(),
            Some(cat(name, "_iosTests.swift").as_str()),
        );
        let macos_framework_item = make_build_file(
            macos_framework.as_str(),
            cat(name, "_macos.framework in Frameworks").as_str(),
            pbx_file_ref_ids.macos_framework.as_str(),
            Some(cat(name, "_macos.framework").as_str()),
        );
        let macos_h_item = make_public_header(
            macos_h.as_str(),
            cat(name, "_macos.h in Headers").as_str(),
            pbx_file_ref_ids.macos_h.as_str(),
            Some(cat(name, "_macos.h").as_str()),
        );
        let macos_docc_item = make_build_file(
            macos_docc.as_str(),
            cat(name, "_macos.docc in Sources").as_str(),
            pbx_file_ref_ids.macos_docc.as_str(),
            Some(cat(name, "_macos.docc").as_str()),
        );
        let macos_tests_swift_item = make_build_file(
            macos_tests_swift.as_str(),
            cat(name, "_macosTests.swift in Sources").as_str(),
            pbx_file_ref_ids.macos_tests_swift.as_str(),
            Some(cat(name, "_macosTests.swift").as_str()),
        );

        let mut udl_files: NameTable<(String, String)> = NameTable::new();
        let mut items = vec![
            ios_framework_item,
            ios_h_item,
            ios_docc_item,
            ios_tests_swift_item,
            macos_framework_item,
            macos_h_item,
            macos_docc_item,
            macos_tests_swift_item,
        ];
        let ghost fixed_ids = seq![
            ios_framework@,
            ios_h@,
            ios_docc@,
            ios_tests_swift@,
            macos_framework@,
            macos_h@,
            macos_docc@,
            macos_tests_swift@,
        ];
        assert(are_objects(items.deep_view(), fixed_ids, kind@));
        proof {
            reveal(build_files_refer);
            assert(items.deep_view() =~= fixed_build_files(id_base, name@, *pbx_file_ref_ids));
            assert(udl_build_files(id_base, udl_files_path@, 0) =~= Seq::<PlistNode>::empty());
            assert(entries_of(udl_files) =~= build_file_entries(id_base, udl_files_path@, 0));
            assert(items.deep_view() =~= build_files(
                id_base,
                name@,
                *pbx_file_ref_ids,
                udl_files_path@,
                0,
            ));
        }
        let mut i: usize = 0;
        while i < udl_files_path.len()
            invariant
                i <= udl_files_path.len(),
                kind@ == "PBXBuildFile"@,
                udl_files.wf(),
                entries_of(udl_files) == build_file_entries(id_base, udl_files_path@, i as int),
                pbx_file_ref_ids.udl_files.wf(),
                forall|j: int|
                    0 <= j < udl_files_path.len() ==> pbx_file_ref_ids.udl_files.has(
                        #[trigger] udl_files_path[j].1@,
                    ),
                forall|name: Seq<char>|
                    pbx_file_ref_ids.udl_files.has(name) ==> (
                    #[trigger] pbx_file_ref_ids.udl_files.value_of(name))@ == id_of(
                        id_base,
                        "PBXFileReference"@,
                        name,
                    ),
                build_files_refer(items.deep_view(), id_base, udl_files_path@, i as int),
                items.deep_view() == build_files(
                    id_base,
                    name@,
                    *pbx_file_ref_ids,
                    udl_files_path@,
                    i as int,
                ),
                are_objects(
                    items.deep_view(),
                    fixed_ids + build_file_ids(id_base, udl_files_path@, i as int),
                    kind@,
                ),
            decreases udl_files_path.len() - i,
        {
            let udl_file_name = udl_files_path[i].1.as_str();
            assert(pbx_file_ref_ids.udl_files.has(udl_files_path[i as int].1@));
            let udl_file_ref_id = pbx_file_ref_ids.udl_files.get(udl_file_name).unwrap();
            let ghost ids0 = fixed_ids + build_file_ids(id_base, udl_files_path@, i as int);
            let udl_file_id = object_id(id_base, kind, udl_file_name, "_ios");
            let udl_file_item = make_build_file(
                udl_file_id.as_str(),
                cat(udl_file_name, " in Sources").as_str(),
                udl_file_ref_id.as_str(),
                None,
            );
            let ghost items0 = items;
            let ghost first = udl_file_item;
            items.push(udl_file_item);
            proof {
                reveal(are_objects);
                lemma_push_deep_view(items0, items, udl_file_item);
            }
            let ghost id1 = udl_file_id@;
            let ghost table0 = udl_files;
            let held = (udl_file_id, udl_file_name.to_owned());
            udl_files.insert(cat(udl_file_name, "_ios"), held);
            proof {
                lemma_put(table0, udl_files, udl_file_name@ + "_ios"@, held);
            }

            let udl_file_id = object_id(id_base, kind, udl_file_name, "_macos");
            let udl_file_item = make_build_file(
                udl_file_id.as_str(),
                cat(udl_file_name, " in Sources").as_str(),
                udl_file_ref_id.as_str(),
                None,
            );
            let ghost id2 = udl_file_id@;
            let ghost table1 = udl_files;
            let held = (udl_file_id, udl_file_name.to_owned());
            udl_files.insert(cat(udl_file_name, "_macos"), held);
            proof {
                lemma_put(table1, udl_files, udl_file_name@ + "_macos"@, held);
            }
            let ghost items1 = items;
            items.push(udl_file_item);
            proof {
                reveal(are_objects);
                reveal(build_files_refer);
                lemma_push_deep_view(items1, items, udl_file_item);
                assert(fixed_ids + build_file_ids(id_base, udl_files_path@, i + 1) =~= ids0.push(
                    id1,
                ).push(id2));
                let reference = id_of(id_base, "PBXFileReference"@, udl_file_name@);
                assert(udl_file_ref_id@ == reference);
                assert(udl_files_path[i as int].1@ == udl_file_name@);
                assert(build_files(id_base, name@, *pbx_file_ref_ids, udl_files_path@, i + 1)
                    =~= build_files(
                    id_base,
                    name@,
                    *pbx_file_ref_ids,
                    udl_files_path@,
                    i as int,
                ).push(first@).push(udl_file_item@));
                assert(refers_to(first@, reference));
                assert(refers_to(udl_file_item@, reference));
                assert forall|j: int| 0 <= j < 2 * (i + 1) implies refers_to(
                    #[trigger] items.deep_view()[8 + j],
                    id_of(id_base, "PBXFileReference"@, udl_files_path@[j / 2].1@),
                ) by {
                    if j < 2 * i {
                        assert(items.deep_view()[8 + j] == items0.deep_view()[8 + j]);
                    } else if j == 2 * i {
                        assert(items.deep_view()[8 + j] == first@);
                    } else {
                        assert(items.deep_view()[8 + j] == udl_file_item@);
                    }
                }
            }
            i += 1;
        }

        let file_ref_ids = PBXBuildFileIds {
            ios_framework,
            ios_h,
            ios_docc,
            ios_tests_swift,
            macos_framework,
            macos_h,
            macos_docc,
            macos_tests_swift,
            udl_files,
        };
        assert(file_ref_ids.fixed_ids() =~= fixed_ids);
        (file_ref_ids, PlistSectionItem::create(kind, items))
    }
}

} // verus!
