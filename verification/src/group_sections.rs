//! The section of the groups: the tree in which the files of a project
//! are shown.

use crate::names::{cat, cat3, named_id, object_id, NameTable};
use crate::objects::{
    are_objects, array_item, entry, is_section, section, tuple_item, value_item, Entries, Items,
    PBXFileReferenceIds, PBXGroupIds,
};
use crate::types::{
    lemma_node_of, lemma_push_deep_view, PlistItem, PlistKeyValueItem, PlistNode,
    PlistSectionItem, PlistTupleItem, PlistTupleValue,
};
use vstd::prelude::*;

verus! {

impl PBXGroupIds {
    /// Each identifier is derived from the kind of its object and from the
    /// object's name, which begins with `name`.
    pub open spec fn fixed(&self, id_base: u64, name: Seq<char>) -> bool {
        &&& self.products@ == named_id(id_base, "PBXGroup"@, name, "_products"@)
        &&& self.ios@ == named_id(id_base, "PBXGroup"@, name, "_ios.framework"@)
        &&& self.ios_tests@ == named_id(id_base, "PBXGroup"@, name, "_iosTests"@)
        &&& self.macos@ == named_id(id_base, "PBXGroup"@, name, "_macos"@)
        &&& self.macos_tests@ == named_id(id_base, "PBXGroup"@, name, "_macosTests"@)
        &&& self.frameworks@ == named_id(id_base, "PBXGroup"@, name, "_Frameworks"@)
        &&& self.groups@ == named_id(id_base, "PBXGroup"@, name, "_Groups"@)
    }

    /// The identifiers of the objects of the section, in their order.
    pub open spec fn in_order(&self) -> Seq<Seq<char>> {
        seq![
            self.groups@,
            self.products@,
            self.ios@,
            self.ios_tests@,
            self.macos@,
            self.macos_tests@,
            self.frameworks@,
        ]
    }
}

/// The entries of the first `count` file references of the table `table`,
/// each with the name of its file as a comment.
pub open spec fn reference_entries(table: NameTable<String>, count: int) -> Seq<PlistNode> {
    Seq::new(count as nat, |i: int| entry(table.values[i]@, Some(table.names[i]@)))
}

/// The tuple `tuple` with the file references of the table `table` behind
/// its entries.
pub open spec fn with_reference_entries(tuple: PlistNode, table: NameTable<String>) -> PlistNode {
    tuple_item(
        tuple->TupleItem_name,
        tuple->TupleItem_items + reference_entries(table, table.names.len() as int),
    )
}

/// Puts the file references of the table `table` behind the entries of a
/// tuple.
fn with_references(tuple: PlistItem, table: &NameTable<String>) -> (r: PlistItem)
    requires
        table.wf(),
        tuple@ is TupleItem,
    ensures
        r@ == with_reference_entries(tuple@, *table),
{
    proof {
        lemma_node_of(tuple);
    }
    match tuple {
        PlistItem::TupleItem(held) => {
            let ghost first = held.items.deep_view();
            let name = held.name;
            let mut items = held.items;
            let mut i: usize = 0;
            assert(reference_entries(*table, 0) =~= Seq::<PlistNode>::empty());
            assert(first + reference_entries(*table, 0) =~= first);
            while i < table.len()
                invariant
                    table.wf(),
                    i <= table.names.len(),
                    items.deep_view() == first + reference_entries(*table, i as int),
                decreases table.names.len() - i,
            {
                let ghost before = items;
                let item = PlistTupleValue::create(
                    table.values[i].as_str(),
                    Some(table.names[i].clone()),
                );
                items.push(item);
                proof {
                    lemma_push_deep_view(before, items, item);
                    assert(first + reference_entries(*table, i + 1) =~= (first
                        + reference_entries(*table, i as int)).push(item@));
                }
                i += 1;
            }
            let r = PlistItem::TupleItem(PlistTupleItem { name, items });
            proof {
                lemma_node_of(r);
            }
            r
        },
        other => other,
    }
}

/// The section of the groups, as it is for a project named `xfw_name` whose
/// file references have the identifiers `pbx_file_ref`.
#[verifier::opaque]
pub open spec fn group_section(
    pbx_file_ref: PBXFileReferenceIds,
    xfw_name: Seq<char>,
    id_base: u64,
) -> PlistNode {
    let kind = "PBXGroup"@;
    let products_id = named_id(id_base, kind, xfw_name, "_products"@);
    let ios_id = named_id(id_base, kind, xfw_name, "_ios.framework"@);
    let ios_tests_id = named_id(id_base, kind, xfw_name, "_iosTests"@);
    let macos_id = named_id(id_base, kind, xfw_name, "_macos"@);
    let macos_tests_id = named_id(id_base, kind, xfw_name, "_macosTests"@);
    let frameworks_id = named_id(id_base, kind, xfw_name, "_Frameworks"@);
    let products_item = array_item(
        products_id,
        Some("Products"@),
        Seq::empty()
            .push(value_item("isa"@, None, kind, None))
            .push(tuple_item(
                "children"@,
                Seq::empty()
                    .push(entry(pbx_file_ref.ios_framework@, Some(xfw_name + "_ios.framework"@)))
                    .push(entry(pbx_file_ref.ios_tests_xc@, Some(xfw_name + "_iosTests.xctest"@)))
                    .push(
                        entry(pbx_file_ref.macos_framework@, Some(xfw_name + "_macos.framework"@)),
                    )
                    .push(
                        entry(pbx_file_ref.macos_tests_xc@, Some(xfw_name + "_macosTests.xctest"@)),
                    ),
            ))
            .push(value_item("name"@, None, "Products"@, None))
            .push(value_item("sourceTree"@, None, "\"<group>\""@, None)),
    );
    let ios_item = array_item(
        ios_id,
        Some(xfw_name + "_ios"@),
        Seq::empty()
            .push(value_item("isa"@, None, kind, None))
            .push(tuple_item(
                "children"@,
                Seq::empty()
                    .push(entry(pbx_file_ref.ios_h@, Some(xfw_name + "_ios.h"@)))
                    .push(entry(pbx_file_ref.ios_docc@, Some(xfw_name + "_ios.docc"@))),
            ))
            .push(value_item("path"@, None, "\""@ + xfw_name + "_ios\""@, None))
            .push(value_item("sourceTree"@, None, "\"<group>\""@, None)),
    );
    let ios_tests_item = array_item(
        ios_tests_id,
        Some(xfw_name + "_iosTests"@),
        Seq::empty()
            .push(value_item("isa"@, None, kind, None))
            .push(tuple_item(
                "children"@,
                Seq::empty()
                    .push(
                        entry(pbx_file_ref.ios_tests_swift@, Some(xfw_name + "_iosTests.swift"@)),
                    ),
            ))
            .push(value_item("path"@, None, "\""@ + xfw_name + "_iosTests\""@, None))
            .push(value_item("sourceTree"@, None, "\"<group>\""@, None)),
    );
    let macos_item = array_item(
        macos_id,
        Some(xfw_name + "_macos"@),
        Seq::empty()
            .push(value_item("isa"@, None, kind, None))
            .push(tuple_item(
                "children"@,
                Seq::empty()
                    .push(entry(pbx_file_ref.macos_h@, Some(xfw_name + "_macos.h"@)))
                    .push(entry(pbx_file_ref.macos_docc@, Some(xfw_name + "_macos.docc"@))),
            ))
            .push(value_item("path"@, None, "\""@ + xfw_name + "_macos\""@, None))
            .push(value_item("sourceTree"@, None, "\"<group>\""@, None)),
    );
    let macos_tests_item = array_item(
        macos_tests_id,
        Some(xfw_name + "_macosTests"@),
        Seq::empty()
            .push(value_item("isa"@, None, kind, None))
            .push(tuple_item(
                "children"@,
                Seq::empty()
                    .push(
                        entry(
                            pbx_file_ref.macos_tests_swift@,
                            Some(xfw_name + "_macosTests.swift"@),
                        ),
                    ),
            ))
            .push(value_item("path"@, None, "\""@ + xfw_name + "_macosTests\""@, None))
            .push(value_item("sourceTree"@, None, "\"<group>\""@, None)),
    );
    let frameworks_item = array_item(
        frameworks_id,
        Some("Frameworks"@),
        Seq::empty()
            .push(value_item("isa"@, None, kind, None))
            .push(tuple_item("children"@, Seq::empty()))
            .push(value_item("name"@, None, "Frameworks"@, None))
            .push(value_item("sourceTree"@, None, "\"<group>\""@, None)),
    );
    let groups_id = named_id(id_base, kind, xfw_name, "_Groups"@);
    let groups_item = array_item(
        groups_id,
        None,
        Seq::empty()
            .push(value_item("isa"@, None, kind, None))
            .push(with_reference_entries(
                tuple_item(
                    "children"@,
                    Seq::empty()
                        .push(entry(ios_id, Some(xfw_name + "_ios"@)))
                        .push(entry(ios_tests_id, Some(xfw_name + "_iosTests"@)))
                        .push(entry(macos_id, Some(xfw_name + "_macos"@)))
                        .push(entry(macos_tests_id, Some(xfw_name + "_macosTests"@)))
                        .push(entry(products_id, Some("Products"@)))
                        .push(entry(frameworks_id, Some("Frameworks"@))),
                ),
                pbx_file_ref.udl_files,
            ))
            .push(value_item("sourceTree"@, None, "\"<group>\""@, None)),
    );
    section(
        kind,
        Seq::empty()
            .push(groups_item)
            .push(products_item)
            .push(ios_item)
            .push(ios_tests_item)
            .push(macos_item)
            .push(macos_tests_item)
            .push(frameworks_item),
    )
}

impl PlistKeyValueItem {
    /// The section of the groups of the project `xfw_name`: the main group,
    /// the products, one group for each of the four targets, and the
    /// frameworks. The main group lists the other groups and the references
    /// of the interface definition files.
    pub fn create_pbx_group_section(
        pbx_file_ref: &PBXFileReferenceIds,
        xfw_name: &str,
        id_base: u64,
    ) -> (r: (PBXGroupIds, PlistItem))
        requires
            pbx_file_ref.udl_files.wf(),
        ensures
            r.0.fixed(id_base, xfw_name@),
            is_section(r.1@, "PBXGroup"@, r.0.in_order()),
            r.1@ == group_section(*pbx_file_ref, xfw_name@, id_base),
    {
        proof {
            reveal(are_objects);
            reveal(group_section);
        }
        let kind = "PBXGroup";
        let products_id = object_id(id_base, kind, xfw_name, "_products");
        let ios_id = object_id(id_base, kind, xfw_name, "_ios.framework");
        let ios_tests_id = object_id(id_base, kind, xfw_name, "_iosTests");
        let macos_id = object_id(id_base, kind, xfw_name, "_macos");
        let macos_tests_id = object_id(id_base, kind, xfw_name, "_macosTests");
        let frameworks_id = object_id(id_base, kind, xfw_name, "_Frameworks");
        let products_item = PlistKeyValueItem::create_array_type(
            products_id.as_str(),
            Some("Products"),
            Items::new()
                .with(PlistKeyValueItem::create_value_type("isa", None, kind, None))
                .with(Entries::new()
                    .with(
                        pbx_file_ref.ios_framework.as_str(),
                        Some(cat(xfw_name, "_ios.framework")),
                    )
                    .with(
                        pbx_file_ref.ios_tests_xc.as_str(),
                        Some(cat(xfw_name, "_iosTests.xctest")),
                    )
                    .with(
                        pbx_file_ref.macos_framework.as_str(),
                        Some(cat(xfw_name, "_macos.framework")),
                    )
                    .with(
                        pbx_file_ref.macos_tests_xc.as_str(),
                        Some(cat(xfw_name, "_macosTests.xctest")),
                    )
                    .tuple("children"))
                .with(PlistKeyValueItem::create_value_type("name", None, "Products", None))
                .with(PlistKeyValueItem::create_value_type("sourceTree", None, "\"<group>\"", None))
                .done(),
        );
        let ios_item = PlistKeyValueItem::create_array_type(
            ios_id.as_str(),
            Some(cat(xfw_name, "_ios").as_str()),
            Items::new()
                .with(PlistKeyValueItem::create_value_type("isa", None, kind, None))
                .with(Entries::new()
                    .with(pbx_file_ref.ios_h.as_str(), Some(cat(xfw_name, "_ios.h")))
                    .with(pbx_file_ref.ios_docc.as_str(), Some(cat(xfw_name, "_ios.docc")))
                    .tuple("children"))
                .with(PlistKeyValueItem::create_value_type(
                    "path",
                    None,
                    cat3("\"", xfw_name, "_ios\"").as_str(),
                    None,
                ))
                .with(PlistKeyValueItem::create_value_type("sourceTree", None, "\"<group>\"", None))
                .done(),
        );
        let ios_tests_item = PlistKeyValueItem::create_array_type(
            ios_tests_id.as_str(),
            Some(cat(xfw_name, "_iosTests").as_str()),
            Items::new()
                .with(PlistKeyValueItem::create_value_type("isa", None, kind, None))
                .with(Entries::new()
                    .with(
                        pbx_file_ref.ios_tests_swift.as_str(),
                        Some(cat(xfw_name, "_iosTests.swift")),
                    )
                    .tuple("children"))
                .with(PlistKeyValueItem::create_value_type(
                    "path",
                    None,
                    cat3("\"", xfw_name, "_iosTests\"").as_str(),
                    None,
                ))
                .with(PlistKeyValueItem::create_value_type("sourceTree", None, "\"<group>\"", None))
                .done(),
        );
        let macos_item = PlistKeyValueItem::create_array_type(
            macos_id.as_str(),
            Some(cat(xfw_name, "_macos").as_str()),
            Items::new()
                .with(PlistKeyValueItem::create_value_type("isa", None, kind, None))
                .with(Entries::new()
                    .with(pbx_file_ref.macos_h.as_str(), Some(cat(xfw_name, "_macos.h")))
                    .with(pbx_file_ref.macos_docc.as_str(), Some(cat(xfw_name, "_macos.docc")))
                    .tuple("children"))
                .with(PlistKeyValueItem::create_value_type(
                    "path",
                    None,
                    cat3("\"", xfw_name, "_macos\"").as_str(),
                    None,
                ))
                .with(PlistKeyValueItem::create_value_type("sourceTree", None, "\"<group>\"", None))
                .done(),
        );
        let macos_tests_item = PlistKeyValueItem::create_array_type(
            macos_tests_id.as_str(),
            Some(cat(xfw_name, "_macosTests").as_str()),
            Items::new()
                .with(PlistKeyValueItem::create_value_type("isa", None, kind, None))
                .with(Entries::new()
                    .with(
                        pbx_file_ref.macos_tests_swift.as_str(),
                        Some(cat(xfw_name, "_macosTests.swift")),
                    )
                    .tuple("children"))
                .with(PlistKeyValueItem::create_value_type(
                    "path",
                    None,
                    cat3("\"", xfw_name, "_macosTests\"").as_str(),
                    None,
                ))
                .with(PlistKeyValueItem::create_value_type("sourceTree", None, "\"<group>\"", None))
                .done(),
        );
        let frameworks_item = PlistKeyValueItem::create_array_type(
            frameworks_id.as_str(),
            Some("Frameworks"),
            Items::new()
                .with(PlistKeyValueItem::create_value_type("isa", None, kind, None))
                .with(Entries::new()
                    .tuple("children"))
                .with(PlistKeyValueItem::create_value_type("name", None, "Frameworks", None))
                .with(PlistKeyValueItem::create_value_type("sourceTree", None, "\"<group>\"", None))
                .done(),
        );
        let groups_id = object_id(id_base, kind, xfw_name, "_Groups");
        let groups_item = PlistKeyValueItem::create_array_type(
            groups_id.as_str(),
            None,
            Items::new()
                .with(PlistKeyValueItem::create_value_type("isa", None, kind, None))
                .with(with_references(
                    Entries::new()
                        .with(ios_id.as_str(), Some(cat(xfw_name, "_ios")))
                        .with(ios_tests_id.as_str(), Some(cat(xfw_name, "_iosTests")))
                        .with(macos_id.as_str(), Some(cat(xfw_name, "_macos")))
                        .with(macos_tests_id.as_str(), Some(cat(xfw_name, "_macosTests")))
                        .with(products_id.as_str(), Some("Products".to_owned()))
                        .with(frameworks_id.as_str(), Some("Frameworks".to_owned()))
                        .tuple("children"),
                    &pbx_file_ref.udl_files,
                ))
                .with(PlistKeyValueItem::create_value_type("sourceTree", None, "\"<group>\"", None))
                .done(),
        );
        let file_ref_ids = PBXGroupIds {
            groups: groups_id,
            products: products_id,
            ios: ios_id,
            ios_tests: ios_tests_id,
            macos: macos_id,
            macos_tests: macos_tests_id,
            frameworks: frameworks_id,
        };
        (file_ref_ids, PlistSectionItem::create(
            kind,
            Items::new()
                .with(groups_item)
                .with(products_item)
                .with(ios_item)
                .with(ios_tests_item)
                .with(macos_item)
                .with(macos_tests_item)
                .with(frameworks_item)
                .done(),
        ))
    }
}

} // verus!
