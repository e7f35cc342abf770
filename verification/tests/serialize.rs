use xcodebind_gen::{
    InternalXcodePlistSerializer, PlistItem, PlistKey, PlistKeyValueItem, PlistSectionItem,
    PlistTupleItem, PlistTupleValue, PlistValue, StringSerializer, XcodePlistSerializer,
};

fn at(item: &PlistItem, tabs: i32) -> String {
    let mut n = tabs;
    let text = item.serialize(&mut n);
    assert_eq!(n, tabs);
    text
}

#[test]
fn value_item_is_one_indented_line() {
    let item = PlistKeyValueItem::create_value_type("objectVersion", None, "1", None);
    assert_eq!(at(&item, 2), "\t\tobjectVersion = 1;\n");
    assert_eq!(at(&item, 0), "objectVersion = 1;\n");
}

#[test]
fn negative_indentation_writes_no_tabs() {
    let item = PlistKeyValueItem::create_value_type("a", None, "b", None);
    assert_eq!(at(&item, -3), "a = b;\n");
    assert_eq!(String::get_tabs(-1), "");
    assert_eq!(String::get_tabs(0), "");
    assert_eq!(String::get_tabs(3), "\t\t\t");
    assert_eq!(<Option<String> as StringSerializer>::get_tabs(2), "\t\t");
}

#[test]
fn comments_stand_before_the_punctuation() {
    let item = PlistKeyValueItem::create_value_type(
        "rootObject",
        Some("the root"),
        "CA60AAAA",
        Some("Project object"),
    );
    assert_eq!(
        at(&item, 1),
        "\trootObject /* the root */ = CA60AAAA /* Project object */;\n"
    );
    let value = PlistValue::create("v", Some("c".to_string()));
    assert_eq!(at(&value, 5), "v /* c */;\n");
    let tuple_value = PlistTupleValue::create("v", Some("c".to_string()));
    assert_eq!(at(&tuple_value, 5), "v /* c */,");
    let bare = PlistTupleValue::create("v", None);
    assert_eq!(at(&bare, 5), "v,");
}

#[test]
fn as_comment_wraps_the_text() {
    assert_eq!("Project object".to_string().as_comment(), "/* Project object */");
    assert_eq!(Some("x".to_string()).as_comment(), "/* x */");
    assert_eq!(Some(String::new()).as_comment(), "/*  */");
    let none: Option<String> = None;
    assert_eq!(none.as_comment(), "");
}

#[test]
fn key_is_written_with_its_comment() {
    let key = PlistKey { name: "isa".to_string(), comment: None };
    let mut n = 4;
    assert_eq!(key.serialize(&mut n), "isa");
    assert_eq!(key.to_text(), "isa ");
    let key = PlistKey { name: "ID".to_string(), comment: Some("a.h".to_string()) };
    assert_eq!(key.serialize(&mut n), "ID /* a.h */");
    assert_eq!(key.to_text(), "ID /* a.h */");
    assert_eq!(n, 4);
}

#[test]
fn empty_array_has_no_line_inside() {
    let array = PlistItem::Array(vec![]);
    assert_eq!(at(&array, 0), "{};\n");
    assert_eq!(at(&array, 3), "{};\n");
    let item = PlistKeyValueItem::create_array_type("classes", None, vec![]);
    assert_eq!(at(&item, 2), "\t\tclasses = {};\n");
}

#[test]
fn array_children_stand_one_level_deeper() {
    let item = PlistKeyValueItem::create_array_type(
        "ID",
        Some("a.framework"),
        vec![
            PlistKeyValueItem::create_value_type("isa", None, "PBXFileReference", None),
            PlistKeyValueItem::create_array_type(
                "inner",
                None,
                vec![PlistKeyValueItem::create_value_type("x", None, "y", None)],
            ),
        ],
    );
    assert_eq!(
        at(&item, 2),
        "\t\tID /* a.framework */ = {\n\t\t\tisa = PBXFileReference;\n\t\t\tinner = {\n\t\t\t\tx = y;\n\t\t\t};\n\t\t};\n"
    );
}

#[test]
fn tuple_with_one_entry_is_inline() {
    let tuple = PlistTupleItem::create("files", vec![("A", Some("x".to_string()))]);
    assert_eq!(at(&tuple, 2), "\t\tfiles = ( A /* x */, );\n");
}

#[test]
fn tuple_with_no_entry() {
    let tuple = PlistTupleItem::create("files", vec![]);
    assert_eq!(at(&tuple, 2), "\t\tfiles = ( );\n");
}

#[test]
fn tuple_with_two_entries_has_a_line_for_each() {
    let tuple = PlistTupleItem::create("files", vec![("A", None), ("B", Some("c".to_string()))]);
    assert_eq!(
        at(&tuple, 2),
        "\t\tfiles = (\n \t\t\tA,\n \t\t\tB /* c */,\n\t\t );\n"
    );
}

#[test]
fn section_is_wrapped_in_its_banners() {
    let section = PlistSectionItem::create(
        "PBXBuildFile",
        vec![PlistKeyValueItem::create_value_type("a", None, "b", None)],
    );
    assert_eq!(
        at(&section, 2),
        "\n/* Begin PBXBuildFile section */\n\t\ta = b;\n/* End PBXBuildFile section */\n"
    );
    let empty = PlistSectionItem { name: "X".to_string(), items: vec![] };
    let mut n = 0;
    assert_eq!(empty.serialize(&mut n), "\n/* Begin X section */\n/* End X section */\n");
}

#[test]
fn document_has_header_and_footer() {
    let items = vec![
        PlistKeyValueItem::create_value_type("archiveVersion", None, "1", None),
        PlistKeyValueItem::create_array_type("classes", None, vec![]),
    ];
    assert_eq!(
        items.serialize(),
        "// !$*UTF8*$!\n{\n\t\tarchiveVersion = 1;\n\t\tclasses = {};\n\n}\n"
    );
    let none: Vec<PlistItem> = vec![];
    assert_eq!(none.serialize(), "// !$*UTF8*$!\n{\n\n}\n");
}

#[test]
fn value_pairs_become_items_in_order() {
    let items = PlistKeyValueItem::create_value_type_by_array(vec![("a", "1"), ("b", "2")]);
    assert_eq!(
        items,
        vec![
            PlistKeyValueItem::create_value_type("a", None, "1", None),
            PlistKeyValueItem::create_value_type("b", None, "2", None),
        ]
    );
    assert_eq!(
        items[1],
        PlistItem::Item(PlistKeyValueItem {
            key: Box::new(PlistKey { name: "b".to_string(), comment: None }),
            value: Box::new(PlistItem::Value(PlistValue { value: "2".to_string(), comment: None })),
        })
    );
}

#[test]
fn tuple_create_keeps_order_and_comments() {
    let tuple = PlistTupleItem::create("t", vec![("x", None), ("y", Some("c".to_string()))]);
    assert_eq!(
        tuple,
        PlistItem::TupleItem(PlistTupleItem {
            name: "t".to_string(),
            items: vec![
                PlistItem::TupleValue(PlistTupleValue { value: "x".to_string(), comment: None }),
                PlistItem::TupleValue(PlistTupleValue {
                    value: "y".to_string(),
                    comment: Some("c".to_string()),
                }),
            ],
        })
    );
}
