use xcodebind_gen::{
    ParseError, PlistItem, PlistKey, PlistKeyValueItem, PlistSectionItem, PlistTupleItem,
    PlistTupleValue, PlistValue, XcodePbxProject, XcodePlistSerializer,
};

fn parse(text: &str) -> Vec<PlistItem> {
    match XcodePbxProject::parse_from_string(text) {
        Ok(project) => project.into_items(),
        Err(e) => panic!("{:?}", e),
    }
}

fn error(text: &str) -> ParseError {
    match XcodePbxProject::parse_from_string(text) {
        Ok(project) => panic!("{:?}", project.items()),
        Err(e) => e,
    }
}

#[test]
fn one_value_item() {
    let items = parse("// !$*UTF8*$!\n{\n\tobjectVersion = 1;\n}\n");
    assert_eq!(items.len(), 1);
    assert_eq!(
        items[0],
        PlistItem::Item(PlistKeyValueItem {
            key: Box::new(PlistKey { name: "objectVersion".to_string(), comment: None }),
            value: Box::new(PlistItem::Value(PlistValue { value: "1".to_string(), comment: None })),
        })
    );
    let again = parse(&items.serialize());
    assert_eq!(again, items);
}

#[test]
fn children_keep_the_order_of_the_text() {
    let items = parse("// !$*UTF8*$!\n{\n\ta = 1;\n\tb = {\n\t\tc = 2;\n\t\td = 3;\n\t};\n\te = 4;\n}\n");
    assert_eq!(
        items,
        vec![
            PlistKeyValueItem::create_value_type("a", None, "1", None),
            PlistKeyValueItem::create_array_type(
                "b",
                None,
                vec![
                    PlistKeyValueItem::create_value_type("c", None, "2", None),
                    PlistKeyValueItem::create_value_type("d", None, "3", None),
                ],
            ),
            PlistKeyValueItem::create_value_type("e", None, "4", None),
        ]
    );
}

#[test]
fn comments_are_kept() {
    let items = parse(
        "// !$*UTF8*$!\n{\n\trootObject /* the root */ = CA60 /* Project object */;\n}\n",
    );
    assert_eq!(
        items,
        vec![PlistKeyValueItem::create_value_type(
            "rootObject",
            Some("the root"),
            "CA60",
            Some("Project object"),
        )]
    );
    assert_eq!(
        items.serialize(),
        "// !$*UTF8*$!\n{\n\t\trootObject /* the root */ = CA60 /* Project object */;\n\n}\n"
    );
}

#[test]
fn comment_without_space_before_it() {
    let items = parse("// !$*UTF8*$!\n{\n\ta = b/* c */;\n}\n");
    assert_eq!(items, vec![PlistKeyValueItem::create_value_type("a", None, "b", Some("c"))]);
}

#[test]
fn quoted_text_hides_delimiters() {
    let items = parse("// !$*UTF8*$!\n{\n\tname = \"a; b = {c}\";\n\t\"k 1\" = \"say \\\"hi\\\";\";\n}\n");
    assert_eq!(
        items,
        vec![
            PlistKeyValueItem::create_value_type("name", None, "\"a; b = {c}\"", None),
            PlistKeyValueItem::create_value_type("\"k 1\"", None, "\"say \\\"hi\\\";\"", None),
        ]
    );
}

#[test]
fn comment_hides_delimiters() {
    let items = parse("// !$*UTF8*$!\n{\n\ta = b /* x; y = {z} */;\n}\n");
    assert_eq!(
        items,
        vec![PlistKeyValueItem::create_value_type("a", None, "b", Some("x; y = {z}"))]
    );
}

#[test]
fn tuple_is_named_by_its_key() {
    let items = parse("// !$*UTF8*$!\n{\n\tfiles = (\n\t\tA /* a.h */,\n\t\tB,\n\t);\n}\n");
    assert_eq!(
        items,
        vec![PlistTupleItem::create("files", vec![("A", Some("a.h".to_string())), ("B", None)])]
    );
}

#[test]
fn empty_containers() {
    let items = parse("// !$*UTF8*$!\n{\n\tclasses = {};\n\tfiles = ( );\n\tmore = ();\n}\n");
    assert_eq!(
        items,
        vec![
            PlistKeyValueItem::create_array_type("classes", None, vec![]),
            PlistTupleItem::create("files", vec![]),
            PlistTupleItem::create("more", vec![]),
        ]
    );
}

#[test]
fn section_is_named_by_its_banner() {
    let text = "// !$*UTF8*$!\n{\n\tobjects = {\n\n/* Begin PBXBuildFile section */\n\t\tA /* a.h */ = {isa = PBXBuildFile; };\n/* End PBXBuildFile section */\n\t};\n}\n";
    let items = parse(text);
    assert_eq!(
        items,
        vec![PlistKeyValueItem::create_array_type(
            "objects",
            None,
            vec![PlistSectionItem::create(
                "PBXBuildFile",
                vec![PlistKeyValueItem::create_array_type(
                    "A",
                    Some("a.h"),
                    vec![PlistKeyValueItem::create_value_type("isa", None, "PBXBuildFile", None)],
                )],
            )],
        )]
    );
}

#[test]
fn section_closed_by_another_name_is_refused() {
    assert_eq!(
        error("// !$*UTF8*$!\n{\n/* Begin A section */\n/* End B section */\n}\n"),
        ParseError::StructuralUnderflow { offset: 38 }
    );
    assert_eq!(
        error("// !$*UTF8*$!\n{\n/* Begin A section */\n\ta = 1;\n/* End a section */\n}\n"),
        ParseError::StructuralUnderflow { offset: 46 }
    );
}

#[test]
fn key_left_waiting_in_a_section_is_refused() {
    assert_eq!(
        error("// !$*UTF8*$!\n{\n/* Begin A section */ x = /* End A section */\n}\n"),
        ParseError::StructuralUnderflow { offset: 42 }
    );
}

#[test]
fn comment_behind_a_slash_hides_delimiters() {
    let items = parse("// !$*UTF8*$!\n{\n\tx//* a;b */ = 1;\n}\n");
    assert_eq!(items, vec![PlistKeyValueItem::create_value_type("x/", Some("a;b"), "1", None)]);
}

#[test]
fn banner_without_the_word_section() {
    let items = parse("// !$*UTF8*$!\n{\n/* Begin Things */\n\ta = 1;\n/* End Things */\n}\n");
    assert_eq!(
        items,
        vec![PlistSectionItem::create(
            "Things",
            vec![PlistKeyValueItem::create_value_type("a", None, "1", None)],
        )]
    );
}

fn sample() -> Vec<PlistItem> {
    vec![
        PlistKeyValueItem::create_value_type("archiveVersion", None, "1", None),
        PlistKeyValueItem::create_array_type("classes", None, vec![]),
        PlistKeyValueItem::create_array_type(
            "objects",
            None,
            vec![
                PlistSectionItem::create(
                    "PBXBuildFile",
                    vec![PlistKeyValueItem::create_array_type(
                        "CA60AA",
                        Some("a.h in Headers"),
                        vec![
                            PlistKeyValueItem::create_value_type("isa", None, "PBXBuildFile", None),
                            PlistKeyValueItem::create_value_type(
                                "fileRef",
                                None,
                                "CA60BB",
                                Some("a.h"),
                            ),
                            PlistKeyValueItem::create_value_type(
                                "path",
                                None,
                                "\"some dir/a.h\"",
                                None,
                            ),
                        ],
                    )],
                ),
                PlistSectionItem::create(
                    "PBXGroup",
                    vec![PlistKeyValueItem::create_array_type(
                        "CA60CC",
                        None,
                        vec![
                            PlistTupleItem::create(
                                "children",
                                vec![
                                    ("CA60DD", Some("x".to_string())),
                                    ("CA60EE", None),
                                    ("\"q, r\"", Some("y z".to_string())),
                                ],
                            ),
                            PlistTupleItem::create("one", vec![("CA60FF", None)]),
                            PlistTupleItem::create("none", vec![]),
                            PlistKeyValueItem::create_value_type(
                                "sourceTree",
                                None,
                                "\"<group>\"",
                                None,
                            ),
                        ],
                    )],
                ),
            ],
        ),
        PlistKeyValueItem::create_value_type("rootObject", None, "CA6011", Some("Project object")),
    ]
}

#[test]
fn written_tree_is_read_back() {
    let tree = sample();
    let text = tree.serialize();
    assert_eq!(parse(&text), tree);
}

#[test]
fn writing_again_gives_the_same_text() {
    let text = sample().serialize();
    assert_eq!(parse(&text).serialize(), text);
}

#[test]
fn header_is_required() {
    assert_eq!(error(""), ParseError::HeaderInvalid);
    assert_eq!(error("{\n\ta = 1;\n}\n"), ParseError::HeaderInvalid);
    assert_eq!(error("// !$*UTF8*$!\n\ta = 1;\n}\n"), ParseError::HeaderInvalid);
    assert_eq!(error(" // !$*UTF8*$!\n{\n}\n"), ParseError::HeaderInvalid);
}

#[test]
fn header_alone_is_an_empty_document() {
    assert_eq!(parse("// !$*UTF8*$!\n{\n}\n"), vec![]);
    assert_eq!(parse("// !$*UTF8*$!{"), vec![]);
    assert_eq!(parse("// !$*UTF8*$! \r\n\t{ \n"), vec![]);
}

#[test]
fn stray_closing_brace_is_refused() {
    assert_eq!(
        error("// !$*UTF8*$!\n{\n\ta = 1;\n};\n}\n"),
        ParseError::StructuralUnderflow { offset: 24 }
    );
    assert_eq!(error("// !$*UTF8*$!\n{\n);\n}\n"), ParseError::StructuralUnderflow { offset: 16 });
    assert_eq!(
        error("// !$*UTF8*$!\n{\n/* End X section */\n}\n"),
        ParseError::StructuralUnderflow { offset: 16 }
    );
}

#[test]
fn closing_without_a_key_is_refused() {
    assert_eq!(error("// !$*UTF8*$!\n{\n{ };\n}\n"), ParseError::StructuralUnderflow { offset: 18 });
}

#[test]
fn value_without_a_key_is_refused() {
    assert_eq!(error("// !$*UTF8*$!\n{\n\tvalue;\n}\n"), ParseError::StructuralUnderflow { offset: 17 });
}

#[test]
fn unclosed_container_is_refused() {
    assert_eq!(error("// !$*UTF8*$!\n{\n\ta = {\n\t\tb = 1;\n}\n"), ParseError::RunawayIteration);
    assert_eq!(error("// !$*UTF8*$!\n{\n\ta = (\n"), ParseError::RunawayIteration);
    assert_eq!(error("// !$*UTF8*$!\n{\n/* Begin X section */\n"), ParseError::RunawayIteration);
}

#[test]
fn tab_inside_a_token_is_refused() {
    assert_eq!(error("// !$*UTF8*$!\n{\n\tkey\t= 1;\n}\n"), ParseError::UnknownDelimiter { offset: 17 });
    assert_eq!(error("// !$*UTF8*$!\n{\n\tkey = 1\n;\n}\n"), ParseError::UnknownDelimiter { offset: 23 });
}

fn many(count: usize) -> String {
    let mut text = String::from("// !$*UTF8*$!\n{\n");
    for _ in 0..count {
        text.push_str("\ta = 1;\n");
    }
    text.push_str("}\n");
    text
}

#[test]
fn token_ceiling() {
    // Each item is two tokens, and the end of the document is one more.
    assert_eq!(parse(&many(2499)).len(), 2499);
    assert_eq!(error(&many(2500)), ParseError::RunawayIteration);
    assert_eq!(error(&many(4000)), ParseError::RunawayIteration);
}

#[test]
fn text_that_is_not_ascii() {
    let items = parse("// !$*UTF8*$!\n{\n\tnäme = \"日本語; x\" /* çomment */;\n}\n");
    assert_eq!(
        items,
        vec![PlistKeyValueItem::create_value_type("näme", None, "\"日本語; x\"", Some("çomment"))]
    );
    assert_eq!(parse(&items.serialize()), items);
    assert_eq!(
        error("// !$*UTF8*$!\n{\n\tnäme = 日本語;\n};\n}\n"),
        ParseError::StructuralUnderflow { offset: 29 }
    );
}

#[test]
fn tuple_value_helper() {
    assert_eq!(
        PlistTupleValue::create("v", None),
        PlistItem::TupleValue(PlistTupleValue { value: "v".to_string(), comment: None })
    );
}
