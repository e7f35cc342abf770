use xcodebind_gen::canonical::{
    atom, comment, comment_text, member, members, plain_word, quoted, scalar,
};
use xcodebind_gen::round_trip::reads_back;
use xcodebind_gen::{
    CargoPackage, PlistItem, PlistKeyValueItem, PlistSectionItem, PlistTupleItem, PlistValue,
    XcodePbxProject, XcodePlistSerializer, XcodeProject,
};

fn chars(text: &str) -> Vec<char> {
    text.chars().collect()
}

#[test]
fn plain_words_and_quoted_texts() {
    for good in ["a", "PBXBuildFile", "a/b.c", "/usr/lib", "a//b", "x*", "*/", "$SRCROOT", "13.2.1", "\\"] {
        assert!(plain_word(&chars(good)), "{:?}", good);
        assert!(atom(good), "{:?}", good);
    }
    for bad in ["", "a b", "a;b", "a=b", "a\tb", "a{", "(x)", "a,b", "a\"b", "a/*b", "a//*b", "/*", "\"q\""] {
        assert!(!plain_word(&chars(bad)), "{:?}", bad);
    }
    for good in ["\"\"", "\"a b; c\"", "\"<group>\"", "\"say \\\"hi\\\"\"", "\"/* x */\"", "\"a\nb\""] {
        assert!(quoted(&chars(good)), "{:?}", good);
        assert!(atom(good), "{:?}", good);
    }
    for bad in ["", "\"", "a", "\"a", "a\"", "\"a\"b\"", "\"a\\\"", "\"\"\"", " \"a\""] {
        assert!(!quoted(&chars(bad)), "{:?}", bad);
    }
    assert!(atom(""));
    assert!(!atom("a b"));
}

#[test]
fn comments_that_come_back() {
    for good in ["", "x", "a.h in Headers", "a; b = {c}", "* /", "a*", "/*", "Build \"x\""] {
        assert!(comment_text(good), "{:?}", good);
        assert!(comment(&Some(good.to_string())), "{:?}", good);
    }
    for bad in [" x", "x ", "\tx", "x\n", "a */ b", "*/", "\u{A0}x"] {
        assert!(!comment_text(bad), "{:?}", bad);
        assert!(!comment(&Some(bad.to_string())), "{:?}", bad);
    }
    assert!(comment(&None));
}

#[test]
fn members_and_their_tokens() {
    let value = PlistKeyValueItem::create_value_type("a", Some("c"), "b", None);
    assert_eq!(member(&value, 10), Some(8));
    assert_eq!(member(&value, 2), Some(0));
    assert_eq!(member(&value, 1), None);
    let array = PlistKeyValueItem::create_array_type(
        "k",
        None,
        vec![
            PlistKeyValueItem::create_value_type("a", None, "b", None),
            PlistTupleItem::create("t", vec![("x", None), ("y", Some("c".to_string()))]),
            PlistSectionItem::create("S", vec![PlistKeyValueItem::create_array_type("e", None, vec![])]),
        ],
    );
    // 3 for the array, 2 for the value, 5 for the tuple, 2 for the section, 3 for the empty array
    assert_eq!(member(&array, 100), Some(85));
    assert_eq!(member(&array, 15), Some(0));
    assert_eq!(member(&array, 14), None);
    assert_eq!(members(&vec![], 0), Some(0));
    for bad in [
        PlistKeyValueItem::create_value_type("a b", None, "c", None),
        PlistKeyValueItem::create_value_type("a", None, "b c", None),
        PlistKeyValueItem::create_value_type("a", Some("x */ y"), "b", None),
        PlistKeyValueItem::create_value_type("a", None, "b", Some(" c")),
        PlistKeyValueItem::create_value_type("", Some("Begin x"), "b", None),
        PlistKeyValueItem::create_value_type("a", None, "", Some("End")),
        PlistTupleItem::create("t", vec![("", Some("Endless".to_string()))]),
        PlistTupleItem::create("t", vec![("x y", None)]),
        PlistSectionItem::create("S ", vec![]),
        PlistItem::Array(vec![]),
        PlistValue::create("v", None),
        PlistItem::Item(PlistKeyValueItem {
            key: Box::new(xcodebind_gen::PlistKey { name: "k".to_string(), comment: None }),
            value: Box::new(PlistTupleItem::create("t", vec![])),
        }),
        PlistItem::TupleItem(PlistTupleItem {
            name: "t".to_string(),
            items: vec![PlistKeyValueItem::create_value_type("a", None, "b", None)],
        }),
    ] {
        assert_eq!(member(&bad, 100), None, "{:?}", bad);
        assert!(!reads_back(&vec![bad]));
    }
}

#[test]
fn texts_with_their_comments() {
    assert!(scalar("a", &None));
    assert!(scalar("", &None));
    assert!(scalar("a", &Some("Begin x".to_string())));
    assert!(scalar("", &Some("x".to_string())));
    assert!(scalar("", &Some("Beg".to_string())));
    assert!(scalar("", &Some("begin".to_string())));
    assert!(!scalar("", &Some("Begin".to_string())));
    assert!(!scalar("", &Some("End of it".to_string())));
    assert!(!scalar("a b", &None));
    assert!(!scalar("a", &Some(" x".to_string())));
}

#[test]
fn empty_texts_read_back() {
    let items = vec![
        PlistKeyValueItem::create_value_type("k", None, "", None),
        PlistKeyValueItem::create_value_type("", None, "v", None),
        PlistKeyValueItem::create_value_type("", Some("c"), "", Some("d")),
        PlistKeyValueItem::create_value_type("", Some(""), "", Some("")),
        PlistKeyValueItem::create_array_type("", None, vec![]),
        PlistTupleItem::create("", vec![("", None), ("", Some("e".to_string())), ("x", None)]),
        PlistTupleItem::create("t", vec![("", None)]),
    ];
    assert!(reads_back(&items));
    let text = items.serialize();
    assert!(text.contains("\t\tk = ;\n"));
    match XcodePbxProject::parse_from_string(&text) {
        Ok(project) => assert_eq!(project.into_items(), items),
        Err(e) => panic!("{:?}", e),
    }
}

#[test]
fn comment_like_a_banner_is_read_as_a_banner() {
    let items = vec![PlistKeyValueItem::create_value_type("", Some("End x"), "v", None)];
    assert!(!reads_back(&items));
    assert!(XcodePbxProject::parse_from_string(&items.serialize()).is_err());
}

#[test]
fn tree_that_reads_back() {
    let items = vec![
        PlistKeyValueItem::create_value_type("archiveVersion", None, "1", None),
        PlistKeyValueItem::create_array_type(
            "objects",
            None,
            vec![PlistSectionItem::create(
                "PBXGroup",
                vec![PlistKeyValueItem::create_array_type(
                    "CA60",
                    Some("main"),
                    vec![PlistTupleItem::create("children", vec![("CA61", Some("a.h".to_string()))])],
                )],
            )],
        ),
    ];
    assert!(reads_back(&items));
}

#[test]
fn tree_of_too_many_tokens() {
    let mut items = vec![];
    for _ in 0..2499 {
        items.push(PlistKeyValueItem::create_value_type("a", None, "1", None));
    }
    assert!(reads_back(&items));
    items.push(PlistKeyValueItem::create_value_type("a", None, "1", None));
    assert!(!reads_back(&items));
}

#[test]
fn document_of_a_project_reads_back() {
    let project = XcodeProject::new(CargoPackage {
        package_name: "todo-list".to_string(),
        target_name: "todolist".to_string(),
        xcode_framework_name: "Todo".to_string(),
        base_bundle_identifier: "org.example".to_string(),
        cargo_relative_path_to_xcode_project: "../..".to_string(),
        udl_relative_files_path: vec![("../../src/todo.udl".to_string(), "todo.udl".to_string())],
    });
    assert!(reads_back(&project.generate_pbx_project()));
}
