use xcodebind_gen::names::{cat, cat3, cat5, ends_with, object_id, NameTable};
use xcodebind_gen::objects::{Entries, Items};
use xcodebind_gen::{
    CargoPackage, CommandLineParser, PlistItem, PlistKeyValueItem, XcodePbxProject,
    XcodePlistSerializer, XcodeProject,
};

fn sample_package(files: Vec<(&str, &str)>) -> CargoPackage {
    CargoPackage {
        package_name: "todo-list".to_string(),
        target_name: "todolist".to_string(),
        xcode_framework_name: "Todo".to_string(),
        base_bundle_identifier: "org.example".to_string(),
        cargo_relative_path_to_xcode_project: "../..".to_string(),
        udl_relative_files_path: files
            .into_iter()
            .map(|(path, name)| (path.to_string(), name.to_string()))
            .collect(),
    }
}

fn key_of(item: &PlistItem) -> &str {
    match item {
        PlistItem::Item(item) => item.key.name.as_str(),
        other => panic!("{:?}", other),
    }
}

fn children_of(item: &PlistItem) -> &Vec<PlistItem> {
    match item {
        PlistItem::Item(item) => match item.value.as_ref() {
            PlistItem::Array(items) => items,
            other => panic!("{:?}", other),
        },
        PlistItem::SectionItem(section) => &section.items,
        other => panic!("{:?}", other),
    }
}

fn section_name(item: &PlistItem) -> &str {
    match item {
        PlistItem::SectionItem(section) => section.name.as_str(),
        other => panic!("{:?}", other),
    }
}

#[test]
fn pieces_of_names() {
    assert_eq!(cat("Todo", "_ios.h"), "Todo_ios.h");
    assert_eq!(cat("", ""), "");
    assert_eq!(cat3("\"", "Todo", "_ios\""), "\"Todo_ios\"");
    assert_eq!(cat3("", "", ""), "");
    assert_eq!(cat5("a", "b", "", "c", "d"), "abcd");
    assert!(ends_with("todo.udl_ios", "ios"));
    assert!(!ends_with("todo.udl_macos", "ios"));
    assert!(ends_with("todo.udl_macos", "macos"));
    assert!(!ends_with("os", "macos"));
    assert!(ends_with("x", ""));
    assert_eq!(
        object_id(7, "PBXGroup", "Todo", "_ios"),
        XcodeProject::make_id_inst(7, "PBXGroup", "Todo_ios")
    );
}

#[test]
fn name_table_keeps_one_value_for_a_name() {
    let mut table: NameTable<u32> = NameTable::new();
    assert_eq!(table.len(), 0);
    assert_eq!(table.get("a"), None);
    table.insert("a".to_string(), 1);
    table.insert("b".to_string(), 2);
    table.insert("a".to_string(), 3);
    assert_eq!(table.len(), 2);
    assert_eq!(table.get("a"), Some(&3));
    assert_eq!(table.get("b"), Some(&2));
    assert_eq!(table.get("c"), None);
    assert_eq!(table.find("b"), Some(1));
    assert_eq!(table.names, vec!["a".to_string(), "b".to_string()]);
    assert_eq!(table.values, vec![3, 2]);
}

#[test]
fn file_references_are_keyed_by_their_identifiers() {
    let files = vec![
        ("../../src/todo.udl".to_string(), "todo.udl".to_string()),
        ("../../src/more.udl".to_string(), "more.udl".to_string()),
    ];
    let (ids, section) = PlistKeyValueItem::create_pbx_file_reference_section("Todo", &files, 9);
    assert_eq!(section_name(&section), "PBXFileReference");
    let objects = children_of(&section);
    assert_eq!(objects.len(), 12);
    assert_eq!(ids.ios_framework, XcodeProject::make_id_inst(9, "PBXFileReference", "Todo_ios.framework"));
    assert_eq!(ids.macos_tests_swift, XcodeProject::make_id_inst(9, "PBXFileReference", "Todo_macosTests.swift"));
    assert_eq!(key_of(&objects[0]), ids.ios_framework);
    assert_eq!(key_of(&objects[1]), ids.ios_h);
    assert_eq!(key_of(&objects[9]), ids.macos_tests_swift);
    assert_eq!(key_of(&objects[10]), XcodeProject::make_id_inst(9, "PBXFileReference", "todo.udl"));
    assert_eq!(key_of(&objects[11]), XcodeProject::make_id_inst(9, "PBXFileReference", "more.udl"));
    assert_eq!(ids.udl_files.get("more.udl"), Some(&XcodeProject::make_id_inst(9, "PBXFileReference", "more.udl")));
    for object in objects {
        assert_eq!(
            children_of(object)[0],
            PlistKeyValueItem::create_value_type("isa", None, "PBXFileReference", None)
        );
    }
    assert_eq!(
        children_of(&objects[10])[3],
        PlistKeyValueItem::create_value_type("path", None, "../../src/todo.udl", None)
    );
}

#[test]
fn build_files_refer_to_the_references() {
    let files = vec![("src/todo.udl".to_string(), "todo.udl".to_string())];
    let (references, _) = PlistKeyValueItem::create_pbx_file_reference_section("Todo", &files, 9);
    let (ids, section) =
        PlistKeyValueItem::create_pbx_build_file_section(&references, "Todo", &files, 9);
    let objects = children_of(&section);
    assert_eq!(objects.len(), 10);
    assert_eq!(key_of(&objects[0]), ids.ios_framework);
    assert_eq!(
        children_of(&objects[0])[1],
        PlistKeyValueItem::create_value_type(
            "fileRef",
            None,
            &references.ios_framework,
            Some("Todo_ios.framework"),
        )
    );
    assert_eq!(key_of(&objects[8]), XcodeProject::make_id_inst(9, "PBXBuildFile", "todo.udl_ios"));
    assert_eq!(key_of(&objects[9]), XcodeProject::make_id_inst(9, "PBXBuildFile", "todo.udl_macos"));
    assert_eq!(
        children_of(&objects[9])[1],
        PlistKeyValueItem::create_value_type(
            "fileRef",
            None,
            &XcodeProject::make_id_inst(9, "PBXFileReference", "todo.udl"),
            None,
        )
    );
    assert_eq!(
        ids.udl_files.get("todo.udl_macos"),
        Some(&(XcodeProject::make_id_inst(9, "PBXBuildFile", "todo.udl_macos"), "todo.udl".to_string()))
    );
    let (_, sources) = PlistKeyValueItem::create_pbx_sources_build_section(&ids, "Todo", 9);
    let files_of_ios = &children_of(&children_of(&sources)[0])[2];
    match files_of_ios {
        PlistItem::TupleItem(tuple) => {
            assert_eq!(tuple.name, "files");
            assert_eq!(tuple.items.len(), 2);
        }
        other => panic!("{:?}", other),
    }
}

#[test]
fn document_of_a_project() {
    let project = XcodeProject::new(sample_package(vec![("../../src/todo.udl", "todo.udl")]));
    let items = project.generate_pbx_project();
    assert_eq!(items.len(), 5);
    assert_eq!(items[0], PlistKeyValueItem::create_value_type("archiveVersion", None, "1", None));
    assert_eq!(items[1], PlistKeyValueItem::create_array_type("classes", None, vec![]));
    assert_eq!(items[2], PlistKeyValueItem::create_value_type("objectVersion", None, "55", None));
    let root = project.make_id("rootObject", "Todo");
    assert_eq!(
        items[4],
        PlistKeyValueItem::create_value_type("rootObject", None, &root, Some("Project object"))
    );
    assert_eq!(key_of(&items[3]), "objects");
    let kinds: Vec<&str> = children_of(&items[3]).iter().map(section_name).collect();
    assert_eq!(
        kinds,
        vec![
            "PBXBuildFile",
            "PBXBuildRule",
            "PBXContainerItemProxy",
            "PBXFileReference",
            "PBXFrameworksBuildPhase",
            "PBXGroup",
            "PBXHeadersBuildPhase",
            "PBXNativeTarget",
            "PBXProject",
            "PBXResourcesBuildPhase",
            "PBXShellScriptBuildPhase",
            "PBXSourcesBuildPhase",
            "PBXTargetDependency",
            "XCBuildConfiguration",
            "XCConfigurationList",
        ]
    );
    let project_section = &children_of(&items[3])[8];
    assert_eq!(children_of(project_section).len(), 1);
    assert_eq!(key_of(&children_of(project_section)[0]), root);
    for section in children_of(&items[3]) {
        for object in children_of(section) {
            assert_eq!(
                children_of(object)[0],
                PlistKeyValueItem::create_value_type("isa", None, section_name(section), None)
            );
            assert_eq!(key_of(object).len(), 24);
        }
    }
}

#[test]
fn document_of_a_project_is_read_back() {
    let project = XcodeProject::new(sample_package(vec![("../../src/todo.udl", "todo.udl")]));
    let items = project.generate_pbx_project();
    let text = items.serialize();
    let read = match XcodePbxProject::parse_from_string(&text) {
        Ok(project) => project.into_items(),
        Err(e) => panic!("{:?}", e),
    };
    assert_eq!(read.serialize(), text);
    assert_eq!(read, items);
}

#[test]
fn answers() {
    assert_eq!(CommandLineParser::interpret("\n"), Some(false));
    assert_eq!(CommandLineParser::interpret(""), Some(false));
    assert_eq!(CommandLineParser::interpret("  Yes\n"), Some(true));
    assert_eq!(CommandLineParser::interpret("y"), Some(true));
    assert_eq!(CommandLineParser::interpret("YEAH"), Some(true));
    assert_eq!(CommandLineParser::interpret("No\r\n"), Some(false));
    assert_eq!(CommandLineParser::interpret("never"), Some(false));
    assert_eq!(CommandLineParser::interpret("maybe"), None);
    assert_eq!(CommandLineParser::interpret(" 1"), None);
    assert_eq!(CommandLineParser::decide(""), Some(false));
    assert_eq!(CommandLineParser::decide("yes"), Some(true));
    assert_eq!(CommandLineParser::decide("Yes"), None);
    assert_eq!(CommandLineParser::decide("no"), Some(false));
    assert_eq!(CommandLineParser::decide(" y"), None);
}

fn names(list: &[&str]) -> Vec<String> {
    list.iter().map(|n| n.to_string()).collect()
}

#[test]
fn existing_project_in_a_directory() {
    assert_eq!(XcodeProject::find_existing(&names(&[]), "Todo"), Ok(false));
    assert_eq!(
        XcodeProject::find_existing(&names(&["Todo_ios", "notes.txt", "Todo.xcodeproj"]), "Todo"),
        Ok(true)
    );
    assert_eq!(
        XcodeProject::find_existing(&names(&["Todo.xcodeproj.bak", ".xcodeproj", "xcodeproj"]), "Todo"),
        Ok(false)
    );
    assert_eq!(
        XcodeProject::find_existing(&names(&["Todo.xcodeproj", "Other.xcodeproj", "Third.xcodeproj"]), "Todo"),
        Err("Other.xcodeproj".to_string())
    );
    assert_eq!(
        XcodeProject::find_existing(&names(&["todo.xcodeproj"]), "Todo"),
        Err("todo.xcodeproj".to_string())
    );
    assert_eq!(XcodeProject::find_existing(&names(&[".xcodeproj"]), ""), Ok(false));
}

#[test]
fn references_agree_with_what_they_name() {
    let (dependencies, _) = PlistKeyValueItem::create_pbx_target_dependency_section("Todo", 5);
    let (proxies, proxy_section) = PlistKeyValueItem::create_pbx_container_item_proxy_section(
        "CA60ROOT",
        &dependencies,
        "Todo",
        5,
    );
    assert_eq!(dependencies.ios_container_item_proxy_id, proxies.ios);
    assert_eq!(dependencies.macos_container_item_proxy_id, proxies.macos);
    assert_eq!(key_of(&children_of(&proxy_section)[0]), proxies.ios);
    assert_eq!(
        dependencies.ios_native_target_id,
        XcodeProject::make_id_inst(5, "PBXNativeTarget", "Todo_ios")
    );
    assert_eq!(
        dependencies.macos_id,
        XcodeProject::make_id_inst(5, "PBXTargetDependency", "Todo_macos")
    );
}

#[test]
fn sections_without_interface_files() {
    let project = XcodeProject::new(sample_package(vec![]));
    let items = project.generate_pbx_project();
    let sections = children_of(&items[3]);
    let counts: Vec<usize> = sections.iter().map(|s| children_of(s).len()).collect();
    assert_eq!(counts, vec![8, 2, 2, 10, 4, 7, 2, 4, 1, 4, 2, 4, 2, 10, 5]);
    let text = items.serialize();
    assert!(text.starts_with("// !$*UTF8*$!\n{\n\t\tarchiveVersion = 1;\n\t\tclasses = {};\n\t\tobjectVersion = 55;\n\t\tobjects = {\n\n/* Begin PBXBuildFile section */\n"));
    assert!(text.contains("/* End XCConfigurationList section */\n\t\t};\n\t\trootObject = "));
    assert!(text.ends_with(" /* Project object */;\n\n}\n"));
}

#[test]
fn interface_files_of_the_same_name() {
    let files = vec![
        ("a/todo.udl".to_string(), "todo.udl".to_string()),
        ("b/todo.udl".to_string(), "todo.udl".to_string()),
    ];
    let (references, section) = PlistKeyValueItem::create_pbx_file_reference_section("Todo", &files, 1);
    assert_eq!(children_of(&section).len(), 12);
    assert_eq!(references.udl_files.len(), 1);
    let (groups, group_section) = PlistKeyValueItem::create_pbx_group_section(&references, "Todo", 1);
    assert_eq!(key_of(&children_of(&group_section)[0]), groups.groups);
    match &children_of(&children_of(&group_section)[0])[1] {
        PlistItem::TupleItem(children) => assert_eq!(children.items.len(), 7),
        other => panic!("{:?}", other),
    }
}

#[test]
fn lists_made_item_by_item() {
    let none = Items::new().done();
    assert!(none.is_empty());
    let items = Items::new()
        .with(PlistKeyValueItem::create_value_type("a", None, "1", None))
        .with(PlistKeyValueItem::create_value_type("b", None, "2", None))
        .done();
    assert_eq!(items, PlistKeyValueItem::create_value_type_by_array(vec![("a", "1"), ("b", "2")]));
    let tuple = Entries::new().with("x", None).with("y", Some("c".to_string())).tuple("t");
    assert_eq!(
        tuple,
        xcodebind_gen::PlistTupleItem::create("t", vec![("x", None), ("y", Some("c".to_string()))])
    );
    assert_eq!(Entries::new().tuple("e"), xcodebind_gen::PlistTupleItem::create("e", vec![]));
}

#[test]
fn settings_of_the_whole_project() {
    let (_, section) = PlistKeyValueItem::create_pbx_xc_build_configuration_section(
        "org.example",
        "../..",
        "todolist",
        "Todo",
        3,
    );
    let configurations = children_of(&section);
    assert_eq!(configurations.len(), 10);
    for (i, configuration) in configurations.iter().enumerate() {
        let name = if i % 2 == 0 { "Debug" } else { "Release" };
        let lines = children_of(configuration);
        assert_eq!(lines.len(), 3);
        assert_eq!(key_of(&lines[1]), "buildSettings");
        assert_eq!(lines[2], PlistKeyValueItem::create_value_type("name", None, name, None));
        match configuration {
            PlistItem::Item(item) => assert_eq!(item.key.comment.as_deref(), Some(name)),
            other => panic!("{:?}", other),
        }
    }
    let paths = |configuration: &PlistItem| -> Vec<String> {
        children_of(&children_of(configuration)[1])
            .iter()
            .filter_map(|line| match line {
                PlistItem::Item(item) if item.key.name.contains("LIBRARY_SEARCH_PATHS") => {
                    match item.value.as_ref() {
                        PlistItem::Value(value) => Some(value.value.clone()),
                        _ => None,
                    }
                }
                _ => None,
            })
            .collect()
    };
    assert_eq!(
        paths(&configurations[0]),
        vec![
            "\"$(SRCROOT)/../../target/universal/debug/ios\"",
            "\"$(SRCROOT)/../../target/universal/debug/ios_sim\"",
            "\"$(SRCROOT)/../../target/universal/debug/osx\"",
        ]
    );
    assert_eq!(
        paths(&configurations[1]),
        vec![
            "\"$(SRCROOT)/../../target/universal/release/ios\"",
            "\"$(SRCROOT)/../../target/universal/release/ios_sim\"",
            "\"$(SRCROOT)/../../target/universal/release/osx\"",
        ]
    );
}

#[test]
fn targets_name_their_own_lists() {
    let project = XcodeProject::new(sample_package(vec![]));
    let items = project.generate_pbx_project();
    let sections = children_of(&items[3]);
    let targets = children_of(&sections[7]);
    let names = ["Todo_ios", "Todo_iosTests", "Todo_macos", "Todo_macosTests"];
    let lists = ["Todo_ios-config", "Todo_iosTests-config", "Todo_macos-config", "Todo_macosTests-config"];
    for j in 0..4 {
        match &targets[j] {
            PlistItem::Item(item) => assert_eq!(item.key.comment.as_deref(), Some(names[j])),
            other => panic!("{:?}", other),
        }
        match &children_of(&targets[j])[1] {
            PlistItem::Item(line) => {
                assert_eq!(line.key.name, "buildConfigurationList");
                match line.value.as_ref() {
                    PlistItem::Value(value) => assert_eq!(
                        value.value,
                        XcodeProject::make_id_inst(project.id_base(), "XCConfigurationList", lists[j])
                    ),
                    other => panic!("{:?}", other),
                }
            }
            other => panic!("{:?}", other),
        }
    }
}

#[test]
fn references_of_interface_files() {
    let files = vec![("../src/a.udl".to_string(), "a.udl".to_string())];
    let (ids, section) = PlistKeyValueItem::create_pbx_file_reference_section("Todo", &files, 4);
    let id = XcodeProject::make_id_inst(4, "PBXFileReference", "a.udl");
    assert_eq!(
        children_of(&section)[10],
        PlistKeyValueItem::create_array_type(
            &id,
            Some("a.udl"),
            PlistKeyValueItem::create_value_type_by_array(vec![
                ("isa", "PBXFileReference"),
                ("lastKnownFileType", "text"),
                ("name", "a.udl"),
                ("path", "../src/a.udl"),
                ("sourceTree", "\"<group>\""),
            ]),
        )
    );
    assert_eq!(ids.udl_files.names, vec!["a.udl".to_string()]);
    assert_eq!(ids.udl_files.values, vec![id]);
    assert_eq!(
        children_of(&section)[1],
        PlistKeyValueItem::create_array_type(
            &ids.ios_h,
            Some("Todo_ios.h"),
            PlistKeyValueItem::create_value_type_by_array(vec![
                ("isa", "PBXFileReference"),
                ("lastKnownFileType", "sourcecode.c.h"),
                ("path", "Todo_ios.h"),
                ("sourceTree", "\"<group>\""),
            ]),
        )
    );
}
