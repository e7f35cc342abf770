//! The sections of the build phases: what is done, in which order, when a
//! target is built.

use crate::names::{cat, cat3, ends_in, ends_with, named_id, object_id, NameTable};
use crate::objects::{
    are_objects, array_item, entry, is_section, section, tuple_item, value_item, Entries, Items,
    PBXBuildFileIds, PBXBuildRuleIds, PBXFrameworksBuildPhaseIds, PBXHeadersBuildPhaseIds,
    PBXResourcesBuildPhaseIds, PBXShellScriptBuildPhaseIds, PBXSourcesBuildPhaseIds,
};
use crate::types::{PlistItem, PlistKeyValueItem, PlistNode, PlistSectionItem};
use vstd::prelude::*;

verus! {

impl PBXHeadersBuildPhaseIds {
    /// Each identifier is derived from the kind of its object and from the
    /// object's name, which begins with `name`.
    pub open spec fn fixed(&self, id_base: u64, name: Seq<char>) -> bool {
        &&& self.headers_ios@ == named_id(id_base, "PBXHeadersBuildPhase"@, name, "_ios.headers"@)
        &&& self.headers_macos@ == named_id(
            id_base,
            "PBXHeadersBuildPhase"@,
            name,
            "_macos.headers"@,
        )
    }

    /// The identifiers of the objects of the section, in their order.
    pub open spec fn in_order(&self) -> Seq<Seq<char>> {
        seq![self.headers_ios@, self.headers_macos@]
    }
}

impl PBXSourcesBuildPhaseIds {
    /// Each identifier is derived from the kind of its object and from the
    /// object's name, which begins with `name`.
    pub open spec fn fixed(&self, id_base: u64, name: Seq<char>) -> bool {
        &&& self.ios_docc@ == named_id(id_base, "PBXSourcesBuildPhase"@, name, "_ios.docc"@)
        &&& self.ios_tests_swift@ == named_id(
            id_base,
            "PBXSourcesBuildPhase"@,
            name,
            "_iosTests.swift"@,
        )
        &&& self.macos_docc@ == named_id(id_base, "PBXSourcesBuildPhase"@, name, "_macos.docc"@)
        &&& self.macos_tests_swift@ == named_id(
            id_base,
            "PBXSourcesBuildPhase"@,
            name,
            "_macosTests.swift"@,
        )
    }

    /// The identifiers of the objects of the section, in their order.
    pub open spec fn in_order(&self) -> Seq<Seq<char>> {
        seq![self.ios_docc@, self.ios_tests_swift@, self.macos_docc@, self.macos_tests_swift@]
    }
}

impl PBXFrameworksBuildPhaseIds {
    /// Each identifier is derived from the kind of its object and from the
    /// object's name, which begins with `name`.
    pub open spec fn fixed(&self, id_base: u64, name: Seq<char>) -> bool {
        &&& self.ios_framework@ == named_id(
            id_base,
            "PBXFrameworksBuildPhase"@,
            name,
            "_ios.framework"@,
        )
        &&& self.ios_tests_xctest@ == named_id(
            id_base,
            "PBXFrameworksBuildPhase"@,
            name,
            "_iosTests.xctest"@,
        )
        &&& self.macos_framework@ == named_id(
            id_base,
            "PBXFrameworksBuildPhase"@,
            name,
            "_macos.framework"@,
        )
        &&& self.macos_tests_xctest@ == named_id(
            id_base,
            "PBXFrameworksBuildPhase"@,
            name,
            "_macosTests.xctest"@,
        )
    }

    /// The identifiers of the objects of the section, in their order.
    pub open spec fn in_order(&self) -> Seq<Seq<char>> {
        seq![
            self.ios_framework@,
            self.ios_tests_xctest@,
            self.macos_framework@,
            self.macos_tests_xctest@,
        ]
    }
}

impl PBXBuildRuleIds {
    /// Each identifier is derived from the kind of its object and from the
    /// object's name, which begins with `name`.
    pub open spec fn fixed(&self, id_base: u64, name: Seq<char>) -> bool {
        &&& self.ios@ == named_id(id_base, "PBXBuildRule"@, name, "_ios_uniffi"@)
        &&& self.macos@ == named_id(id_base, "PBXBuildRule"@, name, "_macos_uniffi"@)
    }

    /// The identifiers of the objects of the section, in their order.
    pub open spec fn in_order(&self) -> Seq<Seq<char>> {
        seq![self.ios@, self.macos@]
    }
}

impl PBXResourcesBuildPhaseIds {
    /// Each identifier is derived from the kind of its object and from the
    /// object's name, which begins with `name`.
    pub open spec fn fixed(&self, id_base: u64, name: Seq<char>) -> bool {
        &&& self.ios@ == named_id(id_base, "PBXResourcesBuildPhase"@, name, "_ios"@)
        &&& self.ios_tests@ == named_id(id_base, "PBXResourcesBuildPhase"@, name, "_iosTests"@)
        &&& self.macos@ == named_id(id_base, "PBXResourcesBuildPhase"@, name, "_macos"@)
        &&& self.macos_tests@ == named_id(id_base, "PBXResourcesBuildPhase"@, name, "_macosTests"@)
    }

    /// The identifiers of the objects of the section, in their order.
    pub open spec fn in_order(&self) -> Seq<Seq<char>> {
        seq![self.ios@, self.ios_tests@, self.macos@, self.macos_tests@]
    }
}

impl PBXShellScriptBuildPhaseIds {
    /// Each identifier is derived from the kind of its object and from the
    /// object's name, which begins with `name`.
    pub open spec fn fixed(&self, id_base: u64, name: Seq<char>) -> bool {
        &&& self.ios@ == named_id(id_base, "PBXShellScriptBuildPhase"@, name, "_ios"@)
        &&& self.macos@ == named_id(id_base, "PBXShellScriptBuildPhase"@, name, "_macos"@)
    }

    /// The identifiers of the objects of the section, in their order.
    pub open spec fn in_order(&self) -> Seq<Seq<char>> {
        seq![self.ios@, self.macos@]
    }
}

/// The section of the phases that copy headers, as it is for a project named
/// `name` whose build files have the identifiers `pbx_file_ref_ids`.
#[verifier::opaque]
pub open spec fn headers_build_section(
    pbx_file_ref_ids: PBXBuildFileIds,
    name: Seq<char>,
    id_base: u64,
) -> PlistNode {
    let kind = "PBXHeadersBuildPhase"@;
    let headers_ios = named_id(id_base, kind, name, "_ios.headers"@);
    let headers_macos = named_id(id_base, kind, name, "_macos.headers"@);
    let ios_headers = array_item(
        headers_ios,
        Some("Headers"@),
        Seq::empty()
            .push(value_item("isa"@, None, kind, None))
            .push(value_item("buildActionMask"@, None, "2147483647"@, None))
            .push(tuple_item(
                "files"@,
                Seq::empty()
                    .push(entry(pbx_file_ref_ids.ios_h@, Some(name + "_ios.h in Headers"@))),
            ))
            .push(value_item("runOnlyForDeploymentPostprocessing"@, None, "0"@, None)),
    );
    let macos_headers = array_item(
        headers_macos,
        Some("Headers"@),
        Seq::empty()
            .push(value_item("isa"@, None, kind, None))
            .push(value_item("buildActionMask"@, None, "2147483647"@, None))
            .push(tuple_item(
                "files"@,
                Seq::empty()
                    .push(entry(pbx_file_ref_ids.macos_h@, Some(name + "_macos.h in Headers"@))),
            ))
            .push(value_item("runOnlyForDeploymentPostprocessing"@, None, "0"@, None)),
    );
    section(
        kind,
        Seq::empty()
            .push(ios_headers)
            .push(macos_headers),
    )
}

/// The section of the phases that link frameworks, as it is for a project
/// named `name` whose build files have the identifiers `pbx_file_ref_ids`.
#[verifier::opaque]
pub open spec fn frameworks_build_section(
    pbx_file_ref_ids: PBXBuildFileIds,
    name: Seq<char>,
    id_base: u64,
) -> PlistNode {
    let kind = "PBXFrameworksBuildPhase"@;
    let ios_framework = named_id(id_base, kind, name, "_ios.framework"@);
    let ios_tests_xctest = named_id(id_base, kind, name, "_iosTests.xctest"@);
    let macos_framework = named_id(id_base, kind, name, "_macos.framework"@);
    let macos_tests_xctest = named_id(id_base, kind, name, "_macosTests.xctest"@);
    let ios_framework_item = array_item(
        ios_framework,
        Some("Frameworks"@),
        Seq::empty()
            .push(value_item("isa"@, None, kind, None))
            .push(value_item("buildActionMask"@, None, "2147483647"@, None))
            .push(tuple_item("files"@, Seq::empty()))
            .push(value_item("runOnlyForDeploymentPostprocessing"@, None, "0"@, None)),
    );
    let ios_tests_xctest_item = array_item(
        ios_tests_xctest,
        Some("Frameworks"@),
        Seq::empty()
            .push(value_item("isa"@, None, kind, None))
            .push(value_item("buildActionMask"@, None, "2147483647"@, None))
            .push(tuple_item(
                "files"@,
                Seq::empty()
                    .push(entry(
                    pbx_file_ref_ids.ios_framework@,
                    Some(name + "_ios.framework in Sources"@),
                )),
            ))
            .push(value_item("runOnlyForDeploymentPostprocessing"@, None, "0"@, None)),
    );
    let macos_framework_item = array_item(
        macos_framework,
        Some("Frameworks"@),
        Seq::empty()
            .push(value_item("isa"@, None, kind, None))
            .push(value_item("buildActionMask"@, None, "2147483647"@, None))
            .push(tuple_item("files"@, Seq::empty()))
            .push(value_item("runOnlyForDeploymentPostprocessing"@, None, "0"@, None)),
    );
    let macos_tests_xctest_item = array_item(
        macos_tests_xctest,
        Some("Frameworks"@),
        Seq::empty()
            .push(value_item("isa"@, None, kind, None))
            .push(value_item("buildActionMask"@, None, "2147483647"@, None))
            .push(tuple_item(
                "files"@,
                Seq::empty()
                    .push(entry(
                    pbx_file_ref_ids.macos_framework@,
                    Some(name + "_macos.framework in Frameworks"@),
                )),
            ))
            .push(value_item("runOnlyForDeploymentPostprocessing"@, None, "0"@, None)),
    );
    section(
        kind,
        Seq::empty()
            .push(ios_framework_item)
            .push(ios_tests_xctest_item)
            .push(macos_framework_item)
            .push(macos_tests_xctest_item),
    )
}

/// The section of the build rules, as it is for a project named `name`.
#[verifier::opaque]
pub open spec fn build_rule_section(
    name: Seq<char>,
    id_base: u64,
) -> PlistNode {
    let kind = "PBXBuildRule"@;
    let ios_build_rule_id = named_id(id_base, kind, name, "_ios_uniffi"@);
    let macos_build_rule_id = named_id(id_base, kind, name, "_macos_uniffi"@);
    let ios_build_rule_item = array_item(
        ios_build_rule_id,
        Some(kind),
        Seq::empty()
            .push(value_item("isa"@, None, kind, None))
            .push(value_item("compilerSpec"@, None, "com.apple.compilers.proxy.script"@, None))
            .push(value_item("filePatterns"@, None, "\"*.udl\""@, None))
            .push(value_item("fileType"@, None, "pattern.proxy"@, None))
            .push(tuple_item("inputFiles"@, Seq::empty()))
            .push(value_item("isEditable"@, None, "1"@, None))
            .push(value_item(
                "name"@,
                None,
                "\""@ + name + " - UniFFI Build rule for '*.udl' files - ios\""@,
                None,
            ))
            .push(tuple_item(
                "outputFiles"@,
                Seq::empty()
                    .push(
                        entry(
                            "\"$(SRCROOT)/rust_libs/"@ + name + "/$(INPUT_FILE_BASE).swift\""@,
                            None,
                        ),
                    )
                    .push(
                        entry(
                            "\"$(SRCROOT)/rust_libs/"@ + name + "/$(INPUT_FILE_BASE)FFI.h\""@,
                            None,
                        ),
                    ),
            ))
            .push(value_item("runOncePerArchitecture"@, None, "0"@, None))
            .push(value_item(
                "script"@,
                None,
                r#"" # Generate swift bindings for the todolist rust library.\nset -e\necho \"Generating files for $INPUT_FILE_PATH\"\nexport PATH=\"$PATH:/opt/homebrew/bin/\"\n$HOME/.cargo/bin/uniffi-bindgen generate \"$INPUT_FILE_PATH\" --language swift --out-dir \"$SRCROOT/rust_libs/"#@ + name + r#"\"\nmv \"$SRCROOT/rust_libs/"#@ + name + r#"/\"$INPUT_FILE_BASE\"FFI.modulemap\" \"$SRCROOT/rust_libs/"#@ + name + r#"/module.modulemap\"\necho \"Generated files for $INPUT_FILE_BASE in $SRCROOT/rust_libs/"#@ + name + r#"\"\n""#@,
                None,
            )),
    );
    let macos_build_rule_item = array_item(
        macos_build_rule_id,
        Some(kind),
        Seq::empty()
            .push(value_item("isa"@, None, kind, None))
            .push(value_item("compilerSpec"@, None, "com.apple.compilers.proxy.script"@, None))
            .push(value_item("filePatterns"@, None, "\"*.udl\""@, None))
            .push(value_item("fileType"@, None, "pattern.proxy"@, None))
            .push(tuple_item("inputFiles"@, Seq::empty()))
            .push(value_item("isEditable"@, None, "1"@, None))
            .push(value_item(
                "name"@,
                None,
                "\""@ + name + " - UniFFI Build rule for '*.udl' files - macos\""@,
                None,
            ))
            .push(tuple_item(
                "outputFiles"@,
                Seq::empty()
                    .push(
                        entry(
                            "\"$(SRCROOT)/rust_libs/"@ + name + "/$(INPUT_FILE_BASE).swift\""@,
                            None,
                        ),
                    )
                    .push(
                        entry(
                            "\"$(SRCROOT)/rust_libs/"@ + name + "/$(INPUT_FILE_BASE)FFI.h\""@,
                            None,
                        ),
                    ),
            ))
            .push(value_item("runOncePerArchitecture"@, None, "0"@, None))
            .push(value_item(
                "script"@,
                None,
                r#"" # Generate swift bindings for the todolist rust library.\nset -e\necho \"Generating files for $INPUT_FILE_PATH\"\nexport PATH=\"$PATH:/opt/homebrew/bin/\"\n$HOME/.cargo/bin/uniffi-bindgen generate \"$INPUT_FILE_PATH\" --language swift --out-dir \"$SRCROOT/rust_libs/"#@ + name + r#"\"\nmv \"$SRCROOT/rust_libs/"#@ + name + r#"/\"$INPUT_FILE_BASE\"FFI.modulemap\" \"$SRCROOT/rust_libs/"#@ + name + r#"/module.modulemap\"\necho \"Generated files for $INPUT_FILE_BASE in $SRCROOT/rust_libs/"#@ + name + r#"\"\n""#@,
                None,
            )),
    );
    section(
        kind,
        Seq::empty()
            .push(ios_build_rule_item)
            .push(macos_build_rule_item),
    )
}

/// The section of the phases that copy resources, as it is for a project
/// named `name`.
#[verifier::opaque]
pub open spec fn resource_build_phase_section(
    name: Seq<char>,
    id_base: u64,
) -> PlistNode {
    let kind = "PBXResourcesBuildPhase"@;
    let ios_resource_build_id = named_id(id_base, kind, name, "_ios"@);
    let ios_resource_build_tests_id = named_id(id_base, kind, name, "_iosTests"@);
    let macos_resource_build_id = named_id(id_base, kind, name, "_macos"@);
    let macos_resource_build_tests_id = named_id(id_base, kind, name, "_macosTests"@);
    let ios_resource_build_item = array_item(
        ios_resource_build_id,
        Some("Resources"@),
        Seq::empty()
            .push(value_item("isa"@, None, kind, None))
            .push(value_item("buildActionMask"@, None, "2147483647"@, None))
            .push(tuple_item("files"@, Seq::empty()))
            .push(value_item("runOnlyForDeploymentPostprocessing"@, None, "0"@, None)),
    );
    let ios_resource_build_tests_item = array_item(
        ios_resource_build_tests_id,
        Some("Resources"@),
        Seq::empty()
            .push(value_item("isa"@, None, kind, None))
            .push(value_item("buildActionMask"@, None, "2147483647"@, None))
            .push(tuple_item("files"@, Seq::empty()))
            .push(value_item("runOnlyForDeploymentPostprocessing"@, None, "0"@, None)),
    );
    let macos_resource_build_item = array_item(
        macos_resource_build_id,
        Some("Resources"@),
        Seq::empty()
            .push(value_item("isa"@, None, kind, None))
            .push(value_item("buildActionMask"@, None, "2147483647"@, None))
            .push(tuple_item("files"@, Seq::empty()))
            .push(value_item("runOnlyForDeploymentPostprocessing"@, None, "0"@, None)),
    );
    let macos_resource_build_tests_item = array_item(
        macos_resource_build_tests_id,
        Some("Resources"@),
        Seq::empty()
            .push(value_item("isa"@, None, kind, None))
            .push(value_item("buildActionMask"@, None, "2147483647"@, None))
            .push(tuple_item("files"@, Seq::empty()))
            .push(value_item("runOnlyForDeploymentPostprocessing"@, None, "0"@, None)),
    );
    section(
        kind,
        Seq::empty()
            .push(ios_resource_build_item)
            .push(ios_resource_build_tests_item)
            .push(macos_resource_build_item)
            .push(macos_resource_build_tests_item),
    )
}

/// The section of the phases that run a script, as it is for a project named
/// `xfw_name` that stands at the given place beside its package.
#[verifier::opaque]
pub open spec fn shell_script_build_phase_section(
    cargo_relative_path_to_xcode_project: Seq<char>,
    cargo_package_name: Seq<char>,
    target_name: Seq<char>,
    xfw_name: Seq<char>,
    id_base: u64,
) -> PlistNode {
    let kind = "PBXShellScriptBuildPhase"@;
    let ios_id = named_id(id_base, kind, xfw_name, "_ios"@);
    let macos_id = named_id(id_base, kind, xfw_name, "_macos"@);
    let ios_item = array_item(
        ios_id,
        Some("ShellScript"@),
        Seq::empty()
            .push(value_item("isa"@, None, kind, None))
            .push(value_item("buildActionMask"@, None, "2147483647"@, None))
            .push(tuple_item("files"@, Seq::empty()))
            .push(tuple_item("inputFileListPaths"@, Seq::empty()))
            .push(tuple_item("inputPaths"@, Seq::empty()))
            .push(tuple_item("outputFileListPaths"@, Seq::empty()))
            .push(tuple_item("outputPaths"@, Seq::empty()))
            .push(value_item("runOnlyForDeploymentPostprocessing"@, None, "0"@, None))
            .push(value_item("shellPath"@, None, "/bin/sh"@, None))
            .push(value_item(
                "shellScript"@,
                None,
                r#"" bash $SRCROOT/"#@ + cargo_relative_path_to_xcode_project + r#"/rust-xc-universal-binary.sh lib"#@ + target_name + r#".a "#@ + cargo_package_name + r#" \"$SRCROOT/"#@ + cargo_relative_path_to_xcode_project + r#"\" ""#@,
                None,
            )),
    );
    let macos_item = array_item(
        macos_id,
        Some("ShellScript"@),
        Seq::empty()
            .push(value_item("isa"@, None, kind, None))
            .push(value_item("buildActionMask"@, None, "2147483647"@, None))
            .push(tuple_item("files"@, Seq::empty()))
            .push(tuple_item("inputFileListPaths"@, Seq::empty()))
            .push(tuple_item("inputPaths"@, Seq::empty()))
            .push(tuple_item("outputFileListPaths"@, Seq::empty()))
            .push(tuple_item("outputPaths"@, Seq::empty()))
            .push(value_item("runOnlyForDeploymentPostprocessing"@, None, "0"@, None))
            .push(value_item("shellPath"@, None, "/bin/sh"@, None))
            .push(value_item(
                "shellScript"@,
                None,
                r#"" bash $SRCROOT/"#@ + cargo_relative_path_to_xcode_project + r#"/rust-xc-universal-binary.sh lib"#@ + target_name + r#".a "#@ + cargo_package_name + r#" \"$SRCROOT/"#@ + cargo_relative_path_to_xcode_project + r#"\" ""#@,
                None,
            )),
    );
    section(
        kind,
        Seq::empty()
            .push(ios_item)
            .push(macos_item),
    )
}

/// The entries of the interface definition files of the platform `suffix`
/// among the first `count` build files of the table `table`: a build file
/// belongs to the platform whose name ends the name under which the table
/// holds it.
pub open spec fn udl_entries(
    table: NameTable<(String, String)>,
    suffix: Seq<char>,
    count: nat,
) -> Seq<PlistNode>
    decreases count,
{
    if count == 0 || count > table.names.len() {
        Seq::empty()
    } else {
        let before = udl_entries(table, suffix, (count - 1) as nat);
        if ends_in(table.names[count - 1]@, suffix) {
            before.push(
                entry(
                    table.values[count - 1].0@,
                    Some(table.values[count - 1].1@ + " in Sources"@),
                ),
            )
        } else {
            before
        }
    }
}

/// The sources that a framework compiles: the interface definition files of
/// its platform, and behind them the entry `last` with its comment.
pub open spec fn source_files(
    table: NameTable<(String, String)>,
    suffix: Seq<char>,
    last: Seq<char>,
    last_comment: Seq<char>,
) -> PlistNode {
    tuple_item(
        "files"@,
        udl_entries(table, suffix, table.names.len() as nat).push(entry(last, Some(last_comment))),
    )
}

/// Makes the tuple of the sources that a framework compiles.
fn sources_tuple(
    table: &NameTable<(String, String)>,
    suffix: &str,
    last: &str,
    last_comment: String,
) -> (r: PlistItem)
    requires
        table.wf(),
    ensures
        r@ == source_files(*table, suffix@, last@, last_comment@),
{
    let mut entries = Entries::new();
    let mut i: usize = 0;
    while i < table.len()
        invariant
            table.wf(),
            i <= table.names.len(),
            entries.nodes() == udl_entries(*table, suffix@, i as nat),
        decreases table.names.len() - i,
    {
        if ends_with(table.names[i].as_str(), suffix) {
            entries = entries.with(
                table.values[i].0.as_str(),
                Some(cat(table.values[i].1.as_str(), " in Sources")),
            );
        }
        i += 1;
    }
    entries.with(last, Some(last_comment)).tuple("files")
}

/// The section of the phases that compile sources, as it is for a project
/// named `name` whose build files have the identifiers `pbx_file_ref_ids`.
#[verifier::opaque]
pub open spec fn sources_build_section(
    pbx_file_ref_ids: PBXBuildFileIds,
    name: Seq<char>,
    id_base: u64,
) -> PlistNode {
    let kind = "PBXSourcesBuildPhase"@;
    let ios_docc = named_id(id_base, kind, name, "_ios.docc"@);
    let ios_tests_swift = named_id(id_base, kind, name, "_iosTests.swift"@);
    let macos_docc = named_id(id_base, kind, name, "_macos.docc"@);
    let macos_tests_swift = named_id(id_base, kind, name, "_macosTests.swift"@);
    let ios_docc_item = array_item(
        ios_docc,
        Some("Sources"@),
        Seq::empty()
            .push(value_item("isa"@, None, kind, None))
            .push(value_item("buildActionMask"@, None, "2147483647"@, None))
            .push(source_files(
                pbx_file_ref_ids.udl_files,
                "ios"@,
                pbx_file_ref_ids.ios_docc@,
                name + "_ios.docc in Sources"@,
            ))
            .push(value_item("runOnlyForDeploymentPostprocessing"@, None, "0"@, None)),
    );
    let ios_swift_item = array_item(
        ios_tests_swift,
        Some("Sources"@),
        Seq::empty()
            .push(value_item("isa"@, None, kind, None))
            .push(value_item("buildActionMask"@, None, "2147483647"@, None))
            .push(tuple_item(
                "files"@,
                Seq::empty()
                    .push(entry(
                    pbx_file_ref_ids.ios_tests_swift@,
                    Some(name + "_iosTests.swift in Sources"@),
                )),
            ))
            .push(value_item("runOnlyForDeploymentPostprocessing"@, None, "0"@, None)),
    );
    let macos_docc_item = array_item(
        macos_docc,
        Some("Sources"@),
        Seq::empty()
            .push(value_item("isa"@, None, kind, None))
            .push(value_item("buildActionMask"@, None, "2147483647"@, None))
            .push(source_files(
                pbx_file_ref_ids.udl_files,
                "macos"@,
                pbx_file_ref_ids.macos_docc@,
                name + "_macos.docc in Sources"@,
            ))
            .push(value_item("runOnlyForDeploymentPostprocessing"@, None, "0"@, None)),
    );
    let macos_swift_item = array_item(
        macos_tests_swift,
        Some("Sources"@),
        Seq::empty()
            .push(value_item("isa"@, None, kind, None))
            .push(value_item("buildActionMask"@, None, "2147483647"@, None))
            .push(tuple_item(
                "files"@,
                Seq::empty()
                    .push(entry(
                    pbx_file_ref_ids.macos_tests_swift@,
                    Some(name + "_macosTests.swift in Sources"@),
                )),
            ))
            .push(value_item("runOnlyForDeploymentPostprocessing"@, None, "0"@, None)),
    );
    section(
        kind,
        Seq::empty()
            .push(ios_docc_item)
            .push(ios_swift_item)
            .push(macos_docc_item)
            .push(macos_swift_item),
    )
}

impl PlistKeyValueItem {
    /// The section of the phases that copy the headers of the two frameworks
    /// of the project `name`.
    pub fn create_pbx_headers_build_section(
        pbx_file_ref_ids: &PBXBuildFileIds,
        name: &str,
        id_base: u64,
    ) -> (r: (PBXHeadersBuildPhaseIds, PlistItem))
        ensures
            r.0.fixed(id_base, name@),
            is_section(r.1@, "PBXHeadersBuildPhase"@, r.0.in_order()),
            r.1@ == headers_build_section(*pbx_file_ref_ids, name@, id_base),
    {
        proof {
            reveal(are_objects);
            reveal(headers_build_section);
        }
        let kind = "PBXHeadersBuildPhase";
        let headers_ios = object_id(id_base, kind, name, "_ios.headers");
        let headers_macos = object_id(id_base, kind, name, "_macos.headers");
        let ios_headers = PlistKeyValueItem::create_array_type(
            headers_ios.as_str(),
            Some("Headers"),
            Items::new()
                .with(PlistKeyValueItem::create_value_type("isa", None, kind, None))
                .with(PlistKeyValueItem::create_value_type(
                    "buildActionMask",
                    None,
                    "2147483647",
                    None,
                ))
                .with(Entries::new()
                    .with(pbx_file_ref_ids.ios_h.as_str(), Some(cat(name, "_ios.h in Headers")))
                    .tuple("files"))
                .with(PlistKeyValueItem::create_value_type(
                    "runOnlyForDeploymentPostprocessing",
                    None,
                    "0",
                    None,
                ))
                .done(),
        );
        let macos_headers = PlistKeyValueItem::create_array_type(
            headers_macos.as_str(),
            Some("Headers"),
            Items::new()
                .with(PlistKeyValueItem::create_value_type("isa", None, kind, None))
                .with(PlistKeyValueItem::create_value_type(
                    "buildActionMask",
                    None,
                    "2147483647",
                    None,
                ))
                .with(Entries::new()
                    .with(pbx_file_ref_ids.macos_h.as_str(), Some(cat(name, "_macos.h in Headers")))
                    .tuple("files"))
                .with(PlistKeyValueItem::create_value_type(
                    "runOnlyForDeploymentPostprocessing",
                    None,
                    "0",
                    None,
                ))
                .done(),
        );
        let file_ref_ids = PBXHeadersBuildPhaseIds {
            headers_ios,
            headers_macos,
        };
        (file_ref_ids, PlistSectionItem::create(
            kind,
            Items::new()
                .with(ios_headers)
                .with(macos_headers)
                .done(),
        ))
    }

    /// The section of the phases that compile the sources of the four targets
    /// of the project `name`. The frameworks compile the interface definition
    /// files of their platform and their documentation; the tests compile
    /// their test case.
    pub fn create_pbx_sources_build_section(
        pbx_file_ref_ids: &PBXBuildFileIds,
        name: &str,
        id_base: u64,
    ) -> (r: (PBXSourcesBuildPhaseIds, PlistItem))
        requires
            pbx_file_ref_ids.udl_files.wf(),
        ensures
            r.0.fixed(id_base, name@),
            is_section(r.1@, "PBXSourcesBuildPhase"@, r.0.in_order()),
            r.1@ == sources_build_section(*pbx_file_ref_ids, name@, id_base),
    {
        proof {
            reveal(are_objects);
            reveal(sources_build_section);
        }
        let kind = "PBXSourcesBuildPhase";
        let ios_docc = object_id(id_base, kind, name, "_ios.docc");
        let ios_tests_swift = object_id(id_base, kind, name, "_iosTests.swift");
        let macos_docc = object_id(id_base, kind, name, "_macos.docc");
        let macos_tests_swift = object_id(id_base, kind, name, "_macosTests.swift");
        let ios_docc_item = PlistKeyValueItem::create_array_type(
            ios_docc.as_str(),
            Some("Sources"),
            Items::new()
                .with(PlistKeyValueItem::create_value_type("isa", None, kind, None))
                .with(PlistKeyValueItem::create_value_type(
                    "buildActionMask",
                    None,
                    "2147483647",
                    None,
                ))
                .with(sources_tuple(
                    &pbx_file_ref_ids.udl_files,
                    "ios",
                    pbx_file_ref_ids.ios_docc.as_str(),
                    cat(name, "_ios.docc in Sources"),
                ))
                .with(PlistKeyValueItem::create_value_type(
                    "runOnlyForDeploymentPostprocessing",
                    None,
                    "0",
                    None,
                ))
                .done(),
        );
        let ios_swift_item = PlistKeyValueItem::create_array_type(
            ios_tests_swift.as_str(),
            Some("Sources"),
            Items::new()
                .with(PlistKeyValueItem::create_value_type("isa", None, kind, None))
                .with(PlistKeyValueItem::create_value_type(
                    "buildActionMask",
                    None,
                    "2147483647",
                    None,
                ))
                .with(Entries::new()
                    .with(
                        pbx_file_ref_ids.ios_tests_swift.as_str(),
                        Some(cat(name, "_iosTests.swift in Sources")),
                    )
                    .tuple("files"))
                .with(PlistKeyValueItem::create_value_type(
                    "runOnlyForDeploymentPostprocessing",
                    None,
                    "0",
                    None,
                ))
                .done(),
        );
        let macos_docc_item = PlistKeyValueItem::create_array_type(
            macos_docc.as_str(),
            Some("Sources"),
            Items::new()
                .with(PlistKeyValueItem::create_value_type("isa", None, kind, None))
                .with(PlistKeyValueItem::create_value_type(
                    "buildActionMask",
                    None,
                    "2147483647",
                    None,
                ))
                .with(sources_tuple(
                    &pbx_file_ref_ids.udl_files,
                    "macos",
                    pbx_file_ref_ids.macos_docc.as_str(),
                    cat(name, "_macos.docc in Sources"),
                ))
                .with(PlistKeyValueItem::create_value_type(
                    "runOnlyForDeploymentPostprocessing",
                    None,
                    "0",
                    None,
                ))
                .done(),
        );
        let macos_swift_item = PlistKeyValueItem::create_array_type(
            macos_tests_swift.as_str(),
            Some("Sources"),
            Items::new()
                .with(PlistKeyValueItem::create_value_type("isa", None, kind, None))
                .with(PlistKeyValueItem::create_value_type(
                    "buildActionMask",
                    None,
                    "2147483647",
                    None,
                ))
                .with(Entries::new()
                    .with(
                        pbx_file_ref_ids.macos_tests_swift.as_str(),
                        Some(cat(name, "_macosTests.swift in Sources")),
                    )
                    .tuple("files"))
                .with(PlistKeyValueItem::create_value_type(
                    "runOnlyForDeploymentPostprocessing",
                    None,
                    "0",
                    None,
                ))
                .done(),
        );
        let file_ref_ids = PBXSourcesBuildPhaseIds {
            ios_docc,
            ios_tests_swift,
            macos_docc,
            macos_tests_swift,
        };
        (file_ref_ids, PlistSectionItem::create(
            kind,
            Items::new()
                .with(ios_docc_item)
                .with(ios_swift_item)
                .with(macos_docc_item)
                .with(macos_swift_item)
                .done(),
        ))
    }

    /// The section of the phases that link the four targets of the project
    /// `name`.
    pub fn create_pbx_frameworks_build_section(
        pbx_file_ref_ids: &PBXBuildFileIds,
        name: &str,
        id_base: u64,
    ) -> (r: (PBXFrameworksBuildPhaseIds, PlistItem))
        ensures
            r.0.fixed(id_base, name@),
            is_section(r.1@, "PBXFrameworksBuildPhase"@, r.0.in_order()),
            r.1@ == frameworks_build_section(*pbx_file_ref_ids, name@, id_base),
    {
        proof {
            reveal(are_objects);
            reveal(frameworks_build_section);
        }
        let kind = "PBXFrameworksBuildPhase";
        let ios_framework = object_id(id_base, kind, name, "_ios.framework");
        let ios_tests_xctest = object_id(id_base, kind, name, "_iosTests.xctest");
        let macos_framework = object_id(id_base, kind, name, "_macos.framework");
        let macos_tests_xctest = object_id(id_base, kind, name, "_macosTests.xctest");
        let ios_framework_item = PlistKeyValueItem::create_array_type(
            ios_framework.as_str(),
            Some("Frameworks"),
            Items::new()
                .with(PlistKeyValueItem::create_value_type("isa", None, kind, None))
                .with(PlistKeyValueItem::create_value_type(
                    "buildActionMask",
                    None,
                    "2147483647",
                    None,
                ))
                .with(Entries::new()
                    .tuple("files"))
                .with(PlistKeyValueItem::create_value_type(
                    "runOnlyForDeploymentPostprocessing",
                    None,
                    "0",
                    None,
                ))
                .done(),
        );
        let ios_tests_xctest_item = PlistKeyValueItem::create_array_type(
            ios_tests_xctest.as_str(),
            Some("Frameworks"),
            Items::new()
                .with(PlistKeyValueItem::create_value_type("isa", None, kind, None))
                .with(PlistKeyValueItem::create_value_type(
                    "buildActionMask",
                    None,
                    "2147483647",
                    None,
                ))
                .with(Entries::new()
                    .with(
                        pbx_file_ref_ids.ios_framework.as_str(),
                        Some(cat(name, "_ios.framework in Sources")),
                    )
                    .tuple("files"))
                .with(PlistKeyValueItem::create_value_type(
                    "runOnlyForDeploymentPostprocessing",
                    None,
                    "0",
                    None,
                ))
                .done(),
        );
        let macos_framework_item = PlistKeyValueItem::create_array_type(
            macos_framework.as_str(),
            Some("Frameworks"),
            Items::new()
                .with(PlistKeyValueItem::create_value_type("isa", None, kind, None))
                .with(PlistKeyValueItem::create_value_type(
                    "buildActionMask",
                    None,
                    "2147483647",
                    None,
                ))
                .with(Entries::new()
                    .tuple("files"))
                .with(PlistKeyValueItem::create_value_type(
                    "runOnlyForDeploymentPostprocessing",
                    None,
                    "0",
                    None,
                ))
                .done(),
        );
        let macos_tests_xctest_item = PlistKeyValueItem::create_array_type(
            macos_tests_xctest.as_str(),
            Some("Frameworks"),
            Items::new()
                .with(PlistKeyValueItem::create_value_type("isa", None, kind, None))
                .with(PlistKeyValueItem::create_value_type(
                    "buildActionMask",
                    None,
                    "2147483647",
                    None,
                ))
                .with(Entries::new()
                    .with(
                        pbx_file_ref_ids.macos_framework.as_str(),
                        Some(cat(name, "_macos.framework in Frameworks")),
                    )
                    .tuple("files"))
                .with(PlistKeyValueItem::create_value_type(
                    "runOnlyForDeploymentPostprocessing",
                    None,
                    "0",
                    None,
                ))
                .done(),
        );
        let file_ref_ids = PBXFrameworksBuildPhaseIds {
            ios_framework,
            ios_tests_xctest,
            macos_framework,
            macos_tests_xctest,
        };
        (file_ref_ids, PlistSectionItem::create(
            kind,
            Items::new()
                .with(ios_framework_item)
                .with(ios_tests_xctest_item)
                .with(macos_framework_item)
                .with(macos_tests_xctest_item)
                .done(),
        ))
    }

    /// The section of the rules by which the two frameworks of the project
    /// `name` turn an interface definition file into Swift sources.
    pub fn create_pbx_build_rule_section(
        name: &str,
        id_base: u64,
    ) -> (r: (PBXBuildRuleIds, PlistItem))
        ensures
            r.0.fixed(id_base, name@),
            is_section(r.1@, "PBXBuildRule"@, r.0.in_order()),
            r.1@ == build_rule_section(name@, id_base),
    {
        proof {
            reveal(are_objects);
            reveal(build_rule_section);
        }
        let kind = "PBXBuildRule";
        let ios_build_rule_id = object_id(id_base, kind, name, "_ios_uniffi");
        let macos_build_rule_id = object_id(id_base, kind, name, "_macos_uniffi");
        let ios_build_rule_item = PlistKeyValueItem::create_array_type(
            ios_build_rule_id.as_str(),
            Some(kind),
            Items::new()
                .with(PlistKeyValueItem::create_value_type("isa", None, kind, None))
                .with(PlistKeyValueItem::create_value_type(
                    "compilerSpec",
                    None,
                    "com.apple.compilers.proxy.script",
                    None,
                ))
                .with(PlistKeyValueItem::create_value_type("filePatterns", None, "\"*.udl\"", None))
                .with(PlistKeyValueItem::create_value_type("fileType", None, "pattern.proxy", None))
                .with(Entries::new()
                    .tuple("inputFiles"))
                .with(PlistKeyValueItem::create_value_type("isEditable", None, "1", None))
                .with(PlistKeyValueItem::create_value_type(
                    "name",
                    None,
                    cat3("\"", name, " - UniFFI Build rule for '*.udl' files - ios\"").as_str(),
                    None,
                ))
                .with(Entries::new()
                    .with(
                        cat3(
                            "\"$(SRCROOT)/rust_libs/",
                            name,
                            "/$(INPUT_FILE_BASE).swift\"",
                        ).as_str(),
                        None,
                    )
                    .with(
                        cat3(
                            "\"$(SRCROOT)/rust_libs/",
                            name,
                            "/$(INPUT_FILE_BASE)FFI.h\"",
                        ).as_str(),
                        None,
                    )
                    .tuple("outputFiles"))
                .with(
                    PlistKeyValueItem::create_value_type("runOncePerArchitecture", None, "0", None),
                )
                .with(PlistKeyValueItem::create_value_type(
                    "script",
                    None,
                    cat3(
                        cat3(
                            cat3(
                                cat3(
                                    r#"" # Generate swift bindings for the todolist rust library.\nset -e\necho \"Generating files for $INPUT_FILE_PATH\"\nexport PATH=\"$PATH:/opt/homebrew/bin/\"\n$HOME/.cargo/bin/uniffi-bindgen generate \"$INPUT_FILE_PATH\" --language swift --out-dir \"$SRCROOT/rust_libs/"#,
                                    name,
                                    r#"\"\nmv \"$SRCROOT/rust_libs/"#,
                                ).as_str(),
                                name,
                                r#"/\"$INPUT_FILE_BASE\"FFI.modulemap\" \"$SRCROOT/rust_libs/"#,
                            ).as_str(),
                            name,
                            r#"/module.modulemap\"\necho \"Generated files for $INPUT_FILE_BASE in $SRCROOT/rust_libs/"#,
                        ).as_str(),
                        name,
                        r#"\"\n""#,
                    ).as_str(),
                    None,
                ))
                .done(),
        );
        let macos_build_rule_item = PlistKeyValueItem::create_array_type(
            macos_build_rule_id.as_str(),
            Some(kind),
            Items::new()
                .with(PlistKeyValueItem::create_value_type("isa", None, kind, None))
                .with(PlistKeyValueItem::create_value_type(
                    "compilerSpec",
                    None,
                    "com.apple.compilers.proxy.script",
                    None,
                ))
                .with(PlistKeyValueItem::create_value_type("filePatterns", None, "\"*.udl\"", None))
                .with(PlistKeyValueItem::create_value_type("fileType", None, "pattern.proxy", None))
                .with(Entries::new()
                    .tuple("inputFiles"))
                .with(PlistKeyValueItem::create_value_type("isEditable", None, "1", None))
                .with(PlistKeyValueItem::create_value_type(
                    "name",
                    None,
                    cat3("\"", name, " - UniFFI Build rule for '*.udl' files - macos\"").as_str(),
                    None,
                ))
                .with(Entries::new()
                    .with(
                        cat3(
                            "\"$(SRCROOT)/rust_libs/",
                            name,
                            "/$(INPUT_FILE_BASE).swift\"",
                        ).as_str(),
                        None,
                    )
                    .with(
                        cat3(
                            "\"$(SRCROOT)/rust_libs/",
                            name,
                            "/$(INPUT_FILE_BASE)FFI.h\"",
                        ).as_str(),
                        None,
                    )
                    .tuple("outputFiles"))
                .with(
                    PlistKeyValueItem::create_value_type("runOncePerArchitecture", None, "0", None),
                )
                .with(PlistKeyValueItem::create_value_type(
                    "script",
                    None,
                    cat3(
                        cat3(
                            cat3(
                                cat3(
                                    r#"" # Generate swift bindings for the todolist rust library.\nset -e\necho \"Generating files for $INPUT_FILE_PATH\"\nexport PATH=\"$PATH:/opt/homebrew/bin/\"\n$HOME/.cargo/bin/uniffi-bindgen generate \"$INPUT_FILE_PATH\" --language swift --out-dir \"$SRCROOT/rust_libs/"#,
                                    name,
                                    r#"\"\nmv \"$SRCROOT/rust_libs/"#,
                                ).as_str(),
                                name,
                                r#"/\"$INPUT_FILE_BASE\"FFI.modulemap\" \"$SRCROOT/rust_libs/"#,
                            ).as_str(),
                            name,
                            r#"/module.modulemap\"\necho \"Generated files for $INPUT_FILE_BASE in $SRCROOT/rust_libs/"#,
                        ).as_str(),
                        name,
                        r#"\"\n""#,
                    ).as_str(),
                    None,
                ))
                .done(),
        );
        let file_ref_ids = PBXBuildRuleIds {
            ios: ios_build_rule_id,
            macos: macos_build_rule_id,
        };
        (file_ref_ids, PlistSectionItem::create(
            kind,
            Items::new()
                .with(ios_build_rule_item)
                .with(macos_build_rule_item)
                .done(),
        ))
    }

    /// The section of the phases that copy the resources of the four targets
    /// of the project `name`.
    pub fn create_pbx_resource_build_phase_section(
        name: &str,
        id_base: u64,
    ) -> (r: (PBXResourcesBuildPhaseIds, PlistItem))
        ensures
            r.0.fixed(id_base, name@),
            is_section(r.1@, "PBXResourcesBuildPhase"@, r.0.in_order()),
            r.1@ == resource_build_phase_section(name@, id_base),
    {
        proof {
            reveal(are_objects);
            reveal(resource_build_phase_section);
        }
        let kind = "PBXResourcesBuildPhase";
        let ios_resource_build_id = object_id(id_base, kind, name, "_ios");
        let ios_resource_build_tests_id = object_id(id_base, kind, name, "_iosTests");
        let macos_resource_build_id = object_id(id_base, kind, name, "_macos");
        let macos_resource_build_tests_id = object_id(id_base, kind, name, "_macosTests");
        let ios_resource_build_item = PlistKeyValueItem::create_array_type(
            ios_resource_build_id.as_str(),
            Some("Resources"),
            Items::new()
                .with(PlistKeyValueItem::create_value_type("isa", None, kind, None))
                .with(PlistKeyValueItem::create_value_type(
                    "buildActionMask",
                    None,
                    "2147483647",
                    None,
                ))
                .with(Entries::new()
                    .tuple("files"))
                .with(PlistKeyValueItem::create_value_type(
                    "runOnlyForDeploymentPostprocessing",
                    None,
                    "0",
                    None,
                ))
                .done(),
        );
        let ios_resource_build_tests_item = PlistKeyValueItem::create_array_type(
            ios_resource_build_tests_id.as_str(),
            Some("Resources"),
            Items::new()
                .with(PlistKeyValueItem::create_value_type("isa", None, kind, None))
                .with(PlistKeyValueItem::create_value_type(
                    "buildActionMask",
                    None,
                    "2147483647",
                    None,
                ))
                .with(Entries::new()
                    .tuple("files"))
                .with(PlistKeyValueItem::create_value_type(
                    "runOnlyForDeploymentPostprocessing",
                    None,
                    "0",
                    None,
                ))
                .done(),
        );
        let macos_resource_build_item = PlistKeyValueItem::create_array_type(
            macos_resource_build_id.as_str(),
            Some("Resources"),
            Items::new()
                .with(PlistKeyValueItem::create_value_type("isa", None, kind, None))
                .with(PlistKeyValueItem::create_value_type(
                    "buildActionMask",
                    None,
                    "2147483647",
                    None,
                ))
                .with(Entries::new()
                    .tuple("files"))
                .with(PlistKeyValueItem::create_value_type(
                    "runOnlyForDeploymentPostprocessing",
                    None,
                    "0",
                    None,
                ))
                .done(),
        );
        let macos_resource_build_tests_item = PlistKeyValueItem::create_array_type(
            macos_resource_build_tests_id.as_str(),
            Some("Resources"),
            Items::new()
                .with(PlistKeyValueItem::create_value_type("isa", None, kind, None))
                .with(PlistKeyValueItem::create_value_type(
                    "buildActionMask",
                    None,
                    "2147483647",
                    None,
                ))
                .with(Entries::new()
                    .tuple("files"))
                .with(PlistKeyValueItem::create_value_type(
                    "runOnlyForDeploymentPostprocessing",
                    None,
                    "0",
                    None,
                ))
                .done(),
        );
        let file_ref_ids = PBXResourcesBuildPhaseIds {
            ios: ios_resource_build_id,
            ios_tests: ios_resource_build_tests_id,
            macos: macos_resource_build_id,
            macos_tests: macos_resource_build_tests_id,
        };
        (file_ref_ids, PlistSectionItem::create(
            kind,
            Items::new()
                .with(ios_resource_build_item)
                .with(ios_resource_build_tests_item)
                .with(macos_resource_build_item)
                .with(macos_resource_build_tests_item)
                .done(),
        ))
    }

    /// The section of the phases that build the Rust library before the two
    /// frameworks of the project `xfw_name` are built.
    pub fn create_pbx_shell_script_build_phase_section(
        cargo_relative_path_to_xcode_project: &str,
        cargo_package_name: &str,
        target_name: &str,
        xfw_name: &str,
        id_base: u64,
    ) -> (r: (PBXShellScriptBuildPhaseIds, PlistItem))
        ensures
            r.0.fixed(id_base, xfw_name@),
            is_section(r.1@, "PBXShellScriptBuildPhase"@, r.0.in_order()),
            r.1@ == shell_script_build_phase_section(
                cargo_relative_path_to_xcode_project@,
                cargo_package_name@,
                target_name@,
                xfw_name@,
                id_base,
            ),
    {
        proof {
            reveal(are_objects);
            reveal(shell_script_build_phase_section);
        }
        let kind = "PBXShellScriptBuildPhase";
        let ios_id = object_id(id_base, kind, xfw_name, "_ios");
        let macos_id = object_id(id_base, kind, xfw_name, "_macos");
        let ios_item = PlistKeyValueItem::create_array_type(
            ios_id.as_str(),
            Some("ShellScript"),
            Items::new()
                .with(PlistKeyValueItem::create_value_type("isa", None, kind, None))
                .with(PlistKeyValueItem::create_value_type(
                    "buildActionMask",
                    None,
                    "2147483647",
                    None,
                ))
                .with(Entries::new()
                    .tuple("files"))
                .with(Entries::new()
                    .tuple("inputFileListPaths"))
                .with(Entries::new()
                    .tuple("inputPaths"))
                .with(Entries::new()
                    .tuple("outputFileListPaths"))
                .with(Entries::new()
                    .tuple("outputPaths"))
                .with(PlistKeyValueItem::create_value_type(
                    "runOnlyForDeploymentPostprocessing",
                    None,
                    "0",
                    None,
                ))
                .with(PlistKeyValueItem::create_value_type("shellPath", None, "/bin/sh", None))
                .with(PlistKeyValueItem::create_value_type(
                    "shellScript",
                    None,
                    cat3(
                        cat3(
                            cat3(
                                cat3(
                                    r#"" bash $SRCROOT/"#,
                                    cargo_relative_path_to_xcode_project,
                                    r#"/rust-xc-universal-binary.sh lib"#,
                                ).as_str(),
                                target_name,
                                r#".a "#,
                            ).as_str(),
                            cargo_package_name,
                            r#" \"$SRCROOT/"#,
                        ).as_str(),
                        cargo_relative_path_to_xcode_project,
                        r#"\" ""#,
                    ).as_str(),
                    None,
                ))
                .done(),
        );
        let macos_item = PlistKeyValueItem::create_array_type(
            macos_id.as_str(),
            Some("ShellScript"),
            Items::new()
                .with(PlistKeyValueItem::create_value_type("isa", None, kind, None))
                .with(PlistKeyValueItem::create_value_type(
                    "buildActionMask",
                    None,
                    "2147483647",
                    None,
                ))
                .with(Entries::new()
                    .tuple("files"))
                .with(Entries::new()
                    .tuple("inputFileListPaths"))
                .with(Entries::new()
                    .tuple("inputPaths"))
                .with(Entries::new()
                    .tuple("outputFileListPaths"))
                .with(Entries::new()
                    .tuple("outputPaths"))
                .with(PlistKeyValueItem::create_value_type(
                    "runOnlyForDeploymentPostprocessing",
                    None,
                    "0",
                    None,
                ))
                .with(PlistKeyValueItem::create_value_type("shellPath", None, "/bin/sh", None))
                .with(PlistKeyValueItem::create_value_type(
                    "shellScript",
                    None,
                    cat3(
                        cat3(
                            cat3(
                                cat3(
                                    r#"" bash $SRCROOT/"#,
                                    cargo_relative_path_to_xcode_project,
                                    r#"/rust-xc-universal-binary.sh lib"#,
                                ).as_str(),
                                target_name,
                                r#".a "#,
                            ).as_str(),
                            cargo_package_name,
                            r#" \"$SRCROOT/"#,
                        ).as_str(),
                        cargo_relative_path_to_xcode_project,
                        r#"\" ""#,
                    ).as_str(),
                    None,
                ))
                .done(),
        );
        let file_ref_ids = PBXShellScriptBuildPhaseIds {
            ios: ios_id,
            macos: macos_id,
        };
        (file_ref_ids, PlistSectionItem::create(
            kind,
            Items::new()
                .with(ios_item)
                .with(macos_item)
                .done(),
        ))
    }
}

} // verus!
