//! The sections of the targets: the four targets of a project, the
//! dependencies of the tests on the frameworks, and the project object
//! itself.

use crate::names::{cat, cat3, named_id, object_id};
use crate::objects::{
    are_objects, array_item, entry, has_comment, has_line, is_section, section, tuple_item,
    value_item, Entries, Items, PBXBuildRuleIds, PBXContainerItemProxyIds, PBXFileReferenceIds,
    PBXFrameworksBuildPhaseIds, PBXGroupIds, PBXHeadersBuildPhaseIds, PBXNativeTargetIds,
    PBXResourcesBuildPhaseIds, PBXShellScriptBuildPhaseIds, PBXSourcesBuildPhaseIds,
    PBXTargetDependencyIds, XCConfigurationListIds,
};
use crate::types::{PlistItem, PlistKeyValueItem, PlistNode, PlistSectionItem};
use vstd::prelude::*;

verus! {

impl PBXTargetDependencyIds {
    /// Each identifier is derived from the kind of its object and from the
    /// object's name, which begins with `name`.
    pub open spec fn fixed(&self, id_base: u64, name: Seq<char>) -> bool {
        &&& self.ios_id@ == named_id(id_base, "PBXTargetDependency"@, name, "_ios"@)
        &&& self.macos_id@ == named_id(id_base, "PBXTargetDependency"@, name, "_macos"@)
        &&& self.ios_native_target_id@ == named_id(id_base, "PBXNativeTarget"@, name, "_ios"@)
        &&& self.macos_native_target_id@ == named_id(id_base, "PBXNativeTarget"@, name, "_macos"@)
        &&& self.ios_container_item_proxy_id@ == named_id(
            id_base,
            "PBXContainerItemProxy"@,
            name,
            "_ios"@,
        )
        &&& self.macos_container_item_proxy_id@ == named_id(
            id_base,
            "PBXContainerItemProxy"@,
            name,
            "_macos"@,
        )
    }

    /// The identifiers of the objects of the section, in their order.
    pub open spec fn in_order(&self) -> Seq<Seq<char>> {
        seq![self.ios_id@, self.macos_id@]
    }
}

impl PBXContainerItemProxyIds {
    /// Each identifier is derived from the kind of its object and from the
    /// object's name, which begins with `name`.
    pub open spec fn fixed(&self, id_base: u64, name: Seq<char>) -> bool {
        &&& self.ios@ == named_id(id_base, "PBXContainerItemProxy"@, name, "_ios"@)
        &&& self.macos@ == named_id(id_base, "PBXContainerItemProxy"@, name, "_macos"@)
    }

    /// The identifiers of the objects of the section, in their order.
    pub open spec fn in_order(&self) -> Seq<Seq<char>> {
        seq![self.ios@, self.macos@]
    }
}

impl PBXNativeTargetIds {
    /// Each identifier is derived from the kind of its object and from the
    /// object's name, which begins with `name`.
    pub open spec fn fixed(&self, id_base: u64, name: Seq<char>) -> bool {
        &&& self.ios@ == named_id(id_base, "PBXNativeTarget"@, name, "_ios"@)
        &&& self.ios_tests@ == named_id(id_base, "PBXNativeTarget"@, name, "_iosTests"@)
        &&& self.macos@ == named_id(id_base, "PBXNativeTarget"@, name, "_macos"@)
        &&& self.macos_test@ == named_id(id_base, "PBXNativeTarget"@, name, "_macosTests"@)
    }

    /// The identifiers of the objects of the section, in their order.
    pub open spec fn in_order(&self) -> Seq<Seq<char>> {
        seq![self.ios@, self.ios_tests@, self.macos@, self.macos_test@]
    }
}

/// Whether each of the four targets carries its name as a comment: the
/// name of the project followed by `_ios`, `_iosTests`, `_macos` and
/// `_macosTests`.
pub open spec fn names_targets(targets: Seq<PlistNode>, name: Seq<char>) -> bool {
    &&& targets.len() == 4
    &&& has_comment(targets[0], name + "_ios"@)
    &&& has_comment(targets[1], name + "_iosTests"@)
    &&& has_comment(targets[2], name + "_macos"@)
    &&& has_comment(targets[3], name + "_macosTests"@)
}

/// Whether each of the four targets names its own list of configurations
/// in its line `buildConfigurationList`, the second line of a target.
pub open spec fn lists_configurations(
    targets: Seq<PlistNode>,
    lists: XCConfigurationListIds,
) -> bool {
    &&& targets.len() == 4
    &&& has_line(targets[0], 1, "buildConfigurationList"@, lists.ios@)
    &&& has_line(targets[1], 1, "buildConfigurationList"@, lists.ios_tests@)
    &&& has_line(targets[2], 1, "buildConfigurationList"@, lists.macos@)
    &&& has_line(targets[3], 1, "buildConfigurationList"@, lists.macos_test@)
}

/// The section of the dependencies, as it is for a project named `xfw_name`.
#[verifier::opaque]
pub open spec fn target_dependency_section(
    xfw_name: Seq<char>,
    id_base: u64,
) -> PlistNode {
    let kind = "PBXTargetDependency"@;
    let native_target_kind = "PBXNativeTarget"@;
    let ios_native_target_id = named_id(id_base, native_target_kind, xfw_name, "_ios"@);
    let macos_native_target_id = named_id(id_base, native_target_kind, xfw_name, "_macos"@);
    let container_item_proxy_kind = "PBXContainerItemProxy"@;
    let ios_container_item_proxy_id = named_id(
        id_base,
        container_item_proxy_kind,
        xfw_name,
        "_ios"@,
    );
    let macos_container_item_proxy_id = named_id(
        id_base,
        container_item_proxy_kind,
        xfw_name,
        "_macos"@,
    );
    let ios_id = named_id(id_base, kind, xfw_name, "_ios"@);
    let macos_id = named_id(id_base, kind, xfw_name, "_macos"@);
    let ios_item = array_item(
        ios_id,
        Some(kind),
        Seq::empty()
            .push(value_item("isa"@, None, kind, None))
            .push(value_item("target"@, None, ios_native_target_id, Some(xfw_name + "_ios"@)))
            .push(value_item(
                "targetProxy"@,
                None,
                ios_container_item_proxy_id,
                Some(container_item_proxy_kind),
            )),
    );
    let macos_item = array_item(
        macos_id,
        Some(kind),
        Seq::empty()
            .push(value_item("isa"@, None, kind, None))
            .push(value_item("target"@, None, macos_native_target_id, Some(xfw_name + "_macos"@)))
            .push(value_item(
                "targetProxy"@,
                None,
                macos_container_item_proxy_id,
                Some(container_item_proxy_kind),
            )),
    );
    section(
        kind,
        Seq::empty()
            .push(ios_item)
            .push(macos_item),
    )
}

/// The section of the proxies, as it is for a project named `xfw_name` whose
/// project object has the identifier `project_object_id`.
#[verifier::opaque]
pub open spec fn container_item_proxy_section(
    project_object_id: Seq<char>,
    pbx_target_dependency_ids: PBXTargetDependencyIds,
    xfw_name: Seq<char>,
    id_base: u64,
) -> PlistNode {
    let kind = "PBXContainerItemProxy"@;
    let ios_id = named_id(id_base, kind, xfw_name, "_ios"@);
    let ios_item = array_item(
        ios_id,
        Some(kind),
        Seq::empty()
            .push(value_item("isa"@, None, kind, None))
            .push(value_item("containerPortal"@, None, project_object_id, Some("Project object"@)))
            .push(value_item("proxyType"@, None, "1"@, None))
            .push(value_item(
                "remoteGlobalIDString"@,
                None,
                pbx_target_dependency_ids.ios_native_target_id@,
                None,
            ))
            .push(value_item("remoteInfo"@, None, "\""@ + xfw_name + "_ios\""@, None)),
    );
    let macos_id = named_id(id_base, kind, xfw_name, "_macos"@);
    let macos_item = array_item(
        macos_id,
        Some(kind),
        Seq::empty()
            .push(value_item("isa"@, None, kind, None))
            .push(value_item("containerPortal"@, None, project_object_id, Some("Project object"@)))
            .push(value_item("proxyType"@, None, "1"@, None))
            .push(value_item(
                "remoteGlobalIDString"@,
                None,
                pbx_target_dependency_ids.macos_native_target_id@,
                None,
            ))
            .push(value_item("remoteInfo"@, None, "\""@ + xfw_name + "_macos\""@, None)),
    );
    section(
        kind,
        Seq::empty()
            .push(ios_item)
            .push(macos_item),
    )
}

/// The section of the targets, as it is for a project named `xfw_name` whose
/// other objects have the given identifiers.
#[verifier::opaque]
pub open spec fn native_target_section(
    pbx_target_dependency_ids: PBXTargetDependencyIds,
    pbx_config_list: XCConfigurationListIds,
    pbx_file_ref_ids: PBXFileReferenceIds,
    pbx_shell_script_ids_ref: PBXShellScriptBuildPhaseIds,
    pbx_sources_build_ids_ref: PBXSourcesBuildPhaseIds,
    pbx_framework_build_ids_ref: PBXFrameworksBuildPhaseIds,
    pbx_headers_build_ids_ref: PBXHeadersBuildPhaseIds,
    pbx_resources_build_ids_ref: PBXResourcesBuildPhaseIds,
    pbx_build_rule_ids_ref: PBXBuildRuleIds,
    xfw_name: Seq<char>,
    id_base: u64,
) -> PlistNode {
    let kind = "PBXNativeTarget"@;
    let ios_id = named_id(id_base, kind, xfw_name, "_ios"@);
    let ios_item = array_item(
        ios_id,
        Some(xfw_name + "_ios"@),
        Seq::empty()
            .push(value_item("isa"@, None, kind, None))
            .push(value_item(
                "buildConfigurationList"@,
                None,
                pbx_config_list.ios@,
                Some("Build configuration list for PBXNativeTarget \""@ + xfw_name + "_ios\""@),
            ))
            .push(tuple_item(
                "buildPhases"@,
                Seq::empty()
                    .push(entry(pbx_shell_script_ids_ref.ios@, Some("ShellScript"@)))
                    .push(entry(pbx_headers_build_ids_ref.headers_ios@, Some("Headers"@)))
                    .push(entry(pbx_sources_build_ids_ref.ios_docc@, Some("Sources"@)))
                    .push(entry(pbx_framework_build_ids_ref.ios_framework@, Some("Frameworks"@)))
                    .push(entry(pbx_resources_build_ids_ref.ios@, Some("Resources"@))),
            ))
            .push(tuple_item(
                "buildRules"@,
                Seq::empty()
                    .push(entry(pbx_build_rule_ids_ref.ios@, Some("PBXBuildRule"@))),
            ))
            .push(value_item("name"@, None, "\""@ + xfw_name + "_ios\""@, None))
            .push(value_item("productName"@, None, "\""@ + xfw_name + "_ios\""@, None))
            .push(value_item(
                "productReference"@,
                None,
                pbx_file_ref_ids.ios_framework@,
                Some("\""@ + xfw_name + "_ios.framework\""@),
            ))
            .push(value_item("productType"@, None, "\"com.apple.product-type.framework\""@, None)),
    );
    let ios_tests_id = named_id(id_base, kind, xfw_name, "_iosTests"@);
    let ios_tests_item = array_item(
        ios_tests_id,
        Some(xfw_name + "_iosTests"@),
        Seq::empty()
            .push(value_item("isa"@, None, kind, None))
            .push(value_item(
                "buildConfigurationList"@,
                None,
                pbx_config_list.ios_tests@,
                Some(
                    "Build configuration list for PBXNativeTarget \""@ + xfw_name + "_iosTests\""@,
                ),
            ))
            .push(tuple_item(
                "buildPhases"@,
                Seq::empty()
                    .push(entry(pbx_sources_build_ids_ref.ios_tests_swift@, Some("Sources"@)))
                    .push(entry(pbx_framework_build_ids_ref.ios_tests_xctest@, Some("Frameworks"@)))
                    .push(entry(pbx_resources_build_ids_ref.ios_tests@, Some("Resources"@))),
            ))
            .push(tuple_item("buildRules"@, Seq::empty()))
            .push(tuple_item(
                "dependencies"@,
                Seq::empty()
                    .push(entry(pbx_target_dependency_ids.ios_id@, Some("PBXTargetDependency"@))),
            ))
            .push(value_item("name"@, None, "\""@ + xfw_name + "_iosTests\""@, None))
            .push(value_item("productName"@, None, "\""@ + xfw_name + "_iosTests\""@, None))
            .push(value_item(
                "productReference"@,
                None,
                pbx_file_ref_ids.ios_tests_xc@,
                Some("\""@ + xfw_name + "_iosTests.xctest\""@),
            ))
            .push(value_item(
                "productType"@,
                None,
                "\"com.apple.product-type.bundle.unit-test\""@,
                None,
            )),
    );
    let macos_id = named_id(id_base, kind, xfw_name, "_macos"@);
    let macos_item = array_item(
        macos_id,
        Some(xfw_name + "_macos"@),
        Seq::empty()
            .push(value_item("isa"@, None, kind, None))
            .push(value_item(
                "buildConfigurationList"@,
                None,
                pbx_config_list.macos@,
                Some("Build configuration list for PBXNativeTarget \""@ + xfw_name + "_ios\""@),
            ))
            .push(tuple_item(
                "buildPhases"@,
                Seq::empty()
                    .push(entry(pbx_shell_script_ids_ref.macos@, Some("ShellScript"@)))
                    .push(entry(pbx_headers_build_ids_ref.headers_macos@, Some("Headers"@)))
                    .push(entry(pbx_sources_build_ids_ref.macos_docc@, Some("Sources"@)))
                    .push(entry(pbx_framework_build_ids_ref.macos_framework@, Some("Frameworks"@)))
                    .push(entry(pbx_resources_build_ids_ref.macos@, Some("Resources"@))),
            ))
            .push(tuple_item(
                "buildRules"@,
                Seq::empty()
                    .push(entry(pbx_build_rule_ids_ref.macos@, Some("PBXBuildRule"@))),
            ))
            .push(value_item("name"@, None, "\""@ + xfw_name + "_macos\""@, None))
            .push(value_item("productName"@, None, "\""@ + xfw_name + "_macos\""@, None))
            .push(value_item(
                "productReference"@,
                None,
                pbx_file_ref_ids.macos_framework@,
                Some("\""@ + xfw_name + "_macos.framework\""@),
            ))
            .push(value_item("productType"@, None, "\"com.apple.product-type.framework\""@, None)),
    );
    let macos_tests_id = named_id(id_base, kind, xfw_name, "_macosTests"@);
    let macos_tests_item = array_item(
        macos_tests_id,
        Some(xfw_name + "_macosTests"@),
        Seq::empty()
            .push(value_item("isa"@, None, kind, None))
            .push(value_item(
                "buildConfigurationList"@,
                None,
                pbx_config_list.macos_test@,
                Some(
                    "Build configuration list for PBXNativeTarget \""@ + xfw_name + "_macosTests\""@,
                ),
            ))
            .push(tuple_item(
                "buildPhases"@,
                Seq::empty()
                    .push(entry(pbx_sources_build_ids_ref.macos_tests_swift@, Some("Sources"@)))
                    .push(
                        entry(pbx_framework_build_ids_ref.macos_tests_xctest@, Some("Frameworks"@)),
                    )
                    .push(entry(pbx_resources_build_ids_ref.macos_tests@, Some("Resources"@))),
            ))
            .push(tuple_item("buildRules"@, Seq::empty()))
            .push(tuple_item(
                "dependencies"@,
                Seq::empty()
                    .push(entry(pbx_target_dependency_ids.macos_id@, Some("PBXTargetDependency"@))),
            ))
            .push(value_item("name"@, None, "\""@ + xfw_name + "_macosTests\""@, None))
            .push(value_item("productName"@, None, "\""@ + xfw_name + "_macosTests\""@, None))
            .push(value_item(
                "productReference"@,
                None,
                pbx_file_ref_ids.macos_tests_xc@,
                Some("\""@ + xfw_name + "_macosTests.xctest\""@),
            ))
            .push(value_item(
                "productType"@,
                None,
                "\"com.apple.product-type.bundle.unit-test\""@,
                None,
            )),
    );
    section(
        kind,
        Seq::empty()
            .push(ios_item)
            .push(ios_tests_item)
            .push(macos_item)
            .push(macos_tests_item),
    )
}

/// The section of the project object, as it is for a project named
/// `xfw_name` whose other objects have the given identifiers.
#[verifier::opaque]
pub open spec fn project_section(
    project_object_id: Seq<char>,
    pbx_group_ids: PBXGroupIds,
    pbx_native_target_ids: PBXNativeTargetIds,
    pbx_xc_config_list_ids: XCConfigurationListIds,
    xfw_name: Seq<char>,
) -> PlistNode {
    let kind = "PBXProject"@;
    let project_item = array_item(
        project_object_id,
        Some("Project object"@),
        Seq::empty()
            .push(value_item("isa"@, None, kind, None))
            .push(array_item(
                "attributes"@,
                None,
                Seq::empty()
                    .push(value_item("BuildIndependentTargetsInParallel"@, None, "1"@, None))
                    .push(value_item("LastSwiftUpdateCheck"@, None, "1320"@, None))
                    .push(value_item("LastUpgradeCheck"@, None, "1320"@, None))
                    .push(array_item(
                        "TargetAttributes"@,
                        None,
                        Seq::empty()
                            .push(array_item(
                                pbx_native_target_ids.ios@,
                                None,
                                Seq::empty()
                                    .push(
                                        value_item("CreatedOnToolsVersion"@, None, "13.2.1"@, None),
                                    ),
                            ))
                            .push(array_item(
                                pbx_native_target_ids.ios_tests@,
                                None,
                                Seq::empty()
                                    .push(
                                        value_item("CreatedOnToolsVersion"@, None, "13.2.1"@, None),
                                    ),
                            ))
                            .push(array_item(
                                pbx_native_target_ids.macos@,
                                None,
                                Seq::empty()
                                    .push(
                                        value_item("CreatedOnToolsVersion"@, None, "13.2.1"@, None),
                                    ),
                            ))
                            .push(array_item(
                                pbx_native_target_ids.macos_test@,
                                None,
                                Seq::empty()
                                    .push(
                                        value_item("CreatedOnToolsVersion"@, None, "13.2.1"@, None),
                                    ),
                            )),
                    )),
            ))
            .push(value_item(
                "buildConfigurationList"@,
                None,
                pbx_xc_config_list_ids.shared@,
                Some("Build configuration list for PBXProject \""@ + xfw_name + "\""@),
            ))
            .push(value_item("compatibilityVersion"@, None, "\"Xcode 13.0\""@, None))
            .push(value_item("developmentRegion"@, None, "en"@, None))
            .push(value_item("hasScannedForEncodings"@, None, "0"@, None))
            .push(tuple_item(
                "knownRegions"@,
                Seq::empty()
                    .push(entry("en"@, None))
                    .push(entry("Base"@, None)),
            ))
            .push(value_item("mainGroup"@, None, pbx_group_ids.groups@, None))
            .push(value_item("productRefGroup"@, None, pbx_group_ids.products@, Some("Products"@)))
            .push(value_item("projectDirPath"@, None, "\"\""@, None))
            .push(value_item("projectRoot"@, None, "\"\""@, None))
            .push(tuple_item(
                "targets"@,
                Seq::empty()
                    .push(entry(pbx_native_target_ids.ios@, Some(xfw_name + "_ios"@)))
                    .push(entry(pbx_native_target_ids.ios_tests@, Some(xfw_name + "_iosTests"@)))
                    .push(entry(pbx_native_target_ids.macos@, Some(xfw_name + "_macos"@)))
                    .push(
                        entry(pbx_native_target_ids.macos_test@, Some(xfw_name + "_macosTests"@)),
                    ),
            )),
    );
    section(
        kind,
        Seq::empty()
            .push(project_item),
    )
}

impl PlistKeyValueItem {
    /// The section of the dependencies of the project `xfw_name`: the tests of
    /// each platform depend on the framework of that platform.
    pub fn create_pbx_target_dependency_section(
        xfw_name: &str,
        id_base: u64,
    ) -> (r: (PBXTargetDependencyIds, PlistItem))
        ensures
            r.0.fixed(id_base, xfw_name@),
            is_section(r.1@, "PBXTargetDependency"@, r.0.in_order()),
            r.1@ == target_dependency_section(xfw_name@, id_base),
    {
        proof {
            reveal(are_objects);
            reveal(target_dependency_section);
        }
        let kind = "PBXTargetDependency";
        let native_target_kind = "PBXNativeTarget";
        let ios_native_target_id = object_id(id_base, native_target_kind, xfw_name, "_ios");
        let macos_native_target_id = object_id(id_base, native_target_kind, xfw_name, "_macos");
        let container_item_proxy_kind = "PBXContainerItemProxy";
        let ios_container_item_proxy_id = object_id(
            id_base,
            container_item_proxy_kind,
            xfw_name,
            "_ios",
        );
        let macos_container_item_proxy_id = object_id(
            id_base,
            container_item_proxy_kind,
            xfw_name,
            "_macos",
        );
        let ios_id = object_id(id_base, kind, xfw_name, "_ios");
        let macos_id = object_id(id_base, kind, xfw_name, "_macos");
        let ios_item = PlistKeyValueItem::create_array_type(
            ios_id.as_str(),
            Some(kind),
            Items::new()
                .with(PlistKeyValueItem::create_value_type("isa", None, kind, None))
                .with(PlistKeyValueItem::create_value_type(
                    "target",
                    None,
                    ios_native_target_id.as_str(),
                    Some(cat(xfw_name, "_ios").as_str()),
                ))
                .with(PlistKeyValueItem::create_value_type(
                    "targetProxy",
                    None,
                    ios_container_item_proxy_id.as_str(),
                    Some(container_item_proxy_kind),
                ))
                .done(),
        );
        let macos_item = PlistKeyValueItem::create_array_type(
            macos_id.as_str(),
            Some(kind),
            Items::new()
                .with(PlistKeyValueItem::create_value_type("isa", None, kind, None))
                .with(PlistKeyValueItem::create_value_type(
                    "target",
                    None,
                    macos_native_target_id.as_str(),
                    Some(cat(xfw_name, "_macos").as_str()),
                ))
                .with(PlistKeyValueItem::create_value_type(
                    "targetProxy",
                    None,
                    macos_container_item_proxy_id.as_str(),
                    Some(container_item_proxy_kind),
                ))
                .done(),
        );
        let ids = PBXTargetDependencyIds {
            ios_id,
            macos_id,
            ios_native_target_id,
            macos_native_target_id,
            ios_container_item_proxy_id,
            macos_container_item_proxy_id,
        };
        (ids, PlistSectionItem::create(
            kind,
            Items::new()
                .with(ios_item)
                .with(macos_item)
                .done(),
        ))
    }

    /// The section of the proxies through which the dependencies of the
    /// project `xfw_name` reach their targets.
    pub fn create_pbx_container_item_proxy_section(
        project_object_id: &str,
        pbx_target_dependency_ids: &PBXTargetDependencyIds,
        xfw_name: &str,
        id_base: u64,
    ) -> (r: (PBXContainerItemProxyIds, PlistItem))
        ensures
            r.0.fixed(id_base, xfw_name@),
            is_section(r.1@, "PBXContainerItemProxy"@, r.0.in_order()),
            r.1@ == container_item_proxy_section(
                project_object_id@,
                *pbx_target_dependency_ids,
                xfw_name@,
                id_base,
            ),
    {
        proof {
            reveal(are_objects);
            reveal(container_item_proxy_section);
        }
        let kind = "PBXContainerItemProxy";
        let ios_id = object_id(id_base, kind, xfw_name, "_ios");
        let ios_item = PlistKeyValueItem::create_array_type(
            ios_id.as_str(),
            Some(kind),
            Items::new()
                .with(PlistKeyValueItem::create_value_type("isa", None, kind, None))
                .with(PlistKeyValueItem::create_value_type(
                    "containerPortal",
                    None,
                    project_object_id,
                    Some("Project object"),
                ))
                .with(PlistKeyValueItem::create_value_type("proxyType", None, "1", None))
                .with(PlistKeyValueItem::create_value_type(
                    "remoteGlobalIDString",
                    None,
                    pbx_target_dependency_ids.ios_native_target_id.as_str(),
                    None,
                ))
                .with(PlistKeyValueItem::create_value_type(
                    "remoteInfo",
                    None,
                    cat3("\"", xfw_name, "_ios\"").as_str(),
                    None,
                ))
                .done(),
        );
        let macos_id = object_id(id_base, kind, xfw_name, "_macos");
        let macos_item = PlistKeyValueItem::create_array_type(
            macos_id.as_str(),
            Some(kind),
            Items::new()
                .with(PlistKeyValueItem::create_value_type("isa", None, kind, None))
                .with(PlistKeyValueItem::create_value_type(
                    "containerPortal",
                    None,
                    project_object_id,
                    Some("Project object"),
                ))
                .with(PlistKeyValueItem::create_value_type("proxyType", None, "1", None))
                .with(PlistKeyValueItem::create_value_type(
                    "remoteGlobalIDString",
                    None,
                    pbx_target_dependency_ids.macos_native_target_id.as_str(),
                    None,
                ))
                .with(PlistKeyValueItem::create_value_type(
                    "remoteInfo",
                    None,
                    cat3("\"", xfw_name, "_macos\"").as_str(),
                    None,
                ))
                .done(),
        );
        let ids = PBXContainerItemProxyIds {
            ios: ios_id,
            macos: macos_id,
        };
        (ids, PlistSectionItem::create(
            kind,
            Items::new()
                .with(ios_item)
                .with(macos_item)
                .done(),
        ))
    }

    /// The section of the four targets of the project `xfw_name`: a framework
    /// and its tests for iOS, and a framework and its tests for macOS.
    pub fn create_pbx_native_target_section(
        pbx_target_dependency_ids: &PBXTargetDependencyIds,
        pbx_config_list: &XCConfigurationListIds,
        pbx_file_ref_ids: &PBXFileReferenceIds,
        pbx_shell_script_ids_ref: &PBXShellScriptBuildPhaseIds,
        pbx_sources_build_ids_ref: &PBXSourcesBuildPhaseIds,
        pbx_framework_build_ids_ref: &PBXFrameworksBuildPhaseIds,
        pbx_headers_build_ids_ref: &PBXHeadersBuildPhaseIds,
        pbx_resources_build_ids_ref: &PBXResourcesBuildPhaseIds,
        pbx_build_rule_ids_ref: &PBXBuildRuleIds,
        xfw_name: &str,
        id_base: u64,
    ) -> (r: (PBXNativeTargetIds, PlistItem))
        ensures
            r.0.fixed(id_base, xfw_name@),
            is_section(r.1@, "PBXNativeTarget"@, r.0.in_order()),
            names_targets(r.1@->SectionItem_items, xfw_name@),
            lists_configurations(r.1@->SectionItem_items, *pbx_config_list),
            r.1@ == native_target_section(
                *pbx_target_dependency_ids,
                *pbx_config_list,
                *pbx_file_ref_ids,
                *pbx_shell_script_ids_ref,
                *pbx_sources_build_ids_ref,
                *pbx_framework_build_ids_ref,
                *pbx_headers_build_ids_ref,
                *pbx_resources_build_ids_ref,
                *pbx_build_rule_ids_ref,
                xfw_name@,
                id_base,
            ),
    {
        proof {
            reveal(are_objects);
            reveal(native_target_section);
        }
        let kind = "PBXNativeTarget";
        let ios_id = object_id(id_base, kind, xfw_name, "_ios");
        let ios_item = PlistKeyValueItem::create_array_type(
            ios_id.as_str(),
            Some(cat(xfw_name, "_ios").as_str()),
            Items::new()
                .with(PlistKeyValueItem::create_value_type("isa", None, kind, None))
                .with(PlistKeyValueItem::create_value_type(
                    "buildConfigurationList",
                    None,
                    pbx_config_list.ios.as_str(),
                    Some(
                        cat3(
                            "Build configuration list for PBXNativeTarget \"",
                            xfw_name,
                            "_ios\"",
                        ).as_str(),
                    ),
                ))
                .with(Entries::new()
                    .with(pbx_shell_script_ids_ref.ios.as_str(), Some("ShellScript".to_owned()))
                    .with(
                        pbx_headers_build_ids_ref.headers_ios.as_str(),
                        Some("Headers".to_owned()),
                    )
                    .with(pbx_sources_build_ids_ref.ios_docc.as_str(), Some("Sources".to_owned()))
                    .with(
                        pbx_framework_build_ids_ref.ios_framework.as_str(),
                        Some("Frameworks".to_owned()),
                    )
                    .with(pbx_resources_build_ids_ref.ios.as_str(), Some("Resources".to_owned()))
                    .tuple("buildPhases"))
                .with(Entries::new()
                    .with(pbx_build_rule_ids_ref.ios.as_str(), Some("PBXBuildRule".to_owned()))
                    .tuple("buildRules"))
                .with(PlistKeyValueItem::create_value_type(
                    "name",
                    None,
                    cat3("\"", xfw_name, "_ios\"").as_str(),
                    None,
                ))
                .with(PlistKeyValueItem::create_value_type(
                    "productName",
                    None,
                    cat3("\"", xfw_name, "_ios\"").as_str(),
                    None,
                ))
                .with(PlistKeyValueItem::create_value_type(
                    "productReference",
                    None,
                    pbx_file_ref_ids.ios_framework.as_str(),
                    Some(cat3("\"", xfw_name, "_ios.framework\"").as_str()),
                ))
                .with(PlistKeyValueItem::create_value_type(
                    "productType",
                    None,
                    "\"com.apple.product-type.framework\"",
                    None,
                ))
                .done(),
        );
        let ios_tests_id = object_id(id_base, kind, xfw_name, "_iosTests");
        let ios_tests_item = PlistKeyValueItem::create_array_type(
            ios_tests_id.as_str(),
            Some(cat(xfw_name, "_iosTests").as_str()),
            Items::new()
                .with(PlistKeyValueItem::create_value_type("isa", None, kind, None))
                .with(PlistKeyValueItem::create_value_type(
                    "buildConfigurationList",
                    None,
                    pbx_config_list.ios_tests.as_str(),
                    Some(
                        cat3(
                            "Build configuration list for PBXNativeTarget \"",
                            xfw_name,
                            "_iosTests\"",
                        ).as_str(),
                    ),
                ))
                .with(Entries::new()
                    .with(
                        pbx_sources_build_ids_ref.ios_tests_swift.as_str(),
                        Some("Sources".to_owned()),
                    )
                    .with(
                        pbx_framework_build_ids_ref.ios_tests_xctest.as_str(),
                        Some("Frameworks".to_owned()),
                    )
                    .with(
                        pbx_resources_build_ids_ref.ios_tests.as_str(),
                        Some("Resources".to_owned()),
                    )
                    .tuple("buildPhases"))
                .with(Entries::new()
                    .tuple("buildRules"))
                .with(Entries::new()
                    .with(
                        pbx_target_dependency_ids.ios_id.as_str(),
                        Some("PBXTargetDependency".to_owned()),
                    )
                    .tuple("dependencies"))
                .with(PlistKeyValueItem::create_value_type(
                    "name",
                    None,
                    cat3("\"", xfw_name, "_iosTests\"").as_str(),
                    None,
                ))
                .with(PlistKeyValueItem::create_value_type(
                    "productName",
                    None,
                    cat3("\"", xfw_name, "_iosTests\"").as_str(),
                    None,
                ))
                .with(PlistKeyValueItem::create_value_type(
                    "productReference",
                    None,
                    pbx_file_ref_ids.ios_tests_xc.as_str(),
                    Some(cat3("\"", xfw_name, "_iosTests.xctest\"").as_str()),
                ))
                .with(PlistKeyValueItem::create_value_type(
                    "productType",
                    None,
                    "\"com.apple.product-type.bundle.unit-test\"",
                    None,
                ))
                .done(),
        );
        let macos_id = object_id(id_base, kind, xfw_name, "_macos");
        let macos_item = PlistKeyValueItem::create_array_type(
            macos_id.as_str(),
            Some(cat(xfw_name, "_macos").as_str()),
            Items::new()
                .with(PlistKeyValueItem::create_value_type("isa", None, kind, None))
                .with(PlistKeyValueItem::create_value_type(
                    "buildConfigurationList",
                    None,
                    pbx_config_list.macos.as_str(),
                    Some(
                        cat3(
                            "Build configuration list for PBXNativeTarget \"",
                            xfw_name,
                            "_ios\"",
                        ).as_str(),
                    ),
                ))
                .with(Entries::new()
                    .with(pbx_shell_script_ids_ref.macos.as_str(), Some("ShellScript".to_owned()))
                    .with(
                        pbx_headers_build_ids_ref.headers_macos.as_str(),
                        Some("Headers".to_owned()),
                    )
                    .with(pbx_sources_build_ids_ref.macos_docc.as_str(), Some("Sources".to_owned()))
                    .with(
                        pbx_framework_build_ids_ref.macos_framework.as_str(),
                        Some("Frameworks".to_owned()),
                    )
                    .with(pbx_resources_build_ids_ref.macos.as_str(), Some("Resources".to_owned()))
                    .tuple("buildPhases"))
                .with(Entries::new()
                    .with(pbx_build_rule_ids_ref.macos.as_str(), Some("PBXBuildRule".to_owned()))
                    .tuple("buildRules"))
                .with(PlistKeyValueItem::create_value_type(
                    "name",
                    None,
                    cat3("\"", xfw_name, "_macos\"").as_str(),
                    None,
                ))
                .with(PlistKeyValueItem::create_value_type(
                    "productName",
                    None,
                    cat3("\"", xfw_name, "_macos\"").as_str(),
                    None,
                ))
                .with(PlistKeyValueItem::create_value_type(
                    "productReference",
                    None,
                    pbx_file_ref_ids.macos_framework.as_str(),
                    Some(cat3("\"", xfw_name, "_macos.framework\"").as_str()),
                ))
                .with(PlistKeyValueItem::create_value_type(
                    "productType",
                    None,
                    "\"com.apple.product-type.framework\"",
                    None,
                ))
                .done(),
        );
        let macos_tests_id = object_id(id_base, kind, xfw_name, "_macosTests");
        let macos_tests_item = PlistKeyValueItem::create_array_type(
            macos_tests_id.as_str(),
            Some(cat(xfw_name, "_macosTests").as_str()),
            Items::new()
                .with(PlistKeyValueItem::create_value_type("isa", None, kind, None))
                .with(PlistKeyValueItem::create_value_type(
                    "buildConfigurationList",
                    None,
                    pbx_config_list.macos_test.as_str(),
                    Some(
                        cat3(
                            "Build configuration list for PBXNativeTarget \"",
                            xfw_name,
                            "_macosTests\"",
                        ).as_str(),
                    ),
                ))
                .with(Entries::new()
                    .with(
                        pbx_sources_build_ids_ref.macos_tests_swift.as_str(),
                        Some("Sources".to_owned()),
                    )
                    .with(
                        pbx_framework_build_ids_ref.macos_tests_xctest.as_str(),
                        Some("Frameworks".to_owned()),
                    )
                    .with(
                        pbx_resources_build_ids_ref.macos_tests.as_str(),
                        Some("Resources".to_owned()),
                    )
                    .tuple("buildPhases"))
                .with(Entries::new()
                    .tuple("buildRules"))
                .with(Entries::new()
                    .with(
                        pbx_target_dependency_ids.macos_id.as_str(),
                        Some("PBXTargetDependency".to_owned()),
                    )
                    .tuple("dependencies"))
                .with(PlistKeyValueItem::create_value_type(
                    "name",
                    None,
                    cat3("\"", xfw_name, "_macosTests\"").as_str(),
                    None,
                ))
                .with(PlistKeyValueItem::create_value_type(
                    "productName",
                    None,
                    cat3("\"", xfw_name, "_macosTests\"").as_str(),
                    None,
                ))
                .with(PlistKeyValueItem::create_value_type(
                    "productReference",
                    None,
                    pbx_file_ref_ids.macos_tests_xc.as_str(),
                    Some(cat3("\"", xfw_name, "_macosTests.xctest\"").as_str()),
                ))
                .with(PlistKeyValueItem::create_value_type(
                    "productType",
                    None,
                    "\"com.apple.product-type.bundle.unit-test\"",
                    None,
                ))
                .done(),
        );
        let ids = PBXNativeTargetIds {
            ios: ios_id,
            ios_tests: ios_tests_id,
            macos: macos_id,
            macos_test: macos_tests_id,
        };
        (ids, PlistSectionItem::create(
            kind,
            Items::new()
                .with(ios_item)
                .with(ios_tests_item)
                .with(macos_item)
                .with(macos_tests_item)
                .done(),
        ))
    }

    /// The section that holds the project object of the project `xfw_name`,
    /// under the identifier `project_object_id`.
    pub fn create_pbx_project_section(
        project_object_id: &str,
        pbx_group_ids: &PBXGroupIds,
        pbx_native_target_ids: &PBXNativeTargetIds,
        pbx_xc_config_list_ids: &XCConfigurationListIds,
        xfw_name: &str,
    ) -> (r: PlistItem)
        ensures
            is_section(r@, "PBXProject"@, seq![project_object_id@]),
            r@ == project_section(
                project_object_id@,
                *pbx_group_ids,
                *pbx_native_target_ids,
                *pbx_xc_config_list_ids,
                xfw_name@,
            ),
    {
        proof {
            reveal(are_objects);
            reveal(project_section);
        }
        let kind = "PBXProject";
        let project_item = PlistKeyValueItem::create_array_type(
            project_object_id,
            Some("Project object"),
            Items::new()
                .with(PlistKeyValueItem::create_value_type("isa", None, kind, None))
                .with(PlistKeyValueItem::create_array_type(
                    "attributes",
                    None,
                    Items::new()
                        .with(PlistKeyValueItem::create_value_type(
                            "BuildIndependentTargetsInParallel",
                            None,
                            "1",
                            None,
                        ))
                        .with(PlistKeyValueItem::create_value_type(
                            "LastSwiftUpdateCheck",
                            None,
                            "1320",
                            None,
                        ))
                        .with(PlistKeyValueItem::create_value_type(
                            "LastUpgradeCheck",
                            None,
                            "1320",
                            None,
                        ))
                        .with(PlistKeyValueItem::create_array_type(
                            "TargetAttributes",
                            None,
                            Items::new()
                                .with(PlistKeyValueItem::create_array_type(
                                    pbx_native_target_ids.ios.as_str(),
                                    None,
                                    Items::new()
                                        .with(PlistKeyValueItem::create_value_type(
                                            "CreatedOnToolsVersion",
                                            None,
                                            "13.2.1",
                                            None,
                                        ))
                                        .done(),
                                ))
                                .with(PlistKeyValueItem::create_array_type(
                                    pbx_native_target_ids.ios_tests.as_str(),
                                    None,
                                    Items::new()
                                        .with(PlistKeyValueItem::create_value_type(
                                            "CreatedOnToolsVersion",
                                            None,
                                            "13.2.1",
                                            None,
                                        ))
                                        .done(),
                                ))
                                .with(PlistKeyValueItem::create_array_type(
                                    pbx_native_target_ids.macos.as_str(),
                                    None,
                                    Items::new()
                                        .with(PlistKeyValueItem::create_value_type(
                                            "CreatedOnToolsVersion",
                                            None,
                                            "13.2.1",
                                            None,
                                        ))
                                        .done(),
                                ))
                                .with(PlistKeyValueItem::create_array_type(
                                    pbx_native_target_ids.macos_test.as_str(),
                                    None,
                                    Items::new()
                                        .with(PlistKeyValueItem::create_value_type(
                                            "CreatedOnToolsVersion",
                                            None,
                                            "13.2.1",
                                            None,
                                        ))
                                        .done(),
                                ))
                                .done(),
                        ))
                        .done(),
                ))
                .with(PlistKeyValueItem::create_value_type(
                    "buildConfigurationList",
                    None,
                    pbx_xc_config_list_ids.shared.as_str(),
                    Some(
                        cat3("Build configuration list for PBXProject \"", xfw_name, "\"").as_str(),
                    ),
                ))
                .with(PlistKeyValueItem::create_value_type(
                    "compatibilityVersion",
                    None,
                    "\"Xcode 13.0\"",
                    None,
                ))
                .with(PlistKeyValueItem::create_value_type("developmentRegion", None, "en", None))
                .with(
                    PlistKeyValueItem::create_value_type("hasScannedForEncodings", None, "0", None),
                )
                .with(Entries::new()
                    .with("en", None)
                    .with("Base", None)
                    .tuple("knownRegions"))
                .with(PlistKeyValueItem::create_value_type(
                    "mainGroup",
                    None,
                    pbx_group_ids.groups.as_str(),
                    None,
                ))
                .with(PlistKeyValueItem::create_value_type(
                    "productRefGroup",
                    None,
                    pbx_group_ids.products.as_str(),
                    Some("Products"),
                ))
                .with(PlistKeyValueItem::create_value_type("projectDirPath", None, "\"\"", None))
                .with(PlistKeyValueItem::create_value_type("projectRoot", None, "\"\"", None))
                .with(Entries::new()
                    .with(pbx_native_target_ids.ios.as_str(), Some(cat(xfw_name, "_ios")))
                    .with(
                        pbx_native_target_ids.ios_tests.as_str(),
                        Some(cat(xfw_name, "_iosTests")),
                    )
                    .with(pbx_native_target_ids.macos.as_str(), Some(cat(xfw_name, "_macos")))
                    .with(
                        pbx_native_target_ids.macos_test.as_str(),
                        Some(cat(xfw_name, "_macosTests")),
                    )
                    .tuple("targets"))
                .done(),
        );
        PlistSectionItem::create(
            kind,
            Items::new()
                .with(project_item)
                .done(),
        )
    }
}

} // verus!
