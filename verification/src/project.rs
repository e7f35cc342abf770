//! A project as a whole: the names it is made from, the seed of its
//! identifiers, and the document that describes it.

use crate::id::{derive_id, derive_seed, digits, id_of, seed_of};
use crate::names::{cat, ends_in, ends_with};
use crate::configuration_sections::{configuration_list_section, configurations};
use crate::file_sections::{
    build_file_entries, build_files, distinct_names, entries_of, file_references,
};
use crate::group_sections::group_section;
use crate::objects::{is_section, ProjectIds};
use crate::phase_sections::{
    build_rule_section, frameworks_build_section, headers_build_section,
    resource_build_phase_section, shell_script_build_phase_section, sources_build_section,
};
use crate::target_sections::{
    container_item_proxy_section, native_target_section, project_section,
    target_dependency_section,
};
use crate::types::{KeyNode, PlistItem, PlistKeyValueItem, PlistNode};
use vstd::prelude::*;
use vstd::string::StrSliceExecFns;

verus! {

/// The names from which a project is made.
pub struct CargoPackage {
    /// The name of the Cargo package.
    pub package_name: String,
    /// The name of the library that the package builds.
    pub target_name: String,
    /// The name of the frameworks' project.
    pub xcode_framework_name: String,
    /// The first part of the bundle identifiers of the targets.
    pub base_bundle_identifier: String,
    /// The way from the project's directory to the package's.
    pub cargo_relative_path_to_xcode_project: String,
    /// The interface definition files of the package: the way to each from
    /// the project's directory, and its name.
    pub udl_relative_files_path: Vec<(String, String)>,
}

/// A project: a package and the seed of the identifiers of its objects.
pub struct XcodeProject {
    id_base: u64,
    package: CargoPackage,
}

/// Whether `node` is the section of the kind `kind`.
pub open spec fn is_kind(node: PlistNode, kind: Seq<char>) -> bool {
    node is SectionItem && node->SectionItem_name == kind
}

/// Whether `sections` are the fifteen sections of a document, in the order
/// of their kinds.
pub open spec fn are_sections(sections: Seq<PlistNode>) -> bool {
    &&& sections.len() == 15
    &&& is_kind(sections[0], "PBXBuildFile"@)
    &&& is_kind(sections[1], "PBXBuildRule"@)
    &&& is_kind(sections[2], "PBXContainerItemProxy"@)
    &&& is_kind(sections[3], "PBXFileReference"@)
    &&& is_kind(sections[4], "PBXFrameworksBuildPhase"@)
    &&& is_kind(sections[5], "PBXGroup"@)
    &&& is_kind(sections[6], "PBXHeadersBuildPhase"@)
    &&& is_kind(sections[7], "PBXNativeTarget"@)
    &&& is_kind(sections[8], "PBXProject"@)
    &&& is_kind(sections[9], "PBXResourcesBuildPhase"@)
    &&& is_kind(sections[10], "PBXShellScriptBuildPhase"@)
    &&& is_kind(sections[11], "PBXSourcesBuildPhase"@)
    &&& is_kind(sections[12], "PBXTargetDependency"@)
    &&& is_kind(sections[13], "XCBuildConfiguration"@)
    &&& is_kind(sections[14], "XCConfigurationList"@)
}

/// The item `key = text;` without comments.
pub open spec fn plain_item(key: Seq<char>, text: Seq<char>) -> PlistNode {
    PlistNode::Item {
        key: KeyNode { name: key, comment: None },
        value: Box::new(PlistNode::Value { text, comment: None }),
    }
}

impl ProjectIds {
    /// Whether the identifiers are those of the project `package` under the
    /// seed `id_base`: each is derived from the kind of its object and from
    /// the name of the project, and the two tables hold the interface
    /// definition files of the package, in the order of the package and
    /// each under its name once.
    pub open spec fn derived(&self, id_base: u64, package: CargoPackage) -> bool {
        let name = package.xcode_framework_name@;
        let files = package.udl_relative_files_path@;
        &&& self.references.fixed(id_base, name)
        &&& self.references.covers(id_base, files, files.len() as int)
        &&& self.references.udl_files.wf()
        &&& forall|file: Seq<char>|
            #[trigger] self.references.udl_files.has(file) ==> exists|j: int|
                0 <= j < files.len() && #[trigger] files[j].1@ == file
        &&& self.references.udl_files.keys() == distinct_names(files, files.len() as int)
        &&& self.build_files.fixed(id_base, name)
        &&& self.build_files.udl_files.wf()
        &&& entries_of(self.build_files.udl_files) == build_file_entries(
            id_base,
            files,
            files.len() as int,
        )
        &&& self.headers.fixed(id_base, name)
        &&& self.sources.fixed(id_base, name)
        &&& self.frameworks.fixed(id_base, name)
        &&& self.rules.fixed(id_base, name)
        &&& self.resources.fixed(id_base, name)
        &&& self.groups.fixed(id_base, name)
        &&& self.scripts.fixed(id_base, name)
        &&& self.configurations.fixed(id_base, name)
        &&& self.lists.fixed(id_base, name)
        &&& self.dependencies.fixed(id_base, name)
        &&& self.targets.fixed(id_base, name)
    }
}

/// The fifteen sections of the document of the project `package`, in the
/// order of their kinds, as they are with the identifiers `ids` and with
/// the project object under the identifier `root`.
pub open spec fn sections_of(
    ids: ProjectIds,
    id_base: u64,
    package: CargoPackage,
    root: Seq<char>,
) -> Seq<PlistNode> {
    let name = package.xcode_framework_name@;
    let files = package.udl_relative_files_path@;
    let place = package.cargo_relative_path_to_xcode_project@;
    seq![
        PlistNode::SectionItem {
            name: "PBXBuildFile"@,
            items: build_files(id_base, name, ids.references, files, files.len() as int),
        },
        build_rule_section(name, id_base),
        container_item_proxy_section(root, ids.dependencies, name, id_base),
        PlistNode::SectionItem {
            name: "PBXFileReference"@,
            items: file_references(id_base, name, files, files.len() as int),
        },
        frameworks_build_section(ids.build_files, name, id_base),
        group_section(ids.references, name, id_base),
        headers_build_section(ids.build_files, name, id_base),
        native_target_section(
            ids.dependencies,
            ids.lists,
            ids.references,
            ids.scripts,
            ids.sources,
            ids.frameworks,
            ids.headers,
            ids.resources,
            ids.rules,
            name,
            id_base,
        ),
        project_section(root, ids.groups, ids.targets, ids.lists, name),
        resource_build_phase_section(name, id_base),
        shell_script_build_phase_section(
            place,
            package.package_name@,
            package.target_name@,
            name,
            id_base,
        ),
        sources_build_section(ids.build_files, name, id_base),
        target_dependency_section(name, id_base),
        PlistNode::SectionItem {
            name: "XCBuildConfiguration"@,
            items: configurations(
                id_base,
                package.base_bundle_identifier@,
                place,
                package.target_name@,
                name,
            ),
        },
        configuration_list_section(ids.configurations, name, id_base),
    ]
}

/// Whether `sections` are the sections of the document of the project
/// `package`: there are identifiers, derived as the sections derive them,
/// with which the sections are what `sections_of` says.
pub open spec fn are_sections_of(
    sections: Seq<PlistNode>,
    id_base: u64,
    package: CargoPackage,
    root: Seq<char>,
) -> bool {
    exists|ids: ProjectIds|
        ids.derived(id_base, package) && #[trigger] sections_of(ids, id_base, package, root)
            == sections
}

/// Fifteen nodes that are, one by one, what `sections_of` lists are the
/// sections of the document.
proof fn lemma_sections_of(
    nodes: Seq<PlistNode>,
    ids: ProjectIds,
    id_base: u64,
    package: CargoPackage,
    root: Seq<char>,
)
    requires
        ids.derived(id_base, package),
        nodes.len() == 15,
        ({
            let name = package.xcode_framework_name@;
            let files = package.udl_relative_files_path@;
            let place = package.cargo_relative_path_to_xcode_project@;
            &&& nodes[0] == PlistNode::SectionItem {
                name: "PBXBuildFile"@,
                items: build_files(id_base, name, ids.references, files, files.len() as int),
            }
            &&& nodes[1] == build_rule_section(name, id_base)
            &&& nodes[2] == container_item_proxy_section(root, ids.dependencies, name, id_base)
            &&& nodes[3] == PlistNode::SectionItem {
                name: "PBXFileReference"@,
                items: file_references(id_base, name, files, files.len() as int),
            }
            &&& nodes[4] == frameworks_build_section(ids.build_files, name, id_base)
            &&& nodes[5] == group_section(ids.references, name, id_base)
            &&& nodes[6] == headers_build_section(ids.build_files, name, id_base)
            &&& nodes[7] == native_target_section(
                ids.dependencies,
                ids.lists,
                ids.references,
                ids.scripts,
                ids.sources,
                ids.frameworks,
                ids.headers,
                ids.resources,
                ids.rules,
                name,
                id_base,
            )
            &&& nodes[8] == project_section(root, ids.groups, ids.targets, ids.lists, name)
            &&& nodes[9] == resource_build_phase_section(name, id_base)
            &&& nodes[10] == shell_script_build_phase_section(
                place,
                package.package_name@,
                package.target_name@,
                name,
                id_base,
            )
            &&& nodes[11] == sources_build_section(ids.build_files, name, id_base)
            &&& nodes[12] == target_dependency_section(name, id_base)
            &&& nodes[13] == PlistNode::SectionItem {
                name: "XCBuildConfiguration"@,
                items: configurations(
                    id_base,
                    package.base_bundle_identifier@,
                    place,
                    package.target_name@,
                    name,
                ),
            }
            &&& nodes[14] == configuration_list_section(ids.configurations, name, id_base)
        }),
    ensures
        are_sections_of(nodes, id_base, package, root),
{
    assert(nodes =~= sections_of(ids, id_base, package, root));
}

/// Whether `node` is the item `objects` of a document: an array of the
/// fifteen sections.
pub open spec fn holds_sections(node: PlistNode) -> bool {
    &&& node is Item
    &&& node->Item_key == (KeyNode { name: "objects"@, comment: None })
    &&& *node->Item_value is Array
    &&& are_sections((*node->Item_value)->Array_items)
}

/// Whether a file of this name is a project: the name ends in
/// `.xcodeproj`, and something stands before that.
pub open spec fn is_project_name(file_name: Seq<char>) -> bool {
    ends_in(file_name, ".xcodeproj"@) && file_name.len() > ".xcodeproj"@.len()
}

/// Whether a file of this name is a project other than the project `name`.
pub open spec fn is_other_project(file_name: Seq<char>, name: Seq<char>) -> bool {
    is_project_name(file_name) && file_name != name + ".xcodeproj"@
}

impl XcodeProject {
    /// Looks among the names of the files of a directory for the project
    /// named `name`. A project of another name in the same directory is an
    /// error, which names the first such project; without one, the answer
    /// says whether the project is there.
    pub fn find_existing(file_names: &Vec<String>, name: &str) -> (r: Result<bool, String>)
        ensures
            match r {
                Ok(found) => {
                    &&& forall|i: int|
                        0 <= i < file_names.len() ==> !is_other_project(
                            #[trigger] file_names[i]@,
                            name@,
                        )
                    &&& found == exists|i: int|
                        0 <= i < file_names.len() && #[trigger] file_names[i]@ == name@
                            + ".xcodeproj"@ && is_project_name(file_names[i]@)
                },
                Err(other) => exists|i: int|
                    0 <= i < file_names.len() && #[trigger] file_names[i]@ == other@
                        && is_other_project(other@, name@) && forall|j: int|
                        0 <= j < i ==> !is_other_project(#[trigger] file_names[j]@, name@),
            },
    {
        let expected = cat(name, ".xcodeproj");
        let suffix_len = ".xcodeproj".unicode_len();
        let mut found = false;
        let mut i: usize = 0;
        while i < file_names.len()
            invariant
                i <= file_names.len(),
                expected@ == name@ + ".xcodeproj"@,
                suffix_len == ".xcodeproj"@.len(),
                forall|j: int| 0 <= j < i ==> !is_other_project(#[trigger] file_names[j]@, name@),
                found == exists|j: int|
                    0 <= j < i && #[trigger] file_names[j]@ == name@ + ".xcodeproj"@
                        && is_project_name(file_names[j]@),
            decreases file_names.len() - i,
        {
            let file_name = &file_names[i];
            if ends_with(file_name.as_str(), ".xcodeproj") && file_name.as_str().unicode_len()
                > suffix_len {
                if *file_name == expected {
                    found = true;
                } else {
                    return Err(file_name.clone());
                }
            }
            i += 1;
        }
        Ok(found)
    }

    /// The seed under which this project derives its identifiers.
    pub closed spec fn seed(&self) -> u64 {
        self.id_base
    }

    /// The package of this project, as contracts see it.
    pub closed spec fn names(&self) -> CargoPackage {
        self.package
    }

    /// The project of `package`: its seed is the checksum of the name of
    /// the package's library.
    pub fn new(package: CargoPackage) -> (r: Self)
        ensures
            r.seed() == seed_of(package.target_name@),
            r.names() == package,
    {
        let id_base = derive_seed(package.target_name.as_str());
        XcodeProject { id_base, package }
    }

    /// The seed.
    pub fn id_base(&self) -> (r: u64)
        ensures
            r == self.seed(),
    {
        self.id_base
    }

    /// The package.
    pub fn package(&self) -> (r: &CargoPackage)
        ensures
            *r == self.names(),
    {
        &self.package
    }

    /// The identifier of the object of kind `kind` that is named `name` in
    /// this project.
    pub fn make_id(&self, kind: &str, name: &str) -> (r: String)
        ensures
            r@ == id_of(self.seed(), kind@, name@),
            r@.len() == 24,
            forall|i: int| 0 <= i < 24 ==> digits().contains(#[trigger] r@[i]),
    {
        derive_id(self.id_base, kind, name)
    }

    /// The identifier of the object of kind `kind` that is named `name`,
    /// under the seed `id_base`: 24 hexadecimal digits in upper case, the
    /// same for the same three arguments.
    pub fn make_id_inst(id_base: u64, kind: &str, name: &str) -> (r: String)
        ensures
            r@ == id_of(id_base, kind@, name@),
            r@.len() == 24,
            forall|i: int| 0 <= i < 24 ==> digits().contains(#[trigger] r@[i]),
    {
        derive_id(id_base, kind, name)
    }

    /// The sections of the document, in their order. The section
    /// `PBXProject` holds the project object under `root_object_id`.
    #[verifier::rlimit(30)]
    fn sections(&self, root_object_id: &str) -> (r: Vec<PlistItem>)
        ensures
            are_sections(r.deep_view()),
            is_section(r.deep_view()[8], "PBXProject"@, seq![root_object_id@]),
            are_sections_of(r.deep_view(), self.seed(), self.names(), root_object_id@),
    {
        let (pbx_file_reference_section_ids, pbx_file_reference_section) =
            PlistKeyValueItem::create_pbx_file_reference_section(
            self.package.xcode_framework_name.as_str(),
            &self.package.udl_relative_files_path,
            self.id_base,
        );
        let (pbx_build_file_section_ids, pbx_build_file_section) =
            PlistKeyValueItem::create_pbx_build_file_section(
            &pbx_file_reference_section_ids,
            self.package.xcode_framework_name.as_str(),
            &self.package.udl_relative_files_path,
            self.id_base,
        );
        let (pbx_headers_build_section_ids, pbx_headers_build_section) =
            PlistKeyValueItem::create_pbx_headers_build_section(
            &pbx_build_file_section_ids,
            self.package.xcode_framework_name.as_str(),
            self.id_base,
        );
        let (pbx_sources_build_section_ids, pbx_sources_build_section) =
            PlistKeyValueItem::create_pbx_sources_build_section(
            &pbx_build_file_section_ids,
            self.package.xcode_framework_name.as_str(),
            self.id_base,
        );
        let (pbx_frameworks_build_section_ids, pbx_frameworks_build_section) =
            PlistKeyValueItem::create_pbx_frameworks_build_section(
            &pbx_build_file_section_ids,
            self.package.xcode_framework_name.as_str(),
            self.id_base,
        );
        let (pbx_build_rule_section_ids, pbx_build_rule_section) =
            PlistKeyValueItem::create_pbx_build_rule_section(
            self.package.xcode_framework_name.as_str(),
            self.id_base,
        );
        let (pbx_resource_build_section_ids, pbx_resource_build_section) =
            PlistKeyValueItem::create_pbx_resource_build_phase_section(
            self.package.xcode_framework_name.as_str(),
            self.id_base,
        );
        let (pbx_group_section_ids, pbx_group_section) = PlistKeyValueItem::create_pbx_group_section(
            &pbx_file_reference_section_ids,
            self.package.xcode_framework_name.as_str(),
            self.id_base,
        );
        let (pbx_shell_script_build_ids, pbx_shell_script_build_section) =
            PlistKeyValueItem::create_pbx_shell_script_build_phase_section(
            self.package.cargo_relative_path_to_xcode_project.as_str(),
            self.package.package_name.as_str(),
            self.package.target_name.as_str(),
            self.package.xcode_framework_name.as_str(),
            self.id_base,
        );
        let (pbx_xc_build_config_ids, pbx_xc_build_config_item) =
            PlistKeyValueItem::create_pbx_xc_build_configuration_section(
            self.package.base_bundle_identifier.as_str(),
            self.package.cargo_relative_path_to_xcode_project.as_str(),
            self.package.target_name.as_str(),
            self.package.xcode_framework_name.as_str(),
            self.id_base,
        );
        let (pbx_xc_config_list_ids, pbx_xc_config_list_item) =
            PlistKeyValueItem::create_pbx_xc_configuration_list_section(
            &pbx_xc_build_config_ids,
            self.package.xcode_framework_name.as_str(),
            self.id_base,
        );
        let (pbx_target_dependency_ids, pbx_target_dependency_item) =
            PlistKeyValueItem::create_pbx_target_dependency_section(
            self.package.xcode_framework_name.as_str(),
            self.id_base,
        );
        let (_, pbx_container_item_proxy_item) =
            PlistKeyValueItem::create_pbx_container_item_proxy_section(
            root_object_id,
            &pbx_target_dependency_ids,
            self.package.xcode_framework_name.as_str(),
            self.id_base,
        );
        let (pbx_native_target_ids, pbx_native_target_item) =
            PlistKeyValueItem::create_pbx_native_target_section(
            &pbx_target_dependency_ids,
            &pbx_xc_config_list_ids,
            &pbx_file_reference_section_ids,
            &pbx_shell_script_build_ids,
            &pbx_sources_build_section_ids,
            &pbx_frameworks_build_section_ids,
            &pbx_headers_build_section_ids,
            &pbx_resource_build_section_ids,
            &pbx_build_rule_section_ids,
            self.package.xcode_framework_name.as_str(),
            self.id_base,
        );
        let pbx_project_item = PlistKeyValueItem::create_pbx_project_section(
            root_object_id,
            &pbx_group_section_ids,
            &pbx_native_target_ids,
            &pbx_xc_config_list_ids,
            self.package.xcode_framework_name.as_str(),
        );
        let sections = vec![
            pbx_build_file_section,
            pbx_build_rule_section,
            pbx_container_item_proxy_item,
            pbx_file_reference_section,
            pbx_frameworks_build_section,
            pbx_group_section,
            pbx_headers_build_section,
            pbx_native_target_item,
            pbx_project_item,
            pbx_resource_build_section,
            pbx_shell_script_build_section,
            pbx_sources_build_section,
            pbx_target_dependency_item,
            pbx_xc_build_config_item,
            pbx_xc_config_list_item,
        ];
        proof {
            let ids = ProjectIds {
                references: pbx_file_reference_section_ids,
                build_files: pbx_build_file_section_ids,
                headers: pbx_headers_build_section_ids,
                sources: pbx_sources_build_section_ids,
                frameworks: pbx_frameworks_build_section_ids,
                rules: pbx_build_rule_section_ids,
                resources: pbx_resource_build_section_ids,
                groups: pbx_group_section_ids,
                scripts: pbx_shell_script_build_ids,
                configurations: pbx_xc_build_config_ids,
                lists: pbx_xc_config_list_ids,
                dependencies: pbx_target_dependency_ids,
                targets: pbx_native_target_ids,
            };
            lemma_sections_of(
                sections.deep_view(),
                ids,
                self.id_base,
                self.package,
                root_object_id@,
            );
        }
        sections
    }

    /// The top-level nodes of the document that describes this project:
    /// the version of the archive, the classes, the version of the objects,
    /// the objects in their sections, and the identifier of the project
    /// object, which the section `PBXProject` holds.
    pub fn generate_pbx_project(&self) -> (r: Vec<PlistItem>)
        ensures
            r.len() == 5,
            r[0]@ == plain_item("archiveVersion"@, "1"@),
            r[1]@ == (PlistNode::Item {
                key: KeyNode { name: "classes"@, comment: None },
                value: Box::new(PlistNode::Array { items: Seq::empty() }),
            }),
            r[2]@ == plain_item("objectVersion"@, "55"@),
            holds_sections(r[3]@),
            are_sections_of(
                (*r[3]@->Item_value)->Array_items,
                self.seed(),
                self.names(),
                id_of(self.seed(), "rootObject"@, self.names().xcode_framework_name@),
            ),
            is_section(
                (*r[3]@->Item_value)->Array_items[8],
                "PBXProject"@,
                seq![id_of(self.seed(), "rootObject"@, self.names().xcode_framework_name@)],
            ),
            r[4]@ == (PlistNode::Item {
                key: KeyNode { name: "rootObject"@, comment: None },
                value: Box::new(
                    PlistNode::Value {
                        text: id_of(self.seed(), "rootObject"@, self.names().xcode_framework_name@),
                        comment: Some("Project object"@),
                    },
                ),
            }),
    {
        let mut items: Vec<PlistItem> = vec![];
        let root_object_id = self.make_id("rootObject", self.package.xcode_framework_name.as_str());
        let root_object = PlistKeyValueItem::create_value_type(
            "rootObject",
            None,
            root_object_id.as_str(),
            Some("Project object"),
        );
        let archive_version = PlistKeyValueItem::create_value_type(
            "archiveVersion",
            None,
            "1",
            None,
        );
        let none: Vec<PlistItem> = vec![];
        assert(none.deep_view() =~= Seq::<PlistNode>::empty());
        let classes = PlistKeyValueItem::create_array_type("classes", None, none);
        let object_version = PlistKeyValueItem::create_value_type("objectVersion", None, "55", None);
        items.push(archive_version);
        items.push(classes);
        items.push(object_version);

        let sections = self.sections(root_object_id.as_str());
        let objects = PlistKeyValueItem::create_array_type("objects", None, sections);
        items.push(objects);
        items.push(root_object);
        items
    }
}

} // verus!
