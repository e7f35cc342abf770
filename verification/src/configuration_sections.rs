//! The sections of the build configurations: the settings with which each
//! target is built for debugging and for release, and the lists that give
//! each target its two configurations.

use crate::names::{cat3, cat5, named_id, object_id};
use crate::objects::{
    are_objects, array_item, entry, is_section, isa, line, object, section, tuple_item,
    value_item, Entries, Items, XCBuildConfigurationIds, XCConfigurationListIds,
};
use crate::types::{
    lemma_push_deep_view, tuple_values, KeyNode, PlistItem, PlistKeyValueItem, PlistNode,
    PlistSectionItem, PlistTupleItem,
};
use vstd::prelude::*;

verus! {

impl XCBuildConfigurationIds {
    /// Each identifier is derived from the kind of its object and from the
    /// object's name, which begins with `name`.
    pub open spec fn fixed(&self, id_base: u64, name: Seq<char>) -> bool {
        &&& self.shared_debug@ == named_id(id_base, "XCBuildConfiguration"@, name, "-shared-Debug"@)
        &&& self.shared_release@ == named_id(
            id_base,
            "XCBuildConfiguration"@,
            name,
            "-shared-Release"@,
        )
        &&& self.ios_debug@ == named_id(id_base, "XCBuildConfiguration"@, name, "_ios-Debug"@)
        &&& self.ios_release@ == named_id(id_base, "XCBuildConfiguration"@, name, "_ios-Release"@)
        &&& self.ios_tests_debug@ == named_id(
            id_base,
            "XCBuildConfiguration"@,
            name,
            "_iosTests-Debug"@,
        )
        &&& self.ios_tests_release@ == named_id(
            id_base,
            "XCBuildConfiguration"@,
            name,
            "_iosTests-Release"@,
        )
        &&& self.macos_debug@ == named_id(id_base, "XCBuildConfiguration"@, name, "_macos-Debug"@)
        &&& self.macos_release@ == named_id(
            id_base,
            "XCBuildConfiguration"@,
            name,
            "_macos-Release"@,
        )
        &&& self.macos_tests_debug@ == named_id(
            id_base,
            "XCBuildConfiguration"@,
            name,
            "_macosTests-Debug"@,
        )
        &&& self.macos_tests_release@ == named_id(
            id_base,
            "XCBuildConfiguration"@,
            name,
            "_macosTests-Release"@,
        )
    }

    /// The identifiers of the objects of the section, in their order.
    pub open spec fn in_order(&self) -> Seq<Seq<char>> {
        seq![
            self.shared_debug@,
            self.shared_release@,
            self.ios_debug@,
            self.ios_release@,
            self.ios_tests_debug@,
            self.ios_tests_release@,
            self.macos_debug@,
            self.macos_release@,
            self.macos_tests_debug@,
            self.macos_tests_release@,
        ]
    }
}

impl XCConfigurationListIds {
    /// Each identifier is derived from the kind of its object and from the
    /// object's name, which begins with `name`.
    pub open spec fn fixed(&self, id_base: u64, name: Seq<char>) -> bool {
        &&& self.shared@ == named_id(id_base, "XCConfigurationList"@, name, "-shared-config"@)
        &&& self.ios@ == named_id(id_base, "XCConfigurationList"@, name, "_ios-config"@)
        &&& self.ios_tests@ == named_id(id_base, "XCConfigurationList"@, name, "_iosTests-config"@)
        &&& self.macos@ == named_id(id_base, "XCConfigurationList"@, name, "_macos-config"@)
        &&& self.macos_test@ == named_id(
            id_base,
            "XCConfigurationList"@,
            name,
            "_macosTests-config"@,
        )
    }

    /// The identifiers of the objects of the section, in their order.
    pub open spec fn in_order(&self) -> Seq<Seq<char>> {
        seq![self.shared@, self.ios@, self.ios_tests@, self.macos@, self.macos_test@]
    }
}

/// The build settings of the whole project when it is built for debugging.
pub open spec fn shared_debug_settings(
    cargo_relative_path_to_xcode_project: Seq<char>,
    cargo_lib_name: Seq<char>,
    xfw_name: Seq<char>,
) -> Seq<PlistNode> {
    seq![
        line("ALWAYS_SEARCH_USER_PATHS"@, "NO"@),
        line("CLANG_ANALYZER_NONNULL"@, "YES"@),
        line("CLANG_ANALYZER_NUMBER_OBJECT_CONVERSION"@, "YES_AGGRESSIVE"@),
        line("CLANG_CXX_LANGUAGE_STANDARD"@, "\"gnu++17\""@),
        line("CLANG_CXX_LIBRARY"@, "\"libc++\""@),
        line("CLANG_ENABLE_MODULES"@, "YES"@),
        line("CLANG_ENABLE_OBJC_ARC"@, "YES"@),
        line("CLANG_ENABLE_OBJC_WEAK"@, "YES"@),
        line("CLANG_WARN_BLOCK_CAPTURE_AUTORELEASING"@, "YES"@),
        line("CLANG_WARN_BOOL_CONVERSION"@, "YES"@),
        line("CLANG_WARN_COMMA"@, "YES"@),
        line("CLANG_WARN_CONSTANT_CONVERSION"@, "YES"@),
        line("CLANG_WARN_DEPRECATED_OBJC_IMPLEMENTATIONS"@, "YES"@),
        line("CLANG_WARN_DIRECT_OBJC_ISA_USAGE"@, "YES_ERROR"@),
        line("CLANG_WARN_DOCUMENTATION_COMMENTS"@, "YES"@),
        line("CLANG_WARN_EMPTY_BODY"@, "YES"@),
        line("CLANG_WARN_ENUM_CONVERSION"@, "YES"@),
        line("CLANG_WARN_INFINITE_RECURSION"@, "YES"@),
        line("CLANG_WARN_INT_CONVERSION"@, "YES"@),
        line("CLANG_WARN_NON_LITERAL_NULL_CONVERSION"@, "YES"@),
        line("CLANG_WARN_OBJC_IMPLICIT_RETAIN_SELF"@, "YES"@),
        line("CLANG_WARN_OBJC_LITERAL_CONVERSION"@, "YES"@),
        line("CLANG_WARN_OBJC_ROOT_CLASS"@, "YES_ERROR"@),
        line("CLANG_WARN_QUOTED_INCLUDE_IN_FRAMEWORK_HEADER"@, "YES"@),
        line("CLANG_WARN_RANGE_LOOP_ANALYSIS"@, "YES"@),
        line("CLANG_WARN_STRICT_PROTOTYPES"@, "YES"@),
        line("CLANG_WARN_SUSPICIOUS_MOVE"@, "YES"@),
        line("CLANG_WARN_UNGUARDED_AVAILABILITY"@, "YES_AGGRESSIVE"@),
        line("CLANG_WARN_UNREACHABLE_CODE"@, "YES"@),
        line("CLANG_WARN__DUPLICATE_METHOD_MATCH"@, "YES"@),
        line("COPY_PHASE_STRIP"@, "NO"@),
        line("CURRENT_PROJECT_VERSION"@, "1"@),
        line("DEBUG_INFORMATION_FORMAT"@, "dwarf"@),
        line("ENABLE_BITCODE"@, "NO"@),
        line("ENABLE_STRICT_OBJC_MSGSEND"@, "YES"@),
        line("ENABLE_TESTABILITY"@, "YES"@),
        line("GCC_C_LANGUAGE_STANDARD"@, "gnu11"@),
        line("GCC_DYNAMIC_NO_PIC"@, "NO"@),
        line("GCC_NO_COMMON_BLOCKS"@, "YES"@),
        line("GCC_OPTIMIZATION_LEVEL"@, "0"@),
        line("GCC_WARN_64_TO_32_BIT_CONVERSION"@, "YES"@),
        line("GCC_WARN_ABOUT_RETURN_TYPE"@, "YES_ERROR"@),
        line("GCC_WARN_UNDECLARED_SELECTOR"@, "YES"@),
        line("GCC_WARN_UNINITIALIZED_AUTOS"@, "YES_AGGRESSIVE"@),
        line("GCC_WARN_UNUSED_FUNCTION"@, "YES"@),
        line("GCC_WARN_UNUSED_VARIABLE"@, "YES"@),
        line("OTHER_LDFLAGS"@, "\"-l"@ + cargo_lib_name + "\""@),
        line("HEADER_SEARCH_PATHS"@, "\"$(SRCROOT)/rust_libs/"@ + xfw_name + "\""@),
        line("IPHONEOS_DEPLOYMENT_TARGET"@, "15.2"@),
        line(
            "\"LIBRARY_SEARCH_PATHS[sdk=iphoneos*]\""@,
            "\"$(SRCROOT)/"@ + cargo_relative_path_to_xcode_project + "/target/universal/debug/ios\""@,
        ),
        line(
            "\"LIBRARY_SEARCH_PATHS[sdk=iphonesimulator*]\""@,
            "\"$(SRCROOT)/"@ + cargo_relative_path_to_xcode_project + "/target/universal/debug/ios_sim\""@,
        ),
        line(
            "\"LIBRARY_SEARCH_PATHS[sdk=macosx*]\""@,
            "\"$(SRCROOT)/"@ + cargo_relative_path_to_xcode_project + "/target/universal/debug/osx\""@,
        ),
        line("MTL_ENABLE_DEBUG_INFO"@, "INCLUDE_SOURCE"@),
        line("MTL_FAST_MATH"@, "YES"@),
        line("ONLY_ACTIVE_ARCH"@, "YES"@),
        line("SDKROOT"@, "iphoneos"@),
        line("SWIFT_ACTIVE_COMPILATION_CONDITIONS"@, "DEBUG"@),
        line("SWIFT_INCLUDE_PATHS"@, "\"$(SRCROOT)/rust_libs/"@ + xfw_name + "\""@),
        line("SWIFT_OPTIMIZATION_LEVEL"@, "\"-Onone\""@),
        line("VERSIONING_SYSTEM"@, "\"apple-generic\""@),
        line("VERSION_INFO_PREFIX"@, "\"\""@),
        PlistNode::TupleItem {
            name: "GCC_PREPROCESSOR_DEFINITIONS"@,
            items: seq![
                PlistNode::TupleValue { text: "\"DEBUG=1\""@, comment: None },
                PlistNode::TupleValue { text: "\"$(inherited)\""@, comment: None },
            ],
        },
    ]
}

/// The build settings of the whole project when it is built for release.
pub open spec fn shared_release_settings(
    cargo_relative_path_to_xcode_project: Seq<char>,
    cargo_lib_name: Seq<char>,
    xfw_name: Seq<char>,
) -> Seq<PlistNode> {
    seq![
        line("ALWAYS_SEARCH_USER_PATHS"@, "NO"@),
        line("CLANG_ANALYZER_NONNULL"@, "YES"@),
        line("CLANG_ANALYZER_NUMBER_OBJECT_CONVERSION"@, "YES_AGGRESSIVE"@),
        line("CLANG_CXX_LANGUAGE_STANDARD"@, "\"gnu++17\""@),
        line("CLANG_CXX_LIBRARY"@, "\"libc++\""@),
        line("CLANG_ENABLE_MODULES"@, "YES"@),
        line("CLANG_ENABLE_OBJC_ARC"@, "YES"@),
        line("CLANG_ENABLE_OBJC_WEAK"@, "YES"@),
        line("CLANG_WARN_BLOCK_CAPTURE_AUTORELEASING"@, "YES"@),
        line("CLANG_WARN_BOOL_CONVERSION"@, "YES"@),
        line("CLANG_WARN_COMMA"@, "YES"@),
        line("CLANG_WARN_CONSTANT_CONVERSION"@, "YES"@),
        line("CLANG_WARN_DEPRECATED_OBJC_IMPLEMENTATIONS"@, "YES"@),
        line("CLANG_WARN_DIRECT_OBJC_ISA_USAGE"@, "YES_ERROR"@),
        line("CLANG_WARN_DOCUMENTATION_COMMENTS"@, "YES"@),
        line("CLANG_WARN_EMPTY_BODY"@, "YES"@),
        line("CLANG_WARN_ENUM_CONVERSION"@, "YES"@),
        line("CLANG_WARN_INFINITE_RECURSION"@, "YES"@),
        line("CLANG_WARN_INT_CONVERSION"@, "YES"@),
        line("CLANG_WARN_NON_LITERAL_NULL_CONVERSION"@, "YES"@),
        line("CLANG_WARN_OBJC_IMPLICIT_RETAIN_SELF"@, "YES"@),
        line("CLANG_WARN_OBJC_LITERAL_CONVERSION"@, "YES"@),
        line("CLANG_WARN_OBJC_ROOT_CLASS"@, "YES_ERROR"@),
        line("CLANG_WARN_QUOTED_INCLUDE_IN_FRAMEWORK_HEADER"@, "YES"@),
        line("CLANG_WARN_RANGE_LOOP_ANALYSIS"@, "YES"@),
        line("CLANG_WARN_STRICT_PROTOTYPES"@, "YES"@),
        line("CLANG_WARN_SUSPICIOUS_MOVE"@, "YES"@),
        line("CLANG_WARN_UNGUARDED_AVAILABILITY"@, "YES_AGGRESSIVE"@),
        line("CLANG_WARN_UNREACHABLE_CODE"@, "YES"@),
        line("CLANG_WARN__DUPLICATE_METHOD_MATCH"@, "YES"@),
        line("COPY_PHASE_STRIP"@, "NO"@),
        line("CURRENT_PROJECT_VERSION"@, "1"@),
        line("DEBUG_INFORMATION_FORMAT"@, "\"dwarf-with-dsym\""@),
        line("ENABLE_BITCODE"@, "NO"@),
        line("ENABLE_NS_ASSERTIONS"@, "NO"@),
        line("ENABLE_STRICT_OBJC_MSGSEND"@, "YES"@),
        line("GCC_C_LANGUAGE_STANDARD"@, "gnu11"@),
        line("GCC_NO_COMMON_BLOCKS"@, "YES"@),
        line("GCC_WARN_64_TO_32_BIT_CONVERSION"@, "YES"@),
        line("GCC_WARN_ABOUT_RETURN_TYPE"@, "YES_ERROR"@),
        line("GCC_WARN_UNDECLARED_SELECTOR"@, "YES"@),
        line("GCC_WARN_UNINITIALIZED_AUTOS"@, "YES_AGGRESSIVE"@),
        line("GCC_WARN_UNUSED_FUNCTION"@, "YES"@),
        line("GCC_WARN_UNUSED_VARIABLE"@, "YES"@),
        line("OTHER_LDFLAGS"@, "\"-l"@ + cargo_lib_name + "\""@),
        line("HEADER_SEARCH_PATHS"@, "\"$(SRCROOT)/rust_libs/"@ + xfw_name + "\""@),
        line("IPHONEOS_DEPLOYMENT_TARGET"@, "15.2"@),
        line(
            "\"LIBRARY_SEARCH_PATHS[sdk=iphoneos*]\""@,
            "\"$(SRCROOT)/"@ + cargo_relative_path_to_xcode_project + "/target/universal/release/ios\""@,
        ),
        line(
            "\"LIBRARY_SEARCH_PATHS[sdk=iphonesimulator*]\""@,
            "\"$(SRCROOT)/"@ + cargo_relative_path_to_xcode_project + "/target/universal/release/ios_sim\""@,
        ),
        line(
            "\"LIBRARY_SEARCH_PATHS[sdk=macosx*]\""@,
            "\"$(SRCROOT)/"@ + cargo_relative_path_to_xcode_project + "/target/universal/release/osx\""@,
        ),
        line("MTL_ENABLE_DEBUG_INFO"@, "NO"@),
        line("MTL_FAST_MATH"@, "YES"@),
        line("SDKROOT"@, "iphoneos"@),
        line("SWIFT_COMPILATION_MODE"@, "wholemodule"@),
        line("SWIFT_INCLUDE_PATHS"@, "\"$(SRCROOT)/rust_libs/"@ + xfw_name + "\""@),
        line("SWIFT_OPTIMIZATION_LEVEL"@, "\"-O\""@),
        line("VALIDATE_PRODUCT"@, "YES"@),
        line("VERSIONING_SYSTEM"@, "\"apple-generic\""@),
        line("VERSION_INFO_PREFIX"@, "\"\""@),
    ]
}

/// The build settings of the framework for iOS.
pub open spec fn ios_settings(
    base_bundle_identifier: Seq<char>,
    xfw_name: Seq<char>,
) -> Seq<PlistNode> {
    seq![
        line("CODE_SIGN_STYLE"@, "Automatic"@),
        line("CURRENT_PROJECT_VERSION"@, "1"@),
        line("DEFINES_MODULE"@, "YES"@),
        line("DEVELOPMENT_TEAM"@, "\"\""@),
        line("DYLIB_COMPATIBILITY_VERSION"@, "1"@),
        line("DYLIB_CURRENT_VERSION"@, "1"@),
        line("DYLIB_INSTALL_NAME_BASE"@, "\"@rpath\""@),
        line("GENERATE_INFOPLIST_FILE"@, "YES"@),
        line("INFOPLIST_KEY_NSHumanReadableCopyright"@, "\"\""@),
        line("INSTALL_PATH"@, "\"$(LOCAL_LIBRARY_DIR)/Frameworks\""@),
        line("MARKETING_VERSION"@, "1.0"@),
        line(
            "PRODUCT_BUNDLE_IDENTIFIER"@,
            "\""@ + base_bundle_identifier + "."@ + xfw_name + "-ios\""@,
        ),
        line("PRODUCT_NAME"@, xfw_name),
        line("SKIP_INSTALL"@, "YES"@),
        line("SWIFT_EMIT_LOC_STRINGS"@, "YES"@),
        line("SWIFT_VERSION"@, "5.0"@),
        line("TARGETED_DEVICE_FAMILY"@, "\"1,2\""@),
        PlistNode::TupleItem {
            name: "LD_RUNPATH_SEARCH_PATHS"@,
            items: seq![
                PlistNode::TupleValue { text: "\"$(inherited)\""@, comment: None },
                PlistNode::TupleValue { text: "\"@executable_path/Frameworks\""@, comment: None },
                PlistNode::TupleValue { text: "\"@loader_path/Frameworks\""@, comment: None },
            ],
        },
    ]
}

/// The build settings of the tests of the framework for iOS.
pub open spec fn ios_tests_settings(
    base_bundle_identifier: Seq<char>,
    xfw_name: Seq<char>,
) -> Seq<PlistNode> {
    seq![
        line("CODE_SIGN_STYLE"@, "Automatic"@),
        line("CURRENT_PROJECT_VERSION"@, "1"@),
        line("DEVELOPMENT_TEAM"@, "\"\""@),
        line("GENERATE_INFOPLIST_FILE"@, "YES"@),
        line("MARKETING_VERSION"@, "1.0"@),
        line(
            "PRODUCT_BUNDLE_IDENTIFIER"@,
            "\""@ + base_bundle_identifier + "."@ + xfw_name + "-iosTest\""@,
        ),
        line("PRODUCT_NAME"@, xfw_name),
        line("SWIFT_EMIT_LOC_STRINGS"@, "NO"@),
        line("SWIFT_VERSION"@, "5.0"@),
        line("TARGETED_DEVICE_FAMILY"@, "\"1,2\""@),
    ]
}

/// The build settings of the framework for macOS.
pub open spec fn macos_settings(
    base_bundle_identifier: Seq<char>,
    xfw_name: Seq<char>,
) -> Seq<PlistNode> {
    seq![
        line("CODE_SIGN_STYLE"@, "Automatic"@),
        line("COMBINE_HIDPI_IMAGES"@, "YES"@),
        line("CURRENT_PROJECT_VERSION"@, "1"@),
        line("DEFINES_MODULE"@, "YES"@),
        line("DEVELOPMENT_TEAM"@, "\"\""@),
        line("DYLIB_COMPATIBILITY_VERSION"@, "1"@),
        line("DYLIB_CURRENT_VERSION"@, "1"@),
        line("DYLIB_INSTALL_NAME_BASE"@, "\"@rpath\""@),
        line("GENERATE_INFOPLIST_FILE"@, "YES"@),
        line("INFOPLIST_KEY_NSHumanReadableCopyright"@, "\"\""@),
        line("INSTALL_PATH"@, "\"$(LOCAL_LIBRARY_DIR)/Frameworks\""@),
        line("MACOSX_DEPLOYMENT_TARGET"@, "12.1"@),
        line("MARKETING_VERSION"@, "1.0"@),
        line("MODULEMAP_FILE"@, "\"\""@),
        line(
            "PRODUCT_BUNDLE_IDENTIFIER"@,
            "\""@ + base_bundle_identifier + "."@ + xfw_name + "-macos\""@,
        ),
        line("PRODUCT_NAME"@, "\"$(TARGET_NAME:c99extidentifier)\""@),
        line("SDKROOT"@, "macosx"@),
        line("SKIP_INSTALL"@, "YES"@),
        line("SWIFT_EMIT_LOC_STRINGS"@, "YES"@),
        line("SWIFT_VERSION"@, "5.0"@),
        PlistNode::TupleItem {
            name: "LD_RUNPATH_SEARCH_PATHS"@,
            items: seq![
                PlistNode::TupleValue { text: "\"$(inherited)\""@, comment: None },
                PlistNode::TupleValue { text: "\"@executable_path/../Frameworks\""@, comment: None },
                PlistNode::TupleValue { text: "\"@loader_path/Frameworks\""@, comment: None },
            ],
        },
    ]
}

/// The build settings of the tests of the framework for macOS.
pub open spec fn macos_tests_settings(
    base_bundle_identifier: Seq<char>,
    xfw_name: Seq<char>,
) -> Seq<PlistNode> {
    seq![
        line("CODE_SIGN_STYLE"@, "Automatic"@),
        line("CURRENT_PROJECT_VERSION"@, "1"@),
        line("DEVELOPMENT_TEAM"@, "\"\""@),
        line("GENERATE_INFOPLIST_FILE"@, "YES"@),
        line("MACOSX_DEPLOYMENT_TARGET"@, "12.1"@),
        line("MARKETING_VERSION"@, "1.0"@),
        line(
            "PRODUCT_BUNDLE_IDENTIFIER"@,
            "\""@ + base_bundle_identifier + "."@ + xfw_name + "-macosTests\""@,
        ),
        line("PRODUCT_NAME"@, "\"$(TARGET_NAME)\""@),
        line("SDKROOT"@, "macosx"@),
        line("SWIFT_EMIT_LOC_STRINGS"@, "NO"@),
        line("SWIFT_VERSION"@, "5.0"@),
    ]
}

/// A build configuration: the object with the identifier `id` and the name
/// `name`, which is `Debug` or `Release`, that holds the build settings
/// `settings`.
pub open spec fn configuration(
    id: Seq<char>,
    name: Seq<char>,
    settings: Seq<PlistNode>,
) -> PlistNode {
    object(
        id,
        name,
        seq![
            isa("XCBuildConfiguration"@),
            PlistNode::Item {
                key: KeyNode { name: "buildSettings"@, comment: None },
                value: Box::new(PlistNode::Array { items: settings }),
            },
            line("name"@, name),
        ],
    )
}

/// The ten build configurations of a project, in the order of the section:
/// for the whole project, for the framework for iOS and its tests, and for
/// the framework for macOS and its tests, each for debugging and then for
/// release.
#[verifier::opaque]
pub open spec fn configurations(
    id_base: u64,
    base_bundle_identifier: Seq<char>,
    cargo_relative_path_to_xcode_project: Seq<char>,
    cargo_lib_name: Seq<char>,
    xfw_name: Seq<char>,
) -> Seq<PlistNode> {
    let kind = "XCBuildConfiguration"@;
    seq![
        configuration(
            named_id(id_base, kind, xfw_name, "-shared-Debug"@),
            "Debug"@,
            shared_debug_settings(cargo_relative_path_to_xcode_project, cargo_lib_name, xfw_name),
        ),
        configuration(
            named_id(id_base, kind, xfw_name, "-shared-Release"@),
            "Release"@,
            shared_release_settings(cargo_relative_path_to_xcode_project, cargo_lib_name, xfw_name),
        ),
        configuration(
            named_id(id_base, kind, xfw_name, "_ios-Debug"@),
            "Debug"@,
            ios_settings(base_bundle_identifier, xfw_name),
        ),
        configuration(
            named_id(id_base, kind, xfw_name, "_ios-Release"@),
            "Release"@,
            ios_settings(base_bundle_identifier, xfw_name),
        ),
        configuration(
            named_id(id_base, kind, xfw_name, "_iosTests-Debug"@),
            "Debug"@,
            ios_tests_settings(base_bundle_identifier, xfw_name),
        ),
        configuration(
            named_id(id_base, kind, xfw_name, "_iosTests-Release"@),
            "Release"@,
            ios_tests_settings(base_bundle_identifier, xfw_name),
        ),
        configuration(
            named_id(id_base, kind, xfw_name, "_macos-Debug"@),
            "Debug"@,
            macos_settings(base_bundle_identifier, xfw_name),
        ),
        configuration(
            named_id(id_base, kind, xfw_name, "_macos-Release"@),
            "Release"@,
            macos_settings(base_bundle_identifier, xfw_name),
        ),
        configuration(
            named_id(id_base, kind, xfw_name, "_macosTests-Debug"@),
            "Debug"@,
            macos_tests_settings(base_bundle_identifier, xfw_name),
        ),
        configuration(
            named_id(id_base, kind, xfw_name, "_macosTests-Release"@),
            "Release"@,
            macos_tests_settings(base_bundle_identifier, xfw_name),
        ),
    ]
}

/// Makes the build settings of the whole project when it is built for debugging.
fn make_shared_debug_settings(
    cargo_relative_path_to_xcode_project: &str,
    cargo_lib_name: &str,
    xfw_name: &str,
) -> (r: Vec<PlistItem>)
    ensures
        r.deep_view() == shared_debug_settings(
            cargo_relative_path_to_xcode_project@,
            cargo_lib_name@,
            xfw_name@,
        ),
{
    let mut settings = PlistKeyValueItem::create_value_type_by_array(
        vec![
            ("ALWAYS_SEARCH_USER_PATHS", "NO"),
            ("CLANG_ANALYZER_NONNULL", "YES"),
            ("CLANG_ANALYZER_NUMBER_OBJECT_CONVERSION", "YES_AGGRESSIVE"),
            ("CLANG_CXX_LANGUAGE_STANDARD", "\"gnu++17\""),
            ("CLANG_CXX_LIBRARY", "\"libc++\""),
            ("CLANG_ENABLE_MODULES", "YES"),
            ("CLANG_ENABLE_OBJC_ARC", "YES"),
            ("CLANG_ENABLE_OBJC_WEAK", "YES"),
            ("CLANG_WARN_BLOCK_CAPTURE_AUTORELEASING", "YES"),
            ("CLANG_WARN_BOOL_CONVERSION", "YES"),
            ("CLANG_WARN_COMMA", "YES"),
            ("CLANG_WARN_CONSTANT_CONVERSION", "YES"),
            ("CLANG_WARN_DEPRECATED_OBJC_IMPLEMENTATIONS", "YES"),
            ("CLANG_WARN_DIRECT_OBJC_ISA_USAGE", "YES_ERROR"),
            ("CLANG_WARN_DOCUMENTATION_COMMENTS", "YES"),
            ("CLANG_WARN_EMPTY_BODY", "YES"),
            ("CLANG_WARN_ENUM_CONVERSION", "YES"),
            ("CLANG_WARN_INFINITE_RECURSION", "YES"),
            ("CLANG_WARN_INT_CONVERSION", "YES"),
            ("CLANG_WARN_NON_LITERAL_NULL_CONVERSION", "YES"),
            ("CLANG_WARN_OBJC_IMPLICIT_RETAIN_SELF", "YES"),
            ("CLANG_WARN_OBJC_LITERAL_CONVERSION", "YES"),
            ("CLANG_WARN_OBJC_ROOT_CLASS", "YES_ERROR"),
            ("CLANG_WARN_QUOTED_INCLUDE_IN_FRAMEWORK_HEADER", "YES"),
            ("CLANG_WARN_RANGE_LOOP_ANALYSIS", "YES"),
            ("CLANG_WARN_STRICT_PROTOTYPES", "YES"),
            ("CLANG_WARN_SUSPICIOUS_MOVE", "YES"),
            ("CLANG_WARN_UNGUARDED_AVAILABILITY", "YES_AGGRESSIVE"),
            ("CLANG_WARN_UNREACHABLE_CODE", "YES"),
            ("CLANG_WARN__DUPLICATE_METHOD_MATCH", "YES"),
            ("COPY_PHASE_STRIP", "NO"),
            ("CURRENT_PROJECT_VERSION", "1"),
            ("DEBUG_INFORMATION_FORMAT", "dwarf"),
            ("ENABLE_BITCODE", "NO"),
            ("ENABLE_STRICT_OBJC_MSGSEND", "YES"),
            ("ENABLE_TESTABILITY", "YES"),
            ("GCC_C_LANGUAGE_STANDARD", "gnu11"),
            ("GCC_DYNAMIC_NO_PIC", "NO"),
            ("GCC_NO_COMMON_BLOCKS", "YES"),
            ("GCC_OPTIMIZATION_LEVEL", "0"),
            ("GCC_WARN_64_TO_32_BIT_CONVERSION", "YES"),
            ("GCC_WARN_ABOUT_RETURN_TYPE", "YES_ERROR"),
            ("GCC_WARN_UNDECLARED_SELECTOR", "YES"),
            ("GCC_WARN_UNINITIALIZED_AUTOS", "YES_AGGRESSIVE"),
            ("GCC_WARN_UNUSED_FUNCTION", "YES"),
            ("GCC_WARN_UNUSED_VARIABLE", "YES"),
            ("OTHER_LDFLAGS", cat3("\"-l", cargo_lib_name, "\"").as_str()),
            ("HEADER_SEARCH_PATHS", cat3("\"$(SRCROOT)/rust_libs/", xfw_name, "\"").as_str()),
            ("IPHONEOS_DEPLOYMENT_TARGET", "15.2"),
            (
                "\"LIBRARY_SEARCH_PATHS[sdk=iphoneos*]\"",
                cat3(
                    "\"$(SRCROOT)/",
                    cargo_relative_path_to_xcode_project,
                    "/target/universal/debug/ios\"",
                ).as_str(),
            ),
            (
                "\"LIBRARY_SEARCH_PATHS[sdk=iphonesimulator*]\"",
                cat3(
                    "\"$(SRCROOT)/",
                    cargo_relative_path_to_xcode_project,
                    "/target/universal/debug/ios_sim\"",
                ).as_str(),
            ),
            (
                "\"LIBRARY_SEARCH_PATHS[sdk=macosx*]\"",
                cat3(
                    "\"$(SRCROOT)/",
                    cargo_relative_path_to_xcode_project,
                    "/target/universal/debug/osx\"",
                ).as_str(),
            ),
            ("MTL_ENABLE_DEBUG_INFO", "INCLUDE_SOURCE"),
            ("MTL_FAST_MATH", "YES"),
            ("ONLY_ACTIVE_ARCH", "YES"),
            ("SDKROOT", "iphoneos"),
            ("SWIFT_ACTIVE_COMPILATION_CONDITIONS", "DEBUG"),
            ("SWIFT_INCLUDE_PATHS", cat3("\"$(SRCROOT)/rust_libs/", xfw_name, "\"").as_str()),
            ("SWIFT_OPTIMIZATION_LEVEL", "\"-Onone\""),
            ("VERSIONING_SYSTEM", "\"apple-generic\""),
            ("VERSION_INFO_PREFIX", "\"\""),
        ],
    );
    let entries = vec![("\"DEBUG=1\"", None), ("\"$(inherited)\"", None)];
    assert(tuple_values(entries@) =~= seq![
        PlistNode::TupleValue { text: "\"DEBUG=1\""@, comment: None },
        PlistNode::TupleValue { text: "\"$(inherited)\""@, comment: None },
    ]);
    let more = PlistTupleItem::create("GCC_PREPROCESSOR_DEFINITIONS", entries);
    let ghost plain = settings;
    settings.push(more);
    proof {
        lemma_push_deep_view(plain, settings, more);
    }
    assert(
        settings.deep_view() =~= shared_debug_settings(
            cargo_relative_path_to_xcode_project@,
            cargo_lib_name@,
            xfw_name@,
        )
    );
    settings
}

/// Makes the build settings of the whole project when it is built for release.
fn make_shared_release_settings(
    cargo_relative_path_to_xcode_project: &str,
    cargo_lib_name: &str,
    xfw_name: &str,
) -> (r: Vec<PlistItem>)
    ensures
        r.deep_view() == shared_release_settings(
            cargo_relative_path_to_xcode_project@,
            cargo_lib_name@,
            xfw_name@,
        ),
{
    let settings = PlistKeyValueItem::create_value_type_by_array(
        vec![
            ("ALWAYS_SEARCH_USER_PATHS", "NO"),
            ("CLANG_ANALYZER_NONNULL", "YES"),
            ("CLANG_ANALYZER_NUMBER_OBJECT_CONVERSION", "YES_AGGRESSIVE"),
            ("CLANG_CXX_LANGUAGE_STANDARD", "\"gnu++17\""),
            ("CLANG_CXX_LIBRARY", "\"libc++\""),
            ("CLANG_ENABLE_MODULES", "YES"),
            ("CLANG_ENABLE_OBJC_ARC", "YES"),
            ("CLANG_ENABLE_OBJC_WEAK", "YES"),
            ("CLANG_WARN_BLOCK_CAPTURE_AUTORELEASING", "YES"),
            ("CLANG_WARN_BOOL_CONVERSION", "YES"),
            ("CLANG_WARN_COMMA", "YES"),
            ("CLANG_WARN_CONSTANT_CONVERSION", "YES"),
            ("CLANG_WARN_DEPRECATED_OBJC_IMPLEMENTATIONS", "YES"),
            ("CLANG_WARN_DIRECT_OBJC_ISA_USAGE", "YES_ERROR"),
            ("CLANG_WARN_DOCUMENTATION_COMMENTS", "YES"),
            ("CLANG_WARN_EMPTY_BODY", "YES"),
            ("CLANG_WARN_ENUM_CONVERSION", "YES"),
            ("CLANG_WARN_INFINITE_RECURSION", "YES"),
            ("CLANG_WARN_INT_CONVERSION", "YES"),
            ("CLANG_WARN_NON_LITERAL_NULL_CONVERSION", "YES"),
            ("CLANG_WARN_OBJC_IMPLICIT_RETAIN_SELF", "YES"),
            ("CLANG_WARN_OBJC_LITERAL_CONVERSION", "YES"),
            ("CLANG_WARN_OBJC_ROOT_CLASS", "YES_ERROR"),
            ("CLANG_WARN_QUOTED_INCLUDE_IN_FRAMEWORK_HEADER", "YES"),
            ("CLANG_WARN_RANGE_LOOP_ANALYSIS", "YES"),
            ("CLANG_WARN_STRICT_PROTOTYPES", "YES"),
            ("CLANG_WARN_SUSPICIOUS_MOVE", "YES"),
            ("CLANG_WARN_UNGUARDED_AVAILABILITY", "YES_AGGRESSIVE"),
            ("CLANG_WARN_UNREACHABLE_CODE", "YES"),
            ("CLANG_WARN__DUPLICATE_METHOD_MATCH", "YES"),
            ("COPY_PHASE_STRIP", "NO"),
            ("CURRENT_PROJECT_VERSION", "1"),
            ("DEBUG_INFORMATION_FORMAT", "\"dwarf-with-dsym\""),
            ("ENABLE_BITCODE", "NO"),
            ("ENABLE_NS_ASSERTIONS", "NO"),
            ("ENABLE_STRICT_OBJC_MSGSEND", "YES"),
            ("GCC_C_LANGUAGE_STANDARD", "gnu11"),
            ("GCC_NO_COMMON_BLOCKS", "YES"),
            ("GCC_WARN_64_TO_32_BIT_CONVERSION", "YES"),
            ("GCC_WARN_ABOUT_RETURN_TYPE", "YES_ERROR"),
            ("GCC_WARN_UNDECLARED_SELECTOR", "YES"),
            ("GCC_WARN_UNINITIALIZED_AUTOS", "YES_AGGRESSIVE"),
            ("GCC_WARN_UNUSED_FUNCTION", "YES"),
            ("GCC_WARN_UNUSED_VARIABLE", "YES"),
            ("OTHER_LDFLAGS", cat3("\"-l", cargo_lib_name, "\"").as_str()),
            ("HEADER_SEARCH_PATHS", cat3("\"$(SRCROOT)/rust_libs/", xfw_name, "\"").as_str()),
            ("IPHONEOS_DEPLOYMENT_TARGET", "15.2"),
            (
                "\"LIBRARY_SEARCH_PATHS[sdk=iphoneos*]\"",
                cat3(
                    "\"$(SRCROOT)/",
                    cargo_relative_path_to_xcode_project,
                    "/target/universal/release/ios\"",
                ).as_str(),
            ),
            (
                "\"LIBRARY_SEARCH_PATHS[sdk=iphonesimulator*]\"",
                cat3(
                    "\"$(SRCROOT)/",
                    cargo_relative_path_to_xcode_project,
                    "/target/universal/release/ios_sim\"",
                ).as_str(),
            ),
            (
                "\"LIBRARY_SEARCH_PATHS[sdk=macosx*]\"",
                cat3(
                    "\"$(SRCROOT)/",
                    cargo_relative_path_to_xcode_project,
                    "/target/universal/release/osx\"",
                ).as_str(),
            ),
            ("MTL_ENABLE_DEBUG_INFO", "NO"),
            ("MTL_FAST_MATH", "YES"),
            ("SDKROOT", "iphoneos"),
            ("SWIFT_COMPILATION_MODE", "wholemodule"),
            ("SWIFT_INCLUDE_PATHS", cat3("\"$(SRCROOT)/rust_libs/", xfw_name, "\"").as_str()),
            ("SWIFT_OPTIMIZATION_LEVEL", "\"-O\""),
            ("VALIDATE_PRODUCT", "YES"),
            ("VERSIONING_SYSTEM", "\"apple-generic\""),
            ("VERSION_INFO_PREFIX", "\"\""),
        ],
    );
    assert(
        settings.deep_view() =~= shared_release_settings(
            cargo_relative_path_to_xcode_project@,
            cargo_lib_name@,
            xfw_name@,
        )
    );
    settings
}

/// Makes the build settings of the framework for iOS.
fn make_ios_settings(base_bundle_identifier: &str, xfw_name: &str) -> (r: Vec<PlistItem>)
    ensures
        r.deep_view() == ios_settings(base_bundle_identifier@, xfw_name@),
{
    let mut settings = PlistKeyValueItem::create_value_type_by_array(
        vec![
            ("CODE_SIGN_STYLE", "Automatic"),
            ("CURRENT_PROJECT_VERSION", "1"),
            ("DEFINES_MODULE", "YES"),
            ("DEVELOPMENT_TEAM", "\"\""),
            ("DYLIB_COMPATIBILITY_VERSION", "1"),
            ("DYLIB_CURRENT_VERSION", "1"),
            ("DYLIB_INSTALL_NAME_BASE", "\"@rpath\""),
            ("GENERATE_INFOPLIST_FILE", "YES"),
            ("INFOPLIST_KEY_NSHumanReadableCopyright", "\"\""),
            ("INSTALL_PATH", "\"$(LOCAL_LIBRARY_DIR)/Frameworks\""),
            ("MARKETING_VERSION", "1.0"),
            (
                "PRODUCT_BUNDLE_IDENTIFIER",
                cat5("\"", base_bundle_identifier, ".", xfw_name, "-ios\"").as_str(),
            ),
            ("PRODUCT_NAME", xfw_name),
            ("SKIP_INSTALL", "YES"),
            ("SWIFT_EMIT_LOC_STRINGS", "YES"),
            ("SWIFT_VERSION", "5.0"),
            ("TARGETED_DEVICE_FAMILY", "\"1,2\""),
        ],
    );
    let entries = vec![
        ("\"$(inherited)\"", None),
        ("\"@executable_path/Frameworks\"", None),
        ("\"@loader_path/Frameworks\"", None),
    ];
    assert(tuple_values(entries@) =~= seq![
        PlistNode::TupleValue { text: "\"$(inherited)\""@, comment: None },
        PlistNode::TupleValue { text: "\"@executable_path/Frameworks\""@, comment: None },
        PlistNode::TupleValue { text: "\"@loader_path/Frameworks\""@, comment: None },
    ]);
    let more = PlistTupleItem::create("LD_RUNPATH_SEARCH_PATHS", entries);
    let ghost plain = settings;
    settings.push(more);
    proof {
        lemma_push_deep_view(plain, settings, more);
    }
    assert(settings.deep_view() =~= ios_settings(base_bundle_identifier@, xfw_name@));
    settings
}

/// Makes the build settings of the tests of the framework for iOS.
fn make_ios_tests_settings(base_bundle_identifier: &str, xfw_name: &str) -> (r: Vec<PlistItem>)
    ensures
        r.deep_view() == ios_tests_settings(base_bundle_identifier@, xfw_name@),
{
    let settings = PlistKeyValueItem::create_value_type_by_array(
        vec![
            ("CODE_SIGN_STYLE", "Automatic"),
            ("CURRENT_PROJECT_VERSION", "1"),
            ("DEVELOPMENT_TEAM", "\"\""),
            ("GENERATE_INFOPLIST_FILE", "YES"),
            ("MARKETING_VERSION", "1.0"),
            (
                "PRODUCT_BUNDLE_IDENTIFIER",
                cat5("\"", base_bundle_identifier, ".", xfw_name, "-iosTest\"").as_str(),
            ),
            ("PRODUCT_NAME", xfw_name),
            ("SWIFT_EMIT_LOC_STRINGS", "NO"),
            ("SWIFT_VERSION", "5.0"),
            ("TARGETED_DEVICE_FAMILY", "\"1,2\""),
        ],
    );
    assert(settings.deep_view() =~= ios_tests_settings(base_bundle_identifier@, xfw_name@));
    settings
}

/// Makes the build settings of the framework for macOS.
fn make_macos_settings(base_bundle_identifier: &str, xfw_name: &str) -> (r: Vec<PlistItem>)
    ensures
        r.deep_view() == macos_settings(base_bundle_identifier@, xfw_name@),
{
    let mut settings = PlistKeyValueItem::create_value_type_by_array(
        vec![
            ("CODE_SIGN_STYLE", "Automatic"),
            ("COMBINE_HIDPI_IMAGES", "YES"),
            ("CURRENT_PROJECT_VERSION", "1"),
            ("DEFINES_MODULE", "YES"),
            ("DEVELOPMENT_TEAM", "\"\""),
            ("DYLIB_COMPATIBILITY_VERSION", "1"),
            ("DYLIB_CURRENT_VERSION", "1"),
            ("DYLIB_INSTALL_NAME_BASE", "\"@rpath\""),
            ("GENERATE_INFOPLIST_FILE", "YES"),
            ("INFOPLIST_KEY_NSHumanReadableCopyright", "\"\""),
            ("INSTALL_PATH", "\"$(LOCAL_LIBRARY_DIR)/Frameworks\""),
            ("MACOSX_DEPLOYMENT_TARGET", "12.1"),
            ("MARKETING_VERSION", "1.0"),
            ("MODULEMAP_FILE", "\"\""),
            (
                "PRODUCT_BUNDLE_IDENTIFIER",
                cat5("\"", base_bundle_identifier, ".", xfw_name, "-macos\"").as_str(),
            ),
            ("PRODUCT_NAME", "\"$(TARGET_NAME:c99extidentifier)\""),
            ("SDKROOT", "macosx"),
            ("SKIP_INSTALL", "YES"),
            ("SWIFT_EMIT_LOC_STRINGS", "YES"),
            ("SWIFT_VERSION", "5.0"),
        ],
    );
    let entries = vec![
        ("\"$(inherited)\"", None),
        ("\"@executable_path/../Frameworks\"", None),
        ("\"@loader_path/Frameworks\"", None),
    ];
    assert(tuple_values(entries@) =~= seq![
        PlistNode::TupleValue { text: "\"$(inherited)\""@, comment: None },
        PlistNode::TupleValue { text: "\"@executable_path/../Frameworks\""@, comment: None },
        PlistNode::TupleValue { text: "\"@loader_path/Frameworks\""@, comment: None },
    ]);
    let more = PlistTupleItem::create("LD_RUNPATH_SEARCH_PATHS", entries);
    let ghost plain = settings;
    settings.push(more);
    proof {
        lemma_push_deep_view(plain, settings, more);
    }
    assert(settings.deep_view() =~= macos_settings(base_bundle_identifier@, xfw_name@));
    settings
}

/// Makes the build settings of the tests of the framework for macOS.
fn make_macos_tests_settings(base_bundle_identifier: &str, xfw_name: &str) -> (r: Vec<PlistItem>)
    ensures
        r.deep_view() == macos_tests_settings(base_bundle_identifier@, xfw_name@),
{
    let settings = PlistKeyValueItem::create_value_type_by_array(
        vec![
            ("CODE_SIGN_STYLE", "Automatic"),
            ("CURRENT_PROJECT_VERSION", "1"),
            ("DEVELOPMENT_TEAM", "\"\""),
            ("GENERATE_INFOPLIST_FILE", "YES"),
            ("MACOSX_DEPLOYMENT_TARGET", "12.1"),
            ("MARKETING_VERSION", "1.0"),
            (
                "PRODUCT_BUNDLE_IDENTIFIER",
                cat5("\"", base_bundle_identifier, ".", xfw_name, "-macosTests\"").as_str(),
            ),
            ("PRODUCT_NAME", "\"$(TARGET_NAME)\""),
            ("SDKROOT", "macosx"),
            ("SWIFT_EMIT_LOC_STRINGS", "NO"),
            ("SWIFT_VERSION", "5.0"),
        ],
    );
    assert(settings.deep_view() =~= macos_tests_settings(base_bundle_identifier@, xfw_name@));
    settings
}

/// Makes a build configuration.
fn make_configuration(id: &str, name: &str, settings: Vec<PlistItem>) -> (r: PlistItem)
    ensures
        r@ == configuration(id@, name@, settings.deep_view()),
{
    let lines = vec![
        PlistKeyValueItem::create_value_type("isa", None, "XCBuildConfiguration", None),
        PlistKeyValueItem::create_array_type("buildSettings", None, settings),
        PlistKeyValueItem::create_value_type("name", None, name, None),
    ];
    assert(lines.deep_view() =~= seq![
        isa("XCBuildConfiguration"@),
        PlistNode::Item {
            key: KeyNode { name: "buildSettings"@, comment: None },
            value: Box::new(PlistNode::Array { items: settings.deep_view() }),
        },
        line("name"@, name@),
    ]);
    PlistKeyValueItem::create_array_type(id, Some(name), lines)
}

/// The section of the lists of configurations, as it is for a project named
/// `xfw_name` whose configurations have the given identifiers.
#[verifier::opaque]
pub open spec fn configuration_list_section(
    pbx_build_config_ref_ids: XCBuildConfigurationIds,
    xfw_name: Seq<char>,
    id_base: u64,
) -> PlistNode {
    let kind = "XCConfigurationList"@;
    let shared_build_id = named_id(id_base, kind, xfw_name, "-shared-config"@);
    let shared_build_item = array_item(
        shared_build_id,
        Some("Build configuration list for PBXProject \""@ + xfw_name + "\""@),
        Seq::empty()
            .push(value_item("isa"@, None, kind, None))
            .push(tuple_item(
                "buildConfigurations"@,
                Seq::empty()
                    .push(entry(pbx_build_config_ref_ids.shared_debug@, Some("Debug"@)))
                    .push(entry(pbx_build_config_ref_ids.shared_release@, Some("Release"@))),
            ))
            .push(value_item("defaultConfigurationIsVisible"@, None, "0"@, None))
            .push(value_item("defaultConfigurationName"@, None, "Release"@, None)),
    );
    let ios_build_id = named_id(id_base, kind, xfw_name, "_ios-config"@);
    let ios_build_item = array_item(
        ios_build_id,
        Some("Build configuration list for PBXNativeTarget \""@ + xfw_name + "_ios\""@),
        Seq::empty()
            .push(value_item("isa"@, None, kind, None))
            .push(tuple_item(
                "buildConfigurations"@,
                Seq::empty()
                    .push(entry(pbx_build_config_ref_ids.ios_debug@, Some("Debug"@)))
                    .push(entry(pbx_build_config_ref_ids.ios_release@, Some("Release"@))),
            ))
            .push(value_item("defaultConfigurationIsVisible"@, None, "0"@, None))
            .push(value_item("defaultConfigurationName"@, None, "Release"@, None)),
    );
    let ios_tests_build_id = named_id(id_base, kind, xfw_name, "_iosTests-config"@);
    let ios_tests_build_item = array_item(
        ios_tests_build_id,
        Some("Build configuration list for PBXNativeTarget \""@ + xfw_name + "_iosTest\""@),
        Seq::empty()
            .push(value_item("isa"@, None, kind, None))
            .push(tuple_item(
                "buildConfigurations"@,
                Seq::empty()
                    .push(entry(pbx_build_config_ref_ids.ios_tests_debug@, Some("Debug"@)))
                    .push(entry(pbx_build_config_ref_ids.ios_tests_release@, Some("Release"@))),
            ))
            .push(value_item("defaultConfigurationIsVisible"@, None, "0"@, None))
            .push(value_item("defaultConfigurationName"@, None, "Release"@, None)),
    );
    let macos_build_id = named_id(id_base, kind, xfw_name, "_macos-config"@);
    let macos_build_item = array_item(
        macos_build_id,
        Some("Build configuration list for PBXNativeTarget \""@ + xfw_name + "_macos\""@),
        Seq::empty()
            .push(value_item("isa"@, None, kind, None))
            .push(tuple_item(
                "buildConfigurations"@,
                Seq::empty()
                    .push(entry(pbx_build_config_ref_ids.macos_debug@, Some("Debug"@)))
                    .push(entry(pbx_build_config_ref_ids.macos_release@, Some("Release"@))),
            ))
            .push(value_item("defaultConfigurationIsVisible"@, None, "0"@, None))
            .push(value_item("defaultConfigurationName"@, None, "Release"@, None)),
    );
    let macos_test_build_id = named_id(id_base, kind, xfw_name, "_macosTests-config"@);
    let macos_test_build_item = array_item(
        macos_test_build_id,
        Some("Build configuration list for PBXNativeTarget \""@ + xfw_name + "_macosTests\""@),
        Seq::empty()
            .push(value_item("isa"@, None, kind, None))
            .push(tuple_item(
                "buildConfigurations"@,
                Seq::empty()
                    .push(entry(pbx_build_config_ref_ids.macos_tests_debug@, Some("Debug"@)))
                    .push(entry(pbx_build_config_ref_ids.macos_tests_release@, Some("Release"@))),
            ))
            .push(value_item("defaultConfigurationIsVisible"@, None, "0"@, None))
            .push(value_item("defaultConfigurationName"@, None, "Release"@, None)),
    );
    section(
        kind,
        Seq::empty()
            .push(shared_build_item)
            .push(ios_build_item)
            .push(ios_tests_build_item)
            .push(macos_build_item)
            .push(macos_test_build_item),
    )
}

impl PlistKeyValueItem {
    /// The section of the build configurations of the project `xfw_name`: one
    /// for debugging and one for release, for the project as a whole and for
    /// each of its four targets.
    pub fn create_pbx_xc_build_configuration_section(
        base_bundle_identifier: &str,
        cargo_relative_path_to_xcode_project: &str,
        cargo_lib_name: &str,
        xfw_name: &str,
        id_base: u64,
    ) -> (r: (XCBuildConfigurationIds, PlistItem))
        ensures
            r.0.fixed(id_base, xfw_name@),
            r.1@ == (PlistNode::SectionItem {
                name: "XCBuildConfiguration"@,
                items: configurations(
                    id_base,
                    base_bundle_identifier@,
                    cargo_relative_path_to_xcode_project@,
                    cargo_lib_name@,
                    xfw_name@,
                ),
            }),
            is_section(r.1@, "XCBuildConfiguration"@, r.0.in_order()),
    {
        proof {
            reveal(are_objects);
            reveal(configurations);
        }
        let kind = "XCBuildConfiguration";
        let shared_debug_id = object_id(id_base, kind, xfw_name, "-shared-Debug");
        let shared_debug_item = make_configuration(
            shared_debug_id.as_str(),
            "Debug",
            make_shared_debug_settings(
                cargo_relative_path_to_xcode_project,
                cargo_lib_name,
                xfw_name,
            ),
        );
        let shared_release_id = object_id(id_base, kind, xfw_name, "-shared-Release");
        let shared_release_item = make_configuration(
            shared_release_id.as_str(),
            "Release",
            make_shared_release_settings(
                cargo_relative_path_to_xcode_project,
                cargo_lib_name,
                xfw_name,
            ),
        );
        let ios_debug_id = object_id(id_base, kind, xfw_name, "_ios-Debug");
        let ios_debug_item = make_configuration(
            ios_debug_id.as_str(),
            "Debug",
            make_ios_settings(base_bundle_identifier, xfw_name),
        );
        let ios_release_id = object_id(id_base, kind, xfw_name, "_ios-Release");
        let ios_release_item = make_configuration(
            ios_release_id.as_str(),
            "Release",
            make_ios_settings(base_bundle_identifier, xfw_name),
        );
        let ios_tests_debug_id = object_id(id_base, kind, xfw_name, "_iosTests-Debug");
        let ios_tests_debug_item = make_configuration(
            ios_tests_debug_id.as_str(),
            "Debug",
            make_ios_tests_settings(base_bundle_identifier, xfw_name),
        );
        let ios_tests_release_id = object_id(id_base, kind, xfw_name, "_iosTests-Release");
        let ios_tests_release_item = make_configuration(
            ios_tests_release_id.as_str(),
            "Release",
            make_ios_tests_settings(base_bundle_identifier, xfw_name),
        );
        let macos_debug_id = object_id(id_base, kind, xfw_name, "_macos-Debug");
        let macos_debug_item = make_configuration(
            macos_debug_id.as_str(),
            "Debug",
            make_macos_settings(base_bundle_identifier, xfw_name),
        );
        let macos_release_id = object_id(id_base, kind, xfw_name, "_macos-Release");
        let macos_release_item = make_configuration(
            macos_release_id.as_str(),
            "Release",
            make_macos_settings(base_bundle_identifier, xfw_name),
        );
        let macos_tests_debug_id = object_id(id_base, kind, xfw_name, "_macosTests-Debug");
        let macos_tests_debug_item = make_configuration(
            macos_tests_debug_id.as_str(),
            "Debug",
            make_macos_tests_settings(base_bundle_identifier, xfw_name),
        );
        let macos_tests_release_id = object_id(id_base, kind, xfw_name, "_macosTests-Release");
        let macos_tests_release_item = make_configuration(
            macos_tests_release_id.as_str(),
            "Release",
            make_macos_tests_settings(base_bundle_identifier, xfw_name),
        );
        let items = vec![
            shared_debug_item,
            shared_release_item,
            ios_debug_item,
            ios_release_item,
            ios_tests_debug_item,
            ios_tests_release_item,
            macos_debug_item,
            macos_release_item,
            macos_tests_debug_item,
            macos_tests_release_item,
        ];
        assert(items.deep_view() =~= configurations(
            id_base,
            base_bundle_identifier@,
            cargo_relative_path_to_xcode_project@,
            cargo_lib_name@,
            xfw_name@,
        ));
        let ids = XCBuildConfigurationIds {
            shared_debug: shared_debug_id,
            shared_release: shared_release_id,
            ios_debug: ios_debug_id,
            ios_release: ios_release_id,
            ios_tests_debug: ios_tests_debug_id,
            ios_tests_release: ios_tests_release_id,
            macos_debug: macos_debug_id,
            macos_release: macos_release_id,
            macos_tests_debug: macos_tests_debug_id,
            macos_tests_release: macos_tests_release_id,
        };
        (ids, PlistSectionItem::create(kind, items))
    }

    /// The section of the configuration lists of the project `xfw_name`: one
    /// list for the project and one for each of its four targets, each with
    /// the configuration for debugging and the one for release.
    pub fn create_pbx_xc_configuration_list_section(
        pbx_build_config_ref_ids: &XCBuildConfigurationIds,
        xfw_name: &str,
        id_base: u64,
    ) -> (r: (XCConfigurationListIds, PlistItem))
        ensures
            r.0.fixed(id_base, xfw_name@),
            is_section(r.1@, "XCConfigurationList"@, r.0.in_order()),
            r.1@ == configuration_list_section(*pbx_build_config_ref_ids, xfw_name@, id_base),
    {
        proof {
            reveal(are_objects);
            reveal(configuration_list_section);
        }
        let kind = "XCConfigurationList";
        let shared_build_id = object_id(id_base, kind, xfw_name, "-shared-config");
        let shared_build_item = PlistKeyValueItem::create_array_type(
            shared_build_id.as_str(),
            Some(cat3("Build configuration list for PBXProject \"", xfw_name, "\"").as_str()),
            Items::new()
                .with(PlistKeyValueItem::create_value_type("isa", None, kind, None))
                .with(Entries::new()
                    .with(pbx_build_config_ref_ids.shared_debug.as_str(), Some("Debug".to_owned()))
                    .with(
                        pbx_build_config_ref_ids.shared_release.as_str(),
                        Some("Release".to_owned()),
                    )
                    .tuple("buildConfigurations"))
                .with(PlistKeyValueItem::create_value_type(
                    "defaultConfigurationIsVisible",
                    None,
                    "0",
                    None,
                ))
                .with(PlistKeyValueItem::create_value_type(
                    "defaultConfigurationName",
                    None,
                    "Release",
                    None,
                ))
                .done(),
        );
        let ios_build_id = object_id(id_base, kind, xfw_name, "_ios-config");
        let ios_build_item = PlistKeyValueItem::create_array_type(
            ios_build_id.as_str(),
            Some(
                cat3(
                    "Build configuration list for PBXNativeTarget \"",
                    xfw_name,
                    "_ios\"",
                ).as_str(),
            ),
            Items::new()
                .with(PlistKeyValueItem::create_value_type("isa", None, kind, None))
                .with(Entries::new()
                    .with(pbx_build_config_ref_ids.ios_debug.as_str(), Some("Debug".to_owned()))
                    .with(pbx_build_config_ref_ids.ios_release.as_str(), Some("Release".to_owned()))
                    .tuple("buildConfigurations"))
                .with(PlistKeyValueItem::create_value_type(
                    "defaultConfigurationIsVisible",
                    None,
                    "0",
                    None,
                ))
                .with(PlistKeyValueItem::create_value_type(
                    "defaultConfigurationName",
                    None,
                    "Release",
                    None,
                ))
                .done(),
        );
        let ios_tests_build_id = object_id(id_base, kind, xfw_name, "_iosTests-config");
        let ios_tests_build_item = PlistKeyValueItem::create_array_type(
            ios_tests_build_id.as_str(),
            Some(
                cat3(
                    "Build configuration list for PBXNativeTarget \"",
                    xfw_name,
                    "_iosTest\"",
                ).as_str(),
            ),
            Items::new()
                .with(PlistKeyValueItem::create_value_type("isa", None, kind, None))
                .with(Entries::new()
                    .with(
                        pbx_build_config_ref_ids.ios_tests_debug.as_str(),
                        Some("Debug".to_owned()),
                    )
                    .with(
                        pbx_build_config_ref_ids.ios_tests_release.as_str(),
                        Some("Release".to_owned()),
                    )
                    .tuple("buildConfigurations"))
                .with(PlistKeyValueItem::create_value_type(
                    "defaultConfigurationIsVisible",
                    None,
                    "0",
                    None,
                ))
                .with(PlistKeyValueItem::create_value_type(
                    "defaultConfigurationName",
                    None,
                    "Release",
                    None,
                ))
                .done(),
        );
        let macos_build_id = object_id(id_base, kind, xfw_name, "_macos-config");
        let macos_build_item = PlistKeyValueItem::create_array_type(
            macos_build_id.as_str(),
            Some(
                cat3(
                    "Build configuration list for PBXNativeTarget \"",
                    xfw_name,
                    "_macos\"",
                ).as_str(),
            ),
            Items::new()
                .with(PlistKeyValueItem::create_value_type("isa", None, kind, None))
                .with(Entries::new()
                    .with(pbx_build_config_ref_ids.macos_debug.as_str(), Some("Debug".to_owned()))
                    .with(
                        pbx_build_config_ref_ids.macos_release.as_str(),
                        Some("Release".to_owned()),
                    )
                    .tuple("buildConfigurations"))
                .with(PlistKeyValueItem::create_value_type(
                    "defaultConfigurationIsVisible",
                    None,
                    "0",
                    None,
                ))
                .with(PlistKeyValueItem::create_value_type(
                    "defaultConfigurationName",
                    None,
                    "Release",
                    None,
                ))
                .done(),
        );
        let macos_test_build_id = object_id(id_base, kind, xfw_name, "_macosTests-config");
        let macos_test_build_item = PlistKeyValueItem::create_array_type(
            macos_test_build_id.as_str(),
            Some(
                cat3(
                    "Build configuration list for PBXNativeTarget \"",
                    xfw_name,
                    "_macosTests\"",
                ).as_str(),
            ),
            Items::new()
                .with(PlistKeyValueItem::create_value_type("isa", None, kind, None))
                .with(Entries::new()
                    .with(
                        pbx_build_config_ref_ids.macos_tests_debug.as_str(),
                        Some("Debug".to_owned()),
                    )
                    .with(
                        pbx_build_config_ref_ids.macos_tests_release.as_str(),
                        Some("Release".to_owned()),
                    )
                    .tuple("buildConfigurations"))
                .with(PlistKeyValueItem::create_value_type(
                    "defaultConfigurationIsVisible",
                    None,
                    "0",
                    None,
                ))
                .with(PlistKeyValueItem::create_value_type(
                    "defaultConfigurationName",
                    None,
                    "Release",
                    None,
                ))
                .done(),
        );
        let ids = XCConfigurationListIds {
            shared: shared_build_id,
            ios: ios_build_id,
            ios_tests: ios_tests_build_id,
            macos: macos_build_id,
            macos_test: macos_test_build_id,
        };
        (ids, PlistSectionItem::create(
            kind,
            Items::new()
                .with(shared_build_item)
                .with(ios_build_item)
                .with(ios_tests_build_item)
                .with(macos_build_item)
                .with(macos_test_build_item)
                .done(),
        ))
    }
}

} // verus!
