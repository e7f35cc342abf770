//! Reader, writer and generator for the text form of Xcode's
//! `project.pbxproj`.
//!
//! - [`scanner`] cuts a document into tokens and [`parser`] folds the tokens
//!   into a tree of the nodes of [`types`]; [`serializer`] writes a tree
//!   back. [`round_trip`] proves that what was written is read back, for the
//!   trees that [`canonical`] describes, and [`laws`] states what else holds
//!   of the library as a whole.
//! - [`id`] derives the identifiers by which the objects of a document
//!   refer to each other.
//! - [`project`] makes the document of a new project from the names of a
//!   Cargo package, section by section.

pub mod canonical;
pub mod configuration_sections;
pub mod end_reason;
pub mod file_sections;
pub mod group_sections;
pub mod helpers;
pub mod id;
pub mod laws;
pub mod names;
pub mod objects;
pub mod parser;
pub mod phase_sections;
pub mod project;
pub mod prompt;
pub mod round_trip;
pub mod scan_laws;
pub mod scanner;
pub mod serializer;
pub mod target_sections;
pub mod text;
pub mod types;

pub use end_reason::PlistIResultEndReason;
pub use helpers::{VectorHelper, XcodeParserDeserializer};
pub use objects::{
    PBXBuildFileIds, PBXBuildRuleIds, PBXContainerItemProxyIds, PBXFileReferenceIds,
    PBXFrameworksBuildPhaseIds, PBXGroupIds, PBXHeadersBuildPhaseIds, PBXNativeTargetIds,
    PBXResourcesBuildPhaseIds, PBXShellScriptBuildPhaseIds, PBXSourcesBuildPhaseIds,
    PBXTargetDependencyIds, XCBuildConfigurationIds, XCConfigurationListIds,
};
pub use parser::{ParseError, XcodePbxProject};
pub use project::{CargoPackage, XcodeProject};
pub use prompt::CommandLineParser;
pub use scanner::{StringItemSlice, XcodeParserStringHelper};
pub use serializer::{InternalXcodePlistSerializer, StringSerializer, XcodePlistSerializer};
pub use types::{
    PlistItem, PlistItemCustomDeserializeCompatible, PlistKey, PlistKeyValueItem,
    PlistSectionItem, PlistTupleItem, PlistTupleValue, PlistValue,
};
