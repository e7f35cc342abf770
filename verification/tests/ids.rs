use xcodebind_gen::id::{derive_id, derive_seed, format_id};
use xcodebind_gen::{CargoPackage, XcodeProject};

fn package(target_name: &str) -> CargoPackage {
    CargoPackage {
        package_name: "some-package".to_string(),
        target_name: target_name.to_string(),
        xcode_framework_name: "Some".to_string(),
        base_bundle_identifier: "org.example".to_string(),
        cargo_relative_path_to_xcode_project: "..".to_string(),
        udl_relative_files_path: vec![],
    }
}

#[test]
fn id_is_stable() {
    let a = XcodeProject::make_id_inst(7, "Kind", "name");
    let b = XcodeProject::make_id_inst(7, "Kind", "name");
    assert_eq!(a, b);
    assert_eq!(a.len(), 24);
    assert!(a.starts_with("CA60"));
    assert!(a.chars().all(|c| c.is_ascii_digit() || ('A'..='F').contains(&c)));
}

#[test]
fn ids_of_two_names_differ() {
    let a = XcodeProject::make_id_inst(0x1, "PBXFileReference", "a.framework");
    let b = XcodeProject::make_id_inst(0x1, "PBXFileReference", "b.framework");
    assert_ne!(a, b);
    assert_eq!(a[..12], b[..12]);
}

#[test]
fn ids_of_two_kinds_and_two_seeds_differ() {
    let a = XcodeProject::make_id_inst(1, "PBXFileReference", "a.framework");
    let b = XcodeProject::make_id_inst(1, "PBXBuildFile", "a.framework");
    let c = XcodeProject::make_id_inst(2, "PBXFileReference", "a.framework");
    assert_ne!(a, b);
    assert_ne!(a, c);
    assert_eq!(a[12..], b[12..]);
}

#[test]
fn id_of_the_check_input() {
    // The checksum of "123456789" is 0x6C40DF5F0B497347; the seed below is
    // "12345678" as eight bytes, the least significant first.
    let id = XcodeProject::make_id_inst(0x3837_3635_3433_3231, "9", "123456789");
    assert_eq!(id, "CA600B4973476C40DF5F0B49");
}

#[test]
fn seed_is_the_checksum_of_the_target_name() {
    let project = XcodeProject::new(package("123456789"));
    assert_eq!(project.id_base(), 0x6C40_DF5F_0B49_7347);
    assert_eq!(derive_seed("123456789"), 0x6C40_DF5F_0B49_7347);
    assert_eq!(project.package().target_name, "123456789");
    assert_eq!(
        project.make_id("Kind", "name"),
        XcodeProject::make_id_inst(0x6C40_DF5F_0B49_7347, "Kind", "name")
    );
    assert_eq!(
        derive_id(0x6C40_DF5F_0B49_7347, "Kind", "name"),
        XcodeProject::make_id_inst(0x6C40_DF5F_0B49_7347, "Kind", "name")
    );
    assert_ne!(
        XcodeProject::new(package("a")).id_base(),
        XcodeProject::new(package("b")).id_base()
    );
}

#[test]
fn format_pads_and_truncates() {
    assert_eq!(format_id(0, 0), "CA6000000000000000000000");
    assert_eq!(format_id(0xFFFF_FFFF_0000_00AB, 0x1), "CA60000000AB000000000001");
    assert_eq!(format_id(0x1234_5678_9ABC_DEF0, 0xFFFF_FFFF_FFFF), "CA609ABCDEF0FFFFFFFFFFFF");
    // A second checksum of more than 12 digits keeps its leading 12.
    assert_eq!(format_id(1, 0x1_2345_6789_ABCD), "CA6000000001123456789ABC");
    assert_eq!(format_id(1, 0xFEDC_BA98_7654_3210), "CA6000000001FEDCBA987654");
}
