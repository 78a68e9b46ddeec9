//! The data model's stable string forms and the xcode detector.

use heft::detector::{
    BloatCategory, DetectorResult, Location, category_from_str, location_from_store,
    location_store_string,
};
use heft::fstree::{FsNode, FsNodeKind, FsTree};
use heft::xcode::XcodeDetector;

fn comp(parts: &[&str]) -> Vec<String> {
    parts.iter().map(|s| s.to_string()).collect()
}

#[test]
fn category_names_round_trip() {
    for c in [
        BloatCategory::ProjectArtifacts,
        BloatCategory::ContainerData,
        BloatCategory::PackageCache,
        BloatCategory::IdeData,
        BloatCategory::SystemCache,
        BloatCategory::Other,
    ] {
        assert_eq!(category_from_str(c.as_str()), c);
    }
    assert_eq!(category_from_str("anything unknown"), BloatCategory::Other);
}

#[test]
fn locations_round_trip_through_the_store_form() {
    let cases = [
        Location::FilesystemPath("/home/dev/.npm".to_string()),
        Location::DockerObject("sha256:abc".to_string()),
        Location::Aggregate("Build Cache".to_string()),
    ];
    let expected = ["/home/dev/.npm", "docker:sha256:abc", "aggregate:Build Cache"];
    for (l, want) in cases.iter().zip(expected.iter()) {
        let stored = location_store_string(l);
        assert_eq!(&stored, want);
        let back = location_from_store(&stored);
        match (l, &back) {
            (Location::FilesystemPath(a), Location::FilesystemPath(b)) => assert_eq!(a, b),
            (Location::DockerObject(a), Location::DockerObject(b)) => assert_eq!(a, b),
            (Location::Aggregate(a), Location::Aggregate(b)) => assert_eq!(a, b),
            _ => panic!("location kind changed across the store"),
        }
    }
}

#[test]
fn with_diagnostic_holds_one_message() {
    let r = DetectorResult::with_diagnostic("xcode: could not determine home directory".into());
    assert!(r.entries.is_empty());
    assert_eq!(r.diagnostics.len(), 1);
    assert_eq!(r.diagnostics[0], "xcode: could not determine home directory");
}

#[test]
fn xcode_missing_derived_data_is_silent() {
    let r = XcodeDetector.scan_snapshot(&None, false);
    assert!(r.entries.is_empty());
    assert!(r.diagnostics.is_empty());
}

#[test]
fn xcode_derived_data_is_one_ide_finding() {
    let root = ["", "Users", "dev", "Library", "Developer", "Xcode", "DerivedData"];
    let tree = FsTree {
        root: comp(&root),
        nodes: vec![
            FsNode { path: comp(&root), kind: FsNodeKind::Dir },
            FsNode {
                path: comp(&[
                    "",
                    "Users",
                    "dev",
                    "Library",
                    "Developer",
                    "Xcode",
                    "DerivedData",
                    "ModuleCache",
                ]),
                kind: FsNodeKind::Dir,
            },
            FsNode {
                path: comp(&[
                    "",
                    "Users",
                    "dev",
                    "Library",
                    "Developer",
                    "Xcode",
                    "DerivedData",
                    "ModuleCache",
                    "m.o",
                ]),
                kind: FsNodeKind::File { size: 2_048, mtime: None, content: None },
            },
        ],
    };
    let r = XcodeDetector.scan_snapshot(&Some(tree), true);
    assert_eq!(r.entries.len(), 1);
    assert_eq!(r.entries[0].name, "Xcode DerivedData");
    assert_eq!(r.entries[0].category, BloatCategory::IdeData);
    assert_eq!(r.entries[0].size_bytes, 2_048);
    assert_eq!(r.entries[0].reclaimable_bytes, 2_048);
    assert_eq!(r.diagnostics.len(), 1);
    assert_eq!(
        r.diagnostics[0],
        "xcode: DerivedData at /Users/dev/Library/Developer/Xcode/DerivedData"
    );
}

#[test]
fn xcode_empty_derived_data_yields_nothing() {
    let root = ["", "u", "DerivedData"];
    let tree = FsTree {
        root: comp(&root),
        nodes: vec![FsNode { path: comp(&root), kind: FsNodeKind::Dir }],
    };
    let r = XcodeDetector.scan_snapshot(&Some(tree), false);
    assert!(r.entries.is_empty());
    assert!(r.diagnostics.is_empty());
}
