//! Manifest name extraction: JSON and TOML manifests, Go module files, the
//! size cap, and the fallback to the directory's own name.

use heft::classify::ArtifactType;
use heft::detector::BloatCategory;
use heft::fstree::{FsNode, FsNodeKind, FsTree};
use heft::manifest::{
    determine_project_name, extract_gomod_name, extract_json_field, extract_toml_package_name,
};

fn comp(parts: &[&str]) -> Vec<String> {
    parts.iter().map(|s| s.to_string()).collect()
}

#[test]
fn json_name_field_is_read() {
    assert_eq!(
        extract_json_field(r#"{"name": "my-pkg", "version": "1.0.0"}"#, "name"),
        Some("my-pkg".to_string())
    );
    assert_eq!(extract_json_field(r#"{"version": "1.0.0"}"#, "name"), None);
    assert_eq!(extract_json_field("not json", "name"), None);
    // a non-string value is not a name
    assert_eq!(extract_json_field(r#"{"name": 42}"#, "name"), None);
}

#[test]
fn toml_package_name_is_read() {
    let manifest = "[package]\nname = \"my-crate\"\nversion = \"0.1.0\"\n";
    assert_eq!(extract_toml_package_name(manifest), Some("my-crate".to_string()));
}

#[test]
fn toml_name_outside_package_section_is_ignored() {
    let manifest = "[dependencies]\nname = \"dep\"\n";
    assert_eq!(extract_toml_package_name(manifest), None);
}

#[test]
fn toml_section_after_package_does_not_break_it() {
    let manifest = "[lib]\npath = \"src/lib.rs\"\n[package]\nversion = \"1\"\nname = 'quoted'\n";
    assert_eq!(extract_toml_package_name(manifest), Some("quoted".to_string()));
}

#[test]
fn toml_name_line_without_equals_is_skipped() {
    let manifest = "[package]\nname\nname = \"real\"\n";
    assert_eq!(extract_toml_package_name(manifest), Some("real".to_string()));
}

#[test]
fn gomod_module_line_is_read() {
    assert_eq!(
        extract_gomod_name("module github.com/acme/tool\n\ngo 1.21\n"),
        Some("github.com/acme/tool".to_string())
    );
    assert_eq!(extract_gomod_name("go 1.21\n"), None);
    assert_eq!(extract_gomod_name(""), None);
}

fn npm_artifact() -> ArtifactType {
    ArtifactType {
        category: BloatCategory::ProjectArtifacts,
        cleanup_hint: "safe to delete, reinstall with npm install",
        manifest_file: Some("package.json".to_string()),
    }
}

#[test]
fn project_name_prefers_the_manifest() {
    let tree = FsTree {
        root: comp(&["", "r"]),
        nodes: vec![
            FsNode { path: comp(&["", "r", "dirname"]), kind: FsNodeKind::Dir },
            FsNode {
                path: comp(&["", "r", "dirname", "package.json"]),
                kind: FsNodeKind::File {
                    size: 20,
                    mtime: None,
                    content: Some(r#"{"name": "nice-name"}"#.to_string()),
                },
            },
        ],
    };
    let name = determine_project_name(&tree, &comp(&["", "r", "dirname"]), &npm_artifact());
    assert_eq!(name, "nice-name");
}

#[test]
fn missing_name_falls_back_to_the_directory() {
    let tree = FsTree {
        root: comp(&["", "r"]),
        nodes: vec![
            FsNode { path: comp(&["", "r", "dirname"]), kind: FsNodeKind::Dir },
            FsNode {
                path: comp(&["", "r", "dirname", "package.json"]),
                kind: FsNodeKind::File {
                    size: 20,
                    mtime: None,
                    content: Some(r#"{"version": "1.0.0"}"#.to_string()),
                },
            },
        ],
    };
    let name = determine_project_name(&tree, &comp(&["", "r", "dirname"]), &npm_artifact());
    assert_eq!(name, "dirname");
}

#[test]
fn oversized_manifest_is_treated_as_absent() {
    let tree = FsTree {
        root: comp(&["", "r"]),
        nodes: vec![
            FsNode { path: comp(&["", "r", "dirname"]), kind: FsNodeKind::Dir },
            FsNode {
                path: comp(&["", "r", "dirname", "package.json"]),
                kind: FsNodeKind::File {
                    size: 2 * 1024 * 1024,
                    mtime: None,
                    content: Some(r#"{"name": "should-not-be-used"}"#.to_string()),
                },
            },
        ],
    };
    let name = determine_project_name(&tree, &comp(&["", "r", "dirname"]), &npm_artifact());
    assert_eq!(name, "dirname");
}

#[test]
fn unreadable_manifest_falls_back() {
    let tree = FsTree {
        root: comp(&["", "r"]),
        nodes: vec![
            FsNode { path: comp(&["", "r", "dirname"]), kind: FsNodeKind::Dir },
            FsNode {
                path: comp(&["", "r", "dirname", "package.json"]),
                kind: FsNodeKind::File { size: 20, mtime: None, content: None },
            },
        ],
    };
    let name = determine_project_name(&tree, &comp(&["", "r", "dirname"]), &npm_artifact());
    assert_eq!(name, "dirname");
}

#[test]
fn toml_values_survive_spaces_and_quotes() {
    let manifest = "[package]\n  name   =   \"  spaced  \"  \n";
    // spaces around the assignment go; the quoted spaces stay trimmed away
    // only outside the quotes
    assert_eq!(extract_toml_package_name(manifest), Some("  spaced  ".to_string()));
}
