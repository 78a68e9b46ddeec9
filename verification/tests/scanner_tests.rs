//! The project scanner over tree snapshots: classification, nested and
//! monorepo deduplication, manifest naming, and determinism.

use heft::detector::{BloatCategory, DetectorResult, Location};
use heft::fstree::{FsNode, FsNodeKind, FsTree};
use heft::projects::{ProjectDetector, RootSnapshot};

fn comp(parts: &[&str]) -> Vec<String> {
    parts.iter().map(|s| s.to_string()).collect()
}

fn dir(parts: &[&str]) -> FsNode {
    FsNode { path: comp(parts), kind: FsNodeKind::Dir }
}

fn file(parts: &[&str], size: u64) -> FsNode {
    FsNode { path: comp(parts), kind: FsNodeKind::File { size, mtime: None, content: None } }
}

fn text_file(parts: &[&str], content: &str) -> FsNode {
    FsNode {
        path: comp(parts),
        kind: FsNodeKind::File {
            size: content.len() as u64,
            mtime: None,
            content: Some(content.to_string()),
        },
    }
}

fn scan_one(root: &[&str], nodes: Vec<FsNode>) -> DetectorResult {
    let tree = FsTree { root: comp(root), nodes };
    let roots = vec![RootSnapshot { path: root.join("/"), tree: Some(tree) }];
    ProjectDetector.scan(&roots, &None)
}

fn project_count(r: &DetectorResult) -> usize {
    r.entries.iter().filter(|e| e.category == BloatCategory::ProjectArtifacts).count()
}

#[test]
fn empty_directory_returns_no_project_entries() {
    let result = scan_one(&["", "tmp", "heft_test_empty"], vec![dir(&["", "tmp", "heft_test_empty"])]);
    assert_eq!(project_count(&result), 0);
}

#[test]
fn detects_node_modules_in_project() {
    let t = ["", "tmp", "heft_test_node"];
    let result = scan_one(
        &t,
        vec![
            dir(&t),
            dir(&["", "tmp", "heft_test_node", "my-project"]),
            text_file(
                &["", "tmp", "heft_test_node", "my-project", "package.json"],
                r#"{"name": "my-project"}"#,
            ),
            dir(&["", "tmp", "heft_test_node", "my-project", "node_modules"]),
            dir(&["", "tmp", "heft_test_node", "my-project", "node_modules", "fake-pkg"]),
            file(
                &["", "tmp", "heft_test_node", "my-project", "node_modules", "fake-pkg", "index.js"],
                20,
            ),
        ],
    );
    assert_eq!(project_count(&result), 1);
    assert_eq!(result.entries[0].name, "my-project");
    assert_eq!(result.entries[0].category, BloatCategory::ProjectArtifacts);
    assert!(result.entries[0].size_bytes > 0);
}

#[test]
fn detects_cargo_target_in_rust_project() {
    let t = ["", "tmp", "heft_test_rust"];
    let result = scan_one(
        &t,
        vec![
            dir(&t),
            dir(&["", "tmp", "heft_test_rust", "my-crate"]),
            text_file(
                &["", "tmp", "heft_test_rust", "my-crate", "Cargo.toml"],
                "[package]\nname = \"my-crate\"\nversion = \"0.1.0\"",
            ),
            dir(&["", "tmp", "heft_test_rust", "my-crate", "target"]),
            dir(&["", "tmp", "heft_test_rust", "my-crate", "target", "debug"]),
            file(&["", "tmp", "heft_test_rust", "my-crate", "target", "debug", "my-crate"], 25),
        ],
    );
    assert_eq!(project_count(&result), 1);
    assert_eq!(result.entries[0].name, "my-crate");
    assert_eq!(result.entries[0].category, BloatCategory::ProjectArtifacts);
}

#[test]
fn skips_nested_node_modules_in_monorepo() {
    let t = ["", "tmp", "heft_test_monorepo"];
    let result = scan_one(
        &t,
        vec![
            dir(&t),
            dir(&["", "tmp", "heft_test_monorepo", "monorepo"]),
            text_file(
                &["", "tmp", "heft_test_monorepo", "monorepo", "package.json"],
                r#"{"name": "monorepo"}"#,
            ),
            dir(&["", "tmp", "heft_test_monorepo", "monorepo", "node_modules"]),
            file(&["", "tmp", "heft_test_monorepo", "monorepo", "node_modules", "dep.js"], 1),
            dir(&["", "tmp", "heft_test_monorepo", "monorepo", "packages"]),
            dir(&["", "tmp", "heft_test_monorepo", "monorepo", "packages", "pkg-a"]),
            text_file(
                &["", "tmp", "heft_test_monorepo", "monorepo", "packages", "pkg-a", "package.json"],
                r#"{"name": "pkg-a"}"#,
            ),
            dir(&["", "tmp", "heft_test_monorepo", "monorepo", "packages", "pkg-a", "node_modules"]),
            file(
                &[
                    "",
                    "tmp",
                    "heft_test_monorepo",
                    "monorepo",
                    "packages",
                    "pkg-a",
                    "node_modules",
                    "dep.js",
                ],
                1,
            ),
        ],
    );
    // only the root node_modules is reported, not the nested one
    assert_eq!(project_count(&result), 1);
    assert_eq!(result.entries[0].name, "monorepo");
}

#[test]
fn nested_artifact_directory_not_reported_twice() {
    // root/node_modules/sub/node_modules: exactly one finding under root
    let t = ["", "tmp", "heft_test_nested"];
    let result = scan_one(
        &t,
        vec![
            dir(&t),
            dir(&["", "tmp", "heft_test_nested", "root"]),
            dir(&["", "tmp", "heft_test_nested", "root", "node_modules"]),
            dir(&["", "tmp", "heft_test_nested", "root", "node_modules", "sub"]),
            dir(&["", "tmp", "heft_test_nested", "root", "node_modules", "sub", "node_modules"]),
            file(
                &["", "tmp", "heft_test_nested", "root", "node_modules", "sub", "node_modules", "x.js"],
                7,
            ),
        ],
    );
    assert_eq!(project_count(&result), 1);
    assert_eq!(result.entries[0].name, "root");
    assert_eq!(result.entries[0].size_bytes, 7);
}

#[test]
fn detects_python_venv() {
    let t = ["", "tmp", "heft_test_python"];
    let result = scan_one(
        &t,
        vec![
            dir(&t),
            dir(&["", "tmp", "heft_test_python", "my-python-project"]),
            text_file(
                &["", "tmp", "heft_test_python", "my-python-project", "requirements.txt"],
                "requests==2.28.0",
            ),
            dir(&["", "tmp", "heft_test_python", "my-python-project", ".venv"]),
            dir(&["", "tmp", "heft_test_python", "my-python-project", ".venv", "lib"]),
            file(
                &["", "tmp", "heft_test_python", "my-python-project", ".venv", "lib", "requests.py"],
                6,
            ),
        ],
    );
    assert_eq!(project_count(&result), 1);
    assert_eq!(result.entries[0].category, BloatCategory::ProjectArtifacts);
    assert!(result.entries[0].cleanup_hint.as_ref().unwrap().contains("venv"));
}

#[test]
fn detects_pytest_cache() {
    let t = ["", "tmp", "heft_test_pytest"];
    let result = scan_one(
        &t,
        vec![
            dir(&t),
            dir(&["", "tmp", "heft_test_pytest", "my-test-project"]),
            text_file(
                &["", "tmp", "heft_test_pytest", "my-test-project", "pyproject.toml"],
                "[project]\nname = \"test\"",
            ),
            dir(&["", "tmp", "heft_test_pytest", "my-test-project", ".pytest_cache"]),
            file(
                &["", "tmp", "heft_test_pytest", "my-test-project", ".pytest_cache", "README.md"],
                12,
            ),
        ],
    );
    assert_eq!(project_count(&result), 1);
    assert_eq!(result.entries[0].category, BloatCategory::ProjectArtifacts);
}

#[test]
fn falls_back_to_directory_name_when_manifest_has_no_name() {
    let t = ["", "tmp", "heft_test_fallback"];
    let result = scan_one(
        &t,
        vec![
            dir(&t),
            dir(&["", "tmp", "heft_test_fallback", "unnamed-project"]),
            // the manifest exists but has no name field
            text_file(
                &["", "tmp", "heft_test_fallback", "unnamed-project", "package.json"],
                r#"{"version": "1.0.0"}"#,
            ),
            dir(&["", "tmp", "heft_test_fallback", "unnamed-project", "node_modules"]),
            file(&["", "tmp", "heft_test_fallback", "unnamed-project", "node_modules", "dep.js"], 1),
        ],
    );
    assert_eq!(project_count(&result), 1);
    assert_eq!(result.entries[0].name, "unnamed-project");
}

#[test]
fn does_not_detect_target_without_cargo_toml() {
    let t = ["", "tmp", "heft_test_no_cargo"];
    let result = scan_one(
        &t,
        vec![
            dir(&t),
            dir(&["", "tmp", "heft_test_no_cargo", "not-rust"]),
            dir(&["", "tmp", "heft_test_no_cargo", "not-rust", "target"]),
            file(&["", "tmp", "heft_test_no_cargo", "not-rust", "target", "output.txt"], 12),
        ],
    );
    assert_eq!(project_count(&result), 0);
}

#[test]
fn python_cache_inside_site_packages_not_reported() {
    let t = ["", "tmp", "heft_test_site"];
    let result = scan_one(
        &t,
        vec![
            dir(&t),
            dir(&["", "tmp", "heft_test_site", "site-packages"]),
            dir(&["", "tmp", "heft_test_site", "site-packages", "__pycache__"]),
            file(&["", "tmp", "heft_test_site", "site-packages", "__pycache__", "a.pyc"], 4),
        ],
    );
    assert_eq!(project_count(&result), 0);
}

#[test]
fn hidden_directories_are_pruned() {
    let t = ["", "tmp", "heft_test_hidden"];
    let result = scan_one(
        &t,
        vec![
            dir(&t),
            dir(&["", "tmp", "heft_test_hidden", ".git"]),
            dir(&["", "tmp", "heft_test_hidden", ".git", "node_modules"]),
            file(&["", "tmp", "heft_test_hidden", ".git", "node_modules", "x.js"], 3),
        ],
    );
    assert_eq!(project_count(&result), 0);
}

#[test]
fn missing_root_yields_diagnostic() {
    let roots = vec![RootSnapshot { path: "/does/not/exist".to_string(), tree: None }];
    let result = ProjectDetector.scan(&roots, &None);
    assert!(result.entries.is_empty());
    assert_eq!(result.diagnostics.len(), 1);
    assert_eq!(
        result.diagnostics[0],
        "skipping /does/not/exist: directory does not exist"
    );
}

#[test]
fn gradle_build_needs_gradle_output_dirs() {
    // a generic build/ directory beside build.gradle without gradle output
    // subdirectories is not flagged
    let t = ["", "tmp", "heft_test_gradle"];
    let plain = scan_one(
        &t,
        vec![
            dir(&t),
            dir(&["", "tmp", "heft_test_gradle", "app"]),
            text_file(&["", "tmp", "heft_test_gradle", "app", "build.gradle"], "plugins {}"),
            dir(&["", "tmp", "heft_test_gradle", "app", "build"]),
            file(&["", "tmp", "heft_test_gradle", "app", "build", "notes.txt"], 9),
        ],
    );
    assert_eq!(project_count(&plain), 0);

    let real = scan_one(
        &t,
        vec![
            dir(&t),
            dir(&["", "tmp", "heft_test_gradle", "app"]),
            text_file(&["", "tmp", "heft_test_gradle", "app", "build.gradle"], "plugins {}"),
            dir(&["", "tmp", "heft_test_gradle", "app", "build"]),
            dir(&["", "tmp", "heft_test_gradle", "app", "build", "classes"]),
            file(&["", "tmp", "heft_test_gradle", "app", "build", "classes", "A.class"], 44),
        ],
    );
    assert_eq!(project_count(&real), 1);
}

#[test]
fn classifier_twice_yields_identical_findings() {
    let build = || {
        let t = ["", "tmp", "heft_test_idem"];
        scan_one(
            &t,
            vec![
                dir(&t),
                dir(&["", "tmp", "heft_test_idem", "proj"]),
                text_file(
                    &["", "tmp", "heft_test_idem", "proj", "package.json"],
                    r#"{"name": "proj"}"#,
                ),
                dir(&["", "tmp", "heft_test_idem", "proj", "node_modules"]),
                file(&["", "tmp", "heft_test_idem", "proj", "node_modules", "dep.js"], 33),
            ],
        )
    };
    let a = build();
    let b = build();
    assert_eq!(a.entries.len(), b.entries.len());
    for (x, y) in a.entries.iter().zip(b.entries.iter()) {
        assert_eq!(x.name, y.name);
        assert_eq!(x.category, y.category);
        assert_eq!(x.size_bytes, y.size_bytes);
        assert_eq!(x.reclaimable_bytes, y.reclaimable_bytes);
        match (&x.location, &y.location) {
            (Location::FilesystemPath(p), Location::FilesystemPath(q)) => assert_eq!(p, q),
            _ => panic!("unexpected location kind"),
        }
    }
}

#[test]
fn finding_location_is_artifact_path() {
    let t = ["", "tmp", "heft_test_loc"];
    let result = scan_one(
        &t,
        vec![
            dir(&t),
            dir(&["", "tmp", "heft_test_loc", "p"]),
            dir(&["", "tmp", "heft_test_loc", "p", "node_modules"]),
            file(&["", "tmp", "heft_test_loc", "p", "node_modules", "d.js"], 2),
        ],
    );
    assert_eq!(project_count(&result), 1);
    match &result.entries[0].location {
        Location::FilesystemPath(p) => assert_eq!(p, "/tmp/heft_test_loc/p/node_modules"),
        _ => panic!("expected a filesystem path"),
    }
}

#[test]
fn source_mtime_of_nearby_sources_is_reported() {
    let t = ["", "tmp", "heft_test_mtime"];
    let src = FsNode {
        path: comp(&["", "tmp", "heft_test_mtime", "p", "main.rs"]),
        kind: FsNodeKind::File { size: 10, mtime: Some(1700000000), content: None },
    };
    let newer = FsNode {
        path: comp(&["", "tmp", "heft_test_mtime", "p", "lib.rs"]),
        kind: FsNodeKind::File { size: 10, mtime: Some(1700000500), content: None },
    };
    let result = scan_one(
        &t,
        vec![
            dir(&t),
            dir(&["", "tmp", "heft_test_mtime", "p"]),
            text_file(&["", "tmp", "heft_test_mtime", "p", "Cargo.toml"], "[package]\nname = \"p\""),
            src,
            newer,
            dir(&["", "tmp", "heft_test_mtime", "p", "target"]),
            file(&["", "tmp", "heft_test_mtime", "p", "target", "bin"], 99),
        ],
    );
    assert_eq!(project_count(&result), 1);
    assert_eq!(result.entries[0].last_modified, Some(1700000500));
}

#[test]
fn meaningful_dot_directories_are_not_pruned() {
    let t = ["", "tmp", "heft_test_dotdirs"];
    let result = scan_one(
        &t,
        vec![
            dir(&t),
            dir(&["", "tmp", "heft_test_dotdirs", "app"]),
            text_file(&["", "tmp", "heft_test_dotdirs", "app", "build.gradle"], "plugins {}"),
            dir(&["", "tmp", "heft_test_dotdirs", "app", ".gradle"]),
            file(&["", "tmp", "heft_test_dotdirs", "app", ".gradle", "cache.bin"], 16),
        ],
    );
    assert_eq!(project_count(&result), 1);
    assert_eq!(result.entries[0].size_bytes, 16);
}

#[test]
fn bin_and_obj_need_an_ecosystem_manifest() {
    // a bare bin/ directory is generic and stays unreported
    let t = ["", "tmp", "heft_test_dotnet"];
    let bare = scan_one(
        &t,
        vec![
            dir(&t),
            dir(&["", "tmp", "heft_test_dotnet", "tools"]),
            dir(&["", "tmp", "heft_test_dotnet", "tools", "bin"]),
            file(&["", "tmp", "heft_test_dotnet", "tools", "bin", "helper.sh"], 9),
        ],
    );
    assert_eq!(project_count(&bare), 0);

    // beside a project file it is a build output and is reported once
    let project = scan_one(
        &t,
        vec![
            dir(&t),
            dir(&["", "tmp", "heft_test_dotnet", "MyApp"]),
            file(&["", "tmp", "heft_test_dotnet", "MyApp", "MyApp.csproj"], 120),
            dir(&["", "tmp", "heft_test_dotnet", "MyApp", "bin"]),
            file(&["", "tmp", "heft_test_dotnet", "MyApp", "bin", "MyApp.dll"], 2048),
        ],
    );
    assert_eq!(project_count(&project), 1);
    assert_eq!(project.entries[0].category, BloatCategory::ProjectArtifacts);
    assert_eq!(project.entries[0].size_bytes, 2048);
    // the project file is XML, which the name extraction does not read, so
    // the name falls back to the project directory
    assert_eq!(project.entries[0].name, "MyApp");
    assert!(project.entries[0].cleanup_hint.as_ref().unwrap().contains("dotnet"));
}

#[test]
fn bin_obj_pair_yields_one_finding_per_project() {
    let t = ["", "tmp", "heft_test_dotnet_pair"];
    let result = scan_one(
        &t,
        vec![
            dir(&t),
            dir(&["", "tmp", "heft_test_dotnet_pair", "Svc"]),
            file(&["", "tmp", "heft_test_dotnet_pair", "Svc", "Svc.fsproj"], 80),
            dir(&["", "tmp", "heft_test_dotnet_pair", "Svc", "bin"]),
            file(&["", "tmp", "heft_test_dotnet_pair", "Svc", "bin", "Svc.dll"], 1000),
            dir(&["", "tmp", "heft_test_dotnet_pair", "Svc", "obj"]),
            file(&["", "tmp", "heft_test_dotnet_pair", "Svc", "obj", "Svc.pdb"], 500),
        ],
    );
    // the first of the pair claims the project root; the second is not
    // reported independently
    assert_eq!(project_count(&result), 1);
    assert_eq!(result.entries[0].name, "Svc");
}
