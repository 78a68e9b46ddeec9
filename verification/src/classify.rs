//! The artifact classifier: given a directory inside a tree snapshot, decide
//! whether it is a known build or cache artifact, under which category, and
//! which manifest names the project. A pure function of the directory's name
//! and its sibling and ancestor context; generically named directories
//! (`build`, `target`, `vendor`, `bin`, `obj`) need corroborating evidence.

use vstd::prelude::*;
use crate::detector::BloatCategory;
use crate::fstree::{
    FsTree, FsNodeView, spec_exists_at, exists_at, is_prefix, path_is_prefix, path_join,
    spec_parent, nodes_view,
};
use crate::strutil::{str_eq, string_eq_str, spec_extension, extension_of};

verus! {

/// How a recognized artifact is cleaned up and where its project's name is
/// found.
pub struct ArtifactType {
    pub category: BloatCategory,
    pub cleanup_hint: &'static str,
    pub manifest_file: Option<String>,
}

pub struct ArtifactTypeView {
    pub category: BloatCategory,
    pub cleanup_hint: Seq<char>,
    pub manifest_file: Option<Seq<char>>,
}

impl View for ArtifactType {
    type V = ArtifactTypeView;

    open spec fn view(&self) -> ArtifactTypeView {
        ArtifactTypeView {
            category: self.category,
            cleanup_hint: self.cleanup_hint@,
            manifest_file: match &self.manifest_file {
                Some(m) => Some(m@),
                None => None,
            },
        }
    }
}

// ---------------------------------------------------------------------------
// Name sets.
// ---------------------------------------------------------------------------

pub open spec fn spec_is_python_cache_name(n: Seq<char>) -> bool {
    n == "__pycache__"@ || n == ".pytest_cache"@ || n == ".mypy_cache"@ || n == ".tox"@
}

/// Directory names that hold installed packages: python caches inside them
/// are not project artifacts of their own.
pub open spec fn spec_is_installed_packages_name(n: Seq<char>) -> bool {
    n == "site-packages"@ || n == "dist-packages"@ || n == "node_modules"@ || n == ".venv"@ || n
        == "venv"@
}

/// Dot-directories that are themselves meaningful artifacts and must not be
/// pruned as hidden.
pub open spec fn spec_is_allowed_dot_name(n: Seq<char>) -> bool {
    n == ".venv"@ || n == ".pytest_cache"@ || n == ".mypy_cache"@ || n == ".tox"@ || n
        == ".gradle"@
}

/// Whether the walker's entry filter prunes this name: hidden, and not on
/// the allow-list of meaningful dot-directories.
pub open spec fn spec_is_hidden(n: Seq<char>) -> bool {
    n.len() > 0 && n[0] == '.' && !spec_is_allowed_dot_name(n)
}

pub fn is_hidden(name: &str) -> (r: bool)
    ensures
        r == spec_is_hidden(name@),
{
    if name.is_empty() {
        return false;
    }
    if name.get_char(0) != '.' {
        return false;
    }
    !(str_eq(name, ".venv") || str_eq(name, ".pytest_cache") || str_eq(name, ".mypy_cache")
        || str_eq(name, ".tox") || str_eq(name, ".gradle"))
}

// ---------------------------------------------------------------------------
// Context predicates.
// ---------------------------------------------------------------------------

/// Python caches show up inside installed packages too; only ones in actual
/// projects count.
pub open spec fn spec_is_inside_installed_packages(path: Seq<Seq<char>>) -> bool {
    exists|i: int| 0 <= i < path.len() && spec_is_installed_packages_name(#[trigger] path[i])
}

pub fn is_inside_installed_packages(path: &Vec<String>) -> (r: bool)
    ensures
        r == spec_is_inside_installed_packages(path.deep_view()),
{
    let ghost pv = path.deep_view();
    let mut i: usize = 0;
    while i < path.len()
        invariant
            i <= path@.len(),
            pv == path.deep_view(),
            forall|j: int| 0 <= j < i ==> !spec_is_installed_packages_name(#[trigger] pv[j]),
        decreases path@.len() - i,
    {
        let n = &path[i];
        if string_eq_str(n, "site-packages") || string_eq_str(n, "dist-packages") || string_eq_str(
            n,
            "node_modules",
        ) || string_eq_str(n, ".venv") || string_eq_str(n, "venv") {
            assert(spec_is_installed_packages_name(pv[i as int]));
            return true;
        }
        i = i + 1;
    }
    false
}

pub open spec fn spec_has_python_project(nodes: Seq<FsNodeView>, dir: Seq<Seq<char>>) -> bool {
    ||| spec_exists_at(nodes, dir.push("requirements.txt"@))
    ||| spec_exists_at(nodes, dir.push("setup.py"@))
    ||| spec_exists_at(nodes, dir.push("pyproject.toml"@))
    ||| spec_exists_at(nodes, dir.push("setup.cfg"@))
}

pub fn has_python_project(tree: &FsTree, dir: &Vec<String>) -> (r: bool)
    ensures
        r == spec_has_python_project(tree@.nodes, dir.deep_view()),
{
    exists_at(tree, &path_join(dir, "requirements.txt")) || exists_at(
        tree,
        &path_join(dir, "setup.py"),
    ) || exists_at(tree, &path_join(dir, "pyproject.toml")) || exists_at(
        tree,
        &path_join(dir, "setup.cfg"),
    )
}

/// A `build` directory counts as a gradle artifact only when it holds
/// typical gradle output directories.
pub open spec fn spec_is_gradle_build_dir(nodes: Seq<FsNodeView>, path: Seq<Seq<char>>) -> bool {
    ||| spec_exists_at(nodes, path.push("classes"@))
    ||| spec_exists_at(nodes, path.push("libs"@))
    ||| spec_exists_at(nodes, path.push("tmp"@))
    ||| spec_exists_at(nodes, path.push("generated"@))
    ||| spec_exists_at(nodes, path.push("intermediates"@))
}

pub fn is_gradle_build_dir(tree: &FsTree, path: &Vec<String>) -> (r: bool)
    ensures
        r == spec_is_gradle_build_dir(tree@.nodes, path.deep_view()),
{
    exists_at(tree, &path_join(path, "classes")) || exists_at(tree, &path_join(path, "libs"))
        || exists_at(tree, &path_join(path, "tmp")) || exists_at(
        tree,
        &path_join(path, "generated"),
    ) || exists_at(tree, &path_join(path, "intermediates"))
}

pub open spec fn spec_has_gradle_manifest(nodes: Seq<FsNodeView>, parent: Seq<Seq<char>>) -> bool {
    spec_exists_at(nodes, parent.push("build.gradle"@)) || spec_exists_at(
        nodes,
        parent.push("build.gradle.kts"@),
    )
}

fn has_gradle_manifest(tree: &FsTree, parent: &Vec<String>) -> (r: bool)
    ensures
        r == spec_has_gradle_manifest(tree@.nodes, parent.deep_view()),
{
    exists_at(tree, &path_join(parent, "build.gradle")) || exists_at(
        tree,
        &path_join(parent, "build.gradle.kts"),
    )
}

/// Project-file extensions of the ecosystem that builds into `bin`/`obj`
/// pairs.
pub open spec fn spec_is_project_file_ext(e: Seq<char>) -> bool {
    e == "csproj"@ || e == "fsproj"@ || e == "vbproj"@
}

/// The name of the first readable sibling carrying a project-file extension:
/// the ecosystem manifest that justifies a `bin`/`obj` match and names the
/// project.
pub open spec fn spec_dotnet_manifest(nodes: Seq<FsNodeView>, parent: Seq<Seq<char>>) -> Option<
    Seq<char>,
>
    decreases nodes.len(),
{
    if nodes.len() == 0 {
        None
    } else if is_dotnet_manifest_node(nodes[0], parent) {
        Some(nodes[0].path.last())
    } else {
        spec_dotnet_manifest(nodes.drop_first(), parent)
    }
}

pub open spec fn is_dotnet_manifest_node(n: FsNodeView, parent: Seq<Seq<char>>) -> bool {
    &&& n.path.len() == parent.len() + 1
    &&& is_prefix(parent, n.path)
    &&& !(n.kind is ReadError)
    &&& match spec_extension(n.path.last()) {
        Some(e) => spec_is_project_file_ext(e),
        None => false,
    }
}

fn find_dotnet_manifest(tree: &FsTree, parent: &Vec<String>) -> (r: Option<String>)
    ensures
        match r {
            Some(m) => spec_dotnet_manifest(tree@.nodes, parent.deep_view()) == Some(m@),
            None => spec_dotnet_manifest(tree@.nodes, parent.deep_view()) is None,
        },
{
    let ghost nv = tree@.nodes;
    let ghost pv = parent.deep_view();
    let mut i: usize = 0;
    assert(nv.skip(0) =~= nv);
    while i < tree.nodes.len()
        invariant
            i <= tree.nodes@.len(),
            nv == nodes_view(tree.nodes@),
            pv == parent.deep_view(),
            spec_dotnet_manifest(nv, pv) == spec_dotnet_manifest(nv.skip(i as int), pv),
        decreases tree.nodes@.len() - i,
    {
        proof {
            assert(nv.skip(i as int).len() > 0);
            assert(nv.skip(i as int)[0] == nv[i as int]);
        }
        let node = &tree.nodes[i];
        let is_readable = !matches!(node.kind, crate::fstree::FsNodeKind::ReadError { .. });
        if node.path.len() >= 1 && node.path.len() - 1 == parent.len() && is_readable
            && path_is_prefix(parent, &node.path) {
            let last = node.path[node.path.len() - 1].as_str();
            assert(last@ == nv[i as int].path.last());
            match extension_of(last) {
                Some(e) => {
                    if str_eq(e, "csproj") || str_eq(e, "fsproj") || str_eq(e, "vbproj") {
                        assert(is_dotnet_manifest_node(nv[i as int], pv));
                        return Some(last.to_owned());
                    }
                },
                None => {},
            }
        }
        proof {
            assert(!is_dotnet_manifest_node(nv[i as int], pv));
            assert(nv.skip(i as int).drop_first() =~= nv.skip(i as int + 1));
        }
        i = i + 1;
    }
    proof {
        assert(nv.skip(tree.nodes@.len() as int).len() == 0);
    }
    None
}

// ---------------------------------------------------------------------------
// Recognizing Xcode's DerivedData.
// ---------------------------------------------------------------------------

/// Under the canonical IDE cache location: some ancestor named `Xcode` whose
/// own parent is named `Developer`.
pub open spec fn spec_in_xcode_cache(path: Seq<Seq<char>>) -> bool {
    exists|i: int| 1 <= i < path.len() && #[trigger] path[i] == "Xcode"@ && path[i - 1]
        == "Developer"@
}

fn in_xcode_cache(path: &Vec<String>) -> (r: bool)
    ensures
        r == spec_in_xcode_cache(path.deep_view()),
{
    let ghost pv = path.deep_view();
    if path.len() < 2 {
        return false;
    }
    let mut i: usize = 1;
    while i < path.len()
        invariant
            1 <= i <= path@.len(),
            pv == path.deep_view(),
            forall|j: int| 1 <= j < i ==> !(#[trigger] pv[j] == "Xcode"@ && pv[j - 1]
                == "Developer"@),
        decreases path@.len() - i,
    {
        if string_eq_str(&path[i], "Xcode") && string_eq_str(&path[i - 1], "Developer") {
            assert(pv[i as int] == "Xcode"@ && pv[i as int - 1] == "Developer"@);
            return true;
        }
        i = i + 1;
    }
    false
}

/// Whether the directory has an immediate child whose name carries an Xcode
/// project or workspace extension.
pub open spec fn spec_dir_has_ide_project(nodes: Seq<FsNodeView>, dir: Seq<Seq<char>>) -> bool {
    exists|j: int|
        0 <= j < nodes.len() && {
            let p = (#[trigger] nodes[j]).path;
            &&& p.len() == dir.len() + 1
            &&& is_prefix(dir, p)
            &&& (spec_extension(p.last()) == Some("xcodeproj"@) || spec_extension(p.last()) == Some(
                "xcworkspace"@,
            ))
        }
}

fn dir_has_ide_project(tree: &FsTree, dir: &Vec<String>) -> (r: bool)
    ensures
        r == spec_dir_has_ide_project(tree@.nodes, dir.deep_view()),
{
    let ghost nv = tree@.nodes;
    let ghost dv = dir.deep_view();
    let mut j: usize = 0;
    while j < tree.nodes.len()
        invariant
            j <= tree.nodes@.len(),
            nv == nodes_view(tree.nodes@),
            dv == dir.deep_view(),
            forall|k: int|
                0 <= k < j ==> !{
                    let p = (#[trigger] nv[k]).path;
                    &&& p.len() == dv.len() + 1
                    &&& is_prefix(dv, p)
                    &&& (spec_extension(p.last()) == Some("xcodeproj"@) || spec_extension(p.last())
                        == Some("xcworkspace"@))
                },
        decreases tree.nodes@.len() - j,
    {
        let node = &tree.nodes[j];
        if node.path.len() >= 1 && node.path.len() - 1 == dir.len() && path_is_prefix(
            dir,
            &node.path,
        ) {
            let last = node.path[node.path.len() - 1].as_str();
            assert(last@ == nv[j as int].path.last());
            match extension_of(last) {
                Some(e) => {
                    if str_eq(e, "xcodeproj") || str_eq(e, "xcworkspace") {
                        return true;
                    }
                },
                None => {},
            }
        }
        j = j + 1;
    }
    false
}

/// The bounded walk up from a directory looking for an Xcode project file:
/// at most `fuel` ancestors, stopping at the home directory.
pub open spec fn spec_xcode_ancestor_search(
    nodes: Seq<FsNodeView>,
    dir: Seq<Seq<char>>,
    home: Option<Seq<Seq<char>>>,
    fuel: int,
) -> bool
    decreases fuel,
{
    if fuel <= 0 || dir.len() == 0 {
        false
    } else if home matches Some(h) && dir == h {
        false
    } else if spec_dir_has_ide_project(nodes, dir) {
        true
    } else {
        spec_xcode_ancestor_search(nodes, dir.drop_last(), home, fuel - 1)
    }
}

fn xcode_ancestor_search(tree: &FsTree, start: &Vec<String>, home: &Option<Vec<String>>) -> (r:
    bool)
    ensures
        r == spec_xcode_ancestor_search(tree@.nodes, start.deep_view(), home.deep_view(), 10),
{
    let ghost nv = tree@.nodes;
    let ghost hv = home.deep_view();
    let mut dir: Vec<String> = Vec::new();
    let mut i: usize = 0;
    while i < start.len()
        invariant
            i <= start@.len(),
            dir@.len() == i,
            forall|j: int| 0 <= j < i ==> dir@[j] == #[trigger] start@[j],
        decreases start@.len() - i,
    {
        let c = start[i].clone();
        dir.push(c);
        i = i + 1;
    }
    proof {
        assert(dir.deep_view() =~= start.deep_view());
    }
    let mut fuel: usize = 10;
    while fuel > 0 && dir.len() > 0
        invariant
            fuel <= 10,
            nv == tree@.nodes,
            hv == home.deep_view(),
            spec_xcode_ancestor_search(nv, start.deep_view(), hv, 10)
                == spec_xcode_ancestor_search(nv, dir.deep_view(), hv, fuel as int),
        decreases fuel,
    {
        let at_home = match home {
            Some(h) => crate::fstree::path_eq(&dir, h),
            None => false,
        };
        if at_home {
            return false;
        }
        if dir_has_ide_project(tree, &dir) {
            return true;
        }
        let ghost before = dir.deep_view();
        let _ = dir.pop();
        proof {
            assert(dir.deep_view() =~= before.drop_last());
        }
        fuel = fuel - 1;
    }
    false
}

pub open spec fn spec_has_xcode_markers(nodes: Seq<FsNodeView>, path: Seq<Seq<char>>) -> bool {
    ||| spec_exists_at(nodes, path.push("Build"@))
    ||| spec_exists_at(nodes, path.push("Logs"@))
    ||| spec_exists_at(nodes, path.push("ModuleCache"@))
    ||| spec_exists_at(nodes, path.push("info.plist"@))
}

/// A `DerivedData` directory is Xcode's when it sits in the canonical cache
/// location, or an ancestor holds an Xcode project file, or it carries
/// Xcode-specific marker entries.
pub open spec fn spec_is_xcode_derived_data(
    nodes: Seq<FsNodeView>,
    path: Seq<Seq<char>>,
    home: Option<Seq<Seq<char>>>,
) -> bool {
    ||| spec_in_xcode_cache(path)
    ||| spec_xcode_ancestor_search(nodes, spec_parent(path), home, 10)
    ||| spec_has_xcode_markers(nodes, path)
}

pub fn is_xcode_derived_data(
    tree: &FsTree,
    path: &Vec<String>,
    parent: &Vec<String>,
    home: &Option<Vec<String>>,
) -> (r: bool)
    requires
        parent.deep_view() == spec_parent(path.deep_view()),
    ensures
        r == spec_is_xcode_derived_data(tree@.nodes, path.deep_view(), home.deep_view()),
{
    if in_xcode_cache(path) {
        return true;
    }
    if xcode_ancestor_search(tree, parent, home) {
        return true;
    }
    exists_at(tree, &path_join(path, "Build")) || exists_at(tree, &path_join(path, "Logs"))
        || exists_at(tree, &path_join(path, "ModuleCache")) || exists_at(
        tree,
        &path_join(path, "info.plist"),
    )
}

// ---------------------------------------------------------------------------
// The decision table.
// ---------------------------------------------------------------------------

pub open spec fn spec_node_modules_artifact() -> ArtifactTypeView {
    ArtifactTypeView {
        category: BloatCategory::ProjectArtifacts,
        cleanup_hint: "safe to delete, reinstall with npm install"@,
        manifest_file: Some("package.json"@),
    }
}

pub open spec fn spec_cargo_artifact() -> ArtifactTypeView {
    ArtifactTypeView {
        category: BloatCategory::ProjectArtifacts,
        cleanup_hint: "safe to delete, rebuild with cargo build"@,
        manifest_file: Some("Cargo.toml"@),
    }
}

pub open spec fn spec_python_cache_artifact() -> ArtifactTypeView {
    ArtifactTypeView {
        category: BloatCategory::ProjectArtifacts,
        cleanup_hint: "safe to delete, regenerated automatically"@,
        manifest_file: None,
    }
}

pub open spec fn spec_venv_artifact() -> ArtifactTypeView {
    ArtifactTypeView {
        category: BloatCategory::ProjectArtifacts,
        cleanup_hint: "virtual environment, recreate with python -m venv"@,
        manifest_file: None,
    }
}

pub open spec fn spec_go_vendor_artifact() -> ArtifactTypeView {
    ArtifactTypeView {
        category: BloatCategory::ProjectArtifacts,
        cleanup_hint: "safe to delete, restore with go mod vendor"@,
        manifest_file: Some("go.mod"@),
    }
}

pub open spec fn spec_composer_vendor_artifact() -> ArtifactTypeView {
    ArtifactTypeView {
        category: BloatCategory::ProjectArtifacts,
        cleanup_hint: "safe to delete, restore with composer install"@,
        manifest_file: Some("composer.json"@),
    }
}

pub open spec fn spec_gradle_artifact() -> ArtifactTypeView {
    ArtifactTypeView {
        category: BloatCategory::ProjectArtifacts,
        cleanup_hint: "safe to delete, rebuild with gradle build"@,
        manifest_file: None,
    }
}

pub open spec fn spec_xcode_artifact() -> ArtifactTypeView {
    ArtifactTypeView {
        category: BloatCategory::IdeData,
        cleanup_hint: "xcode build artifacts, safe to delete"@,
        manifest_file: None,
    }
}

pub open spec fn spec_dotnet_artifact(manifest: Seq<char>) -> ArtifactTypeView {
    ArtifactTypeView {
        category: BloatCategory::ProjectArtifacts,
        cleanup_hint: "safe to delete, rebuild with dotnet build"@,
        manifest_file: Some(manifest),
    }
}

/// The classifier's decision for one directory of the snapshot.
pub open spec fn spec_detect_artifact(
    nodes: Seq<FsNodeView>,
    path: Seq<Seq<char>>,
    home: Option<Seq<Seq<char>>>,
) -> Option<ArtifactTypeView> {
    if path.len() < 2 {
        None
    } else {
        let name = path.last();
        let parent = path.drop_last();
        if name == "node_modules"@ {
            Some(spec_node_modules_artifact())
        } else if name == "target"@ && spec_exists_at(nodes, parent.push("Cargo.toml"@)) {
            Some(spec_cargo_artifact())
        } else if spec_is_python_cache_name(name) && !spec_is_inside_installed_packages(path) {
            Some(spec_python_cache_artifact())
        } else if (name == ".venv"@ || name == "venv"@) && spec_has_python_project(nodes, parent) {
            Some(spec_venv_artifact())
        } else if name == "vendor"@ && spec_exists_at(nodes, parent.push("go.mod"@)) {
            Some(spec_go_vendor_artifact())
        } else if name == "vendor"@ && spec_exists_at(nodes, parent.push("composer.json"@)) {
            Some(spec_composer_vendor_artifact())
        } else if name == ".gradle"@ && spec_has_gradle_manifest(nodes, parent) {
            Some(spec_gradle_artifact())
        } else if name == "build"@ && spec_has_gradle_manifest(nodes, parent)
            && spec_is_gradle_build_dir(nodes, path) {
            Some(spec_gradle_artifact())
        } else if name == "DerivedData"@ && spec_is_xcode_derived_data(nodes, path, home) {
            Some(spec_xcode_artifact())
        } else if (name == "bin"@ || name == "obj"@) && spec_dotnet_manifest(nodes, parent)
            is Some {
            Some(spec_dotnet_artifact(spec_dotnet_manifest(nodes, parent)->Some_0))
        } else {
            None
        }
    }
}

/// Checks if a directory is a known build artifact; on a match says how to
/// clean it up and where to find the project name.
pub fn detect_artifact(tree: &FsTree, path: &Vec<String>, home: &Option<Vec<String>>) -> (r:
    Option<ArtifactType>)
    ensures
        match r {
            Some(a) => spec_detect_artifact(tree@.nodes, path.deep_view(), home.deep_view())
                == Some(a@),
            None => spec_detect_artifact(tree@.nodes, path.deep_view(), home.deep_view()) is None,
        },
{
    if path.len() < 2 {
        return None;
    }
    let name = &path[path.len() - 1];
    assert(name@ == path.deep_view().last());
    let parent = crate::fstree::parent_path(path);
    assert(parent.deep_view() == path.deep_view().drop_last());

    if string_eq_str(name, "node_modules") {
        return Some(
            ArtifactType {
                category: BloatCategory::ProjectArtifacts,
                cleanup_hint: "safe to delete, reinstall with npm install",
                manifest_file: Some(String::from_str("package.json")),
            },
        );
    }
    if string_eq_str(name, "target") && exists_at(tree, &path_join(&parent, "Cargo.toml")) {
        return Some(
            ArtifactType {
                category: BloatCategory::ProjectArtifacts,
                cleanup_hint: "safe to delete, rebuild with cargo build",
                manifest_file: Some(String::from_str("Cargo.toml")),
            },
        );
    }
    if (string_eq_str(name, "__pycache__") || string_eq_str(name, ".pytest_cache")
        || string_eq_str(name, ".mypy_cache") || string_eq_str(name, ".tox"))
        && !is_inside_installed_packages(path) {
        return Some(
            ArtifactType {
                category: BloatCategory::ProjectArtifacts,
                cleanup_hint: "safe to delete, regenerated automatically",
                manifest_file: None,
            },
        );
    }
    if (string_eq_str(name, ".venv") || string_eq_str(name, "venv")) && has_python_project(
        tree,
        &parent,
    ) {
        return Some(
            ArtifactType {
                category: BloatCategory::ProjectArtifacts,
                cleanup_hint: "virtual environment, recreate with python -m venv",
                manifest_file: None,
            },
        );
    }
    if string_eq_str(name, "vendor") && exists_at(tree, &path_join(&parent, "go.mod")) {
        return Some(
            ArtifactType {
                category: BloatCategory::ProjectArtifacts,
                cleanup_hint: "safe to delete, restore with go mod vendor",
                manifest_file: Some(String::from_str("go.mod")),
            },
        );
    }
    if string_eq_str(name, "vendor") && exists_at(tree, &path_join(&parent, "composer.json")) {
        return Some(
            ArtifactType {
                category: BloatCategory::ProjectArtifacts,
                cleanup_hint: "safe to delete, restore with composer install",
                manifest_file: Some(String::from_str("composer.json")),
            },
        );
    }
    if string_eq_str(name, ".gradle") && has_gradle_manifest(tree, &parent) {
        return Some(
            ArtifactType {
                category: BloatCategory::ProjectArtifacts,
                cleanup_hint: "safe to delete, rebuild with gradle build",
                manifest_file: None,
            },
        );
    }
    if string_eq_str(name, "build") && has_gradle_manifest(tree, &parent) && is_gradle_build_dir(
        tree,
        path,
    ) {
        return Some(
            ArtifactType {
                category: BloatCategory::ProjectArtifacts,
                cleanup_hint: "safe to delete, rebuild with gradle build",
                manifest_file: None,
            },
        );
    }
    if string_eq_str(name, "DerivedData") {
        assert(parent.deep_view() == spec_parent(path.deep_view()));
        if is_xcode_derived_data(tree, path, &parent, home) {
            return Some(
                ArtifactType {
                    category: BloatCategory::IdeData,
                    cleanup_hint: "xcode build artifacts, safe to delete",
                    manifest_file: None,
                },
            );
        }
    }
    if string_eq_str(name, "bin") || string_eq_str(name, "obj") {
        match find_dotnet_manifest(tree, &parent) {
            Some(manifest) => {
                return Some(
                    ArtifactType {
                        category: BloatCategory::ProjectArtifacts,
                        cleanup_hint: "safe to delete, rebuild with dotnet build",
                        manifest_file: Some(manifest),
                    },
                );
            },
            None => {},
        }
    }
    None
}

} // verus!
