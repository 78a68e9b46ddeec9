//! The project scanner: walk each snapshot in traversal order, prune hidden
//! directories (except meaningful dot-directories), classify candidates,
//! deduplicate nested and monorepo matches through claimed-path sets, and
//! emit one finding per accepted artifact with its measured size, display
//! name and most recent source modification.

use vstd::prelude::*;
use crate::detector::{BloatEntry, BloatEntryView, DetectorResult, Location, LocationView,
    LocationKind, entries_view};
use crate::classify::{spec_is_hidden, is_hidden, spec_detect_artifact, detect_artifact};
use crate::fstree::{FsTree, FsTreeView, FsNodeView, FsNodeKind, FsNodeKindView, is_prefix,
    path_is_prefix, spec_parent, parent_path, calculate_dir_size, measure_fold, nodes_view};
use crate::manifest::{spec_project_name, determine_project_name};
use crate::strutil::{spec_extension, extension_of, string_eq_str};

verus! {

// ---------------------------------------------------------------------------
// Joining a component path back into display form.
// ---------------------------------------------------------------------------

pub open spec fn spec_join(p: Seq<Seq<char>>) -> Seq<char>
    decreases p.len(),
{
    if p.len() == 0 {
        Seq::empty()
    } else if p.len() == 1 {
        p[0]
    } else {
        spec_join(p.drop_last()) + "/"@ + p.last()
    }
}

pub fn join_display(p: &Vec<String>) -> (r: String)
    ensures
        r@ == spec_join(p.deep_view()),
{
    let ghost pv = p.deep_view();
    let mut s = String::new();
    let mut i: usize = 0;
    while i < p.len()
        invariant
            i <= p@.len(),
            pv == p.deep_view(),
            s@ == spec_join(pv.take(i as int)),
        decreases p@.len() - i,
    {
        if i > 0 {
            s.append("/");
        }
        s.append(p[i].as_str());
        proof {
            assert(pv.take(i as int + 1).drop_last() =~= pv.take(i as int));
            assert(pv.take(i as int + 1).last() == pv[i as int]);
            if i == 0 {
                assert(pv.take(1)[0] == pv[0]);
            }
        }
        i = i + 1;
    }
    proof {
        assert(pv.take(p@.len() as int) =~= pv);
    }
    s
}

// ---------------------------------------------------------------------------
// Pruning and claiming.
// ---------------------------------------------------------------------------

/// Whether the walker's entry filter keeps this path out: some component
/// from the scan root's own name downward is a pruned hidden name.
pub open spec fn spec_pruned(root: Seq<Seq<char>>, path: Seq<Seq<char>>) -> bool {
    exists|j: int|
        (if root.len() > 0 {
            root.len() - 1
        } else {
            0
        }) <= j < path.len() && spec_is_hidden(#[trigger] path[j])
}

pub fn is_pruned(root: &Vec<String>, path: &Vec<String>) -> (r: bool)
    ensures
        r == spec_pruned(root.deep_view(), path.deep_view()),
{
    let ghost rv = root.deep_view();
    let ghost pv = path.deep_view();
    let start: usize = if root.len() > 0 {
        root.len() - 1
    } else {
        0
    };
    let mut j = start;
    while j < path.len()
        invariant
            start <= j,
            rv == root.deep_view(),
            pv == path.deep_view(),
            start == if rv.len() > 0 {
                rv.len() - 1
            } else {
                0
            },
            forall|k: int| start <= k < j ==> !spec_is_hidden(#[trigger] pv[k]),
        decreases path@.len() - j,
    {
        if is_hidden(path[j].as_str()) {
            assert(spec_is_hidden(pv[j as int]));
            return true;
        }
        j = j + 1;
    }
    false
}

/// A path is claimed when some already-claimed path is an ancestor of it
/// (or the path itself).
pub open spec fn spec_claimed(seen: Seq<Seq<Seq<char>>>, p: Seq<Seq<char>>) -> bool {
    exists|i: int| 0 <= i < seen.len() && is_prefix(#[trigger] seen[i], p)
}

pub fn is_claimed(seen: &Vec<Vec<String>>, p: &Vec<String>) -> (r: bool)
    ensures
        r == spec_claimed(seen.deep_view(), p.deep_view()),
{
    let ghost sv = seen.deep_view();
    let mut i: usize = 0;
    while i < seen.len()
        invariant
            i <= seen@.len(),
            sv == seen.deep_view(),
            forall|k: int| 0 <= k < i ==> !is_prefix(#[trigger] sv[k], p.deep_view()),
        decreases seen@.len() - i,
    {
        if path_is_prefix(&seen[i], p) {
            assert(sv[i as int] == seen@[i as int].deep_view());
            return true;
        }
        assert(sv[i as int] == seen@[i as int].deep_view());
        i = i + 1;
    }
    false
}

// ---------------------------------------------------------------------------
// Most recent source modification under a project root.
// ---------------------------------------------------------------------------

/// Artifact directory names the bounded source-time walk never descends
/// into.
pub open spec fn spec_is_skip_name(n: Seq<char>) -> bool {
    n == "node_modules"@ || n == "target"@ || n == ".venv"@ || n == "venv"@ || n == "vendor"@ || n
        == "__pycache__"@ || n == "build"@ || n == "dist"@
}

fn is_skip_name(n: &String) -> (r: bool)
    ensures
        r == spec_is_skip_name(n@),
{
    string_eq_str(n, "node_modules") || string_eq_str(n, "target") || string_eq_str(n, ".venv")
        || string_eq_str(n, "venv") || string_eq_str(n, "vendor") || string_eq_str(
        n,
        "__pycache__",
    ) || string_eq_str(n, "build") || string_eq_str(n, "dist")
}

pub open spec fn spec_is_source_ext(e: Seq<char>) -> bool {
    e == "rs"@ || e == "js"@ || e == "ts"@ || e == "jsx"@ || e == "tsx"@ || e == "py"@ || e
        == "go"@ || e == "java"@ || e == "kt"@ || e == "swift"@
}

/// A file the source-time walk would visit and count: within three levels of
/// the project root, not inside a skipped artifact directory, and carrying a
/// source extension.
pub open spec fn spec_source_candidate(root: Seq<Seq<char>>, n: FsNodeView) -> bool {
    &&& n.kind matches FsNodeKindView::File { .. }
    &&& is_prefix(root, n.path)
    &&& root.len() < n.path.len() <= root.len() + 3
    &&& (forall|k: int|
        root.len() <= k < n.path.len() - 1 ==> !spec_is_skip_name(#[trigger] n.path[k]))
    &&& match spec_extension(n.path.last()) {
        Some(e) => spec_is_source_ext(e),
        None => false,
    }
}

pub open spec fn spec_latest_step(acc: Option<i64>, n: FsNodeView, root: Seq<Seq<char>>) -> Option<
    i64,
> {
    if spec_source_candidate(root, n) {
        match n.kind {
            FsNodeKindView::File { mtime: Some(m), .. } => match acc {
                None => Some(m),
                Some(a) => Some(if m > a {
                    m
                } else {
                    a
                }),
            },
            _ => acc,
        }
    } else {
        acc
    }
}

pub open spec fn spec_latest_fold(nodes: Seq<FsNodeView>, root: Seq<Seq<char>>, upto: int) -> Option<
    i64,
>
    decreases upto,
{
    if upto <= 0 {
        None
    } else {
        spec_latest_step(spec_latest_fold(nodes, root, upto - 1), nodes[upto - 1], root)
    }
}

/// The most recent modification time of source files near the project root,
/// found by a bounded walk that prunes known artifact directories at
/// traversal level.
pub open spec fn spec_source_last_modified(nodes: Seq<FsNodeView>, root: Seq<Seq<char>>) -> Option<
    i64,
> {
    if root.len() > 0 && spec_is_skip_name(root.last()) {
        None
    } else {
        spec_latest_fold(nodes, root, nodes.len() as int)
    }
}

fn is_source_candidate(root: &Vec<String>, node_path: &Vec<String>, is_file: bool) -> (r: bool)
    ensures
        r == (is_file && is_prefix(root.deep_view(), node_path.deep_view()) && root.deep_view().len()
            < node_path.deep_view().len() <= root.deep_view().len() + 3 && (forall|k: int|
            root.deep_view().len() <= k < node_path.deep_view().len() - 1 ==> !spec_is_skip_name(
                #[trigger] node_path.deep_view()[k],
            )) && match spec_extension(node_path.deep_view().last()) {
            Some(e) => spec_is_source_ext(e),
            None => false,
        }),
{
    let ghost rv = root.deep_view();
    let ghost pv = node_path.deep_view();
    if !is_file {
        return false;
    }
    if !(node_path.len() > root.len() && node_path.len() - root.len() <= 3) {
        return false;
    }
    if !path_is_prefix(root, node_path) {
        return false;
    }
    let mut k = root.len();
    while k < node_path.len() - 1
        invariant
            root@.len() <= k <= node_path@.len(),
            node_path@.len() > root@.len(),
            rv == root.deep_view(),
            pv == node_path.deep_view(),
            forall|j: int| rv.len() <= j < k ==> !spec_is_skip_name(#[trigger] pv[j]),
        decreases node_path@.len() - k,
    {
        if is_skip_name(&node_path[k]) {
            assert(spec_is_skip_name(pv[k as int]));
            return false;
        }
        k = k + 1;
    }
    let last = node_path[node_path.len() - 1].as_str();
    assert(last@ == pv.last());
    match extension_of(last) {
        Some(e) => {
            crate::strutil::str_eq(e, "rs") || crate::strutil::str_eq(e, "js")
                || crate::strutil::str_eq(e, "ts") || crate::strutil::str_eq(e, "jsx")
                || crate::strutil::str_eq(e, "tsx") || crate::strutil::str_eq(e, "py")
                || crate::strutil::str_eq(e, "go") || crate::strutil::str_eq(e, "java")
                || crate::strutil::str_eq(e, "kt") || crate::strutil::str_eq(e, "swift")
        },
        None => false,
    }
}

/// Finds the most recent modification time of source files in a project,
/// used to identify stale projects.
pub fn get_source_last_modified(tree: &FsTree, project_root: &Vec<String>) -> (r: Option<i64>)
    ensures
        r == spec_source_last_modified(tree@.nodes, project_root.deep_view()),
{
    let ghost nv = tree@.nodes;
    let ghost rv = project_root.deep_view();
    if project_root.len() > 0 {
        let last = &project_root[project_root.len() - 1];
        assert(last@ == rv.last());
        if is_skip_name(last) {
            return None;
        }
    }
    let mut latest: Option<i64> = None;
    let mut i: usize = 0;
    while i < tree.nodes.len()
        invariant
            i <= tree.nodes@.len(),
            nv == nodes_view(tree.nodes@),
            rv == project_root.deep_view(),
            latest == spec_latest_fold(nv, rv, i as int),
        decreases tree.nodes@.len() - i,
    {
        let node = &tree.nodes[i];
        let is_file = matches!(node.kind, FsNodeKind::File { .. });
        if is_source_candidate(project_root, &node.path, is_file) {
            match &node.kind {
                FsNodeKind::File { mtime: Some(m), .. } => {
                    latest = match latest {
                        None => Some(*m),
                        Some(a) => Some(
                            if *m > a {
                                *m
                            } else {
                                a
                            },
                        ),
                    };
                },
                _ => {},
            }
        }
        assert(latest == spec_latest_step(spec_latest_fold(nv, rv, i as int), nv[i as int], rv));
        i = i + 1;
    }
    latest
}

// ---------------------------------------------------------------------------
// The scan itself.
// ---------------------------------------------------------------------------

/// The scanner's state after some prefix of the walk: what was found, what
/// was observed, and which paths are claimed.
pub struct ScanState {
    pub entries: Seq<BloatEntryView>,
    pub diagnostics: Seq<Seq<char>>,
    pub seen_projects: Seq<Seq<Seq<char>>>,
    pub seen_artifacts: Seq<Seq<Seq<char>>>,
}

pub open spec fn size_warning_suffix() -> Seq<char> {
    " (size may be underestimated)"@
}

/// What one directory of the walk contributes.
pub open spec fn spec_scan_step(
    tree: FsTreeView,
    home: Option<Seq<Seq<char>>>,
    st: ScanState,
    i: int,
) -> ScanState {
    let node = tree.nodes[i];
    if spec_pruned(tree.root, node.path) {
        st
    } else if !(node.kind is Dir) {
        st
    } else if spec_claimed(st.seen_artifacts, node.path) {
        st
    } else {
        match spec_detect_artifact(tree.nodes, node.path, home) {
            None => st,
            Some(art) => {
                let project_root = spec_parent(node.path);
                if spec_claimed(st.seen_projects, project_root) {
                    ScanState { seen_artifacts: st.seen_artifacts.push(node.path), ..st }
                } else {
                    let m = measure_fold(tree.nodes, node.path, tree.nodes.len() as int);
                    let entry = BloatEntryView {
                        category: art.category,
                        name: spec_project_name(tree.nodes, project_root, art),
                        location: LocationView {
                            kind: LocationKind::FilesystemPath,
                            text: spec_join(node.path),
                        },
                        size_bytes: m.total,
                        reclaimable_bytes: m.total,
                        last_modified: spec_source_last_modified(tree.nodes, project_root),
                        cleanup_hint: Some(art.cleanup_hint),
                    };
                    ScanState {
                        entries: st.entries.push(entry),
                        diagnostics: st.diagnostics + m.warnings.map_values(
                            |w: Seq<char>| w + size_warning_suffix(),
                        ),
                        seen_projects: st.seen_projects.push(project_root),
                        seen_artifacts: st.seen_artifacts.push(node.path),
                    }
                }
            },
        }
    }
}

pub open spec fn spec_scan_fold(
    tree: FsTreeView,
    home: Option<Seq<Seq<char>>>,
    st0: ScanState,
    upto: int,
) -> ScanState
    decreases upto,
{
    if upto <= 0 {
        st0
    } else {
        spec_scan_step(tree, home, spec_scan_fold(tree, home, st0, upto - 1), upto - 1)
    }
}

/// Walk one snapshot, deduplicating nested matches against the claimed sets
/// and appending each accepted artifact as a finding.
pub fn scan_directory(
    tree: &FsTree,
    home: &Option<Vec<String>>,
    entries: &mut Vec<BloatEntry>,
    seen_projects: &mut Vec<Vec<String>>,
    diagnostics: &mut Vec<String>,
)
    ensures
        ({
            let st = spec_scan_fold(
                tree@,
                home.deep_view(),
                ScanState {
                    entries: entries_view(old(entries)@),
                    diagnostics: old(diagnostics).deep_view(),
                    seen_projects: old(seen_projects).deep_view(),
                    seen_artifacts: Seq::empty(),
                },
                tree@.nodes.len() as int,
            );
            &&& entries_view(final(entries)@) == st.entries
            &&& final(diagnostics).deep_view() == st.diagnostics
            &&& final(seen_projects).deep_view() == st.seen_projects
        }),
{
    let ghost tv = tree@;
    let ghost hv = home.deep_view();
    let ghost st0 = ScanState {
        entries: entries_view(entries@),
        diagnostics: diagnostics.deep_view(),
        seen_projects: seen_projects.deep_view(),
        seen_artifacts: Seq::empty(),
    };
    let mut seen_artifacts: Vec<Vec<String>> = Vec::new();
    assert(seen_artifacts.deep_view() =~= Seq::<Seq<Seq<char>>>::empty());

    let mut i: usize = 0;
    while i < tree.nodes.len()
        invariant
            i <= tree.nodes@.len(),
            tv == tree@,
            hv == home.deep_view(),
            spec_scan_fold(tv, hv, st0, i as int) == (ScanState {
                entries: entries_view(entries@),
                diagnostics: diagnostics.deep_view(),
                seen_projects: seen_projects.deep_view(),
                seen_artifacts: seen_artifacts.deep_view(),
            }),
        decreases tree.nodes@.len() - i,
    {
        let ghost pre = ScanState {
            entries: entries_view(entries@),
            diagnostics: diagnostics.deep_view(),
            seen_projects: seen_projects.deep_view(),
            seen_artifacts: seen_artifacts.deep_view(),
        };
        let node = &tree.nodes[i];
        assert(node@ == tv.nodes[i as int]);
        let keep = !is_pruned(&tree.root, &node.path) && matches!(node.kind, FsNodeKind::Dir)
            && !is_claimed(&seen_artifacts, &node.path);
        if keep {
            match detect_artifact(tree, &node.path, home) {
                Some(artifact) => {
                    let project_root = parent_path(&node.path);
                    if is_claimed(&seen_projects, &project_root) {
                        let claimed_path = clone_path(&node.path);
                        seen_artifacts.push(claimed_path);
                        proof {
                            assert(seen_artifacts.deep_view() =~= pre.seen_artifacts.push(
                                node@.path,
                            ));
                            assert(spec_scan_fold(tv, hv, st0, i as int + 1) == (ScanState {
                                entries: entries_view(entries@),
                                diagnostics: diagnostics.deep_view(),
                                seen_projects: seen_projects.deep_view(),
                                seen_artifacts: seen_artifacts.deep_view(),
                            }));
                        }
                    } else {
                        let (size, warnings) = calculate_dir_size(tree, &node.path);
                        let project_name = determine_project_name(tree, &project_root, &artifact);
                        let last_modified = get_source_last_modified(tree, &project_root);
                        let entry = BloatEntry {
                            category: artifact.category,
                            name: project_name,
                            location: Location::FilesystemPath(join_display(&node.path)),
                            size_bytes: size,
                            reclaimable_bytes: size,
                            last_modified,
                            cleanup_hint: Some(String::from_str(artifact.cleanup_hint)),
                        };
                        entries.push(entry);
                        seen_projects.push(project_root);
                        let claimed_path = clone_path(&node.path);
                        seen_artifacts.push(claimed_path);
                        let ghost pre_diag = diagnostics.deep_view();
                        let mut w: usize = 0;
                        let ghost wv = warnings.deep_view();
                        while w < warnings.len()
                            invariant
                                w <= warnings@.len(),
                                wv == warnings.deep_view(),
                                wv.len() == warnings@.len(),
                                diagnostics.deep_view() =~= pre_diag + wv.take(w as int).map_values(
                                    |x: Seq<char>| x + size_warning_suffix(),
                                ),
                            decreases warnings@.len() - w,
                        {
                            let suffixed = warnings[w].clone().concat(
                                " (size may be underestimated)",
                            );
                            assert(suffixed@ == wv[w as int] + size_warning_suffix());
                            let ghost dpre = diagnostics.deep_view();
                            diagnostics.push(suffixed);
                            proof {
                                assert(diagnostics.deep_view() =~= dpre.push(
                                    wv[w as int] + size_warning_suffix(),
                                ));
                                assert(wv.take(w as int + 1).map_values(
                                    |x: Seq<char>| x + size_warning_suffix(),
                                ) =~= wv.take(w as int).map_values(
                                    |x: Seq<char>| x + size_warning_suffix(),
                                ).push(wv[w as int] + size_warning_suffix()));
                                assert(diagnostics.deep_view() =~= pre_diag + wv.take(
                                    w as int + 1,
                                ).map_values(|x: Seq<char>| x + size_warning_suffix()));
                            }
                            w = w + 1;
                        }
                        proof {
                            assert(wv.take(warnings@.len() as int) =~= wv);
                            let m = measure_fold(tv.nodes, node@.path, tv.nodes.len() as int);
                            assert(wv == m.warnings);
                            assert(entries_view(entries@) =~= pre.entries.push(entry@));
                            assert(seen_projects.deep_view() =~= pre.seen_projects.push(
                                spec_parent(node@.path),
                            ));
                            assert(seen_artifacts.deep_view() =~= pre.seen_artifacts.push(
                                node@.path,
                            ));
                            assert(diagnostics.deep_view() =~= pre.diagnostics + m.warnings.map_values(
                                |x: Seq<char>| x + size_warning_suffix(),
                            ));
                            assert(spec_scan_fold(tv, hv, st0, i as int + 1) == (ScanState {
                                entries: entries_view(entries@),
                                diagnostics: diagnostics.deep_view(),
                                seen_projects: seen_projects.deep_view(),
                                seen_artifacts: seen_artifacts.deep_view(),
                            }));
                        }
                    }
                },
                None => {
                    assert(spec_scan_fold(tv, hv, st0, i as int + 1) == pre);
                },
            }
        } else {
            assert(spec_scan_fold(tv, hv, st0, i as int + 1) == pre);
        }
        i = i + 1;
    }
}

fn clone_path(p: &Vec<String>) -> (r: Vec<String>)
    ensures
        r.deep_view() == p.deep_view(),
        r@.len() == p@.len(),
{
    let mut r: Vec<String> = Vec::new();
    let mut i: usize = 0;
    while i < p.len()
        invariant
            i <= p@.len(),
            r@.len() == i,
            forall|j: int| 0 <= j < i ==> r@[j] == #[trigger] p@[j],
        decreases p@.len() - i,
    {
        let c = p[i].clone();
        r.push(c);
        i = i + 1;
    }
    proof {
        assert(r.deep_view() =~= p.deep_view());
    }
    r
}

// ---------------------------------------------------------------------------
// The detector over a set of roots.
// ---------------------------------------------------------------------------

/// One configured scan root as the walker reports it: its display path, and
/// its snapshot when the directory exists.
pub struct RootSnapshot {
    pub path: String,
    pub tree: Option<FsTree>,
}

pub struct RootSnapshotView {
    pub path: Seq<char>,
    pub tree: Option<FsTreeView>,
}

impl View for RootSnapshot {
    type V = RootSnapshotView;

    open spec fn view(&self) -> RootSnapshotView {
        RootSnapshotView {
            path: self.path@,
            tree: match &self.tree {
                Some(t) => Some(t@),
                None => None,
            },
        }
    }
}

pub open spec fn roots_view(v: Seq<RootSnapshot>) -> Seq<RootSnapshotView> {
    v.map_values(|r: RootSnapshot| r@)
}

pub open spec fn missing_root_diag(path: Seq<char>) -> Seq<char> {
    "skipping "@ + path + ": directory does not exist"@
}

/// The whole detector run: per root, either the missing-root diagnostic or
/// the root's walk folded into the state.
pub open spec fn spec_scan_roots(
    roots: Seq<RootSnapshotView>,
    home: Option<Seq<Seq<char>>>,
    st0: ScanState,
    upto: int,
) -> ScanState
    decreases upto,
{
    if upto <= 0 {
        st0
    } else {
        let st = spec_scan_roots(roots, home, st0, upto - 1);
        match roots[upto - 1].tree {
            None => ScanState {
                diagnostics: st.diagnostics.push(missing_root_diag(roots[upto - 1].path)),
                ..st
            },
            Some(t) => {
                let walked = spec_scan_fold(
                    t,
                    home,
                    ScanState { seen_artifacts: Seq::empty(), ..st },
                    t.nodes.len() as int,
                );
                ScanState { seen_artifacts: st.seen_artifacts, ..walked }
            },
        }
    }
}

/// Detects build artifacts in project directories.
pub struct ProjectDetector;

impl ProjectDetector {
    pub fn name(&self) -> (r: &'static str)
        ensures
            r@ == "projects"@,
    {
        "projects"
    }

    /// The project scanner runs unless the configuration disables it.
    pub fn available(&self, config: &crate::config::Config) -> (r: bool)
        ensures
            r == !crate::config::spec_contains_string(
                config.disabled_detectors.deep_view(),
                "projects"@,
            ),
    {
        config.is_detector_enabled("projects")
    }

    /// Scan the given root snapshots: walk each existing root, skip missing
    /// ones with a diagnostic, and never double-report nested artifacts.
    pub fn scan(&self, roots: &Vec<RootSnapshot>, home: &Option<Vec<String>>) -> (r:
        DetectorResult)
        ensures
            ({
                let st = spec_scan_roots(
                    roots_view(roots@),
                    home.deep_view(),
                    ScanState {
                        entries: Seq::empty(),
                        diagnostics: Seq::empty(),
                        seen_projects: Seq::empty(),
                        seen_artifacts: Seq::empty(),
                    },
                    roots@.len() as int,
                );
                &&& entries_view(r.entries@) == st.entries
                &&& r.diagnostics.deep_view() == st.diagnostics
            }),
    {
        let ghost rv = roots_view(roots@);
        let ghost hv = home.deep_view();
        let ghost st0 = ScanState {
            entries: Seq::empty(),
            diagnostics: Seq::empty(),
            seen_projects: Seq::empty(),
            seen_artifacts: Seq::empty(),
        };
        let mut entries: Vec<BloatEntry> = Vec::new();
        let mut diagnostics: Vec<String> = Vec::new();
        let mut seen_projects: Vec<Vec<String>> = Vec::new();
        proof {
            assert(entries_view(entries@) =~= Seq::<BloatEntryView>::empty());
            assert(diagnostics.deep_view() =~= Seq::<Seq<char>>::empty());
            assert(seen_projects.deep_view() =~= Seq::<Seq<Seq<char>>>::empty());
        }

        let mut i: usize = 0;
        while i < roots.len()
            invariant
                i <= roots@.len(),
                rv == roots_view(roots@),
                hv == home.deep_view(),
                ({
                    let st = spec_scan_roots(rv, hv, st0, i as int);
                    &&& entries_view(entries@) == st.entries
                    &&& diagnostics.deep_view() == st.diagnostics
                    &&& seen_projects.deep_view() == st.seen_projects
                }),
            decreases roots@.len() - i,
        {
            let ghost pre = spec_scan_roots(rv, hv, st0, i as int);
            let root = &roots[i];
            match &root.tree {
                None => {
                    let msg = String::from_str("skipping ").concat(root.path.as_str()).concat(
                        ": directory does not exist",
                    );
                    assert(msg@ == missing_root_diag(rv[i as int].path));
                    diagnostics.push(msg);
                    proof {
                        assert(diagnostics.deep_view() =~= pre.diagnostics.push(
                            missing_root_diag(rv[i as int].path),
                        ));
                    }
                },
                Some(tree) => {
                    scan_directory(tree, home, &mut entries, &mut seen_projects, &mut diagnostics);
                    proof {
                        let stw = ScanState {
                            entries: pre.entries,
                            diagnostics: pre.diagnostics,
                            seen_projects: pre.seen_projects,
                            seen_artifacts: Seq::empty(),
                        };
                        assert(stw == (ScanState { seen_artifacts: Seq::<Seq<Seq<char>>>::empty(), ..pre }));
                    }
                },
            }
            i = i + 1;
        }
        DetectorResult { entries, diagnostics }
    }
}

/// Every finding the scanner accepts keeps the findings' invariant: no more
/// of it is reclaimable than it holds.
pub proof fn lemma_scan_entries_wf(
    roots: Seq<RootSnapshotView>,
    home: Option<Seq<Seq<char>>>,
    st0: ScanState,
    upto: int,
)
    requires
        0 <= upto <= roots.len(),
        crate::detector::all_entries_wf(st0.entries),
    ensures
        crate::detector::all_entries_wf(spec_scan_roots(roots, home, st0, upto).entries),
    decreases upto,
{
    if upto > 0 {
        lemma_scan_entries_wf(roots, home, st0, upto - 1);
        let st = spec_scan_roots(roots, home, st0, upto - 1);
        match roots[upto - 1].tree {
            None => {},
            Some(t) => {
                lemma_scan_fold_entries_wf(
                    t,
                    home,
                    ScanState { seen_artifacts: Seq::empty(), ..st },
                    t.nodes.len() as int,
                );
            },
        }
    }
}

proof fn lemma_scan_fold_entries_wf(
    tree: FsTreeView,
    home: Option<Seq<Seq<char>>>,
    st0: ScanState,
    upto: int,
)
    requires
        crate::detector::all_entries_wf(st0.entries),
    ensures
        crate::detector::all_entries_wf(spec_scan_fold(tree, home, st0, upto).entries),
    decreases (if upto > 0 {
        upto
    } else {
        0
    }),
{
    if upto > 0 {
        lemma_scan_fold_entries_wf(tree, home, st0, upto - 1);
        let st = spec_scan_fold(tree, home, st0, upto - 1);
        let next = spec_scan_step(tree, home, st, upto - 1);
        assert forall|i: int| 0 <= i < next.entries.len() implies (#[trigger] next.entries[i]).wf()
        by {
            if i < st.entries.len() {
                assert(st.entries[i].wf());
            }
        }
    }
}

/// Scanning is a pure function of the snapshot: running the scanner twice on
/// the same unmodified trees yields the same findings, name for name, byte
/// for byte.
pub proof fn lemma_scan_deterministic(
    a: ScanState,
    b: ScanState,
    roots: Seq<RootSnapshotView>,
    home: Option<Seq<Seq<char>>>,
    st0: ScanState,
)
    requires
        a == spec_scan_roots(roots, home, st0, roots.len() as int),
        b == spec_scan_roots(roots, home, st0, roots.len() as int),
    ensures
        a == b,
{
}

} // verus!
