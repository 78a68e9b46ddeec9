//! A plain-value snapshot of a directory tree, as the walker hands it to the
//! library: one node per visited entry, in traversal order, with sizes,
//! timestamps, optional text contents and the traversal errors met on the way.
//!
//! All size accounting is done over this model; the walk itself is I/O and
//! stays outside the library.

use vstd::prelude::*;
use crate::strutil::str_eq;

verus! {

/// What one visited entry is.
pub enum FsNodeKind {
    Dir,
    File { size: u64, mtime: Option<i64>, content: Option<String> },
    /// A traversal error: the walker could not read this entry. The message
    /// is already phrased for a diagnostic ("permission denied: ...").
    ReadError { message: String },
}

/// One visited entry: its absolute path, as components.
pub struct FsNode {
    pub path: Vec<String>,
    pub kind: FsNodeKind,
}

/// The snapshot of one scan root: the root's path and every visited entry in
/// depth-first traversal order, the root directory itself first.
pub struct FsTree {
    pub root: Vec<String>,
    pub nodes: Vec<FsNode>,
}

pub enum FsNodeKindView {
    Dir,
    File { size: u64, mtime: Option<i64>, content: Option<Seq<char>> },
    ReadError { message: Seq<char> },
}

pub struct FsNodeView {
    pub path: Seq<Seq<char>>,
    pub kind: FsNodeKindView,
}

pub struct FsTreeView {
    pub root: Seq<Seq<char>>,
    pub nodes: Seq<FsNodeView>,
}

impl View for FsNode {
    type V = FsNodeView;

    open spec fn view(&self) -> FsNodeView {
        FsNodeView {
            path: self.path.deep_view(),
            kind: match self.kind {
                FsNodeKind::Dir => FsNodeKindView::Dir,
                FsNodeKind::File { size, mtime, content } => FsNodeKindView::File {
                    size,
                    mtime,
                    content: match content {
                        Some(c) => Some(c@),
                        None => None,
                    },
                },
                FsNodeKind::ReadError { message } => FsNodeKindView::ReadError { message: message@ },
            },
        }
    }
}

impl View for FsTree {
    type V = FsTreeView;

    open spec fn view(&self) -> FsTreeView {
        FsTreeView { root: self.root.deep_view(), nodes: nodes_view(self.nodes@) }
    }
}

pub open spec fn nodes_view(v: Seq<FsNode>) -> Seq<FsNodeView> {
    v.map_values(|n: FsNode| n@)
}

// ---------------------------------------------------------------------------
// Paths as component sequences.
// ---------------------------------------------------------------------------

/// `p` is an ancestor of `q` or `q` itself, component-wise — what
/// `Path::starts_with` answers.
pub open spec fn is_prefix(p: Seq<Seq<char>>, q: Seq<Seq<char>>) -> bool {
    p.len() <= q.len() && (forall|i: int| 0 <= i < p.len() ==> q[i] == #[trigger] p[i])
}

pub proof fn lemma_prefix_transitive(a: Seq<Seq<char>>, b: Seq<Seq<char>>, c: Seq<Seq<char>>)
    requires
        is_prefix(a, b),
        is_prefix(b, c),
    ensures
        is_prefix(a, c),
{
}

pub fn path_eq(a: &Vec<String>, b: &Vec<String>) -> (r: bool)
    ensures
        r == (a.deep_view() == b.deep_view()),
{
    if a.len() != b.len() {
        assert(a.deep_view().len() != b.deep_view().len());
        return false;
    }
    let mut i: usize = 0;
    while i < a.len()
        invariant
            i <= a@.len(),
            a@.len() == b@.len(),
            forall|j: int| 0 <= j < i ==> a.deep_view()[j] == #[trigger] b.deep_view()[j],
        decreases a@.len() - i,
    {
        if !str_eq(a[i].as_str(), b[i].as_str()) {
            assert(a.deep_view()[i as int] != b.deep_view()[i as int]);
            return false;
        }
        i = i + 1;
    }
    proof {
        assert(a.deep_view() =~= b.deep_view());
    }
    true
}

pub fn path_is_prefix(p: &Vec<String>, q: &Vec<String>) -> (r: bool)
    ensures
        r == is_prefix(p.deep_view(), q.deep_view()),
{
    if p.len() > q.len() {
        assert(p.deep_view().len() > q.deep_view().len());
        return false;
    }
    let mut i: usize = 0;
    while i < p.len()
        invariant
            i <= p@.len(),
            p@.len() <= q@.len(),
            forall|j: int| 0 <= j < i ==> q.deep_view()[j] == #[trigger] p.deep_view()[j],
        decreases p@.len() - i,
    {
        if !str_eq(p[i].as_str(), q[i].as_str()) {
            assert(q.deep_view()[i as int] != p.deep_view()[i as int]);
            return false;
        }
        i = i + 1;
    }
    true
}

/// The path without its last component — the parent directory, as
/// `Path::parent` sees it; a path of one component is its own parent here,
/// as the scanner never asks above a scan root.
pub fn parent_path(p: &Vec<String>) -> (r: Vec<String>)
    ensures
        r.deep_view() == spec_parent(p.deep_view()),
{
    let mut r: Vec<String> = Vec::new();
    if p.len() == 0 {
        assert(r.deep_view() =~= p.deep_view());
        return r;
    }
    let end = if p.len() == 1 {
        1
    } else {
        p.len() - 1
    };
    let mut i: usize = 0;
    while i < end
        invariant
            i <= end <= p@.len(),
            r@.len() == i,
            forall|j: int| 0 <= j < i ==> r@[j] == #[trigger] p@[j],
        decreases end - i,
    {
        let c = p[i].clone();
        r.push(c);
        i = i + 1;
    }
    proof {
        assert forall|j: int| 0 <= j < end implies r.deep_view()[j] == #[trigger] spec_parent(
            p.deep_view(),
        )[j] by {
            assert(r@[j] == p@[j]);
        }
        assert(r.deep_view() =~= spec_parent(p.deep_view()));
    }
    r
}

pub open spec fn spec_parent(p: Seq<Seq<char>>) -> Seq<Seq<char>> {
    if p.len() <= 1 {
        p
    } else {
        p.drop_last()
    }
}

/// Append one component to a path.
pub fn path_join(p: &Vec<String>, name: &str) -> (r: Vec<String>)
    ensures
        r.deep_view() == p.deep_view().push(name@),
{
    let mut r: Vec<String> = Vec::new();
    let mut i: usize = 0;
    while i < p.len()
        invariant
            i <= p@.len(),
            r@.len() == i,
            forall|j: int| 0 <= j < i ==> r@[j] == #[trigger] p@[j],
        decreases p@.len() - i,
    {
        let c = p[i].clone();
        r.push(c);
        i = i + 1;
    }
    r.push(String::from_str(name));
    proof {
        assert forall|j: int| 0 <= j < r@.len() implies r.deep_view()[j] == #[trigger] p.deep_view().push(
            name@,
        )[j] by {
            if j < p@.len() {
                assert(r@[j] == p@[j]);
            }
        }
        assert(r.deep_view() =~= p.deep_view().push(name@));
    }
    r
}

// ---------------------------------------------------------------------------
// Finding nodes.
// ---------------------------------------------------------------------------

pub open spec fn node_at(nodes: Seq<FsNodeView>, p: Seq<Seq<char>>) -> Option<FsNodeView>
    decreases nodes.len(),
{
    if nodes.len() == 0 {
        None
    } else if nodes[0].path == p {
        Some(nodes[0])
    } else {
        node_at(nodes.drop_first(), p)
    }
}

/// What `Path::exists` answers in this model: some readable entry has the
/// path.
pub open spec fn spec_exists_at(nodes: Seq<FsNodeView>, p: Seq<Seq<char>>) -> bool {
    match node_at(nodes, p) {
        Some(n) => !(n.kind is ReadError),
        None => false,
    }
}

pub fn find_node<'a>(tree: &'a FsTree, p: &Vec<String>) -> (r: Option<&'a FsNode>)
    ensures
        match r {
            Some(n) => node_at(tree@.nodes, p.deep_view()) == Some(n@),
            None => node_at(tree@.nodes, p.deep_view()) is None,
        },
{
    let ghost nv = tree@.nodes;
    let ghost pv = p.deep_view();
    let mut i: usize = 0;
    assert(nv.skip(0) =~= nv);
    while i < tree.nodes.len()
        invariant
            i <= tree.nodes@.len(),
            nv == nodes_view(tree.nodes@),
            pv == p.deep_view(),
            node_at(nv, pv) == node_at(nv.skip(i as int), pv),
        decreases tree.nodes@.len() - i,
    {
        proof {
            assert(nv.skip(i as int).len() > 0);
            assert(nv.skip(i as int)[0] == nv[i as int]);
        }
        if path_eq(&tree.nodes[i].path, p) {
            return Some(&tree.nodes[i]);
        }
        proof {
            assert(nv.skip(i as int).drop_first() =~= nv.skip(i as int + 1));
        }
        i = i + 1;
    }
    proof {
        assert(nv.skip(tree.nodes@.len() as int).len() == 0);
    }
    None
}

/// Whether a readable entry exists at `p` — a sibling-manifest test.
pub fn exists_at(tree: &FsTree, p: &Vec<String>) -> (r: bool)
    ensures
        r == spec_exists_at(tree@.nodes, p.deep_view()),
{
    match find_node(tree, p) {
        Some(n) => !matches!(n.kind, FsNodeKind::ReadError { .. }),
        None => false,
    }
}

// ---------------------------------------------------------------------------
// Size accounting.
// ---------------------------------------------------------------------------

pub open spec fn node_size(n: FsNodeView, p: Seq<Seq<char>>) -> int {
    if is_prefix(p, n.path) {
        match n.kind {
            FsNodeKindView::File { size, .. } => size as int,
            _ => 0,
        }
    } else {
        0
    }
}

/// The exact logical byte total under `p`: the sum of the sizes of the
/// readable files at or below it, as unbounded arithmetic.
pub open spec fn total_size(nodes: Seq<FsNodeView>, p: Seq<Seq<char>>) -> int
    decreases nodes.len(),
{
    if nodes.len() == 0 {
        0
    } else {
        total_size(nodes.drop_last(), p) + node_size(nodes.last(), p)
    }
}

pub proof fn lemma_total_size_nonneg(nodes: Seq<FsNodeView>, p: Seq<Seq<char>>)
    ensures
        total_size(nodes, p) >= 0,
    decreases nodes.len(),
{
    if nodes.len() > 0 {
        lemma_total_size_nonneg(nodes.drop_last(), p);
    }
}

/// The nodes that survive when the subtree under `d` is removed.
pub open spec fn outside_of(d: Seq<Seq<char>>) -> spec_fn(FsNodeView) -> bool {
    |n: FsNodeView| !is_prefix(d, n.path)
}

/// Accounting consistency: for any directory `d` below `root`, the total
/// under `root` splits into the total of everything outside `d`'s subtree
/// plus the total measured under `d` itself.
pub proof fn lemma_size_accounting(nodes: Seq<FsNodeView>, root: Seq<Seq<char>>, d: Seq<Seq<char>>)
    requires
        is_prefix(root, d),
    ensures
        total_size(nodes, root) == total_size(nodes.filter(outside_of(d)), root) + total_size(
            nodes,
            d,
        ),
    decreases nodes.len(),
{
    reveal(Seq::filter);
    let pred = outside_of(d);
    if nodes.len() > 0 {
        let rest = nodes.drop_last();
        let last = nodes.last();
        lemma_size_accounting(rest, root, d);
        if is_prefix(d, last.path) {
            lemma_prefix_transitive(root, d, last.path);
            assert(nodes.filter(pred) == rest.filter(pred));
        } else {
            assert(nodes.filter(pred) == rest.filter(pred).push(last));
            assert(rest.filter(pred).push(last).drop_last() =~= rest.filter(pred));
        }
    }
}

/// The state the accumulator is in after some prefix of the walk.
pub struct MeasureState {
    pub total: u64,
    pub overflowed: bool,
    pub warnings: Seq<Seq<char>>,
}

pub open spec fn overflow_warning() -> Seq<char> {
    "directory size exceeds u64::MAX, size capped at maximum value"@
}

pub open spec fn measure_step(st: MeasureState, n: FsNodeView, p: Seq<Seq<char>>) -> MeasureState {
    if is_prefix(p, n.path) {
        match n.kind {
            FsNodeKindView::File { size, .. } => {
                if st.total + size > u64::MAX {
                    MeasureState {
                        total: u64::MAX,
                        overflowed: true,
                        warnings: if st.overflowed {
                            st.warnings
                        } else {
                            st.warnings.push(overflow_warning())
                        },
                    }
                } else {
                    MeasureState { total: (st.total + size) as u64, ..st }
                }
            },
            FsNodeKindView::Dir => st,
            FsNodeKindView::ReadError { message } => MeasureState {
                warnings: st.warnings.push(message),
                ..st
            },
        }
    } else {
        st
    }
}

pub open spec fn measure_fold(nodes: Seq<FsNodeView>, p: Seq<Seq<char>>, upto: int) -> MeasureState
    decreases upto,
{
    if upto <= 0 {
        MeasureState { total: 0, overflowed: false, warnings: Seq::empty() }
    } else {
        measure_step(measure_fold(nodes, p, upto - 1), nodes[upto - 1], p)
    }
}

/// The accumulated total is the exact total clamped at `u64::MAX`, and the
/// overflow flag records whether clamping happened.
pub proof fn lemma_measure_fold_total(nodes: Seq<FsNodeView>, p: Seq<Seq<char>>, upto: int)
    requires
        0 <= upto <= nodes.len(),
    ensures
        measure_fold(nodes, p, upto).overflowed <==> total_size(nodes.take(upto), p) > u64::MAX,
        measure_fold(nodes, p, upto).total == if total_size(nodes.take(upto), p) <= u64::MAX {
            total_size(nodes.take(upto), p)
        } else {
            u64::MAX as int
        },
    decreases upto,
{
    if upto > 0 {
        lemma_measure_fold_total(nodes, p, upto - 1);
        lemma_total_size_nonneg(nodes.take(upto - 1), p);
        assert(nodes.take(upto).drop_last() =~= nodes.take(upto - 1));
        assert(nodes.take(upto).last() == nodes[upto - 1]);
    }
}

/// The diagnostics the walk's failures owe: one message per unreadable
/// entry at or below `p`, in traversal order.
pub open spec fn spec_error_messages(nodes: Seq<FsNodeView>, p: Seq<Seq<char>>, upto: int) -> Seq<
    Seq<char>,
>
    decreases upto,
{
    if upto <= 0 {
        Seq::empty()
    } else {
        spec_error_messages(nodes, p, upto - 1) + (if is_prefix(p, nodes[upto - 1].path) {
            match nodes[upto - 1].kind {
                FsNodeKindView::ReadError { message } => seq![message],
                _ => Seq::empty(),
            }
        } else {
            Seq::empty()
        })
    }
}

pub proof fn lemma_total_size_prefix_mono(nodes: Seq<FsNodeView>, p: Seq<Seq<char>>, upto: int)
    requires
        0 <= upto <= nodes.len(),
    ensures
        total_size(nodes.take(upto), p) <= total_size(nodes, p),
    decreases nodes.len() - upto,
{
    if upto < nodes.len() {
        lemma_total_size_prefix_mono(nodes, p, upto + 1);
        assert(nodes.take(upto + 1).drop_last() =~= nodes.take(upto));
        assert(nodes.take(upto + 1).last() == nodes[upto]);
    } else {
        assert(nodes.take(upto) =~= nodes);
    }
}

/// Partial-failure tolerance: as long as the subtree's byte total fits the
/// counter, unreadable entries never blank out the measurement — the
/// accumulated total is exactly the sum of the readable files, and the
/// warnings are exactly one message per unreadable entry under the path, in
/// order. The measurement itself cannot fail.
pub proof fn lemma_measure_tolerates_errors(nodes: Seq<FsNodeView>, p: Seq<Seq<char>>, upto: int)
    requires
        0 <= upto <= nodes.len(),
        total_size(nodes, p) <= u64::MAX,
    ensures
        measure_fold(nodes, p, upto).total == total_size(nodes.take(upto), p),
        measure_fold(nodes, p, upto).warnings == spec_error_messages(nodes, p, upto),
    decreases upto,
{
    if upto > 0 {
        lemma_measure_tolerates_errors(nodes, p, upto - 1);
        lemma_total_size_prefix_mono(nodes, p, upto);
        lemma_total_size_prefix_mono(nodes, p, upto - 1);
        lemma_measure_fold_total(nodes, p, upto - 1);
        assert(nodes.take(upto).drop_last() =~= nodes.take(upto - 1));
        assert(nodes.take(upto).last() == nodes[upto - 1]);
        let st = measure_fold(nodes, p, upto - 1);
        let next = measure_step(st, nodes[upto - 1], p);
        assert(next.warnings =~= spec_error_messages(nodes, p, upto));
    } else {
        assert(measure_fold(nodes, p, 0).warnings =~= spec_error_messages(nodes, p, 0));
    }
}

/// Sum the sizes of the regular files at or below `path`, saturating at
/// `u64::MAX` with exactly one warning for the whole call, and downgrading
/// every traversal error under `path` to one warning. Never fails.
pub fn calculate_dir_size(tree: &FsTree, path: &Vec<String>) -> (r: (u64, Vec<String>))
    ensures
        ({
            let st = measure_fold(tree@.nodes, path.deep_view(), tree@.nodes.len() as int);
            &&& r.0 == st.total
            &&& r.1.deep_view() == st.warnings
            &&& r.0 == if total_size(tree@.nodes, path.deep_view()) <= u64::MAX {
                total_size(tree@.nodes, path.deep_view())
            } else {
                u64::MAX as int
            }
        }),
{
    let ghost nv = tree@.nodes;
    let ghost pv = path.deep_view();
    let mut total: u64 = 0;
    let mut overflowed = false;
    let mut warnings: Vec<String> = Vec::new();

    let mut i: usize = 0;
    assert(warnings.deep_view() =~= Seq::<Seq<char>>::empty());
    while i < tree.nodes.len()
        invariant
            i <= tree.nodes@.len(),
            nv == nodes_view(tree.nodes@),
            pv == path.deep_view(),
            measure_fold(nv, pv, i as int) == (MeasureState {
                total,
                overflowed,
                warnings: warnings.deep_view(),
            }),
        decreases tree.nodes@.len() - i,
    {
        let ghost pre = MeasureState { total, overflowed, warnings: warnings.deep_view() };
        let node = &tree.nodes[i];
        if path_is_prefix(path, &node.path) {
            match &node.kind {
                FsNodeKind::File { size, .. } => {
                    match total.checked_add(*size) {
                        Some(t) => {
                            total = t;
                        },
                        None => {
                            if !overflowed {
                                warnings.push(
                                    String::from_str(
                                        "directory size exceeds u64::MAX, size capped at maximum value",
                                    ),
                                );
                                overflowed = true;
                            }
                            total = u64::MAX;
                        },
                    }
                },
                FsNodeKind::Dir => {},
                FsNodeKind::ReadError { message } => {
                    warnings.push(message.clone());
                },
            }
        }
        proof {
            assert(warnings.deep_view() =~= measure_step(pre, nv[i as int], pv).warnings);
            assert(measure_fold(nv, pv, i as int + 1) == (MeasureState {
                total,
                overflowed,
                warnings: warnings.deep_view(),
            }));
        }
        i = i + 1;
    }
    proof {
        lemma_measure_fold_total(nv, pv, nv.len() as int);
        assert(nv.take(nv.len() as int) =~= nv);
    }
    (total, warnings)
}

} // verus!
