//! Snapshot comparison: matches findings across two scans by their identity
//! key (category and name, never path) and classifies each pairing as grown,
//! shrunk, new or gone, with a saturating net change.

use vstd::prelude::*;
use crate::detector::{BloatCategory, BloatEntry, BloatEntryView, entries_view, spec_category_str};

verus! {

#[derive(Debug, Clone, Copy, PartialEq, Eq, Structural)]
pub enum DiffType {
    Grew,
    Shrank,
    New,
    Gone,
}

#[derive(Debug, Clone)]
pub struct DiffEntry {
    pub name: String,
    pub category: BloatCategory,
    pub old_size: u64,
    pub new_size: u64,
    pub delta: i64,
    pub diff_type: DiffType,
}

pub struct DiffEntryView {
    pub name: Seq<char>,
    pub category: BloatCategory,
    pub old_size: u64,
    pub new_size: u64,
    pub delta: i64,
    pub diff_type: DiffType,
}

impl View for DiffEntry {
    type V = DiffEntryView;

    open spec fn view(&self) -> DiffEntryView {
        DiffEntryView {
            name: self.name@,
            category: self.category,
            old_size: self.old_size,
            new_size: self.new_size,
            delta: self.delta,
            diff_type: self.diff_type,
        }
    }
}

pub struct DiffResult {
    pub entries: Vec<DiffEntry>,
    pub net_change: i64,
    pub from_id: i64,
    pub to_id: i64,
    pub from_timestamp: i64,
    pub to_timestamp: i64,
}

pub open spec fn diff_entries_view(v: Seq<DiffEntry>) -> Seq<DiffEntryView> {
    v.map_values(|e: DiffEntry| e@)
}

// ---------------------------------------------------------------------------
// Saturating signed arithmetic, built on checked operations.
// ---------------------------------------------------------------------------

pub open spec fn spec_sat_add_i64(a: i64, b: i64) -> i64 {
    if a + b > i64::MAX {
        i64::MAX
    } else if a + b < i64::MIN {
        i64::MIN
    } else {
        (a + b) as i64
    }
}

pub open spec fn spec_sat_sub_i64(a: i64, b: i64) -> i64 {
    if a - b > i64::MAX {
        i64::MAX
    } else if a - b < i64::MIN {
        i64::MIN
    } else {
        (a - b) as i64
    }
}

pub fn sat_add_i64(a: i64, b: i64) -> (r: i64)
    ensures
        r == spec_sat_add_i64(a, b),
{
    match a.checked_add(b) {
        Some(v) => v,
        None => if b >= 0 {
            i64::MAX
        } else {
            i64::MIN
        },
    }
}

pub fn sat_sub_i64(a: i64, b: i64) -> (r: i64)
    ensures
        r == spec_sat_sub_i64(a, b),
{
    match a.checked_sub(b) {
        Some(v) => v,
        None => if b <= 0 {
            i64::MAX
        } else {
            i64::MIN
        },
    }
}

/// A size as the signed storage sees it, clamped at `i64::MAX`.
pub open spec fn spec_clamp_size(x: u64) -> i64 {
    if x <= i64::MAX as u64 {
        x as i64
    } else {
        i64::MAX
    }
}

pub fn clamp_size(x: u64) -> (r: i64)
    ensures
        r == spec_clamp_size(x),
{
    if x <= i64::MAX as u64 {
        x as i64
    } else {
        i64::MAX
    }
}

// ---------------------------------------------------------------------------
// The identity key and lookup.
// ---------------------------------------------------------------------------

pub open spec fn key_matches(e: BloatEntryView, c: BloatCategory, n: Seq<char>) -> bool {
    e.category == c && e.name == n
}

/// The entry a lookup map keyed by (category, name) would hold: the last
/// entry of the list with that key.
pub open spec fn find_last(s: Seq<BloatEntryView>, c: BloatCategory, n: Seq<char>) -> Option<
    BloatEntryView,
>
    decreases s.len(),
{
    if s.len() == 0 {
        None
    } else if key_matches(s.last(), c, n) {
        Some(s.last())
    } else {
        find_last(s.drop_last(), c, n)
    }
}

pub open spec fn has_key(s: Seq<BloatEntryView>, c: BloatCategory, n: Seq<char>) -> bool {
    find_last(s, c, n) is Some
}

/// Whether index `i` is the first of its key in `s`: the keys a map pass
/// visits, in first-occurrence order.
pub open spec fn first_occurrence(s: Seq<BloatEntryView>, i: int) -> bool {
    forall|j: int| 0 <= j < i ==> !key_matches(#[trigger] s[j], s[i].category, s[i].name)
}

// ---------------------------------------------------------------------------
// What the comparison emits.
// ---------------------------------------------------------------------------

/// The diff entries emitted for one key that is present in `to`.
pub open spec fn diff_for_key(
    from: Seq<BloatEntryView>,
    to: Seq<BloatEntryView>,
    c: BloatCategory,
    n: Seq<char>,
) -> Seq<DiffEntryView>
    recommends
        has_key(to, c, n),
{
    let t = find_last(to, c, n)->Some_0;
    match find_last(from, c, n) {
        Some(f) => {
            let delta = spec_sat_sub_i64(spec_clamp_size(t.size_bytes), spec_clamp_size(f.size_bytes));
            if delta == 0 {
                Seq::empty()
            } else {
                seq![
                    DiffEntryView {
                        name: t.name,
                        category: c,
                        old_size: f.size_bytes,
                        new_size: t.size_bytes,
                        delta,
                        diff_type: if delta > 0 { DiffType::Grew } else { DiffType::Shrank },
                    },
                ]
            }
        },
        None => seq![
            DiffEntryView {
                name: t.name,
                category: c,
                old_size: 0,
                new_size: t.size_bytes,
                delta: spec_clamp_size(t.size_bytes),
                diff_type: DiffType::New,
            },
        ],
    }
}

/// The diff entry emitted for one key that is present only in `from`.
pub open spec fn gone_for_key(from: Seq<BloatEntryView>, c: BloatCategory, n: Seq<char>) -> Seq<
    DiffEntryView,
>
    recommends
        has_key(from, c, n),
{
    let f = find_last(from, c, n)->Some_0;
    seq![
        DiffEntryView {
            name: f.name,
            category: c,
            old_size: f.size_bytes,
            new_size: 0,
            delta: (0 - spec_clamp_size(f.size_bytes)) as i64,
            diff_type: DiffType::Gone,
        },
    ]
}

/// First pass: every key of `to`, in first-occurrence order.
pub open spec fn to_pass(
    from: Seq<BloatEntryView>,
    to: Seq<BloatEntryView>,
    upto: int,
) -> Seq<DiffEntryView>
    decreases upto,
{
    if upto <= 0 {
        Seq::empty()
    } else {
        to_pass(from, to, upto - 1) + if first_occurrence(to, upto - 1) {
            diff_for_key(from, to, to[upto - 1].category, to[upto - 1].name)
        } else {
            Seq::empty()
        }
    }
}

/// Second pass: every key present only in `from`, in first-occurrence order.
pub open spec fn gone_pass(
    from: Seq<BloatEntryView>,
    to: Seq<BloatEntryView>,
    upto: int,
) -> Seq<DiffEntryView>
    decreases upto,
{
    if upto <= 0 {
        Seq::empty()
    } else {
        gone_pass(from, to, upto - 1) + if first_occurrence(from, upto - 1) && !has_key(
            to,
            from[upto - 1].category,
            from[upto - 1].name,
        ) {
            gone_for_key(from, from[upto - 1].category, from[upto - 1].name)
        } else {
            Seq::empty()
        }
    }
}

/// Everything `compare_entries` emits, in order.
pub open spec fn spec_diff_entries(from: Seq<BloatEntryView>, to: Seq<BloatEntryView>) -> Seq<
    DiffEntryView,
> {
    to_pass(from, to, to.len() as int) + gone_pass(from, to, from.len() as int)
}

/// The net change: the saturating sum of the deltas, in emission order.
pub open spec fn spec_net_change(s: Seq<DiffEntryView>) -> i64
    decreases s.len(),
{
    if s.len() == 0 {
        0
    } else {
        spec_sat_add_i64(spec_net_change(s.drop_last()), s.last().delta)
    }
}

proof fn lemma_net_change_append(a: Seq<DiffEntryView>, b: Seq<DiffEntryView>)
    ensures
        spec_net_change(a + b) == if b.len() == 0 {
            spec_net_change(a)
        } else {
            spec_sat_add_i64(spec_net_change(a + b.drop_last()), b.last().delta)
        },
{
    if b.len() == 0 {
        assert(a + b =~= a);
    } else {
        assert((a + b).drop_last() =~= a + b.drop_last());
        assert((a + b).last() == b.last());
    }
}

// ---------------------------------------------------------------------------
// Executable lookup helpers.
// ---------------------------------------------------------------------------

/// Create a unique key for matching entries across snapshots: category and
/// name, since paths can change between scans.
pub fn make_key(entry: &BloatEntry) -> (r: String)
    ensures
        r@ == spec_category_str(entry.category) + ":"@ + entry.name@,
{
    let s = String::from_str(entry.category.as_str());
    let s = s.concat(":");
    s.concat(entry.name.as_str())
}

fn find_last_entry<'a>(v: &'a Vec<BloatEntry>, c: BloatCategory, n: &String) -> (r: Option<
    &'a BloatEntry,
>)
    ensures
        match r {
            Some(e) => find_last(entries_view(v@), c, n@) == Some(e@),
            None => !has_key(entries_view(v@), c, n@),
        },
{
    let ghost ev = entries_view(v@);
    let mut idx = v.len();
    assert(ev.take(idx as int) =~= ev);
    while idx > 0
        invariant
            idx <= v.len(),
            ev == entries_view(v@),
            ev.len() == v@.len(),
            forall|i: int| 0 <= i < v@.len() ==> ev[i] == #[trigger] v@[i]@,
            find_last(ev, c, n@) == find_last(ev.take(idx as int), c, n@),
        decreases idx,
    {
        idx = idx - 1;
        let e = &v[idx];
        if e.category == c && e.name == *n {
            assert(ev.take(idx as int + 1).last() == ev[idx as int]);
            return Some(e);
        }
        proof {
            let pre = ev.take(idx as int + 1);
            assert(pre.last() == ev[idx as int]);
            assert(pre.drop_last() =~= ev.take(idx as int));
        }
    }
    assert(ev.take(0) =~= Seq::<BloatEntryView>::empty());
    None
}

fn is_first_occurrence(v: &Vec<BloatEntry>, i: usize) -> (r: bool)
    requires
        i < v@.len(),
    ensures
        r == first_occurrence(entries_view(v@), i as int),
{
    let ghost ev = entries_view(v@);
    let mut j: usize = 0;
    while j < i
        invariant
            j <= i < v@.len(),
            ev == entries_view(v@),
            forall|k: int| 0 <= k < j ==> !key_matches(#[trigger] ev[k], ev[i as int].category, ev[i as int].name),
        decreases i - j,
    {
        if v[j].category == v[i].category && v[j].name == v[i].name {
            assert(key_matches(ev[j as int], ev[i as int].category, ev[i as int].name));
            return false;
        }
        j = j + 1;
    }
    true
}

// ---------------------------------------------------------------------------
// The comparison itself.
// ---------------------------------------------------------------------------

/// Compare two sets of entries and produce diff entries.
///
/// Every key of `to_entries` yields Grew, Shrank or New (nothing when the
/// size is unchanged); every key only in `from_entries` yields Gone; the net
/// change is the saturating sum of all deltas.
pub fn compare_entries(
    from_entries: &Vec<BloatEntry>,
    to_entries: &Vec<BloatEntry>,
    from_id: i64,
    to_id: i64,
    from_timestamp: i64,
    to_timestamp: i64,
) -> (r: DiffResult)
    ensures
        diff_entries_view(r.entries@) == spec_diff_entries(
            entries_view(from_entries@),
            entries_view(to_entries@),
        ),
        r.net_change == spec_net_change(diff_entries_view(r.entries@)),
        r.from_id == from_id,
        r.to_id == to_id,
        r.from_timestamp == from_timestamp,
        r.to_timestamp == to_timestamp,
{
    let ghost fromv = entries_view(from_entries@);
    let ghost tov = entries_view(to_entries@);
    let mut entries: Vec<DiffEntry> = Vec::new();
    let mut net_change: i64 = 0;

    let mut i: usize = 0;
    while i < to_entries.len()
        invariant
            i <= to_entries@.len(),
            fromv == entries_view(from_entries@),
            tov == entries_view(to_entries@),
            diff_entries_view(entries@) == to_pass(fromv, tov, i as int),
            net_change == spec_net_change(diff_entries_view(entries@)),
        decreases to_entries@.len() - i,
    {
        let ghost pre = diff_entries_view(entries@);
        if is_first_occurrence(to_entries, i) {
            let to_entry = &to_entries[i];
            let ghost c = tov[i as int].category;
            let ghost n = tov[i as int].name;
            let t = find_last_entry(to_entries, to_entry.category, &to_entry.name);
            assert(key_matches(tov[i as int], c, n));
            proof {
                lemma_find_last_some(tov, c, n, i as int);
            }
            let t = t.unwrap();
            match find_last_entry(from_entries, to_entry.category, &to_entry.name) {
                Some(f) => {
                    let delta = sat_sub_i64(clamp_size(t.size_bytes), clamp_size(f.size_bytes));
                    if delta != 0 {
                        let de = DiffEntry {
                            name: t.name.clone(),
                            category: t.category,
                            old_size: f.size_bytes,
                            new_size: t.size_bytes,
                            delta,
                            diff_type: if delta > 0 {
                                DiffType::Grew
                            } else {
                                DiffType::Shrank
                            },
                        };
                        proof { lemma_find_last_matches(tov, c, n); lemma_find_last_matches(fromv, c, n); }
                        entries.push(de);
                        net_change = sat_add_i64(net_change, delta);
                        proof {
                            assert(diff_entries_view(entries@) =~= pre + diff_for_key(fromv, tov, c, n));
                            lemma_net_change_append(pre, diff_for_key(fromv, tov, c, n));
                        }
                    } else {
                        assert(diff_entries_view(entries@) =~= pre + diff_for_key(fromv, tov, c, n));
                    }
                },
                None => {
                    let delta = clamp_size(t.size_bytes);
                    let de = DiffEntry {
                        name: t.name.clone(),
                        category: t.category,
                        old_size: 0,
                        new_size: t.size_bytes,
                        delta,
                        diff_type: DiffType::New,
                    };
                    proof { lemma_find_last_matches(tov, c, n); lemma_find_last_matches(fromv, c, n); }
                    entries.push(de);
                    net_change = sat_add_i64(net_change, delta);
                    proof {
                        assert(diff_entries_view(entries@) =~= pre + diff_for_key(fromv, tov, c, n));
                        lemma_net_change_append(pre, diff_for_key(fromv, tov, c, n));
                    }
                },
            }
        } else {
            assert(diff_entries_view(entries@) =~= pre + Seq::<DiffEntryView>::empty());
        }
        i = i + 1;
    }

    assert(diff_entries_view(entries@) == to_pass(fromv, tov, tov.len() as int));

    let mut i: usize = 0;
    while i < from_entries.len()
        invariant
            i <= from_entries@.len(),
            fromv == entries_view(from_entries@),
            tov == entries_view(to_entries@),
            diff_entries_view(entries@) == to_pass(fromv, tov, tov.len() as int) + gone_pass(
                fromv,
                tov,
                i as int,
            ),
            net_change == spec_net_change(diff_entries_view(entries@)),
        decreases from_entries@.len() - i,
    {
        let ghost pre = diff_entries_view(entries@);
        proof {
            assert(to_pass(fromv, tov, tov.len() as int) + gone_pass(fromv, tov, i as int)
                + Seq::<DiffEntryView>::empty() =~= pre);
        }
        if is_first_occurrence(from_entries, i) {
            let from_entry = &from_entries[i];
            let ghost c = fromv[i as int].category;
            let ghost n = fromv[i as int].name;
            match find_last_entry(to_entries, from_entry.category, &from_entry.name) {
                Some(_) => {
                    proof {
                        assert(pre =~= to_pass(fromv, tov, tov.len() as int) + gone_pass(fromv, tov, i as int + 1));
                    }
                },
                None => {
                    let f = find_last_entry(from_entries, from_entry.category, &from_entry.name);
                    assert(key_matches(fromv[i as int], c, n));
                    proof {
                        lemma_find_last_some(fromv, c, n, i as int);
                    }
                    let f = f.unwrap();
                    let clamped = clamp_size(f.size_bytes);
                    let delta = if clamped == i64::MIN {
                        i64::MAX
                    } else {
                        -clamped
                    };
                    assert(delta == 0 - spec_clamp_size(f.size_bytes));
                    let de = DiffEntry {
                        name: f.name.clone(),
                        category: f.category,
                        old_size: f.size_bytes,
                        new_size: 0,
                        delta,
                        diff_type: DiffType::Gone,
                    };
                    proof { lemma_find_last_matches(fromv, c, n); }
                    entries.push(de);
                    net_change = sat_add_i64(net_change, delta);
                    proof {
                        assert(diff_entries_view(entries@) =~= pre + gone_for_key(fromv, c, n));
                        assert(diff_entries_view(entries@) =~= to_pass(fromv, tov, tov.len() as int)
                            + gone_pass(fromv, tov, i as int + 1));
                        lemma_net_change_append(pre, gone_for_key(fromv, c, n));
                    }
                },
            }
        } else {
            proof {
                assert(pre =~= to_pass(fromv, tov, tov.len() as int) + gone_pass(fromv, tov, i as int + 1));
            }
        }
        i = i + 1;
    }

    assert(diff_entries_view(entries@) == spec_diff_entries(fromv, tov));

    DiffResult { entries, net_change, from_id, to_id, from_timestamp, to_timestamp }
}

/// What the lookup returns carries the key it was asked for.
proof fn lemma_find_last_matches(s: Seq<BloatEntryView>, c: BloatCategory, n: Seq<char>)
    ensures
        match find_last(s, c, n) {
            Some(e) => key_matches(e, c, n),
            None => true,
        },
    decreases s.len(),
{
    if s.len() > 0 && !key_matches(s.last(), c, n) {
        lemma_find_last_matches(s.drop_last(), c, n);
    }
}

/// When index `i` holds the key, the lookup finds an entry.
proof fn lemma_find_last_some(s: Seq<BloatEntryView>, c: BloatCategory, n: Seq<char>, i: int)
    requires
        0 <= i < s.len(),
        key_matches(s[i], c, n),
    ensures
        has_key(s, c, n),
    decreases s.len(),
{
    if s.len() > 0 && !key_matches(s.last(), c, n) {
        lemma_find_last_some(s.drop_last(), c, n, i);
    }
}

} // verus!
