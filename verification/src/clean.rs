//! Cleanup bookkeeping: which findings a clean pass selects, what a dry run
//! reports, and how deletion outcomes fold into a result. The deletions
//! themselves — filesystem removal, container-engine commands, path-safety
//! checks — happen outside the library, which only decides and accounts.

use vstd::prelude::*;
use crate::detector::{BloatCategory, BloatEntryView, LocationView, LocationKind, Location,
    entries_view};
use crate::scan::ScanResult;
use crate::strutil::str_eq;

verus! {

pub enum CleanMode {
    DryRun,
    Execute,
}

pub struct CleanResult {
    pub deleted: Vec<String>,
    pub errors: Vec<String>,
    pub bytes_freed: u64,
}

// ---------------------------------------------------------------------------
// Category names on the command line.
// ---------------------------------------------------------------------------

pub open spec fn spec_string_to_category(s: Seq<char>) -> Option<BloatCategory> {
    if s == "project-artifacts"@ {
        Some(BloatCategory::ProjectArtifacts)
    } else if s == "container-data"@ {
        Some(BloatCategory::ContainerData)
    } else if s == "package-cache"@ {
        Some(BloatCategory::PackageCache)
    } else if s == "ide-data"@ {
        Some(BloatCategory::IdeData)
    } else if s == "system-cache"@ {
        Some(BloatCategory::SystemCache)
    } else if s == "other"@ {
        Some(BloatCategory::Other)
    } else {
        None
    }
}

pub fn string_to_category(s: &str) -> (r: Option<BloatCategory>)
    ensures
        r == spec_string_to_category(s@),
{
    if str_eq(s, "project-artifacts") {
        Some(BloatCategory::ProjectArtifacts)
    } else if str_eq(s, "container-data") {
        Some(BloatCategory::ContainerData)
    } else if str_eq(s, "package-cache") {
        Some(BloatCategory::PackageCache)
    } else if str_eq(s, "ide-data") {
        Some(BloatCategory::IdeData)
    } else if str_eq(s, "system-cache") {
        Some(BloatCategory::SystemCache)
    } else if str_eq(s, "other") {
        Some(BloatCategory::Other)
    } else {
        None
    }
}

/// The category filter a list of names yields: unknown names are dropped.
pub open spec fn spec_category_filter(ss: Seq<Seq<char>>) -> Seq<BloatCategory>
    decreases ss.len(),
{
    if ss.len() == 0 {
        Seq::empty()
    } else {
        spec_category_filter(ss.drop_last()) + (match spec_string_to_category(ss.last()) {
            Some(c) => seq![c],
            None => Seq::empty(),
        })
    }
}

pub fn category_filter(categories: &Option<Vec<String>>) -> (r: Option<Vec<BloatCategory>>)
    ensures
        match r {
            Some(cats) => categories matches Some(ss) && cats@ == spec_category_filter(
                ss.deep_view(),
            ),
            None => categories is None,
        },
{
    match categories {
        Some(ss) => {
            let ghost sv = ss.deep_view();
            let mut cats: Vec<BloatCategory> = Vec::new();
            let mut i: usize = 0;
            while i < ss.len()
                invariant
                    i <= ss@.len(),
                    sv == ss.deep_view(),
                    cats@ == spec_category_filter(sv.take(i as int)),
                decreases ss@.len() - i,
            {
                proof {
                    assert(sv.take(i as int + 1).drop_last() =~= sv.take(i as int));
                    assert(sv.take(i as int + 1).last() == sv[i as int]);
                }
                match string_to_category(ss[i].as_str()) {
                    Some(c) => {
                        cats.push(c);
                        assert(cats@ =~= spec_category_filter(sv.take(i as int + 1)));
                    },
                    None => {
                        assert(cats@ =~= spec_category_filter(sv.take(i as int + 1)));
                    },
                }
                i = i + 1;
            }
            proof {
                assert(sv.take(ss@.len() as int) =~= sv);
            }
            Some(cats)
        },
        None => None,
    }
}

// ---------------------------------------------------------------------------
// Selection.
// ---------------------------------------------------------------------------

/// The aggregate locations a clean pass may act on: the container engine's
/// own prune targets. Other aggregates are reported for visibility only.
pub open spec fn spec_is_docker_aggregate(name: Seq<char>) -> bool {
    name == "Images"@ || name == "Containers"@ || name == "Local Volumes"@ || name
        == "Build Cache"@
}

pub fn is_docker_aggregate(name: &str) -> (r: bool)
    ensures
        r == spec_is_docker_aggregate(name@),
{
    str_eq(name, "Images") || str_eq(name, "Containers") || str_eq(name, "Local Volumes") || str_eq(
        name,
        "Build Cache",
    )
}

/// Whether a clean pass acts on this entry: non-docker aggregates are
/// filtered out, and a category filter keeps only its categories.
pub open spec fn spec_selected(e: BloatEntryView, filter: Option<Seq<BloatCategory>>) -> bool {
    &&& (e.location.kind is Aggregate ==> spec_is_docker_aggregate(e.location.text))
    &&& match filter {
        Some(cats) => cats.contains(e.category),
        None => true,
    }
}

#[verifier::loop_isolation(false)]
pub fn is_selected(e: &crate::detector::BloatEntry, filter: &Option<Vec<BloatCategory>>) -> (r:
    bool)
    ensures
        r == spec_selected(e@, match filter {
            Some(cats) => Some(cats@),
            None => None,
        }),
{
    match &e.location {
        Location::Aggregate(name) => {
            if !is_docker_aggregate(name.as_str()) {
                return false;
            }
        },
        _ => {},
    }
    match filter {
        Some(cats) => {
            let mut i: usize = 0;
            while i < cats.len()
                invariant
                    i <= cats@.len(),
                    forall|j: int| 0 <= j < i ==> cats@[j] != e.category,
                decreases cats@.len() - i,
            {
                if cats[i] == e.category {
                    assert(cats@.contains(e.category));
                    return true;
                }
                i = i + 1;
            }
            assert(!cats@.contains(e.category));
            false
        },
        None => true,
    }
}

/// How a location is shown in clean output.
pub open spec fn spec_location_display(l: LocationView) -> Seq<char> {
    match l.kind {
        LocationKind::FilesystemPath => l.text,
        LocationKind::DockerObject => "docker:"@ + l.text,
        LocationKind::Aggregate => l.text,
    }
}

pub fn location_display(location: &Location) -> (r: String)
    ensures
        r@ == spec_location_display(location@),
{
    match location {
        Location::FilesystemPath(path) => path.clone(),
        Location::DockerObject(obj) => String::from_str("docker:").concat(obj.as_str()),
        Location::Aggregate(name) => name.clone(),
    }
}

// ---------------------------------------------------------------------------
// The clean pass.
// ---------------------------------------------------------------------------

pub open spec fn spec_sat_add_u64(a: u64, b: u64) -> u64 {
    if a + b > u64::MAX {
        u64::MAX
    } else {
        (a + b) as u64
    }
}

/// How many entries the pass selects among the first `upto`.
pub open spec fn spec_selected_count(
    entries: Seq<BloatEntryView>,
    filter: Option<Seq<BloatCategory>>,
    upto: int,
) -> int
    decreases upto,
{
    if upto <= 0 {
        0
    } else {
        spec_selected_count(entries, filter, upto - 1) + if spec_selected(
            entries[upto - 1],
            filter,
        ) {
            1int
        } else {
            0int
        }
    }
}

pub open spec fn outcomes_view(v: Seq<Result<String, String>>) -> Seq<Result<Seq<char>, Seq<char>>> {
    v.map_values(
        |o: Result<String, String>|
            match o {
                Ok(m) => Ok(m@),
                Err(e) => Err(e@),
            },
    )
}

/// The state of a clean pass after some prefix of the entries.
pub struct CleanState {
    pub deleted: Seq<Seq<char>>,
    pub errors: Seq<Seq<char>>,
    pub bytes_freed: u64,
    pub used: int,
}

pub open spec fn dry_run_prefix() -> Seq<char> {
    "[dry-run] would delete: "@
}

/// What one entry contributes: a dry run plans and counts; an execute pass
/// consumes the next deletion outcome, crediting the bytes only on success.
pub open spec fn spec_clean_step(
    st: CleanState,
    e: BloatEntryView,
    filter: Option<Seq<BloatCategory>>,
    mode: CleanMode,
    outcomes: Seq<Result<Seq<char>, Seq<char>>>,
) -> CleanState {
    if !spec_selected(e, filter) {
        st
    } else {
        match mode {
            CleanMode::DryRun => CleanState {
                deleted: st.deleted.push(dry_run_prefix() + spec_location_display(e.location)),
                bytes_freed: spec_sat_add_u64(st.bytes_freed, e.reclaimable_bytes),
                ..st
            },
            CleanMode::Execute => {
                let next = CleanState { used: st.used + 1, ..st };
                if 0 <= st.used < outcomes.len() {
                    match outcomes[st.used] {
                        Ok(msg) => CleanState {
                            deleted: st.deleted.push(msg),
                            bytes_freed: spec_sat_add_u64(st.bytes_freed, e.reclaimable_bytes),
                            ..next
                        },
                        Err(err) => CleanState { errors: st.errors.push(err), ..next },
                    }
                } else {
                    next
                }
            },
        }
    }
}

pub open spec fn spec_clean_fold(
    entries: Seq<BloatEntryView>,
    filter: Option<Seq<BloatCategory>>,
    mode: CleanMode,
    outcomes: Seq<Result<Seq<char>, Seq<char>>>,
    upto: int,
) -> CleanState
    decreases upto,
{
    if upto <= 0 {
        CleanState { deleted: Seq::empty(), errors: Seq::empty(), bytes_freed: 0, used: 0 }
    } else {
        spec_clean_step(
            spec_clean_fold(entries, filter, mode, outcomes, upto - 1),
            entries[upto - 1],
            filter,
            mode,
            outcomes,
        )
    }
}

/// A dry run consumes no deletion outcomes; an execute pass consumes
/// exactly one per selected entry — what a caller supplying outcomes must
/// size them by.
pub proof fn lemma_clean_fold_used(
    entries: Seq<BloatEntryView>,
    filter: Option<Seq<BloatCategory>>,
    mode: CleanMode,
    outcomes: Seq<Result<Seq<char>, Seq<char>>>,
    upto: int,
)
    requires
        0 <= upto,
    ensures
        spec_clean_fold(entries, filter, mode, outcomes, upto).used == match mode {
            CleanMode::DryRun => 0int,
            CleanMode::Execute => spec_selected_count(entries, filter, upto),
        },
    decreases upto,
{
    if upto > 0 {
        lemma_clean_fold_used(entries, filter, mode, outcomes, upto - 1);
    }
}

/// Run a clean pass over a report: filter the entries, then either plan
/// (dry run) or account for the supplied deletion outcomes, one per
/// selected entry in report order.
pub fn run(
    result: &ScanResult,
    mode: CleanMode,
    categories: Option<Vec<String>>,
    outcomes: &Vec<Result<String, String>>,
) -> (r: CleanResult)
    ensures
        ({
            let filter = match categories {
                Some(ss) => Some(spec_category_filter(ss.deep_view())),
                None => None,
            };
            let st = spec_clean_fold(
                entries_view(result.entries@),
                filter,
                mode,
                outcomes_view(outcomes@),
                result.entries@.len() as int,
            );
            &&& r.deleted.deep_view() == st.deleted
            &&& r.errors.deep_view() == st.errors
            &&& r.bytes_freed == st.bytes_freed
        }),
{
    let filter = category_filter(&categories);
    let ghost filterv = match categories {
        Some(ss) => Some(spec_category_filter(ss.deep_view())),
        None => None::<Seq<BloatCategory>>,
    };
    let ghost ev = entries_view(result.entries@);
    let ghost ov = outcomes_view(outcomes@);

    let mut deleted: Vec<String> = Vec::new();
    let mut errors: Vec<String> = Vec::new();
    let mut bytes_freed: u64 = 0;
    let mut used: usize = 0;
    proof {
        assert(deleted.deep_view() =~= Seq::<Seq<char>>::empty());
        assert(errors.deep_view() =~= Seq::<Seq<char>>::empty());
    }

    let mut i: usize = 0;
    while i < result.entries.len()
        invariant
            i <= result.entries@.len(),
            used <= i,
            ev == entries_view(result.entries@),
            ov == outcomes_view(outcomes@),
            ov.len() == outcomes@.len(),
            filterv == (match filter {
                Some(cats) => Some(cats@),
                None => None::<Seq<BloatCategory>>,
            }),
            spec_clean_fold(ev, filterv, mode, ov, i as int) == (CleanState {
                deleted: deleted.deep_view(),
                errors: errors.deep_view(),
                bytes_freed,
                used: used as int,
            }),
        decreases result.entries@.len() - i,
    {
        let ghost pre = CleanState {
            deleted: deleted.deep_view(),
            errors: errors.deep_view(),
            bytes_freed,
            used: used as int,
        };
        let entry = &result.entries[i];
        assert(entry@ == ev[i as int]);
        if is_selected(entry, &filter) {
            match mode {
                CleanMode::DryRun => {
                    let msg = String::from_str("[dry-run] would delete: ").concat(
                        location_display(&entry.location).as_str(),
                    );
                    assert(msg@ == dry_run_prefix() + spec_location_display(entry@.location));
                    let ghost dpre = deleted.deep_view();
                    deleted.push(msg);
                    bytes_freed = bytes_freed.saturating_add(entry.reclaimable_bytes);
                    proof {
                        assert(deleted.deep_view() =~= dpre.push(
                            dry_run_prefix() + spec_location_display(entry@.location),
                        ));
                    }
                },
                CleanMode::Execute => {
                    if used < outcomes.len() {
                        match &outcomes[used] {
                            Ok(msg) => {
                                assert(ov[used as int] == Ok::<Seq<char>, Seq<char>>(msg@));
                                let ghost dpre = deleted.deep_view();
                                deleted.push(msg.clone());
                                bytes_freed = bytes_freed.saturating_add(entry.reclaimable_bytes);
                                proof {
                                    assert(deleted.deep_view() =~= dpre.push(msg@));
                                }
                            },
                            Err(err) => {
                                assert(ov[used as int] == Err::<Seq<char>, Seq<char>>(err@));
                                let ghost epre = errors.deep_view();
                                errors.push(err.clone());
                                proof {
                                    assert(errors.deep_view() =~= epre.push(err@));
                                }
                            },
                        }
                    }
                    used = used + 1;
                },
            }
        }
        proof {
            assert(spec_clean_fold(ev, filterv, mode, ov, i as int + 1) == (CleanState {
                deleted: deleted.deep_view(),
                errors: errors.deep_view(),
                bytes_freed,
                used: used as int,
            }));
        }
        i = i + 1;
    }
    CleanResult { deleted, errors, bytes_freed }
}

} // verus!
