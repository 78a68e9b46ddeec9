//! The data model of a scan: categories, locations, findings and the
//! per-detector outcome, together with the stable string forms in which
//! categories and locations are persisted.

use vstd::prelude::*;
use crate::strutil::str_eq;

verus! {

/// Why a piece of disk space is considered reclaimable.
#[derive(Debug, Clone, Copy, PartialEq, Eq, Hash, Structural)]
pub enum BloatCategory {
    ProjectArtifacts,
    ContainerData,
    PackageCache,
    IdeData,
    SystemCache,
    Other,
}

/// Where a finding lives: a filesystem path, a container-engine object id,
/// or an aggregate class of objects with no single deletable path.
#[derive(Debug, Clone)]
pub enum Location {
    FilesystemPath(String),
    DockerObject(String),
    Aggregate(String),
}

pub struct LocationView {
    pub kind: LocationKind,
    pub text: Seq<char>,
}

#[derive(PartialEq, Eq, Structural)]
pub enum LocationKind {
    FilesystemPath,
    DockerObject,
    Aggregate,
}

impl View for Location {
    type V = LocationView;

    open spec fn view(&self) -> LocationView {
        match self {
            Location::FilesystemPath(s) => LocationView {
                kind: LocationKind::FilesystemPath,
                text: s@,
            },
            Location::DockerObject(s) => LocationView { kind: LocationKind::DockerObject, text: s@ },
            Location::Aggregate(s) => LocationView { kind: LocationKind::Aggregate, text: s@ },
        }
    }
}

/// One reported reclaimable item.
#[derive(Debug, Clone)]
pub struct BloatEntry {
    pub category: BloatCategory,
    pub name: String,
    pub location: Location,
    pub size_bytes: u64,
    pub reclaimable_bytes: u64,
    pub last_modified: Option<i64>,
    pub cleanup_hint: Option<String>,
}

pub struct BloatEntryView {
    pub category: BloatCategory,
    pub name: Seq<char>,
    pub location: LocationView,
    pub size_bytes: u64,
    pub reclaimable_bytes: u64,
    pub last_modified: Option<i64>,
    pub cleanup_hint: Option<Seq<char>>,
}

impl View for BloatEntry {
    type V = BloatEntryView;

    open spec fn view(&self) -> BloatEntryView {
        BloatEntryView {
            category: self.category,
            name: self.name@,
            location: self.location@,
            size_bytes: self.size_bytes,
            reclaimable_bytes: self.reclaimable_bytes,
            last_modified: self.last_modified,
            cleanup_hint: match self.cleanup_hint {
                Some(h) => Some(h@),
                None => None,
            },
        }
    }
}

impl BloatEntry {
    /// The invariant every finding keeps: no more is reclaimable than exists.
    pub open spec fn wf(&self) -> bool {
        self.reclaimable_bytes <= self.size_bytes
    }

    pub fn duplicate(&self) -> (r: BloatEntry)
        ensures
            r@ == self@,
    {
        BloatEntry {
            category: self.category,
            name: self.name.clone(),
            location: match &self.location {
                Location::FilesystemPath(s) => Location::FilesystemPath(s.clone()),
                Location::DockerObject(s) => Location::DockerObject(s.clone()),
                Location::Aggregate(s) => Location::Aggregate(s.clone()),
            },
            size_bytes: self.size_bytes,
            reclaimable_bytes: self.reclaimable_bytes,
            last_modified: self.last_modified,
            cleanup_hint: match &self.cleanup_hint {
                Some(h) => Some(h.clone()),
                None => None,
            },
        }
    }
}

impl BloatEntryView {
    /// The findings' invariant at the model level.
    pub open spec fn wf(self) -> bool {
        self.reclaimable_bytes <= self.size_bytes
    }
}

pub open spec fn all_entries_wf(s: Seq<BloatEntryView>) -> bool {
    forall|i: int| 0 <= i < s.len() ==> (#[trigger] s[i]).wf()
}

pub open spec fn entries_view(v: Seq<BloatEntry>) -> Seq<BloatEntryView> {
    v.map_values(|e: BloatEntry| e@)
}

/// What one detector hands back: its findings and its non-fatal observations.
pub struct DetectorResult {
    pub entries: Vec<BloatEntry>,
    pub diagnostics: Vec<String>,
}

impl DetectorResult {
    pub fn empty() -> (r: DetectorResult)
        ensures
            r.entries@.len() == 0,
            r.diagnostics@.len() == 0,
    {
        DetectorResult { entries: Vec::new(), diagnostics: Vec::new() }
    }

    pub fn with_diagnostic(message: String) -> (r: DetectorResult)
        ensures
            r.entries@.len() == 0,
            r.diagnostics.deep_view() =~= seq![message@],
    {
        let mut diagnostics: Vec<String> = Vec::new();
        diagnostics.push(message);
        DetectorResult { entries: Vec::new(), diagnostics }
    }
}

/// A unit that scans for one class of bloat: its identity, an availability
/// check, and the scan producing entries and diagnostics. Sibling probers
/// outside the library implement it the same way the project scanner does.
pub trait Detector {
    fn name(&self) -> &'static str;

    fn available(&self, config: &crate::config::Config) -> bool;

    fn scan(&self, config: &crate::config::Config) -> DetectorResult;
}

// ---------------------------------------------------------------------------
// The stable string forms categories and locations persist in.
// ---------------------------------------------------------------------------

/// How the persistence layer writes a location down.
pub open spec fn spec_location_store_string(l: LocationView) -> Seq<char> {
    match l.kind {
        LocationKind::FilesystemPath => l.text,
        LocationKind::DockerObject => "docker:"@ + l.text,
        LocationKind::Aggregate => "aggregate:"@ + l.text,
    }
}

pub fn location_store_string(l: &Location) -> (r: String)
    ensures
        r@ == spec_location_store_string(l@),
{
    match l {
        Location::FilesystemPath(p) => p.clone(),
        Location::DockerObject(name) => String::from_str("docker:").concat(name.as_str()),
        Location::Aggregate(name) => String::from_str("aggregate:").concat(name.as_str()),
    }
}

/// How a stored location string reads back.
pub open spec fn spec_location_from_store(s: Seq<char>) -> LocationView {
    if crate::strutil::spec_starts_with(s, "docker:"@) {
        LocationView { kind: LocationKind::DockerObject, text: s.skip(7) }
    } else if crate::strutil::spec_starts_with(s, "aggregate:"@) {
        LocationView { kind: LocationKind::Aggregate, text: s.skip(10) }
    } else {
        LocationView { kind: LocationKind::FilesystemPath, text: s }
    }
}

pub fn location_from_store(s: &str) -> (r: Location)
    ensures
        r@ == spec_location_from_store(s@),
{
    if crate::strutil::starts_with(s, "docker:") {
        proof {
            reveal_strlit("docker:");
        }
        let rest = s.substring_char(7, s.unicode_len());
        assert(rest@ =~= s@.skip(7));
        Location::DockerObject(rest.to_owned())
    } else if crate::strutil::starts_with(s, "aggregate:") {
        proof {
            reveal_strlit("aggregate:");
        }
        let rest = s.substring_char(10, s.unicode_len());
        assert(rest@ =~= s@.skip(10));
        Location::Aggregate(rest.to_owned())
    } else {
        Location::FilesystemPath(s.to_owned())
    }
}

/// A location's stored form reads back as the location it came from, as long
/// as a filesystem path does not itself begin with one of the reserved
/// prefixes.
pub proof fn lemma_location_round_trip(l: LocationView)
    requires
        l.kind is FilesystemPath ==> !crate::strutil::spec_starts_with(l.text, "docker:"@)
            && !crate::strutil::spec_starts_with(l.text, "aggregate:"@),
    ensures
        spec_location_from_store(spec_location_store_string(l)) == l,
{
    reveal_strlit("docker:");
    reveal_strlit("aggregate:");
    assert("docker:"@.len() == 7);
    assert("aggregate:"@.len() == 10);
    match l.kind {
        LocationKind::FilesystemPath => {
        },
        LocationKind::DockerObject => {
            let s = "docker:"@ + l.text;
            assert(s.subrange(0, 7) =~= "docker:"@);
            assert(s.skip(7) =~= l.text);
        },
        LocationKind::Aggregate => {
            let s = "aggregate:"@ + l.text;
            assert(s.subrange(0, 10) =~= "aggregate:"@);
            assert(s.skip(10) =~= l.text);
            if crate::strutil::spec_starts_with(s, "docker:"@) {
                assert(s.subrange(0, 7)[0] == 'a');
                assert("docker:"@[0] == 'd');
            }
        },
    }
}

/// The stable string form of a category, as the persistence layer stores it.
pub open spec fn spec_category_str(c: BloatCategory) -> Seq<char> {
    match c {
        BloatCategory::ProjectArtifacts => "ProjectArtifacts"@,
        BloatCategory::ContainerData => "ContainerData"@,
        BloatCategory::PackageCache => "PackageCache"@,
        BloatCategory::IdeData => "IdeData"@,
        BloatCategory::SystemCache => "SystemCache"@,
        BloatCategory::Other => "Other"@,
    }
}

impl BloatCategory {
    pub fn as_str(&self) -> (r: &'static str)
        ensures
            r@ == spec_category_str(*self),
    {
        match self {
            BloatCategory::ProjectArtifacts => "ProjectArtifacts",
            BloatCategory::ContainerData => "ContainerData",
            BloatCategory::PackageCache => "PackageCache",
            BloatCategory::IdeData => "IdeData",
            BloatCategory::SystemCache => "SystemCache",
            BloatCategory::Other => "Other",
        }
    }
}

/// Reading a stored category name back; anything unknown becomes `Other`.
pub open spec fn spec_category_from(s: Seq<char>) -> BloatCategory {
    if s == "ProjectArtifacts"@ {
        BloatCategory::ProjectArtifacts
    } else if s == "ContainerData"@ {
        BloatCategory::ContainerData
    } else if s == "PackageCache"@ {
        BloatCategory::PackageCache
    } else if s == "IdeData"@ {
        BloatCategory::IdeData
    } else if s == "SystemCache"@ {
        BloatCategory::SystemCache
    } else {
        BloatCategory::Other
    }
}

pub fn category_from_str(s: &str) -> (c: BloatCategory)
    ensures
        c == spec_category_from(s@),
{
    if str_eq(s, "ProjectArtifacts") {
        BloatCategory::ProjectArtifacts
    } else if str_eq(s, "ContainerData") {
        BloatCategory::ContainerData
    } else if str_eq(s, "PackageCache") {
        BloatCategory::PackageCache
    } else if str_eq(s, "IdeData") {
        BloatCategory::IdeData
    } else if str_eq(s, "SystemCache") {
        BloatCategory::SystemCache
    } else {
        BloatCategory::Other
    }
}

/// The stored category name reads back as the category it came from.
pub proof fn lemma_category_round_trip(c: BloatCategory)
    ensures
        spec_category_from(spec_category_str(c)) == c,
{
    reveal_strlit("ProjectArtifacts");
    reveal_strlit("ContainerData");
    reveal_strlit("PackageCache");
    reveal_strlit("IdeData");
    reveal_strlit("SystemCache");
    reveal_strlit("Other");
    assert("ProjectArtifacts"@.len() == 16);
    assert("ContainerData"@.len() == 13);
    assert("PackageCache"@.len() == 12);
    assert("IdeData"@.len() == 7);
    assert("SystemCache"@.len() == 11);
    assert("Other"@.len() == 5);
}

} // verus!
