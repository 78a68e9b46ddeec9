//! Xcode build-artifact detector: the central DerivedData directory, where
//! compiled products, indexes and logs accumulate, measured from its
//! snapshot. Locating the home directory and walking the disk stay outside
//! the library.

use vstd::prelude::*;
use crate::detector::{BloatCategory, BloatEntry, BloatEntryView, DetectorResult, Location,
    LocationView, LocationKind, entries_view};
use crate::fstree::{FsTree, FsTreeView, measure_fold};
use crate::platform::Platform;
use crate::projects::{spec_join, join_display, size_warning_suffix};

verus! {

pub struct XcodeDetector;

pub open spec fn xcode_hint() -> Seq<char> {
    "safe to delete, Xcode rebuilds on next build. or: Xcode → Settings → Locations → Derived Data → arrow button"@
}

/// What the detector reports for a DerivedData snapshot: nothing when the
/// directory is missing or empty; else one IDE-data finding of its measured
/// size, with the size warnings and, verbose, a note of where it was found.
pub open spec fn spec_xcode_scan(derived: Option<FsTreeView>, verbose: bool) -> (
    Seq<BloatEntryView>,
    Seq<Seq<char>>,
) {
    match derived {
        None => (Seq::empty(), Seq::empty()),
        Some(t) => {
            let m = measure_fold(t.nodes, t.root, t.nodes.len() as int);
            if m.total > 0 {
                (
                    seq![
                        BloatEntryView {
                            category: BloatCategory::IdeData,
                            name: "Xcode DerivedData"@,
                            location: LocationView {
                                kind: LocationKind::FilesystemPath,
                                text: spec_join(t.root),
                            },
                            size_bytes: m.total,
                            reclaimable_bytes: m.total,
                            last_modified: None,
                            cleanup_hint: Some(xcode_hint()),
                        },
                    ],
                    m.warnings.map_values(|w: Seq<char>| w + size_warning_suffix()) + (if verbose {
                        seq!["xcode: DerivedData at "@ + spec_join(t.root)]
                    } else {
                        Seq::empty()
                    }),
                )
            } else {
                (Seq::empty(), Seq::empty())
            }
        },
    }
}

impl XcodeDetector {
    pub fn name(&self) -> (r: &'static str)
        ensures
            r@ == "xcode"@,
    {
        "xcode"
    }

    /// DerivedData exists only where Xcode does.
    pub fn available(&self, config: &crate::config::Config) -> (r: bool)
        ensures
            r == (config.platform == Platform::MacOS),
    {
        config.platform == Platform::MacOS
    }

    /// Report the DerivedData directory from its snapshot, when present and
    /// non-empty.
    pub fn scan_snapshot(&self, derived: &Option<FsTree>, verbose: bool) -> (r: DetectorResult)
        ensures
            ({
                let (es, ds) = spec_xcode_scan(
                    match derived {
                        Some(t) => Some(t@),
                        None => None,
                    },
                    verbose,
                );
                &&& entries_view(r.entries@) == es
                &&& r.diagnostics.deep_view() == ds
            }),
    {
        let tree = match derived {
            Some(t) => t,
            None => {
                let r = DetectorResult::empty();
                proof {
                    assert(entries_view(r.entries@) =~= Seq::<BloatEntryView>::empty());
                    assert(r.diagnostics.deep_view() =~= Seq::<Seq<char>>::empty());
                }
                return r;
            },
        };
        let (size, warnings) = crate::fstree::calculate_dir_size(tree, &tree.root);
        if size == 0 {
            let r = DetectorResult::empty();
            proof {
                assert(entries_view(r.entries@) =~= Seq::<BloatEntryView>::empty());
                assert(r.diagnostics.deep_view() =~= Seq::<Seq<char>>::empty());
            }
            return r;
        }
        let located = join_display(&tree.root);
        let mut diagnostics: Vec<String> = Vec::new();
        let ghost wv = warnings.deep_view();
        let mut w: usize = 0;
        proof {
            assert(diagnostics.deep_view() =~= Seq::<Seq<char>>::empty());
            assert(wv.take(0).map_values(|x: Seq<char>| x + size_warning_suffix()) =~= Seq::<
                Seq<char>,
            >::empty());
        }
        while w < warnings.len()
            invariant
                w <= warnings@.len(),
                wv == warnings.deep_view(),
                wv.len() == warnings@.len(),
                diagnostics.deep_view() =~= wv.take(w as int).map_values(
                    |x: Seq<char>| x + size_warning_suffix(),
                ),
            decreases warnings@.len() - w,
        {
            let suffixed = warnings[w].clone().concat(" (size may be underestimated)");
            assert(suffixed@ == wv[w as int] + size_warning_suffix());
            let ghost dpre = diagnostics.deep_view();
            diagnostics.push(suffixed);
            proof {
                assert(diagnostics.deep_view() =~= dpre.push(wv[w as int] + size_warning_suffix()));
                assert(wv.take(w as int + 1).map_values(|x: Seq<char>| x + size_warning_suffix())
                    =~= wv.take(w as int).map_values(|x: Seq<char>| x + size_warning_suffix()).push(
                    wv[w as int] + size_warning_suffix(),
                ));
            }
            w = w + 1;
        }
        proof {
            assert(wv.take(warnings@.len() as int) =~= wv);
        }
        let ghost base = diagnostics.deep_view();
        if verbose {
            let note = String::from_str("xcode: DerivedData at ").concat(located.as_str());
            let ghost dpre = diagnostics.deep_view();
            diagnostics.push(note);
            proof {
                assert(diagnostics.deep_view() =~= dpre.push(
                    "xcode: DerivedData at "@ + spec_join(tree@.root),
                ));
                assert(diagnostics.deep_view() =~= base + seq![
                    "xcode: DerivedData at "@ + spec_join(tree@.root),
                ]);
            }
        } else {
            proof {
                assert(diagnostics.deep_view() =~= base + Seq::<Seq<char>>::empty());
            }
        }
        let mut entries: Vec<BloatEntry> = Vec::new();
        let entry = BloatEntry {
            category: BloatCategory::IdeData,
            name: String::from_str("Xcode DerivedData"),
            location: Location::FilesystemPath(located),
            size_bytes: size,
            reclaimable_bytes: size,
            last_modified: None,
            cleanup_hint: Some(
                String::from_str(
                    "safe to delete, Xcode rebuilds on next build. or: Xcode → Settings → Locations → Derived Data → arrow button",
                ),
            ),
        };
        entries.push(entry);
        proof {
            let (es, ds) = spec_xcode_scan(Some(tree@), verbose);
            assert(entries_view(entries@) =~= es);
        }
        DetectorResult { entries, diagnostics }
    }
}

} // verus!
