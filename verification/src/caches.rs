//! Package-manager and toolchain cache locations: the per-platform table of
//! well-known cache paths under a home directory, and the assembly of
//! measured caches into findings. Probing the environment (the package
//! manager's own cache query, virtual-disk discovery) stays outside the
//! library and contributes plain values here.

use vstd::prelude::*;
use crate::detector::{BloatCategory, BloatEntry, BloatEntryView, DetectorResult, Location,
    LocationView, LocationKind, entries_view};
use crate::platform::Platform;
use crate::projects::size_warning_suffix;

verus! {

/// One well-known cache location: where it is, why it counts, how to clean
/// it. When `not_reclaimable` is set its size is reported but none of it is
/// counted reclaimable (a virtual disk that does not shrink).
pub struct CacheLocation {
    pub name: String,
    pub path: String,
    pub category: BloatCategory,
    pub cleanup_hint: String,
    pub not_reclaimable: bool,
}

pub struct CacheLocationView {
    pub name: Seq<char>,
    pub path: Seq<char>,
    pub category: BloatCategory,
    pub cleanup_hint: Seq<char>,
    pub not_reclaimable: bool,
}

impl View for CacheLocation {
    type V = CacheLocationView;

    open spec fn view(&self) -> CacheLocationView {
        CacheLocationView {
            name: self.name@,
            path: self.path@,
            category: self.category,
            cleanup_hint: self.cleanup_hint@,
            not_reclaimable: self.not_reclaimable,
        }
    }
}

pub open spec fn locations_view(v: Seq<CacheLocation>) -> Seq<CacheLocationView> {
    v.map_values(|l: CacheLocation| l@)
}

impl CacheLocation {
    pub fn new(
        name: &'static str,
        path: String,
        category: BloatCategory,
        cleanup_hint: &'static str,
    ) -> (r: CacheLocation)
        ensures
            r@ == (CacheLocationView {
                name: name@,
                path: path@,
                category,
                cleanup_hint: cleanup_hint@,
                not_reclaimable: false,
            }),
    {
        CacheLocation {
            name: String::from_str(name),
            path,
            category,
            cleanup_hint: String::from_str(cleanup_hint),
            not_reclaimable: false,
        }
    }
}

pub open spec fn cache_loc(
    name: Seq<char>,
    path: Seq<char>,
    category: BloatCategory,
    hint: Seq<char>,
) -> CacheLocationView {
    CacheLocationView { name, path, category, cleanup_hint: hint, not_reclaimable: false }
}

/// The per-platform path of a cache that moves with the OS conventions.
pub open spec fn spec_yarn_path(home: Seq<char>, platform: Platform) -> Seq<char> {
    match platform {
        Platform::MacOS => home + "/Library/Caches/Yarn"@,
        Platform::Windows => home + "/AppData/Local/Yarn/Cache"@,
        _ => home + "/.cache/yarn"@,
    }
}

pub open spec fn spec_pnpm_path(home: Seq<char>, platform: Platform) -> Seq<char> {
    match platform {
        Platform::MacOS => home + "/Library/pnpm/store"@,
        Platform::Windows => home + "/AppData/Local/pnpm/store"@,
        _ => home + "/.local/share/pnpm/store"@,
    }
}

pub open spec fn spec_pip_path(home: Seq<char>, platform: Platform) -> Seq<char> {
    match platform {
        Platform::MacOS => home + "/Library/Caches/pip"@,
        Platform::Windows => home + "/AppData/Local/pip/Cache"@,
        _ => home + "/.cache/pip"@,
    }
}

pub open spec fn spec_vscode_path(home: Seq<char>, platform: Platform) -> Seq<char> {
    match platform {
        Platform::MacOS => home + "/Library/Application Support/Code"@,
        Platform::Windows => home + "/AppData/Roaming/Code"@,
        _ => home + "/.config/Code"@,
    }
}

pub open spec fn spec_android_sdk_path(home: Seq<char>, platform: Platform) -> Seq<char> {
    match platform {
        Platform::MacOS => home + "/Library/Android/sdk"@,
        Platform::Windows => home + "/AppData/Local/Android/Sdk"@,
        _ => home + "/Android/Sdk"@,
    }
}

/// The whole table, in the order it is probed; the package-manager cache
/// path discovered by the environment, when there is one, sits between the
/// toolchain caches.
pub open spec fn spec_cache_locations(
    home: Seq<char>,
    platform: Platform,
    brew_cache: Option<Seq<char>>,
) -> Seq<CacheLocationView> {
    seq![
        cache_loc(
            "npm cache"@,
            home + "/.npm"@,
            BloatCategory::PackageCache,
            "npm cache clean --force"@,
        ),
        cache_loc(
            "yarn cache"@,
            spec_yarn_path(home, platform),
            BloatCategory::PackageCache,
            "yarn cache clean"@,
        ),
        cache_loc(
            "pnpm store"@,
            spec_pnpm_path(home, platform),
            BloatCategory::PackageCache,
            "pnpm store prune"@,
        ),
        cache_loc(
            "pip cache"@,
            spec_pip_path(home, platform),
            BloatCategory::PackageCache,
            "pip cache purge"@,
        ),
        cache_loc(
            "cargo registry"@,
            home + "/.cargo/registry"@,
            BloatCategory::PackageCache,
            "cargo cache --autoclean (requires cargo-cache)"@,
        ),
        cache_loc(
            "cargo git"@,
            home + "/.cargo/git"@,
            BloatCategory::PackageCache,
            "cargo cache --autoclean (requires cargo-cache)"@,
        ),
    ] + (match brew_cache {
        Some(p) => seq![cache_loc("homebrew cache"@, p, BloatCategory::PackageCache, "brew cleanup"@)],
        None => Seq::empty(),
    }) + seq![
        cache_loc(
            "go module cache"@,
            home + "/go/pkg/mod"@,
            BloatCategory::PackageCache,
            "go clean -modcache"@,
        ),
        cache_loc(
            "vscode data"@,
            spec_vscode_path(home, platform),
            BloatCategory::IdeData,
            "clear from within vscode or delete unused extensions"@,
        ),
        cache_loc(
            "gradle cache"@,
            home + "/.gradle/caches"@,
            BloatCategory::PackageCache,
            "safe to delete, rebuilt on next gradle build"@,
        ),
        cache_loc(
            "maven cache"@,
            home + "/.m2/repository"@,
            BloatCategory::PackageCache,
            "mvn dependency:purge-local-repository"@,
        ),
        cache_loc(
            "nuget cache"@,
            home + "/.nuget/packages"@,
            BloatCategory::PackageCache,
            "dotnet nuget locals all --clear"@,
        ),
        cache_loc(
            "android AVD images"@,
            home + "/.android/avd"@,
            BloatCategory::IdeData,
            "delete unused emulators via Android Studio AVD Manager"@,
        ),
        cache_loc(
            "android SDK cache"@,
            home + "/.android/cache"@,
            BloatCategory::IdeData,
            "safe to delete, re-downloaded on next Android Studio sync"@,
        ),
        cache_loc(
            "android SDK"@,
            spec_android_sdk_path(home, platform),
            BloatCategory::IdeData,
            "remove unused SDK versions via Android Studio SDK Manager"@,
        ),
    ]
}

/// The well-known cache locations under a home directory, in probe order.
pub fn get_cache_locations(home: &str, platform: Platform, brew_cache: Option<String>) -> (r: Vec<
    CacheLocation,
>)
    ensures
        locations_view(r@) == spec_cache_locations(
            home@,
            platform,
            match brew_cache {
                Some(p) => Some(p@),
                None => None,
            },
        ),
{
    let ghost brewv = match brew_cache {
        Some(ref p) => Some(p@),
        None => None::<Seq<char>>,
    };
    let mut locations: Vec<CacheLocation> = Vec::new();

    locations.push(
        CacheLocation::new(
            "npm cache",
            String::from_str(home).concat("/.npm"),
            BloatCategory::PackageCache,
            "npm cache clean --force",
        ),
    );

    let yarn_path = match platform {
        Platform::MacOS => String::from_str(home).concat("/Library/Caches/Yarn"),
        Platform::Windows => String::from_str(home).concat("/AppData/Local/Yarn/Cache"),
        _ => String::from_str(home).concat("/.cache/yarn"),
    };
    locations.push(
        CacheLocation::new("yarn cache", yarn_path, BloatCategory::PackageCache, "yarn cache clean"),
    );

    let pnpm_path = match platform {
        Platform::MacOS => String::from_str(home).concat("/Library/pnpm/store"),
        Platform::Windows => String::from_str(home).concat("/AppData/Local/pnpm/store"),
        _ => String::from_str(home).concat("/.local/share/pnpm/store"),
    };
    locations.push(
        CacheLocation::new("pnpm store", pnpm_path, BloatCategory::PackageCache, "pnpm store prune"),
    );

    let pip_path = match platform {
        Platform::MacOS => String::from_str(home).concat("/Library/Caches/pip"),
        Platform::Windows => String::from_str(home).concat("/AppData/Local/pip/Cache"),
        _ => String::from_str(home).concat("/.cache/pip"),
    };
    locations.push(
        CacheLocation::new("pip cache", pip_path, BloatCategory::PackageCache, "pip cache purge"),
    );

    locations.push(
        CacheLocation::new(
            "cargo registry",
            String::from_str(home).concat("/.cargo/registry"),
            BloatCategory::PackageCache,
            "cargo cache --autoclean (requires cargo-cache)",
        ),
    );
    locations.push(
        CacheLocation::new(
            "cargo git",
            String::from_str(home).concat("/.cargo/git"),
            BloatCategory::PackageCache,
            "cargo cache --autoclean (requires cargo-cache)",
        ),
    );

    match brew_cache {
        Some(brew_path) => {
            locations.push(
                CacheLocation::new(
                    "homebrew cache",
                    brew_path,
                    BloatCategory::PackageCache,
                    "brew cleanup",
                ),
            );
        },
        None => {},
    }

    locations.push(
        CacheLocation::new(
            "go module cache",
            String::from_str(home).concat("/go/pkg/mod"),
            BloatCategory::PackageCache,
            "go clean -modcache",
        ),
    );

    let vscode_path = match platform {
        Platform::MacOS => String::from_str(home).concat("/Library/Application Support/Code"),
        Platform::Windows => String::from_str(home).concat("/AppData/Roaming/Code"),
        _ => String::from_str(home).concat("/.config/Code"),
    };
    locations.push(
        CacheLocation::new(
            "vscode data",
            vscode_path,
            BloatCategory::IdeData,
            "clear from within vscode or delete unused extensions",
        ),
    );

    locations.push(
        CacheLocation::new(
            "gradle cache",
            String::from_str(home).concat("/.gradle/caches"),
            BloatCategory::PackageCache,
            "safe to delete, rebuilt on next gradle build",
        ),
    );
    locations.push(
        CacheLocation::new(
            "maven cache",
            String::from_str(home).concat("/.m2/repository"),
            BloatCategory::PackageCache,
            "mvn dependency:purge-local-repository",
        ),
    );
    locations.push(
        CacheLocation::new(
            "nuget cache",
            String::from_str(home).concat("/.nuget/packages"),
            BloatCategory::PackageCache,
            "dotnet nuget locals all --clear",
        ),
    );
    locations.push(
        CacheLocation::new(
            "android AVD images",
            String::from_str(home).concat("/.android/avd"),
            BloatCategory::IdeData,
            "delete unused emulators via Android Studio AVD Manager",
        ),
    );
    locations.push(
        CacheLocation::new(
            "android SDK cache",
            String::from_str(home).concat("/.android/cache"),
            BloatCategory::IdeData,
            "safe to delete, re-downloaded on next Android Studio sync",
        ),
    );

    let android_sdk_path = match platform {
        Platform::MacOS => String::from_str(home).concat("/Library/Android/sdk"),
        Platform::Windows => String::from_str(home).concat("/AppData/Local/Android/Sdk"),
        _ => String::from_str(home).concat("/Android/Sdk"),
    };
    locations.push(
        CacheLocation::new(
            "android SDK",
            android_sdk_path,
            BloatCategory::IdeData,
            "remove unused SDK versions via Android Studio SDK Manager",
        ),
    );

    proof {
        assert(locations_view(locations@) =~= spec_cache_locations(home@, platform, brewv));
    }
    locations
}

// ---------------------------------------------------------------------------
// Assembling measurements into findings.
// ---------------------------------------------------------------------------

/// What the walker reports for one cache location.
pub enum CacheMeasurement {
    /// The path does not exist.
    Missing,
    /// The measured size and the size warnings the measurement produced.
    Measured { size: u64, warnings: Vec<String> },
}

pub struct CacheMeasurementView {
    pub missing: bool,
    pub size: u64,
    pub warnings: Seq<Seq<char>>,
}

impl View for CacheMeasurement {
    type V = CacheMeasurementView;

    open spec fn view(&self) -> CacheMeasurementView {
        match self {
            CacheMeasurement::Missing => CacheMeasurementView {
                missing: true,
                size: 0,
                warnings: Seq::empty(),
            },
            CacheMeasurement::Measured { size, warnings } => CacheMeasurementView {
                missing: false,
                size: *size,
                warnings: warnings.deep_view(),
            },
        }
    }
}

pub open spec fn measurements_view(v: Seq<CacheMeasurement>) -> Seq<CacheMeasurementView> {
    v.map_values(|m: CacheMeasurement| m@)
}

/// The finding one measured cache yields.
pub open spec fn spec_cache_entry(loc: CacheLocationView, size: u64) -> BloatEntryView {
    BloatEntryView {
        category: loc.category,
        name: loc.name,
        location: LocationView { kind: LocationKind::FilesystemPath, text: loc.path },
        size_bytes: size,
        reclaimable_bytes: if loc.not_reclaimable {
            0
        } else {
            size
        },
        last_modified: None,
        cleanup_hint: Some(loc.cleanup_hint),
    }
}

/// The state after folding some prefix of the measured locations: missing
/// and empty caches yield nothing; the rest yield one finding each, with
/// their size warnings downgraded to diagnostics.
pub open spec fn spec_cache_fold(
    locs: Seq<CacheLocationView>,
    measured: Seq<CacheMeasurementView>,
    upto: int,
) -> (Seq<BloatEntryView>, Seq<Seq<char>>)
    decreases upto,
{
    if upto <= 0 {
        (Seq::empty(), Seq::empty())
    } else {
        let (es, ds) = spec_cache_fold(locs, measured, upto - 1);
        let m = measured[upto - 1];
        if m.missing || m.size == 0 {
            (es, ds)
        } else {
            (
                es.push(spec_cache_entry(locs[upto - 1], m.size)),
                ds + m.warnings.map_values(|w: Seq<char>| w + size_warning_suffix()),
            )
        }
    }
}

/// Every finding assembled from the cache table keeps the findings'
/// invariant: what is not reclaimable reports zero, everything else reports
/// its full size.
pub proof fn lemma_cache_entries_wf(
    locs: Seq<CacheLocationView>,
    measured: Seq<CacheMeasurementView>,
    upto: int,
)
    requires
        0 <= upto,
    ensures
        crate::detector::all_entries_wf(spec_cache_fold(locs, measured, upto).0),
    decreases upto,
{
    if upto > 0 {
        lemma_cache_entries_wf(locs, measured, upto - 1);
        let (es, _) = spec_cache_fold(locs, measured, upto - 1);
        let (es2, _) = spec_cache_fold(locs, measured, upto);
        assert forall|i: int| 0 <= i < es2.len() implies (#[trigger] es2[i]).wf() by {
            if i < es.len() {
                assert(es[i].wf());
            }
        }
    }
}

/// Detects package manager and toolchain caches.
pub struct CacheDetector;

impl CacheDetector {
    pub fn name(&self) -> (r: &'static str)
        ensures
            r@ == "caches"@,
    {
        "caches"
    }

    /// Cache locations exist on every platform.
    pub fn available(&self, config: &crate::config::Config) -> (r: bool)
        ensures
            r,
    {
        let _ = config;
        true
    }

    /// Turn the measured cache locations into findings: one entry per
    /// existing, non-empty cache, reclaimable unless the location says
    /// otherwise.
    pub fn scan_measured(
        &self,
        locations: Vec<CacheLocation>,
        measured: &Vec<CacheMeasurement>,
    ) -> (r: DetectorResult)
        requires
            locations@.len() == measured@.len(),
        ensures
            ({
                let (es, ds) = spec_cache_fold(
                    locations_view(locations@),
                    measurements_view(measured@),
                    locations@.len() as int,
                );
                &&& entries_view(r.entries@) == es
                &&& r.diagnostics.deep_view() == ds
            }),
    {
        let ghost lv = locations_view(locations@);
        let ghost mv = measurements_view(measured@);
        let mut entries: Vec<BloatEntry> = Vec::new();
        let mut diagnostics: Vec<String> = Vec::new();
        proof {
            assert(entries_view(entries@) =~= Seq::<BloatEntryView>::empty());
            assert(diagnostics.deep_view() =~= Seq::<Seq<char>>::empty());
        }
        let mut locations = locations;
        let mut i: usize = 0;
        while i < measured.len()
            invariant
                i <= measured@.len(),
                locations@.len() == measured@.len(),
                lv == locations_view(locations@),
                mv == measurements_view(measured@),
                ({
                    let (es, ds) = spec_cache_fold(lv, mv, i as int);
                    &&& entries_view(entries@) == es
                    &&& diagnostics.deep_view() == ds
                }),
            decreases measured@.len() - i,
        {
            let ghost pre_e = entries_view(entries@);
            let ghost pre_d = diagnostics.deep_view();
            match &measured[i] {
                CacheMeasurement::Missing => {
                    proof {
                        assert(mv[i as int].missing);
                    }
                },
                CacheMeasurement::Measured { size, warnings } => {
                    if *size > 0 {
                        let loc = &locations[i];
                        let reclaimable = if loc.not_reclaimable {
                            0
                        } else {
                            *size
                        };
                        let entry = BloatEntry {
                            category: loc.category,
                            name: loc.name.clone(),
                            location: Location::FilesystemPath(loc.path.clone()),
                            size_bytes: *size,
                            reclaimable_bytes: reclaimable,
                            last_modified: None,
                            cleanup_hint: Some(loc.cleanup_hint.clone()),
                        };
                        assert(entry@ == spec_cache_entry(lv[i as int], mv[i as int].size));
                        entries.push(entry);
                        proof {
                            assert(entries_view(entries@) =~= pre_e.push(
                                spec_cache_entry(lv[i as int], mv[i as int].size),
                            ));
                        }
                        let ghost wv = warnings.deep_view();
                        let mut w: usize = 0;
                        proof {
                            assert(pre_d + wv.take(0).map_values(
                                |x: Seq<char>| x + size_warning_suffix(),
                            ) =~= pre_d);
                        }
                        while w < warnings.len()
                            invariant
                                w <= warnings@.len(),
                                wv == warnings.deep_view(),
                                wv.len() == warnings@.len(),
                                diagnostics.deep_view() =~= pre_d + wv.take(w as int).map_values(
                                    |x: Seq<char>| x + size_warning_suffix(),
                                ),
                            decreases warnings@.len() - w,
                        {
                            let suffixed = warnings[w].clone().concat(
                                " (size may be underestimated)",
                            );
                            assert(suffixed@ == wv[w as int] + size_warning_suffix());
                            let ghost dpre = diagnostics.deep_view();
                            diagnostics.push(suffixed);
                            proof {
                                assert(diagnostics.deep_view() =~= dpre.push(
                                    wv[w as int] + size_warning_suffix(),
                                ));
                                assert(wv.take(w as int + 1).map_values(
                                    |x: Seq<char>| x + size_warning_suffix(),
                                ) =~= wv.take(w as int).map_values(
                                    |x: Seq<char>| x + size_warning_suffix(),
                                ).push(wv[w as int] + size_warning_suffix()));
                                assert(diagnostics.deep_view() =~= pre_d + wv.take(
                                    w as int + 1,
                                ).map_values(|x: Seq<char>| x + size_warning_suffix()));
                            }
                            w = w + 1;
                        }
                        proof {
                            assert(wv.take(warnings@.len() as int) =~= wv);
                            assert(mv[i as int].warnings == wv);
                        }
                    } else {
                        proof {
                            assert(mv[i as int].size == 0);
                        }
                    }
                },
            }
            i = i + 1;
        }
        DetectorResult { entries, diagnostics }
    }
}

} // verus!
