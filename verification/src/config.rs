//! Runtime configuration: what a file config holds, and how command-line
//! arguments, the file config and the platform defaults merge into one
//! `Config`. Reading the file itself is I/O and stays outside the library.

use vstd::prelude::*;
use crate::cli::{CleanArgs, ScanArgs};
use crate::platform::Platform;
use crate::strutil::string_eq_str;

verus! {

// ---------------------------------------------------------------------------
// File config (~/.config/heft/config.toml), already parsed to plain values.
// ---------------------------------------------------------------------------

pub struct FileScanConfig {
    pub roots: Option<Vec<String>>,
    pub timeout: Option<u64>,
    pub json: Option<bool>,
    pub verbose: Option<bool>,
    pub progressive: Option<bool>,
}

impl Default for FileScanConfig {
    fn default() -> (r: Self)
        ensures
            r.roots is None,
            r.timeout is None,
            r.json is None,
            r.verbose is None,
            r.progressive is None,
    {
        FileScanConfig { roots: None, timeout: None, json: None, verbose: None, progressive: None }
    }
}

pub struct FileDetectorsConfig {
    pub docker: Option<bool>,
    pub xcode: Option<bool>,
    pub projects: Option<bool>,
    pub caches: Option<bool>,
}

impl Default for FileDetectorsConfig {
    fn default() -> (r: Self)
        ensures
            r.docker is None,
            r.xcode is None,
            r.projects is None,
            r.caches is None,
    {
        FileDetectorsConfig { docker: None, xcode: None, projects: None, caches: None }
    }
}

pub struct FileConfig {
    pub scan: FileScanConfig,
    pub detectors: FileDetectorsConfig,
}

impl Default for FileConfig {
    fn default() -> (r: Self)
        ensures
            r.scan.roots is None,
            r.scan.timeout is None,
            r.scan.json is None,
            r.scan.verbose is None,
            r.scan.progressive is None,
            r.detectors.docker is None,
            r.detectors.xcode is None,
            r.detectors.projects is None,
            r.detectors.caches is None,
    {
        FileConfig { scan: Default::default(), detectors: Default::default() }
    }
}

/// The detector names a file config disables: exactly the ones set to
/// `false`.
pub open spec fn spec_disabled_from_file(det: FileDetectorsConfig) -> Seq<Seq<char>> {
    (if det.docker == Some(false) {
        seq!["docker"@]
    } else {
        Seq::empty()
    }) + (if det.xcode == Some(false) {
        seq!["xcode"@]
    } else {
        Seq::empty()
    }) + (if det.projects == Some(false) {
        seq!["projects"@]
    } else {
        Seq::empty()
    }) + (if det.caches == Some(false) {
        seq!["caches"@]
    } else {
        Seq::empty()
    })
}

/// Collect detector names disabled by the file config.
pub fn disabled_from_file(det: &FileDetectorsConfig) -> (r: Vec<String>)
    ensures
        r.deep_view() == spec_disabled_from_file(*det),
{
    let mut out: Vec<String> = Vec::new();
    if matches!(det.docker, Some(false)) {
        out.push(String::from_str("docker"));
    }
    if matches!(det.xcode, Some(false)) {
        out.push(String::from_str("xcode"));
    }
    if matches!(det.projects, Some(false)) {
        out.push(String::from_str("projects"));
    }
    if matches!(det.caches, Some(false)) {
        out.push(String::from_str("caches"));
    }
    proof {
        assert(out.deep_view() =~= spec_disabled_from_file(*det));
    }
    out
}

// ---------------------------------------------------------------------------
// Runtime config.
// ---------------------------------------------------------------------------

pub struct Config {
    pub roots: Vec<String>,
    /// Per-detector timeout, in seconds.
    pub timeout: u64,
    pub disabled_detectors: Vec<String>,
    pub json_output: bool,
    pub verbose: bool,
    pub progressive: bool,
    pub platform: Platform,
}

pub open spec fn spec_contains_string(s: Seq<Seq<char>>, name: Seq<char>) -> bool {
    exists|i: int| 0 <= i < s.len() && s[i] == name
}

/// Which roots a scan uses: the command line wins, then the file config,
/// then the home directory.
pub open spec fn spec_merged_roots(
    args_roots: Option<Seq<Seq<char>>>,
    file_roots: Option<Seq<Seq<char>>>,
    home: Option<Seq<char>>,
) -> Seq<Seq<char>> {
    match args_roots {
        Some(r) => r,
        None => match file_roots {
            Some(r) => r,
            None => match home {
                Some(h) => seq![h],
                None => Seq::empty(),
            },
        },
    }
}

/// A boolean flag: the `--no-` form forces off, the positive form forces
/// on, otherwise the file config decides.
pub open spec fn spec_merged_flag(on: bool, off: bool, file: Option<bool>) -> bool {
    if off {
        false
    } else if on {
        true
    } else {
        file == Some(true)
    }
}

/// The disabled set: file config first, then `--no-docker`, then the
/// explicit `--disable` names.
pub open spec fn spec_merged_disabled(
    det: FileDetectorsConfig,
    no_docker: bool,
    disable: Option<Seq<Seq<char>>>,
) -> Seq<Seq<char>> {
    spec_disabled_from_file(det) + (if no_docker {
        seq!["docker"@]
    } else {
        Seq::empty()
    }) + (match disable {
        Some(d) => d,
        None => Seq::empty(),
    })
}

fn clone_strings(v: &Vec<String>) -> (r: Vec<String>)
    ensures
        r.deep_view() == v.deep_view(),
{
    let mut r: Vec<String> = Vec::new();
    let mut i: usize = 0;
    while i < v.len()
        invariant
            i <= v@.len(),
            r@.len() == i,
            forall|j: int| 0 <= j < i ==> r@[j] == #[trigger] v@[j],
        decreases v@.len() - i,
    {
        let c = v[i].clone();
        r.push(c);
        i = i + 1;
    }
    proof {
        assert(r.deep_view() =~= v.deep_view());
    }
    r
}

fn merged_roots(
    args_roots: &Option<Vec<String>>,
    file_roots: &Option<Vec<String>>,
    home: &Option<String>,
) -> (r: Vec<String>)
    ensures
        r.deep_view() == spec_merged_roots(
            args_roots.deep_view(),
            file_roots.deep_view(),
            home.deep_view(),
        ),
{
    match args_roots {
        Some(roots) => clone_strings(roots),
        None => match file_roots {
            Some(roots) => clone_strings(roots),
            None => match home {
                Some(h) => {
                    let mut r: Vec<String> = Vec::new();
                    r.push(h.clone());
                    proof {
                        assert(r.deep_view() =~= seq![h@]);
                    }
                    r
                },
                None => {
                    let r: Vec<String> = Vec::new();
                    proof {
                        assert(r.deep_view() =~= Seq::<Seq<char>>::empty());
                    }
                    r
                },
            },
        },
    }
}

fn merged_disabled(
    det: &FileDetectorsConfig,
    no_docker: bool,
    disable: &Option<Vec<String>>,
) -> (r: Vec<String>)
    ensures
        r.deep_view() == spec_merged_disabled(*det, no_docker, disable.deep_view()),
{
    let mut out = disabled_from_file(det);
    let ghost base = out.deep_view();
    if no_docker {
        out.push(String::from_str("docker"));
        proof {
            assert(out.deep_view() =~= base + seq!["docker"@]);
        }
    } else {
        proof {
            assert(out.deep_view() =~= base + Seq::<Seq<char>>::empty());
        }
    }
    let ghost mid = out.deep_view();
    match disable {
        Some(names) => {
            let mut i: usize = 0;
            while i < names.len()
                invariant
                    i <= names@.len(),
                    out.deep_view() =~= mid + names.deep_view().take(i as int),
                decreases names@.len() - i,
            {
                let ghost pre = out.deep_view();
                let c = names[i].clone();
                out.push(c);
                proof {
                    assert(out.deep_view() =~= pre.push(names.deep_view()[i as int]));
                    assert(mid + names.deep_view().take(i as int + 1) =~= (mid
                        + names.deep_view().take(i as int)).push(names.deep_view()[i as int]));
                }
                i = i + 1;
            }
            proof {
                assert(names.deep_view().take(names@.len() as int) =~= names.deep_view());
            }
        },
        None => {
            proof {
                assert(out.deep_view() =~= mid + Seq::<Seq<char>>::empty());
            }
        },
    }
    out
}

impl Config {
    /// A detector runs unless its name is in the disabled set.
    pub fn is_detector_enabled(&self, name: &str) -> (r: bool)
        ensures
            r == !spec_contains_string(self.disabled_detectors.deep_view(), name@),
    {
        let ghost dv = self.disabled_detectors.deep_view();
        let mut i: usize = 0;
        while i < self.disabled_detectors.len()
            invariant
                i <= self.disabled_detectors@.len(),
                dv == self.disabled_detectors.deep_view(),
                forall|j: int| 0 <= j < i ==> dv[j] != name@,
            decreases self.disabled_detectors@.len() - i,
        {
            if string_eq_str(&self.disabled_detectors[i], name) {
                assert(dv[i as int] == name@);
                return false;
            }
            assert(dv[i as int] == self.disabled_detectors@[i as int]@);
            i = i + 1;
        }
        true
    }

    /// Merge scan arguments over an already-loaded file config.
    pub fn from_scan_args(
        args: &ScanArgs,
        file: &FileConfig,
        platform: Platform,
        home: &Option<String>,
    ) -> (r: Config)
        ensures
            r.roots.deep_view() == spec_merged_roots(
                args.roots.deep_view(),
                file.scan.roots.deep_view(),
                home.deep_view(),
            ),
            r.timeout == spec_merged_timeout(args.timeout, file.scan.timeout),
            r.disabled_detectors.deep_view() == spec_merged_disabled(
                file.detectors,
                args.no_docker,
                args.disable.deep_view(),
            ),
            r.json_output == spec_merged_flag(args.json, args.no_json, file.scan.json),
            r.verbose == spec_merged_flag(args.verbose, args.no_verbose, file.scan.verbose),
            r.progressive == spec_merged_flag(
                args.progressive,
                args.no_progressive,
                file.scan.progressive,
            ),
            r.platform == platform,
    {
        Self::merge_scan(args, file, platform, home)
    }

    /// Merge rules: command line beats file config beats defaults; `--flag`
    /// forces on, `--no-flag` forces off.
    pub fn merge_scan(
        args: &ScanArgs,
        file: &FileConfig,
        platform: Platform,
        home: &Option<String>,
    ) -> (r: Config)
        ensures
            r.roots.deep_view() == spec_merged_roots(
                args.roots.deep_view(),
                file.scan.roots.deep_view(),
                home.deep_view(),
            ),
            r.timeout == spec_merged_timeout(args.timeout, file.scan.timeout),
            r.disabled_detectors.deep_view() == spec_merged_disabled(
                file.detectors,
                args.no_docker,
                args.disable.deep_view(),
            ),
            r.json_output == spec_merged_flag(args.json, args.no_json, file.scan.json),
            r.verbose == spec_merged_flag(args.verbose, args.no_verbose, file.scan.verbose),
            r.progressive == spec_merged_flag(
                args.progressive,
                args.no_progressive,
                file.scan.progressive,
            ),
            r.platform == platform,
    {
        let roots = merged_roots(&args.roots, &file.scan.roots, home);
        let timeout = match args.timeout {
            Some(t) => t,
            None => match file.scan.timeout {
                Some(t) => t,
                None => 30,
            },
        };
        let json_output = if args.no_json {
            false
        } else if args.json {
            true
        } else {
            matches!(file.scan.json, Some(true))
        };
        let verbose = if args.no_verbose {
            false
        } else if args.verbose {
            true
        } else {
            matches!(file.scan.verbose, Some(true))
        };
        let progressive = if args.no_progressive {
            false
        } else if args.progressive {
            true
        } else {
            matches!(file.scan.progressive, Some(true))
        };
        let disabled = merged_disabled(&file.detectors, args.no_docker, &args.disable);
        Config {
            roots,
            timeout,
            disabled_detectors: disabled,
            json_output,
            verbose,
            progressive,
            platform,
        }
    }

    /// The clean command's configuration: like a scan, but never JSON and
    /// never progressive.
    pub fn from_clean_args(
        args: &CleanArgs,
        file: &FileConfig,
        platform: Platform,
        home: &Option<String>,
    ) -> (r: Config)
        ensures
            r.roots.deep_view() == spec_merged_roots(
                args.roots.deep_view(),
                file.scan.roots.deep_view(),
                home.deep_view(),
            ),
            r.timeout == spec_merged_timeout(args.timeout, file.scan.timeout),
            r.disabled_detectors.deep_view() == spec_merged_disabled(
                file.detectors,
                args.no_docker,
                args.disable.deep_view(),
            ),
            r.json_output == false,
            r.verbose == spec_merged_flag(args.verbose, args.no_verbose, file.scan.verbose),
            r.progressive == false,
            r.platform == platform,
    {
        let roots = merged_roots(&args.roots, &file.scan.roots, home);
        let timeout = match args.timeout {
            Some(t) => t,
            None => match file.scan.timeout {
                Some(t) => t,
                None => 30,
            },
        };
        let verbose = if args.no_verbose {
            false
        } else if args.verbose {
            true
        } else {
            matches!(file.scan.verbose, Some(true))
        };
        let disabled = merged_disabled(&file.detectors, args.no_docker, &args.disable);
        Config {
            roots,
            timeout,
            disabled_detectors: disabled,
            json_output: false,
            verbose,
            progressive: false,
            platform,
        }
    }
}

pub open spec fn spec_merged_timeout(args_timeout: Option<u64>, file_timeout: Option<u64>) -> u64 {
    match args_timeout {
        Some(t) => t,
        None => match file_timeout {
            Some(t) => t,
            None => 30,
        },
    }
}

} // verus!
