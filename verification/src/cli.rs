//! The command-line surface as plain data: the argument sets each subcommand
//! carries. Parsing the process's argument list into these lives outside the
//! library.

use vstd::prelude::*;

verus! {

pub struct Cli {
    pub command: Command,
}

pub enum Command {
    /// Run all detectors and output results.
    Scan(ScanArgs),
    /// Display the most recent scan or a specific snapshot.
    Report(ReportArgs),
    /// Remove reclaimable items.
    Clean(CleanArgs),
    /// Compare two snapshots.
    Diff(DiffArgs),
}

pub struct ScanArgs {
    /// Directories to scan (defaults to the home directory).
    pub roots: Option<Vec<String>>,
    /// Output as JSON instead of a table.
    pub json: bool,
    /// Disable JSON output (overrides the config file).
    pub no_json: bool,
    /// Skip the Docker detector.
    pub no_docker: bool,
    /// Disable specific detectors by name.
    pub disable: Option<Vec<String>>,
    /// Per-detector timeout in seconds.
    pub timeout: Option<u64>,
    /// Show detailed output including diagnostics.
    pub verbose: bool,
    /// Disable verbose output (overrides the config file).
    pub no_verbose: bool,
    /// Show progressive output as each detector completes.
    pub progressive: bool,
    /// Disable progressive output (overrides the config file).
    pub no_progressive: bool,
}

pub struct ReportArgs {
    /// List all snapshots.
    pub list: bool,
    /// Show a specific snapshot by ID.
    pub id: Option<String>,
    /// Output as JSON.
    pub json: bool,
}

#[derive(Clone, Copy, Debug, PartialEq, Eq, Structural)]
pub enum CleanCategory {
    ProjectArtifacts,
    ContainerData,
    PackageCache,
    IdeData,
    SystemCache,
    Other,
}

pub struct CleanArgs {
    /// Skip confirmation and execute deletion.
    pub yes: bool,
    /// Show what would be deleted without making any changes.
    pub dry_run: bool,
    /// Only clean specific categories.
    pub category: Option<Vec<CleanCategory>>,
    /// Directories to scan (defaults to the home directory).
    pub roots: Option<Vec<String>>,
    /// Skip the Docker detector.
    pub no_docker: bool,
    /// Disable specific detectors by name.
    pub disable: Option<Vec<String>>,
    /// Per-detector timeout in seconds.
    pub timeout: Option<u64>,
    /// Show detailed output including diagnostics.
    pub verbose: bool,
    /// Disable verbose output (overrides the config file).
    pub no_verbose: bool,
}

pub struct DiffArgs {
    /// Starting snapshot ID for the comparison.
    pub from: Option<String>,
    /// Ending snapshot ID for the comparison.
    pub to: Option<String>,
}

} // verus!
