//! Configuration merging: precedence of command line over file config over
//! defaults, flag overrides, and the disabled-detector set.

use heft::cli::ScanArgs;
use heft::config::{Config, FileConfig, FileDetectorsConfig, FileScanConfig, disabled_from_file};
use heft::platform::Platform;

fn default_scan_args() -> ScanArgs {
    ScanArgs {
        roots: None,
        json: false,
        no_json: false,
        no_docker: false,
        disable: None,
        timeout: None,
        verbose: false,
        no_verbose: false,
        progressive: false,
        no_progressive: false,
    }
}

fn merge(args: &ScanArgs, file: &FileConfig) -> Config {
    Config::merge_scan(args, file, Platform::Linux, &None)
}

fn has(v: &Vec<String>, name: &str) -> bool {
    v.iter().any(|s| s == name)
}

// ── disabled_from_file ──────────────────────────────────────────────────

#[test]
fn disabled_from_file_empty_config() {
    let det = FileDetectorsConfig::default();
    assert!(disabled_from_file(&det).is_empty());
}

#[test]
fn disabled_from_file_true_does_not_disable() {
    let det = FileDetectorsConfig {
        docker: Some(true),
        xcode: Some(true),
        projects: Some(true),
        caches: Some(true),
    };
    assert!(disabled_from_file(&det).is_empty());
}

#[test]
fn disabled_from_file_false_disables() {
    let det = FileDetectorsConfig {
        docker: Some(false),
        xcode: Some(false),
        projects: None,
        caches: Some(false),
    };
    let disabled = disabled_from_file(&det);
    assert!(has(&disabled, "docker"));
    assert!(has(&disabled, "xcode"));
    assert!(has(&disabled, "caches"));
    assert!(!has(&disabled, "projects"));
}

// ── merge_scan: timeout precedence ──────────────────────────────────────

#[test]
fn timeout_defaults_to_30() {
    let args = default_scan_args();
    let file = FileConfig::default();
    let config = merge(&args, &file);
    assert_eq!(config.timeout, 30);
}

#[test]
fn timeout_file_overrides_default() {
    let args = default_scan_args();
    let file = FileConfig {
        scan: FileScanConfig { timeout: Some(60), ..Default::default() },
        ..Default::default()
    };
    let config = merge(&args, &file);
    assert_eq!(config.timeout, 60);
}

#[test]
fn timeout_cli_overrides_file() {
    let args = ScanArgs { timeout: Some(10), ..default_scan_args() };
    let file = FileConfig {
        scan: FileScanConfig { timeout: Some(60), ..Default::default() },
        ..Default::default()
    };
    let config = merge(&args, &file);
    assert_eq!(config.timeout, 10);
}

// ── merge_scan: boolean flags ───────────────────────────────────────────

#[test]
fn verbose_defaults_to_false() {
    let config = merge(&default_scan_args(), &FileConfig::default());
    assert!(!config.verbose);
}

#[test]
fn verbose_file_turns_on() {
    let file = FileConfig {
        scan: FileScanConfig { verbose: Some(true), ..Default::default() },
        ..Default::default()
    };
    let config = merge(&default_scan_args(), &file);
    assert!(config.verbose);
}

#[test]
fn no_verbose_overrides_file() {
    let args = ScanArgs { no_verbose: true, ..default_scan_args() };
    let file = FileConfig {
        scan: FileScanConfig { verbose: Some(true), ..Default::default() },
        ..Default::default()
    };
    let config = merge(&args, &file);
    assert!(!config.verbose);
}

#[test]
fn json_flag_overrides_file_false() {
    let args = ScanArgs { json: true, ..default_scan_args() };
    let file = FileConfig {
        scan: FileScanConfig { json: Some(false), ..Default::default() },
        ..Default::default()
    };
    let config = merge(&args, &file);
    assert!(config.json_output);
}

#[test]
fn no_json_overrides_file_true() {
    let args = ScanArgs { no_json: true, ..default_scan_args() };
    let file = FileConfig {
        scan: FileScanConfig { json: Some(true), ..Default::default() },
        ..Default::default()
    };
    let config = merge(&args, &file);
    assert!(!config.json_output);
}

// ── merge_scan: disabled detectors ──────────────────────────────────────

#[test]
fn no_docker_flag_disables_docker() {
    let args = ScanArgs { no_docker: true, ..default_scan_args() };
    let config = merge(&args, &FileConfig::default());
    assert!(has(&config.disabled_detectors, "docker"));
}

#[test]
fn disable_flag_disables_listed() {
    let args = ScanArgs {
        disable: Some(vec!["xcode".to_string(), "caches".to_string()]),
        ..default_scan_args()
    };
    let config = merge(&args, &FileConfig::default());
    assert!(has(&config.disabled_detectors, "xcode"));
    assert!(has(&config.disabled_detectors, "caches"));
    assert!(!has(&config.disabled_detectors, "docker"));
}

#[test]
fn file_and_cli_disabled_merge() {
    let args = ScanArgs { no_docker: true, ..default_scan_args() };
    let file = FileConfig {
        detectors: FileDetectorsConfig { xcode: Some(false), ..Default::default() },
        ..Default::default()
    };
    let config = merge(&args, &file);
    assert!(has(&config.disabled_detectors, "docker"));
    assert!(has(&config.disabled_detectors, "xcode"));
}

// ── merge_scan: roots precedence ────────────────────────────────────────

#[test]
fn roots_cli_overrides_file() {
    let args = ScanArgs { roots: Some(vec!["/cli/path".to_string()]), ..default_scan_args() };
    let file = FileConfig {
        scan: FileScanConfig {
            roots: Some(vec!["/file/path".to_string()]),
            ..Default::default()
        },
        ..Default::default()
    };
    let config = merge(&args, &file);
    assert_eq!(config.roots, vec!["/cli/path".to_string()]);
}

#[test]
fn roots_file_overrides_default() {
    let args = default_scan_args();
    let file = FileConfig {
        scan: FileScanConfig {
            roots: Some(vec!["/file/path".to_string()]),
            ..Default::default()
        },
        ..Default::default()
    };
    let config = merge(&args, &file);
    assert_eq!(config.roots, vec!["/file/path".to_string()]);
}

// ── further merge behavior ──────────────────────────────────────────────

#[test]
fn roots_fall_back_to_home() {
    let args = default_scan_args();
    let config = Config::merge_scan(&args, &FileConfig::default(), Platform::Linux, &Some(
        "/home/someone".to_string(),
    ));
    assert_eq!(config.roots, vec!["/home/someone".to_string()]);
}

#[test]
fn is_detector_enabled_reflects_disabled_set() {
    let args = ScanArgs { no_docker: true, ..default_scan_args() };
    let config = merge(&args, &FileConfig::default());
    assert!(!config.is_detector_enabled("docker"));
    assert!(config.is_detector_enabled("projects"));
}
