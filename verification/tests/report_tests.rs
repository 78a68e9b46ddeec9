//! Size formatting for display.

use heft::detector::{BloatCategory, BloatEntry, DetectorResult, Location};
use heft::report::{decimal_string, format_bytes, truncate};

#[test]
fn bytes_below_a_kilobyte_are_plain() {
    assert_eq!(format_bytes(0), "0 B");
    assert_eq!(format_bytes(999), "999 B");
    assert_eq!(format_bytes(1023), "1023 B");
}

#[test]
fn scaled_units_keep_one_decimal() {
    assert_eq!(format_bytes(1024), "1.0 KB");
    assert_eq!(format_bytes(1536), "1.5 KB");
    assert_eq!(format_bytes(10 * 1024 * 1024), "10.0 MB");
    // 1.5 GB plus a little still shows the truncated decimal
    assert_eq!(format_bytes(1_610_612_736), "1.5 GB");
    assert_eq!(format_bytes(u64::MAX), "17179869183.9 GB");
}

#[test]
fn decimal_strings_are_exact() {
    assert_eq!(decimal_string(0), "0");
    assert_eq!(decimal_string(7), "7");
    assert_eq!(decimal_string(1024), "1024");
    assert_eq!(decimal_string(u64::MAX), "18446744073709551615");
}

#[test]
fn truncation_keeps_short_names_and_cuts_long_ones() {
    assert_eq!(truncate("short", 30), "short");
    assert_eq!(truncate("exactly-ten", 11), "exactly-ten");
    assert_eq!(truncate("a-very-long-project-name", 10), "a-very-...");
}

#[test]
fn empty_report_renders_the_quiet_line() {
    let report = heft::scan::ScanResult::empty();
    assert_eq!(heft::report::render(&report), "No bloat detected.\n");
}

#[test]
fn table_groups_and_sorts_by_reclaimable() {
    let mut report = heft::scan::ScanResult::empty();
    let mut outcome = DetectorResult::empty();
    for (name, cat, size) in [
        ("small-project", BloatCategory::ProjectArtifacts, 1024u64),
        ("npm cache", BloatCategory::PackageCache, 4096u64),
        ("big-project", BloatCategory::ProjectArtifacts, 2048u64),
    ] {
        outcome.entries.push(BloatEntry {
            category: cat,
            name: name.to_string(),
            location: Location::FilesystemPath("/x".to_string()),
            size_bytes: size,
            reclaimable_bytes: size,
            last_modified: None,
            cleanup_hint: None,
        });
    }
    report.merge(outcome);
    let table = heft::report::render(&report);
    // the package cache subtotal (4 KB) outranks the project subtotal (3 KB)
    let cache_at = table.find("PackageCache").unwrap();
    let projects_at = table.find("ProjectArtifacts").unwrap();
    assert!(cache_at < projects_at);
    // within a category the larger entry comes first
    let big_at = table.find("big-project").unwrap();
    let small_at = table.find("small-project").unwrap();
    assert!(big_at < small_at);
    assert!(table.contains("TOTAL: 7.0 KB"));
    assert!(table.contains("subtotal"));
}
