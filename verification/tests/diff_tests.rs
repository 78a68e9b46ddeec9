//! The diff engine: matching by (category, name), classifying each pairing,
//! and the net change.

use heft::detector::{BloatCategory, BloatEntry, Location};
use heft::store::diff::{DiffResult, DiffType, compare_entries, make_key};

fn entry(name: &str, size: u64) -> BloatEntry {
    BloatEntry {
        category: BloatCategory::PackageCache,
        name: name.to_string(),
        location: Location::FilesystemPath("/tmp".to_string()),
        size_bytes: size,
        reclaimable_bytes: size,
        last_modified: None,
        cleanup_hint: None,
    }
}

fn diff(from: &[BloatEntry], to: &[BloatEntry]) -> DiffResult {
    compare_entries(&from.to_vec(), &to.to_vec(), 1, 2, 0, 100)
}

#[test]
fn new_entry_detected() {
    let result = diff(&[], &[entry("npm cache", 1_000_000)]);
    assert_eq!(result.entries.len(), 1);
    assert_eq!(result.entries[0].diff_type, DiffType::New);
    assert_eq!(result.entries[0].new_size, 1_000_000);
    assert_eq!(result.entries[0].delta, 1_000_000);
    assert_eq!(result.net_change, 1_000_000);
}

#[test]
fn gone_entry_detected() {
    let result = diff(&[entry("npm cache", 1_000_000)], &[]);
    assert_eq!(result.entries.len(), 1);
    assert_eq!(result.entries[0].diff_type, DiffType::Gone);
    assert_eq!(result.entries[0].old_size, 1_000_000);
    assert_eq!(result.entries[0].new_size, 0);
    assert_eq!(result.entries[0].delta, -1_000_000);
    assert_eq!(result.net_change, -1_000_000);
}

#[test]
fn grew_entry_detected() {
    let result = diff(
        &[entry("npm cache", 1_000_000)],
        &[entry("npm cache", 2_000_000)],
    );
    assert_eq!(result.entries.len(), 1);
    assert_eq!(result.entries[0].diff_type, DiffType::Grew);
    assert_eq!(result.entries[0].delta, 1_000_000);
    assert_eq!(result.net_change, 1_000_000);
}

#[test]
fn shrank_entry_detected() {
    let result = diff(
        &[entry("cargo registry", 3_000_000)],
        &[entry("cargo registry", 1_000_000)],
    );
    assert_eq!(result.entries.len(), 1);
    assert_eq!(result.entries[0].diff_type, DiffType::Shrank);
    assert_eq!(result.entries[0].delta, -2_000_000);
    assert_eq!(result.net_change, -2_000_000);
}

#[test]
fn unchanged_entry_not_reported() {
    let result = diff(
        &[entry("npm cache", 1_000_000)],
        &[entry("npm cache", 1_000_000)],
    );
    assert!(result.entries.is_empty());
    assert_eq!(result.net_change, 0);
}

#[test]
fn net_change_mixed_operations() {
    let from = vec![entry("a", 1_000_000), entry("b", 2_000_000)];
    // a grew +500k, b is gone -2M, c is new +500k: net -1M
    let to = vec![entry("a", 1_500_000), entry("c", 500_000)];

    let result = diff(&from, &to);
    assert_eq!(result.net_change, -1_000_000);

    let types: Vec<&DiffType> = result.entries.iter().map(|e| &e.diff_type).collect();
    assert!(types.contains(&&DiffType::Grew));
    assert!(types.contains(&&DiffType::Gone));
    assert!(types.contains(&&DiffType::New));
}

#[test]
fn empty_both_sides_no_entries() {
    let result = diff(&[], &[]);
    assert!(result.entries.is_empty());
    assert_eq!(result.net_change, 0);
}

#[test]
fn snapshot_ids_preserved() {
    let result = compare_entries(&Vec::new(), &Vec::new(), 7, 13, 1000, 2000);
    assert_eq!(result.from_id, 7);
    assert_eq!(result.to_id, 13);
    assert_eq!(result.from_timestamp, 1000);
    assert_eq!(result.to_timestamp, 2000);
}

// ── additional behavior ──────────────────────────────────────────────────

#[test]
fn mixed_scenario_exact_counts() {
    // from={a:100,b:200}, to={a:150,c:50}: exactly one Grew(a), one Gone(b),
    // one New(c); net = (+50) + (-200) + (+50) = -100.
    let from = vec![entry("a", 100), entry("b", 200)];
    let to = vec![entry("a", 150), entry("c", 50)];
    let result = diff(&from, &to);

    let grew: Vec<_> = result
        .entries
        .iter()
        .filter(|e| e.diff_type == DiffType::Grew)
        .collect();
    let gone: Vec<_> = result
        .entries
        .iter()
        .filter(|e| e.diff_type == DiffType::Gone)
        .collect();
    let new: Vec<_> = result
        .entries
        .iter()
        .filter(|e| e.diff_type == DiffType::New)
        .collect();
    assert_eq!(grew.len(), 1);
    assert_eq!(gone.len(), 1);
    assert_eq!(new.len(), 1);
    assert_eq!(grew[0].name, "a");
    assert_eq!(grew[0].delta, 50);
    assert_eq!(gone[0].name, "b");
    assert_eq!(gone[0].delta, -200);
    assert_eq!(new[0].name, "c");
    assert_eq!(new[0].delta, 50);
    assert_eq!(result.entries.len(), 3);
    assert_eq!(result.net_change, -100);
}

#[test]
fn same_name_different_category_are_distinct() {
    let mut ide = entry("cache", 100);
    ide.category = BloatCategory::IdeData;
    let from = vec![entry("cache", 100)];
    let to = vec![ide];
    let result = diff(&from, &to);
    // one New (IdeData "cache"), one Gone (PackageCache "cache")
    assert_eq!(result.entries.len(), 2);
    assert_eq!(result.net_change, 0);
}

#[test]
fn make_key_is_category_and_name() {
    let e = entry("npm cache", 1);
    assert_eq!(make_key(&e), "PackageCache:npm cache");
}

#[test]
fn compare_is_deterministic() {
    let from = vec![entry("a", 100), entry("b", 200), entry("c", 300)];
    let to = vec![entry("b", 100), entry("d", 400)];
    let r1 = diff(&from, &to);
    let r2 = diff(&from, &to);
    assert_eq!(r1.entries.len(), r2.entries.len());
    for (x, y) in r1.entries.iter().zip(r2.entries.iter()) {
        assert_eq!(x.name, y.name);
        assert_eq!(x.delta, y.delta);
        assert_eq!(x.diff_type, y.diff_type);
    }
    assert_eq!(r1.net_change, r2.net_change);
}

#[test]
fn duplicate_keys_keep_the_last_entry() {
    // two entries under one identity: the later one is the map's value
    let from = vec![entry("a", 100), entry("a", 200)];
    let to = vec![entry("a", 300)];
    let result = diff(&from, &to);
    assert_eq!(result.entries.len(), 1);
    assert_eq!(result.entries[0].diff_type, DiffType::Grew);
    assert_eq!(result.entries[0].old_size, 200);
    assert_eq!(result.entries[0].delta, 100);
}
