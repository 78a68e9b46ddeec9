//! Clean-pass selection and accounting.

use heft::clean::{CleanMode, is_docker_aggregate, location_display, run, string_to_category};
use heft::detector::{BloatCategory, BloatEntry, Location};
use heft::scan::ScanResult;

fn entry(name: &str, location: Location, category: BloatCategory, reclaimable: u64) -> BloatEntry {
    BloatEntry {
        category,
        name: name.to_string(),
        location,
        size_bytes: reclaimable,
        reclaimable_bytes: reclaimable,
        last_modified: None,
        cleanup_hint: None,
    }
}

fn report(entries: Vec<BloatEntry>) -> ScanResult {
    let mut r = ScanResult::empty();
    for e in entries {
        let mut one = heft::detector::DetectorResult::empty();
        one.entries.push(e);
        r.merge(one);
    }
    r
}

#[test]
fn string_to_category_maps_every_name() {
    assert_eq!(string_to_category("project-artifacts"), Some(BloatCategory::ProjectArtifacts));
    assert_eq!(string_to_category("container-data"), Some(BloatCategory::ContainerData));
    assert_eq!(string_to_category("package-cache"), Some(BloatCategory::PackageCache));
    assert_eq!(string_to_category("ide-data"), Some(BloatCategory::IdeData));
    assert_eq!(string_to_category("system-cache"), Some(BloatCategory::SystemCache));
    assert_eq!(string_to_category("other"), Some(BloatCategory::Other));
    assert_eq!(string_to_category("nonsense"), None);
}

#[test]
fn docker_aggregates_are_the_prunable_ones() {
    assert!(is_docker_aggregate("Images"));
    assert!(is_docker_aggregate("Containers"));
    assert!(is_docker_aggregate("Local Volumes"));
    assert!(is_docker_aggregate("Build Cache"));
    assert!(!is_docker_aggregate("All Reports"));
}

#[test]
fn location_display_forms() {
    assert_eq!(
        location_display(&Location::FilesystemPath("/a/b".to_string())),
        "/a/b"
    );
    assert_eq!(
        location_display(&Location::DockerObject("abc123".to_string())),
        "docker:abc123"
    );
    assert_eq!(location_display(&Location::Aggregate("Images".to_string())), "Images");
}

#[test]
fn dry_run_plans_without_outcomes() {
    let r = report(vec![
        entry(
            "proj",
            Location::FilesystemPath("/p/node_modules".to_string()),
            BloatCategory::ProjectArtifacts,
            100,
        ),
        entry(
            "reports",
            Location::Aggregate("All Reports".to_string()),
            BloatCategory::Other,
            999,
        ),
    ]);
    let result = run(&r, CleanMode::DryRun, None, &Vec::new());
    // the non-docker aggregate is filtered out
    assert_eq!(result.deleted.len(), 1);
    assert_eq!(result.deleted[0], "[dry-run] would delete: /p/node_modules");
    assert_eq!(result.bytes_freed, 100);
    assert!(result.errors.is_empty());
}

#[test]
fn category_filter_keeps_only_listed() {
    let r = report(vec![
        entry(
            "proj",
            Location::FilesystemPath("/p/node_modules".to_string()),
            BloatCategory::ProjectArtifacts,
            100,
        ),
        entry(
            "npm cache",
            Location::FilesystemPath("/h/.npm".to_string()),
            BloatCategory::PackageCache,
            50,
        ),
    ]);
    let result = run(
        &r,
        CleanMode::DryRun,
        Some(vec!["package-cache".to_string()]),
        &Vec::new(),
    );
    assert_eq!(result.deleted.len(), 1);
    assert_eq!(result.deleted[0], "[dry-run] would delete: /h/.npm");
    assert_eq!(result.bytes_freed, 50);
}

#[test]
fn execute_accounts_for_each_outcome() {
    let r = report(vec![
        entry(
            "a",
            Location::FilesystemPath("/a".to_string()),
            BloatCategory::ProjectArtifacts,
            100,
        ),
        entry(
            "b",
            Location::FilesystemPath("/b".to_string()),
            BloatCategory::ProjectArtifacts,
            50,
        ),
    ]);
    let outcomes = vec![
        Ok("deleted: /a".to_string()),
        Err("failed to delete /b: permission denied".to_string()),
    ];
    let result = run(&r, CleanMode::Execute, None, &outcomes);
    assert_eq!(result.deleted, vec!["deleted: /a".to_string()]);
    assert_eq!(result.errors, vec!["failed to delete /b: permission denied".to_string()]);
    // only the successful deletion's bytes are credited
    assert_eq!(result.bytes_freed, 100);
}
