//! Engine-reported size strings, the usage report, and the VM disk image.

use heft::docker::{
    DockerDetector, docker_vm_candidate, docker_vm_entry, get_cleanup_hint, parse_docker_df_output,
    parse_docker_size,
};
use heft::detector::{BloatCategory, Location};
use heft::platform::Platform;

#[test]
fn test_parse_docker_size() {
    assert_eq!(parse_docker_size("0B").unwrap(), 0);
    assert_eq!(parse_docker_size("1kB").unwrap(), 1_000);
    assert_eq!(parse_docker_size("1.5MB").unwrap(), 1_500_000);

    // allow 1 byte variance on the largest value
    let gb_result = parse_docker_size("8.056GB").unwrap();
    assert!((gb_result as i64 - 8_056_000_000).abs() <= 1);

    assert_eq!(parse_docker_size("248.1MB (3%)").unwrap(), 248_100_000);
    assert_eq!(parse_docker_size("141.8MB").unwrap(), 141_800_000);
    assert_eq!(parse_docker_size("27.57MB").unwrap(), 27_570_000);
    assert_eq!(parse_docker_size("578.6kB (2%)").unwrap(), 578_600);
}

#[test]
fn binary_units_parse_exactly() {
    assert_eq!(parse_docker_size("1KiB").unwrap(), 1_024);
    assert_eq!(parse_docker_size("1.5KiB").unwrap(), 1_536);
    assert_eq!(parse_docker_size("2GiB").unwrap(), 2_147_483_648);
    assert_eq!(parse_docker_size("1TiB").unwrap(), 1_099_511_627_776);
    assert_eq!(parse_docker_size("3TB").unwrap(), 3_000_000_000_000);
}

#[test]
fn invalid_size_format_is_reported() {
    let err = parse_docker_size("abc").unwrap_err();
    assert_eq!(err, "docker: invalid size format: abc");
}

#[test]
fn invalid_number_is_reported() {
    let err = parse_docker_size("1.2.3MB").unwrap_err();
    assert_eq!(err, "docker: invalid number in size: 1.2.3MB");
    let err = parse_docker_size(".B").unwrap_err();
    assert_eq!(err, "docker: invalid number in size: .B");
}

#[test]
fn unknown_unit_is_reported() {
    let err = parse_docker_size("5XB").unwrap_err();
    assert_eq!(err, "docker: unknown size unit: XB");
}

#[test]
fn huge_sizes_saturate() {
    assert_eq!(
        parse_docker_size("999999999999999999999999999TB").unwrap(),
        u64::MAX
    );
}

#[test]
fn cleanup_hints_follow_the_usage_class() {
    assert_eq!(get_cleanup_hint("Images"), "docker image prune -a");
    assert_eq!(get_cleanup_hint("Containers"), "docker container prune");
    assert_eq!(get_cleanup_hint("Local Volumes"), "docker volume prune");
    assert_eq!(get_cleanup_hint("Build Cache"), "docker builder prune");
    assert_eq!(get_cleanup_hint("anything else"), "docker system prune");
}

#[test]
fn df_output_parses_into_entries() {
    let out = "\
{\"Type\":\"Images\",\"Size\":\"1.5MB\",\"Reclaimable\":\"1MB (66%)\"}\n\
\n\
{\"Type\":\"Build Cache\",\"Size\":\"0B\",\"Reclaimable\":\"0B\"}\n\
{\"Type\":\"Local Volumes\",\"Size\":\"2kB\",\"Reclaimable\":\"2kB (100%)\"}\n";
    let entries = parse_docker_df_output(out, false).unwrap();
    // the zero-sized class yields nothing
    assert_eq!(entries.len(), 2);
    assert_eq!(entries[0].name, "docker images");
    assert_eq!(entries[0].size_bytes, 1_500_000);
    assert_eq!(entries[0].reclaimable_bytes, 1_000_000);
    assert_eq!(entries[0].category, BloatCategory::ContainerData);
    match &entries[0].location {
        Location::Aggregate(t) => assert_eq!(t, "Images"),
        _ => panic!("expected an aggregate location"),
    }
    assert_eq!(entries[1].name, "docker volumes");
    assert_eq!(entries[1].size_bytes, 2_000);
}

#[test]
fn df_output_skips_unparseable_lines_quietly() {
    let out = "not json at all\n{\"Type\":\"Images\",\"Size\":\"1kB\",\"Reclaimable\":\"0B\"}\n";
    let entries = parse_docker_df_output(out, false).unwrap();
    assert_eq!(entries.len(), 1);
}

#[test]
fn df_output_reports_parse_failures_when_verbose() {
    let out = "not json at all\n";
    let err = parse_docker_df_output(out, true).unwrap_err();
    assert_eq!(err, "docker: failed to parse output");
}

#[test]
fn df_output_propagates_size_errors() {
    let out = "{\"Type\":\"Images\",\"Size\":\"1QB\",\"Reclaimable\":\"0B\"}\n";
    let err = parse_docker_df_output(out, false).unwrap_err();
    assert_eq!(err, "docker: unknown size unit: QB");
}

#[test]
fn vm_disk_is_a_visibility_only_finding() {
    let (path, hint) = docker_vm_candidate(Platform::MacOS, "/Users/dev").unwrap();
    assert_eq!(
        path,
        "/Users/dev/Library/Containers/com.docker.docker/Data/vms/0/data/Docker.raw"
    );
    let entry = docker_vm_entry(path.clone(), hint, 31_000_000_000).unwrap();
    assert_eq!(entry.name, "Docker Desktop VM disk");
    assert_eq!(entry.size_bytes, 31_000_000_000);
    assert_eq!(entry.reclaimable_bytes, 0);
    assert!(docker_vm_entry(path, "h".to_string(), 0).is_none());
    assert!(docker_vm_candidate(Platform::Linux, "/home/dev").is_none());
}

#[test]
fn docker_detector_identity() {
    assert_eq!(DockerDetector.name(), "docker");
}
