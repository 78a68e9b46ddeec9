//! The cache-location table and the assembly of measurements into findings.

use heft::caches::{CacheDetector, CacheLocation, CacheMeasurement, get_cache_locations};
use heft::detector::BloatCategory;
use heft::platform::Platform;

fn locations(platform: Platform) -> Vec<CacheLocation> {
    get_cache_locations("/home/testuser", platform, None)
}

fn find<'a>(locs: &'a [CacheLocation], name: &str) -> Option<&'a CacheLocation> {
    locs.iter().find(|l| l.name == name)
}

// ── android paths ────────────────────────────────────────────────────────

#[test]
fn android_avd_path_present_on_linux() {
    let locs = locations(Platform::Linux);
    let avd = find(&locs, "android AVD images").unwrap();
    assert_eq!(avd.path, "/home/testuser/.android/avd");
    assert_eq!(avd.category, BloatCategory::IdeData);
}

#[test]
fn android_sdk_cache_path_present() {
    let locs = locations(Platform::Linux);
    let cache = find(&locs, "android SDK cache").unwrap();
    assert_eq!(cache.path, "/home/testuser/.android/cache");
}

#[test]
fn android_sdk_path_linux() {
    let locs = locations(Platform::Linux);
    let sdk = find(&locs, "android SDK").unwrap();
    assert_eq!(sdk.path, "/home/testuser/Android/Sdk");
}

#[test]
fn android_sdk_path_macos() {
    let locs = get_cache_locations("/Users/testuser", Platform::MacOS, None);
    let sdk = find(&locs, "android SDK").unwrap();
    assert_eq!(sdk.path, "/Users/testuser/Library/Android/sdk");
}

#[test]
fn android_sdk_path_windows() {
    let locs = get_cache_locations("C:\\Users\\testuser", Platform::Windows, None);
    let sdk = find(&locs, "android SDK").unwrap();
    assert_eq!(sdk.path, "C:\\Users\\testuser/AppData/Local/Android/Sdk");
}

// ── platform-specific paths ───────────────────────────────────────────────

#[test]
fn macos_pip_uses_library_caches() {
    let locs = get_cache_locations("/Users/testuser", Platform::MacOS, None);
    let pip = find(&locs, "pip cache").unwrap();
    assert!(pip.path.contains("Library/Caches"));
}

#[test]
fn linux_pip_uses_dot_cache() {
    let locs = locations(Platform::Linux);
    let pip = find(&locs, "pip cache").unwrap();
    assert!(pip.path.contains(".cache/pip"));
}

#[test]
fn macos_yarn_uses_library_caches() {
    let locs = get_cache_locations("/Users/testuser", Platform::MacOS, None);
    let yarn = find(&locs, "yarn cache").unwrap();
    assert!(yarn.path.contains("Library/Caches"));
}

// ── categories ───────────────────────────────────────────────────────────

#[test]
fn all_android_entries_are_ide_data() {
    let locs = locations(Platform::Linux);
    for name in &["android AVD images", "android SDK cache", "android SDK"] {
        let loc = find(&locs, name).unwrap();
        assert_eq!(loc.category, BloatCategory::IdeData, "{name} should be IdeData");
    }
}

// ── nuget cache ───────────────────────────────────────────────────────────

#[test]
fn nuget_cache_present_on_all_platforms() {
    for platform in [Platform::Linux, Platform::MacOS, Platform::Windows] {
        let locs = get_cache_locations("/home/testuser", platform, None);
        assert!(
            find(&locs, "nuget cache").is_some(),
            "nuget cache missing on {platform:?}"
        );
    }
}

// ── the discovered package-manager cache ──────────────────────────────────

#[test]
fn discovered_brew_cache_is_listed() {
    let locs = get_cache_locations(
        "/home/testuser",
        Platform::Linux,
        Some("/home/linuxbrew/cache".to_string()),
    );
    let brew = find(&locs, "homebrew cache").unwrap();
    assert_eq!(brew.path, "/home/linuxbrew/cache");
    assert_eq!(brew.category, BloatCategory::PackageCache);
    assert!(locations(Platform::Linux).iter().all(|l| l.name != "homebrew cache"));
}

// ── assembling measurements ───────────────────────────────────────────────

#[test]
fn measured_caches_become_findings() {
    let locs = get_cache_locations("/home/u", Platform::Linux, None);
    let mut measured: Vec<CacheMeasurement> =
        locs.iter().map(|_| CacheMeasurement::Missing).collect();
    measured[0] = CacheMeasurement::Measured {
        size: 4_200,
        warnings: vec!["permission denied: /home/u/.npm/locked".to_string()],
    };
    measured[1] = CacheMeasurement::Measured { size: 0, warnings: Vec::new() };

    let result = CacheDetector.scan_measured(locs, &measured);
    // one existing non-empty cache: one finding; the empty one yields nothing
    assert_eq!(result.entries.len(), 1);
    assert_eq!(result.entries[0].name, "npm cache");
    assert_eq!(result.entries[0].size_bytes, 4_200);
    assert_eq!(result.entries[0].reclaimable_bytes, 4_200);
    assert_eq!(result.diagnostics.len(), 1);
    assert_eq!(
        result.diagnostics[0],
        "permission denied: /home/u/.npm/locked (size may be underestimated)"
    );
}

#[test]
fn not_reclaimable_locations_report_zero_reclaimable() {
    let locs = vec![CacheLocation {
        name: "WSL2 distro disk (distro)".to_string(),
        path: "/mnt/c/disk.vhdx".to_string(),
        category: BloatCategory::SystemCache,
        cleanup_hint: "compact the virtual disk".to_string(),
        not_reclaimable: true,
    }];
    let measured = vec![CacheMeasurement::Measured { size: 9_000, warnings: Vec::new() }];
    let result = CacheDetector.scan_measured(locs, &measured);
    assert_eq!(result.entries.len(), 1);
    assert_eq!(result.entries[0].size_bytes, 9_000);
    assert_eq!(result.entries[0].reclaimable_bytes, 0);
}
