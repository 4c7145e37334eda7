use windows_sandbox::flags::Feature;
use windows_sandbox::flags::FeatureFlags;
use windows_sandbox::flags::FlagEntry;
use windows_sandbox::flags::entries_contains_key;
use windows_sandbox::flags::entries_flag_enabled;
use windows_sandbox::flags::entries_get;
use windows_sandbox::flags::experimental_key;

fn entry(key: &str, value: bool) -> FlagEntry {
    FlagEntry { key: key.to_string(), value }
}

#[test]
fn feature_keys_are_the_stable_identifiers() {
    assert_eq!(Feature::WindowsSandbox.key(), "windows_sandbox");
    assert_eq!(Feature::WindowsSandboxElevated.key(), "windows_sandbox_elevated");
    assert_eq!(experimental_key(), "enable_experimental_windows_sandbox");
}

#[test]
fn lookup_finds_present_keys_and_misses_absent_ones() {
    let entries = vec![entry("windows_sandbox", true), entry("windows_sandbox_elevated", false)];
    assert_eq!(entries_get(&entries, &"windows_sandbox".to_string()), Some(true));
    assert_eq!(entries_get(&entries, &"windows_sandbox_elevated".to_string()), Some(false));
    assert_eq!(entries_get(&entries, &"enable_experimental_windows_sandbox".to_string()), None);
}

#[test]
fn presence_and_truth_are_distinct_signals() {
    let entries = vec![entry("windows_sandbox", false)];
    let key = "windows_sandbox".to_string();
    assert!(entries_contains_key(&entries, &key));
    assert!(!entries_flag_enabled(&entries, &key));
    let absent = "windows_sandbox_elevated".to_string();
    assert!(!entries_contains_key(&entries, &absent));
    assert!(!entries_flag_enabled(&entries, &absent));
}

#[test]
fn enabled_reads_the_feature_key() {
    let features = FeatureFlags { entries: vec![entry("windows_sandbox_elevated", true)] };
    assert!(features.enabled(Feature::WindowsSandboxElevated));
    assert!(!features.enabled(Feature::WindowsSandbox));
}
