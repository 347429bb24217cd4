//! End-to-end scenarios for the candidate-discovery operation.

use jre_discovery::assemble::get_jre_locations;
use jre_discovery::sources::{DiscoveryError, RegistryLookup};

/// The six runtime-variant suffixes in their fixed order, spelled out.
fn expected_suffixes() -> Vec<&'static str> {
    vec![
        "runtime/java-runtime-gamma/windows-x64/java-runtime-gamma/bin/javaw.exe",
        "runtime/java-runtime-beta/windows-x64/java-runtime-beta/bin/javaw.exe",
        "runtime/java-runtime-delta/windows-x64/java-runtime-delta/bin/javaw.exe",
        "runtime/java-runtime-gamma/windows-x86/java-runtime-gamma/bin/javaw.exe",
        "runtime/java-runtime-beta/windows-x86/java-runtime-beta/bin/javaw.exe",
        "runtime/java-runtime-delta/windows-x86/java-runtime-delta/bin/javaw.exe",
    ]
}

/// The candidates one root contributes: root and suffix concatenated, with a
/// `/` inserted when the root does not already end in a separator.
fn expected_block(root: &str) -> Vec<String> {
    expected_suffixes()
        .iter()
        .map(|s| {
            if root.ends_with('/') || root.ends_with('\\') {
                format!("{}{}", root, s)
            } else {
                format!("{}/{}", root, s)
            }
        })
        .collect()
}

#[test]
fn no_source_resolves_gives_empty_list() {
    let r = get_jre_locations(None, false, RegistryLookup::Missing, Ok(false));
    assert_eq!(r, Vec::<String>::new());
}

#[test]
fn cache_only_gives_six_candidates_in_suffix_order() {
    let r = get_jre_locations(
        Some(String::from("/home/u/cache")),
        true,
        RegistryLookup::Missing,
        Ok(false),
    );
    assert_eq!(r.len(), 6);
    assert_eq!(
        r[0],
        "/home/u/cache/Packages/Microsoft.4297127D64EC6_8wekyb3d8bbwe/LocalCache/Local/runtime/java-runtime-gamma/windows-x64/java-runtime-gamma/bin/javaw.exe"
    );
    assert_eq!(
        r,
        expected_block(
            "/home/u/cache/Packages/Microsoft.4297127D64EC6_8wekyb3d8bbwe/LocalCache/Local/"
        )
    );
}

#[test]
fn registry_only_gives_six_candidates_rooted_at_value() {
    let r = get_jre_locations(
        None,
        false,
        RegistryLookup::Found(String::from("/opt/launcher")),
        Ok(false),
    );
    assert_eq!(r.len(), 6);
    assert_eq!(
        r[0],
        "/opt/launcher/runtime/java-runtime-gamma/windows-x64/java-runtime-gamma/bin/javaw.exe"
    );
    assert_eq!(
        r[5],
        "/opt/launcher/runtime/java-runtime-delta/windows-x86/java-runtime-delta/bin/javaw.exe"
    );
    assert_eq!(r, expected_block("/opt/launcher"));
}

#[test]
fn registry_value_is_used_verbatim_without_existence_check() {
    // A root that certainly does not exist on this machine still yields its
    // full block of candidates.
    let r = get_jre_locations(
        None,
        false,
        RegistryLookup::Found(String::from("Z:\\NoSuchDir\\Launcher")),
        Ok(false),
    );
    assert_eq!(r, expected_block("Z:\\NoSuchDir\\Launcher"));
}

#[test]
fn all_sources_give_eighteen_candidates_grouped_by_source() {
    let r = get_jre_locations(
        Some(String::from("C:/Users/u/AppData/Local")),
        true,
        RegistryLookup::Found(String::from("C:/Launcher")),
        Ok(true),
    );
    assert_eq!(r.len(), 18);
    let mut expected = expected_block(
        "C:/Users/u/AppData/Local/Packages/Microsoft.4297127D64EC6_8wekyb3d8bbwe/LocalCache/Local/",
    );
    expected.extend(expected_block("C:/Launcher"));
    expected.extend(expected_block("C:/Program Files (x86)/Minecraft Launcher/"));
    assert_eq!(r, expected);
}

#[test]
fn unset_cache_variable_contributes_nothing_whatever_else_holds() {
    let with_cache_unset = get_jre_locations(
        None,
        true,
        RegistryLookup::Found(String::from("C:/Launcher")),
        Ok(true),
    );
    let mut expected = expected_block("C:/Launcher");
    expected.extend(expected_block("C:/Program Files (x86)/Minecraft Launcher/"));
    assert_eq!(with_cache_unset, expected);
}

#[test]
fn missing_derived_cache_directory_contributes_nothing() {
    let r = get_jre_locations(
        Some(String::from("/home/u/cache")),
        false,
        RegistryLookup::Missing,
        Ok(false),
    );
    assert_eq!(r, Vec::<String>::new());
}

#[test]
fn absent_well_known_path_contributes_nothing() {
    let r = get_jre_locations(None, false, RegistryLookup::Missing, Ok(false));
    assert_eq!(r.len(), 0);
}

#[test]
fn failed_probe_counts_as_absence_not_error() {
    let r = get_jre_locations(
        None,
        false,
        RegistryLookup::Missing,
        Err(DiscoveryError::FilesystemProbeFailure),
    );
    assert_eq!(r, Vec::<String>::new());
}

#[test]
fn well_known_path_present_gives_its_six_candidates() {
    let r = get_jre_locations(None, false, RegistryLookup::Missing, Ok(true));
    assert_eq!(r, expected_block("C:/Program Files (x86)/Minecraft Launcher/"));
    assert_eq!(
        r[0],
        "C:/Program Files (x86)/Minecraft Launcher/runtime/java-runtime-gamma/windows-x64/java-runtime-gamma/bin/javaw.exe"
    );
}

#[test]
fn identical_observations_give_identical_lists() {
    let a = get_jre_locations(
        Some(String::from("/home/u/cache")),
        true,
        RegistryLookup::Found(String::from("/opt/launcher")),
        Ok(true),
    );
    let b = get_jre_locations(
        Some(String::from("/home/u/cache")),
        true,
        RegistryLookup::Found(String::from("/opt/launcher")),
        Ok(true),
    );
    assert_eq!(a, b);
}
