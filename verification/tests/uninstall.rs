use thoth::global::{global, describe_version, DEFAULT_GLOBAL_VERSION, NO_GLOBAL_VERSION};
use thoth::listing::ListError;
use thoth::releases::{DirectAssetUrl, Link, Release};
use thoth::installed::{installed_version, installed_versions, list, reversed};
use thoth::uninstall::{not_installed_message, uninstall, UninstallAction};
use thoth::version::{VersionError, VersionStability};

fn release(tag: &str) -> Release {
    Release {
        tag_name: tag.to_string(),
        assets: Link { links: vec![DirectAssetUrl { direct_asset_url: "u".to_string() }] },
    }
}

fn entries(names: &[&str]) -> Vec<String> {
    names.iter().map(|name| format!("/root/thoth/{name}")).collect()
}

fn strings(items: &[&str]) -> Vec<String> {
    items.iter().map(|item| item.to_string()).collect()
}

#[test]
fn the_version_of_a_directory() {
    assert_eq!(installed_version("/root/thoth/lilypond-2.24.0", "/root/thoth"), "2.24.0");
    assert_eq!(installed_version("/root/thoth/other", "/root/thoth"), "/root/thoth/other");
    assert_eq!(installed_version("/root/thoth/lilypond-", "/root/thoth"), "");
    assert_eq!(
        installed_versions(&entries(&["lilypond-2.24.0", "lilypond-2.25.1"]), "/root/thoth"),
        vec!["2.24.0", "2.25.1"]
    );
}

#[test]
fn a_version_that_is_not_installed_is_reported() {
    let installed = entries(&["lilypond-2.24.0", "lilypond-2.25.1"]);
    match uninstall(&"9.99.9".to_string(), "/root/thoth", &installed) {
        UninstallAction::Report { message } => {
            assert_eq!(message, "Version \"9.99.9\" not installed.")
        }
        other => panic!("{other:?}"),
    }
    match uninstall(&"9.99.9".to_string(), "/root/thoth", &Vec::new()) {
        UninstallAction::Report { message } => {
            assert_eq!(message, "Version \"9.99.9\" not installed.")
        }
        other => panic!("{other:?}"),
    }
    assert_eq!(not_installed_message("x"), "Version \"x\" not installed.");
}

#[test]
fn the_directory_of_an_installed_version_is_removed() {
    let installed = entries(&["lilypond-2.24.0", "lilypond-2.25.1"]);
    match uninstall(&"2.25.1".to_string(), "/root/thoth", &installed) {
        UninstallAction::Remove { path } => assert_eq!(path, "/root/thoth/lilypond-2.25.1"),
        other => panic!("{other:?}"),
    }
}

#[test]
fn uninstall_takes_the_version_literally() {
    let installed = entries(&["lilypond-2.24.0"]);
    for version in ["latest-stable", "global", "2.24", "2.24.0 ", "lilypond-2.24.0"] {
        assert!(matches!(
            uninstall(&version.to_string(), "/root/thoth", &installed),
            UninstallAction::Report { .. }
        ));
    }
}

#[test]
fn a_list_is_turned_round() {
    assert_eq!(reversed(strings(&["a", "b", "c"])), vec!["c", "b", "a"]);
    assert!(reversed(Vec::new()).is_empty());
}

#[test]
fn installed_versions_are_listed_newest_first() {
    let installed = entries(&["lilypond-2.24.0", "lilypond-2.25.10", "lilypond-2.25.9", "lilypond-2.22.2"]);
    let table = list(&installed, "/root/thoth", &None, &None).unwrap().unwrap();
    assert_eq!(table.titles.len(), 2);
    assert_eq!(table.rows, vec![strings(&["2.24.0", "2.25.10"]), strings(&["2.22.2", "2.25.9"])]);
    let table =
        list(&installed, "/root/thoth", &None, &Some(VersionStability::Unstable)).unwrap().unwrap();
    assert_eq!(table.rows, vec![strings(&["2.25.10"]), strings(&["2.25.9"])]);
    let table =
        list(&installed, "/root/thoth", &Some("2\\.2[24]".to_string()), &None).unwrap().unwrap();
    assert_eq!(table.rows, vec![strings(&["2.24.0"]), strings(&["2.22.2"])]);
}

#[test]
fn a_directory_that_holds_no_version_fails_the_list() {
    let installed = entries(&["lilypond-2.24.0", "downloads"]);
    assert_eq!(
        list(&installed, "/root/thoth", &None, &None).unwrap().err(),
        Some(ListError::Version { error: VersionError::InvalidSpecifier })
    );
    let installed = entries(&["lilypond-2.24.0"]);
    assert_eq!(
        list(&installed, "/root/thoth", &Some("(".to_string()), &None).unwrap().err(),
        Some(ListError::InvalidPattern)
    );
}

#[test]
fn a_numeral_of_ten_digits_cannot_be_ordered() {
    let installed = entries(&["lilypond-2.24.0", "lilypond-2.1234567890.0"]);
    assert!(list(&installed, "/root/thoth", &None, &None).is_none());
}

#[test]
fn the_line_of_a_version() {
    assert_eq!(describe_version(&"2.24.0".to_string()), "2.24.0 (stable)");
    assert_eq!(describe_version(&"2.25.1".to_string()), "2.25.1 (unstable)");
    assert_eq!(describe_version(&"latest-stable".to_string()), "latest (stable)");
    assert_eq!(describe_version(&"latest-unstable".to_string()), "latest (unstable)");
    assert_eq!(describe_version(&"global".to_string()), "invalid version specifier");
    assert_eq!(describe_version(&"2".to_string()), "Failed to parse lilypond minor version.");
}

#[test]
fn without_a_store_no_global_version_is_set() {
    let releases = vec![release("v2.24.0")];
    let plan = global(&None, &None, &releases);
    assert!(plan.create_store);
    assert_eq!(plan.select, None);
    assert_eq!(plan.message, "No global lilypond version set.");
    assert_eq!(plan.message, NO_GLOBAL_VERSION);
    assert_eq!(DEFAULT_GLOBAL_VERSION, "latest-stable");
}

#[test]
fn the_stored_version_is_shown() {
    let releases = vec![release("v2.24.0")];
    let plan = global(&None, &Some("2.24.0".to_string()), &releases);
    assert!(!plan.create_store);
    assert_eq!(plan.select, None);
    assert_eq!(plan.message, "2.24.0 (stable)");
    let plan = global(&None, &Some("latest-stable".to_string()), &releases);
    assert_eq!(plan.message, "latest (stable)");
    let plan = global(&None, &Some("2.24.0\n".to_string()), &releases);
    assert_eq!(plan.message, "No global lilypond version set.");
    let plan = global(&None, &Some("9.99.9".to_string()), &releases);
    assert_eq!(plan.message, "No global lilypond version set.");
}

#[test]
fn a_valid_version_is_selected_and_installed() {
    let releases = vec![release("v2.24.0")];
    let plan = global(&Some("2.24.0".to_string()), &Some("latest-stable".to_string()), &releases);
    assert_eq!(plan.select, Some("2.24.0".to_string()));
    assert_eq!(plan.message, "2.24.0 (stable)");
    assert!(!plan.create_store);
    let plan = global(&Some("latest-unstable".to_string()), &None, &releases);
    assert_eq!(plan.select, Some("latest-unstable".to_string()));
    assert_eq!(plan.message, "latest (unstable)");
    assert!(plan.create_store);
}

#[test]
fn an_invalid_version_is_not_selected() {
    let releases = vec![release("v2.24.0")];
    let plan = global(&Some("2.25.1".to_string()), &Some("2.24.0".to_string()), &releases);
    assert_eq!(plan.select, None);
    assert_eq!(plan.message, "2.25.1 (unstable)");
    let plan = global(&Some("global".to_string()), &Some("2.24.0".to_string()), &releases);
    assert_eq!(plan.select, None);
    assert_eq!(plan.message, "invalid version specifier");
}
