use thoth::releases::{DirectAssetUrl, Link, Release};
use thoth::version::{
    filter_versions, get_dynamic_version, get_latest_version_by_stability, get_tag_names,
    get_version_stability, get_versions, is_latest_version, is_valid_version, normalize_tag,
    parse_version, VersionError, VersionStability,
};

fn release(tag: &str, urls: &[&str]) -> Release {
    Release {
        tag_name: tag.to_string(),
        assets: Link {
            links: urls
                .iter()
                .map(|url| DirectAssetUrl { direct_asset_url: url.to_string() })
                .collect(),
        },
    }
}

fn two_releases() -> Vec<Release> {
    vec![
        release("v2.25.1", &["http://example/2.25.1-darwin.tar.gz"]),
        release("v2.24.0", &["http://example/2.24.0-darwin.tar.gz"]),
    ]
}

#[test]
fn symbolic_names_hold_no_numeral() {
    assert!(is_latest_version("latest-stable"));
    assert!(is_latest_version("latest-unstable"));
    assert!(is_latest_version("global"));
    assert!(is_latest_version(""));
    assert!(!is_latest_version("2.24.2"));
    assert!(!is_latest_version("v2"));
}

#[test]
fn a_numeral_outside_ascii_is_a_numeral() {
    assert!(!is_latest_version("\u{0663}"));
    assert_eq!(get_version_stability("\u{0663}"), Err(VersionError::UnparsableMinor));
}

#[test]
fn even_minor_is_stable() {
    assert_eq!(get_version_stability("2.24.2"), Ok(VersionStability::Stable));
    assert_eq!(get_version_stability("2.0.0"), Ok(VersionStability::Stable));
    assert_eq!(get_version_stability("10.100"), Ok(VersionStability::Stable));
}

#[test]
fn odd_minor_is_unstable() {
    assert_eq!(get_version_stability("2.25.1"), Ok(VersionStability::Unstable));
    assert_eq!(get_version_stability("2.23.82-1"), Ok(VersionStability::Unstable));
}

#[test]
fn latest_names_have_their_stability() {
    assert_eq!(get_version_stability("latest-stable"), Ok(VersionStability::Stable));
    assert_eq!(get_version_stability("latest-unstable"), Ok(VersionStability::Unstable));
}

#[test]
fn other_names_are_invalid_specifiers() {
    assert_eq!(get_version_stability("global"), Err(VersionError::InvalidSpecifier));
    assert_eq!(get_version_stability("latest"), Err(VersionError::InvalidSpecifier));
    assert_eq!(get_version_stability(""), Err(VersionError::InvalidSpecifier));
}

#[test]
fn a_missing_or_malformed_minor_is_an_error() {
    assert_eq!(get_version_stability("2"), Err(VersionError::UnparsableMinor));
    assert_eq!(get_version_stability("2."), Err(VersionError::UnparsableMinor));
    assert_eq!(get_version_stability("2.x.1"), Err(VersionError::UnparsableMinor));
    assert_eq!(get_version_stability("2.24-1"), Err(VersionError::UnparsableMinor));
    assert_eq!(get_version_stability("2.99999999999.0"), Err(VersionError::UnparsableMinor));
}

#[test]
fn a_signed_minor_is_read_as_an_integer() {
    assert_eq!(get_version_stability("2.+4.0"), Ok(VersionStability::Stable));
    assert_eq!(get_version_stability("2.-3.0"), Ok(VersionStability::Unstable));
    assert_eq!(get_version_stability("2.-2147483648.0"), Ok(VersionStability::Stable));
    assert_eq!(get_version_stability("2.2147483647.0"), Ok(VersionStability::Unstable));
    assert_eq!(get_version_stability("2.2147483648.0"), Err(VersionError::UnparsableMinor));
}

#[test]
fn error_messages() {
    assert_eq!(VersionError::InvalidSpecifier.message(), "invalid version specifier");
    assert_eq!(
        VersionError::UnparsableMinor.message(),
        "Failed to parse lilypond minor version."
    );
    assert_eq!(VersionError::NoMatchingRelease.message(), "Failed to get latest version.");
    assert_eq!(VersionStability::Stable.to_string(), "stable");
    assert_eq!(VersionStability::Unstable.to_string(), "unstable");
}

#[test]
fn tags_are_normalized() {
    assert_eq!(normalize_tag("v2.24.0"), "2.24.0");
    assert_eq!(normalize_tag("release/2.23.82-1"), "2.23.82-1");
    assert_eq!(normalize_tag("\"v2.25.1\""), "2.25.1");
    assert_eq!(normalize_tag("2.24.0"), "2.24.0");
    assert_eq!(normalize_tag(""), "");
    assert_eq!(normalize_tag("v"), "");
}

#[test]
fn only_a_leading_v_is_stripped() {
    assert_eq!(normalize_tag("v2.25.0-dev"), "2.25.0-dev");
    assert_eq!(normalize_tag("vv1.2.3"), "v1.2.3");
    assert_eq!(normalize_tag("vrelease/1.2.3"), "1.2.3");
    assert_eq!(normalize_tag("release/v1.2.3"), "v1.2.3");
}

#[test]
fn releases_without_files_are_not_offered() {
    let releases = vec![
        release("v2.25.1", &[]),
        release("release/2.24.0", &["a", "b"]),
        release("v2.22.0", &["c"]),
    ];
    assert_eq!(get_tag_names(&releases), vec!["release/2.24.0", "v2.22.0"]);
    assert_eq!(get_versions(&releases), vec!["2.24.0", "2.22.0"]);
    assert!(get_versions(&Vec::new()).is_empty());
}

#[test]
fn valid_versions_are_the_latest_names_and_the_catalog() {
    let releases = two_releases();
    assert!(is_valid_version(&"latest-stable".to_string(), &releases));
    assert!(is_valid_version(&"latest-unstable".to_string(), &releases));
    assert!(is_valid_version(&"2.24.0".to_string(), &releases));
    assert!(is_valid_version(&"2.25.1".to_string(), &releases));
    assert!(!is_valid_version(&"v2.24.0".to_string(), &releases));
    assert!(!is_valid_version(&"global".to_string(), &releases));
    assert!(!is_valid_version(&"9.99.9".to_string(), &releases));
    assert!(is_valid_version(&"latest-stable".to_string(), &Vec::new()));
}

#[test]
fn versions_are_filtered_by_stability_in_order() {
    let versions: Vec<String> =
        ["2.25.1", "2.24.4", "2.23.0", "2.24.0"].iter().map(|v| v.to_string()).collect();
    let stable = filter_versions(&versions, &VersionStability::Stable).unwrap();
    assert_eq!(stable, vec!["2.24.4", "2.24.0"]);
    let unstable = filter_versions(&versions, &VersionStability::Unstable).unwrap();
    assert_eq!(unstable, vec!["2.25.1", "2.23.0"]);
}

#[test]
fn a_version_that_cannot_be_classified_fails_the_filter() {
    let versions: Vec<String> =
        ["2.24.4", "nightly", "2"].iter().map(|v| v.to_string()).collect();
    assert_eq!(
        filter_versions(&versions, &VersionStability::Stable),
        Err(VersionError::InvalidSpecifier)
    );
    let versions: Vec<String> = ["2", "nightly"].iter().map(|v| v.to_string()).collect();
    assert_eq!(
        filter_versions(&versions, &VersionStability::Unstable),
        Err(VersionError::UnparsableMinor)
    );
}

#[test]
fn the_latest_names_resolve_to_the_first_release_of_their_stability() {
    let releases = vec![
        release("v2.24.0", &["http://example/2.24.0-darwin.tar.gz"]),
        release("v2.25.1", &["http://example/2.25.1-darwin.tar.gz"]),
    ];
    assert_eq!(
        get_dynamic_version("latest-stable", &releases, "latest-stable"),
        Ok(Some("2.24.0".to_string()))
    );
    assert_eq!(
        get_dynamic_version("latest-unstable", &releases, "latest-stable"),
        Ok(Some("2.25.1".to_string()))
    );
}

#[test]
fn the_first_release_of_a_stability_wins() {
    let releases = vec![
        release("v2.25.3", &["x"]),
        release("v2.24.4", &["x"]),
        release("v2.25.1", &["x"]),
        release("v2.24.0", &["x"]),
    ];
    assert_eq!(
        get_latest_version_by_stability(&VersionStability::Stable, &releases),
        Ok("2.24.4".to_string())
    );
    assert_eq!(
        get_latest_version_by_stability(&VersionStability::Unstable, &releases),
        Ok("2.25.3".to_string())
    );
}

#[test]
fn a_catalog_without_the_stability_has_no_latest() {
    let releases = vec![release("v2.24.0", &["x"])];
    assert_eq!(
        get_latest_version_by_stability(&VersionStability::Unstable, &releases),
        Err(VersionError::NoMatchingRelease)
    );
    assert_eq!(
        get_dynamic_version("latest-stable", &Vec::new(), "2.24.0"),
        Err(VersionError::NoMatchingRelease)
    );
    let releases = vec![release("v2.24.0", &["x"]), release("nightly", &["x"])];
    assert_eq!(
        parse_version("latest-stable", &releases, "2.24.0"),
        Err(VersionError::InvalidSpecifier)
    );
}

#[test]
fn global_resolves_to_the_stored_version() {
    let releases = two_releases();
    assert_eq!(
        get_dynamic_version("global", &releases, "2.22.1"),
        Ok(Some("2.22.1".to_string()))
    );
    assert_eq!(parse_version("global", &releases, "latest-stable"), Ok("latest-stable".to_string()));
}

#[test]
fn other_tokens_pass_through() {
    let releases = two_releases();
    assert_eq!(get_dynamic_version("2.24.0", &releases, "x"), Ok(None));
    assert_eq!(get_dynamic_version("9.99.9", &Vec::new(), "x"), Ok(None));
    assert_eq!(parse_version("2.24.0", &releases, "x"), Ok("2.24.0".to_string()));
    assert_eq!(parse_version("anything", &Vec::new(), "x"), Ok("anything".to_string()));
}

#[test]
fn a_normalized_tag_resolves_to_itself() {
    let releases = vec![
        release("v2.24.0", &["x"]),
        release("release/2.23.82-1", &["x"]),
    ];
    for tag in ["v2.24.0", "release/2.23.82-1"] {
        let version = normalize_tag(tag);
        assert!(is_valid_version(&version, &releases));
        assert_eq!(parse_version(&version, &releases, "latest-stable"), Ok(version.clone()));
    }
}
