//! The globally selected version: what is shown of it, and what setting it
//! has to do.

use vstd::prelude::*;
use crate::releases::{catalog, Release};
use crate::text::{push_str, string_of};
use crate::version::{
    get_version_stability, is_alias, is_latest_version, is_valid_version, stability_of,
    valid_version, versions_of, VersionError, VersionStability,
};

verus! {

/// What the store of the global version holds when it is first created.
pub const DEFAULT_GLOBAL_VERSION: &'static str = "latest-stable";

/// What is printed where no valid global version is stored.
pub const NO_GLOBAL_VERSION: &'static str = "No global lilypond version set.";

/// The line that shows a version: the version, or `latest` for a symbolic
/// name, and its stability in parentheses; for a token that cannot be
/// classified, the message of the error.
pub open spec fn version_line(version: Seq<char>) -> Seq<char> {
    match stability_of(version) {
        Ok(stability) => (if is_alias(version) {
            "latest"@
        } else {
            version
        }) + " ("@ + (match stability {
            VersionStability::Stable => "stable"@,
            VersionStability::Unstable => "unstable"@,
        }) + ")"@,
        Err(e) => match e {
            VersionError::InvalidSpecifier => "invalid version specifier"@,
            VersionError::UnparsableMinor => "Failed to parse lilypond minor version."@,
            VersionError::NoMatchingRelease => "Failed to get latest version."@,
        },
    }
}

/// The line that shows `version`.
pub fn describe_version(version: &String) -> (line: String)
    ensures
        line@ == version_line(version@),
{
    match get_version_stability(version.as_str()) {
        Ok(stability) => {
            let mut out: Vec<char> = Vec::new();
            if is_latest_version(version.as_str()) {
                push_str(&mut out, "latest");
            } else {
                push_str(&mut out, version.as_str());
            }
            push_str(&mut out, " (");
            push_str(&mut out, stability.to_string().as_str());
            push_str(&mut out, ")");
            assert(out@ =~= version_line(version@));
            string_of(&out)
        },
        Err(e) => e.message(),
    }
}

/// What showing or setting the global version has to do.
#[derive(Debug)]
pub struct GlobalPlan {
    /// The store does not exist yet and is to be created with the default.
    pub create_store: bool,
    /// The version to write to the store and then to install, if any.
    pub select: Option<String>,
    /// The line to print at the end.
    pub message: String,
}

/// Decides what `global` does. A store that does not exist is created.
/// A version given is selected, and then installed, only where it is valid;
/// its line is printed in either case. Without a version given, the line of
/// the stored version is printed where the store exists and holds a valid
/// version, and otherwise that no global version is set.
pub fn global(version: &Option<String>, stored: &Option<String>, releases: &Vec<Release>) -> (plan:
    GlobalPlan)
    ensures
        plan.create_store == (*stored is None),
        match *version {
            Some(value) => plan.message@ == version_line(value@) && (if valid_version(
                value@,
                versions_of(catalog(releases@)),
            ) {
                plan.select is Some && plan.select->Some_0@ == value@
            } else {
                plan.select is None
            }),
            None => plan.select is None && plan.message@ == (match *stored {
                Some(current) => if valid_version(current@, versions_of(catalog(releases@))) {
                    version_line(current@)
                } else {
                    NO_GLOBAL_VERSION@
                },
                None => NO_GLOBAL_VERSION@,
            }),
        },
{
    let create_store = stored.is_none();
    match version {
        Some(value) => {
            let select = if is_valid_version(value, releases) {
                Some(value.clone())
            } else {
                None
            };
            GlobalPlan { create_store, select, message: describe_version(value) }
        },
        None => {
            let message = match stored {
                Some(current) => {
                    if is_valid_version(current, releases) {
                        describe_version(current)
                    } else {
                        NO_GLOBAL_VERSION.to_owned()
                    }
                },
                None => NO_GLOBAL_VERSION.to_owned(),
            };
            GlobalPlan { create_store, select: None, message }
        },
    }
}

} // verus!
