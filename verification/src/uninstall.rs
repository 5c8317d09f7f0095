//! Removing an installed version: which directory of the install
//! directory belongs to a version.

use vstd::prelude::*;
use crate::installed::{installed_name, installed_versions};
use crate::pattern::{first_flag, first_set, lemma_first_set};
use crate::text::{chars_of, equal, push_str, string_of};

verus! {

/// What an uninstall has to do.
#[derive(Debug)]
pub enum UninstallAction {
    /// Remove the directory `path` with all it holds.
    Remove { path: String },
    /// Remove nothing and print `message`.
    Report { message: String },
}

/// For each entry, whether it holds exactly `version`.
pub open spec fn holds_version(
    entries: Seq<String>,
    install_path: Seq<char>,
    version: Seq<char>,
) -> Seq<bool> {
    Seq::new(entries.len(), |i: int| installed_name(entries[i]@, install_path) == version)
}

/// What is printed where the version asked for is not installed.
pub open spec fn not_installed_text(version: Seq<char>) -> Seq<char> {
    "Version \""@ + version + "\" not installed."@
}

/// What is printed where `version` is not installed.
pub fn not_installed_message(version: &str) -> (message: String)
    ensures
        message@ == not_installed_text(version@),
{
    let mut out: Vec<char> = Vec::new();
    push_str(&mut out, "Version \"");
    push_str(&mut out, version);
    push_str(&mut out, "\" not installed.");
    assert(out@ =~= not_installed_text(version@));
    string_of(&out)
}

/// Decides the uninstall of `version`, given the directories `entries` of
/// the install directory: the first that holds exactly `version` is to be
/// removed; where none does, nothing is removed and the version is reported
/// as not installed. Symbolic names are not resolved.
pub fn uninstall(version: &String, install_path: &str, entries: &Vec<String>) -> (action:
    UninstallAction)
    ensures
        match first_set(holds_version(entries@, install_path@, version@)) {
            Some(i) => action matches UninstallAction::Remove { path } && path@ == entries@[i]@,
            None => action matches UninstallAction::Report { message } && message@
                == not_installed_text(version@),
        },
{
    let versions = installed_versions(entries, install_path);
    let wanted = chars_of(version.as_str());
    let mut flags: Vec<bool> = Vec::new();
    let mut i: usize = 0;
    while i < versions.len()
        invariant
            i <= versions.len(),
            versions@.len() == entries@.len(),
            wanted@ == version@,
            flags@.len() == i,
            forall|j: int|
                0 <= j < entries@.len() ==> (#[trigger] versions@[j])@ == installed_name(
                    entries@[j]@,
                    install_path@,
                ),
            forall|j: int| 0 <= j < i ==> flags@[j] == (versions@[j]@ == version@),
        decreases versions.len() - i,
    {
        flags.push(equal(&chars_of(versions[i].as_str()), &wanted));
        i += 1;
    }
    assert(flags@ =~= holds_version(entries@, install_path@, version@));
    proof {
        lemma_first_set(flags@);
    }
    match first_flag(&flags) {
        Some(k) => UninstallAction::Remove { path: entries[k].clone() },
        None => UninstallAction::Report { message: not_installed_message(version.as_str()) },
    }
}

} // verus!
