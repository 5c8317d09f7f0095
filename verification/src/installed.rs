//! The installed versions: which version a directory of the install
//! directory holds, and the list of them.

use vstd::prelude::*;
use crate::listing::{list_versions, listed, ListError, VersionTable};
use crate::order::{all_numerals_fit, check_sort, in_human_order};
use crate::table::record_views;
use crate::templates::optional;
use crate::text::{chars_of, push_str, replace, replace_in, string_of, string_views};
use crate::version::VersionStability;

verus! {


/// The beginning of the path of every installed version: the install
/// directory and `/lilypond-`.
pub open spec fn version_prefix(install_path: Seq<char>) -> Seq<char> {
    install_path + "/lilypond-"@
}

/// The version that the directory `entry` of the install directory holds:
/// its path without the install directory and `/lilypond-`.
pub open spec fn installed_name(entry: Seq<char>, install_path: Seq<char>) -> Seq<char> {
    replace(entry, version_prefix(install_path), Seq::empty())
}

/// The version that the directory `entry` of `install_path` holds.
pub fn installed_version(entry: &str, install_path: &str) -> (version: String)
    ensures
        version@ == installed_name(entry@, install_path@),
{
    let mut prefix: Vec<char> = Vec::new();
    push_str(&mut prefix, install_path);
    push_str(&mut prefix, "/lilypond-");
    assert(prefix@ =~= version_prefix(install_path@));
    let nothing: Vec<char> = Vec::new();
    string_of(&replace_in(&chars_of(entry), &prefix, &nothing))
}

/// The versions that the directories `entries` of `install_path` hold, in
/// the order of `entries`.
pub fn installed_versions(entries: &Vec<String>, install_path: &str) -> (versions: Vec<String>)
    ensures
        versions@.len() == entries@.len(),
        forall|i: int|
            0 <= i < entries@.len() ==> (#[trigger] versions@[i])@ == installed_name(
                entries@[i]@,
                install_path@,
            ),
{
    let mut versions: Vec<String> = Vec::new();
    let mut i: usize = 0;
    while i < entries.len()
        invariant
            i <= entries.len(),
            versions@.len() == i,
            forall|j: int|
                0 <= j < i ==> (#[trigger] versions@[j])@ == installed_name(
                    entries@[j]@,
                    install_path@,
                ),
        decreases entries.len() - i,
    {
        versions.push(installed_version(entries[i].as_str(), install_path));
        i += 1;
    }
    versions
}

/// The versions that the directories `entries` hold.
pub open spec fn installed_names(entries: Seq<String>, install_path: Seq<char>) -> Seq<Seq<char>> {
    Seq::new(entries.len(), |i: int| installed_name(entries[i]@, install_path))
}

/// `items` from the last to the first.
pub fn reversed(items: Vec<String>) -> (r: Vec<String>)
    ensures
        string_views(r@) == string_views(items@).reverse(),
{
    let mut r: Vec<String> = Vec::new();
    let mut i: usize = items.len();
    while i > 0
        invariant
            i <= items.len(),
            r@.len() == items@.len() - i,
            forall|j: int|
                0 <= j < r@.len() ==> (#[trigger] r@[j])@ == items@[items@.len() - 1 - j]@,
        decreases i,
    {
        i -= 1;
        r.push(items[i].clone());
    }
    assert(string_views(r@) =~= string_views(items@).reverse());
    r
}

/// The table that lists the installed versions, the newest first: the
/// versions that the directories `entries` hold are sorted in the order in
/// which numerals count by their value, turned round, and listed. `None`
/// where a numeral of a version has more than nine digits.
pub fn list(
    entries: &Vec<String>,
    install_path: &str,
    version_regex: &Option<String>,
    stability: &Option<VersionStability>,
) -> (r: Option<Result<VersionTable, ListError>>)
    ensures
        r is Some <==> all_numerals_fit(installed_names(entries@, install_path@)),
        r is Some ==> exists|ordered: Seq<Seq<char>>|
            ordered.to_multiset() == installed_names(entries@, install_path@).to_multiset()
                && in_human_order(ordered) && (match listed(
                ordered.reverse(),
                optional(*version_regex),
                *stability,
            ) {
                Ok((titles, rows)) => r->Some_0 is Ok && string_views(r->Some_0->Ok_0.titles@)
                    == titles && record_views(r->Some_0->Ok_0.rows@) == rows,
                Err(e) => r->Some_0 == Err::<VersionTable, ListError>(e),
            }),
{
    let versions = installed_versions(entries, install_path);
    assert(string_views(versions@) =~= installed_names(entries@, install_path@));
    match check_sort(versions) {
        None => None,
        Some(sorted) => {
            let ghost ordered = string_views(sorted@);
            let newest_first = reversed(sorted);
            Some(list_versions(newest_first, version_regex, stability))
        },
    }
}

} // verus!
