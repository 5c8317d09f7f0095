//! Listing versions: the filters by stability and by pattern, and the table
//! with one column for each stability.

use vstd::prelude::*;
use crate::pattern::{match_flags, matching_flags, pattern_compiles};
use crate::releases::{catalog, Release};
use crate::style::{bold, bold_text, green, green_text, italic, italic_text, yellow, yellow_text};
use crate::table::record_views;
use crate::templates::optional;
use crate::text::string_views;
use crate::version::{
    borrowed_views, filter_versions, first_failure, get_versions, versions_of, with_stability,
    VersionError, VersionStability,
};

verus! {

/// Why versions could not be listed.
#[derive(Clone, Copy, Debug, PartialEq, Eq, Structural)]
pub enum ListError {
    /// A version could not be classified.
    Version { error: VersionError },
    /// The pattern to list by is no regular expression.
    InvalidPattern,
}

/// The titles and the rows of a table of versions.
#[derive(Debug)]
pub struct VersionTable {
    pub titles: Vec<String>,
    pub rows: Vec<Vec<String>>,
}

/// Those of `versions` that the flags mark, in order; none where there is
/// not a flag for each version.
pub open spec fn marked(versions: Seq<Seq<char>>, flags: Seq<bool>) -> Seq<Seq<char>>
    decreases versions.len(),
{
    if versions.len() == 0 || flags.len() != versions.len() {
        Seq::empty()
    } else if flags.last() {
        marked(versions.drop_last(), flags.drop_last()).push(versions.last())
    } else {
        marked(versions.drop_last(), flags.drop_last())
    }
}

/// The versions left of `versions` after the filter by stability, then the
/// filter by pattern.
pub open spec fn selected(
    versions: Seq<Seq<char>>,
    pattern: Option<Seq<char>>,
    stability: Option<VersionStability>,
) -> Result<Seq<Seq<char>>, ListError> {
    let by_stability = match stability {
        Some(wanted) => match first_failure(versions) {
            Some(error) => Err(ListError::Version { error }),
            None => Ok(with_stability(versions, wanted)),
        },
        None => Ok(versions),
    };
    match by_stability {
        Err(e) => Err(e),
        Ok(kept) => match pattern {
            Some(p) => if pattern_compiles(p) {
                Ok(marked(kept, match_flags(p, kept)))
            } else {
                Err(ListError::InvalidPattern)
            },
            None => Ok(kept),
        },
    }
}

/// The title above the stable versions.
pub open spec fn stable_title() -> Seq<char> {
    green_text(italic_text("Stable"@))
}

/// The title above the unstable versions.
pub open spec fn unstable_title() -> Seq<char> {
    yellow_text(italic_text("Unstable"@))
}

/// The titles of the table: one for each stability that has a version.
pub open spec fn table_titles(stable: Seq<Seq<char>>, unstable: Seq<Seq<char>>) -> Seq<Seq<char>> {
    (if stable.len() > 0 {
        seq![stable_title()]
    } else {
        Seq::empty()
    }) + (if unstable.len() > 0 {
        seq![unstable_title()]
    } else {
        Seq::empty()
    })
}

/// The cell of row `i` in a column: the version there, or nothing below the
/// last one.
pub open spec fn cell(column: Seq<Seq<char>>, i: int) -> Seq<char> {
    if 0 <= i < column.len() {
        column[i]
    } else {
        Seq::empty()
    }
}

/// The rows of the table. With versions of both stabilities, two columns as
/// long as the longer one, the stable versions on the left; with versions
/// of one stability, one column.
pub open spec fn table_rows(stable: Seq<Seq<char>>, unstable: Seq<Seq<char>>) -> Seq<
    Seq<Seq<char>>,
> {
    if stable.len() > 0 && unstable.len() > 0 {
        Seq::new(
            if stable.len() >= unstable.len() {
                stable.len()
            } else {
                unstable.len()
            },
            |i: int| seq![cell(stable, i), cell(unstable, i)],
        )
    } else if stable.len() > 0 {
        Seq::new(stable.len(), |i: int| seq![stable[i]])
    } else {
        Seq::new(unstable.len(), |i: int| seq![unstable[i]])
    }
}

/// Those of `versions` that `flags` marks, in order.
pub fn keep_marked(versions: &Vec<String>, flags: &Vec<bool>) -> (kept: Vec<String>)
    ensures
        string_views(kept@) == marked(string_views(versions@), flags@),
{
    let mut kept: Vec<String> = Vec::new();
    if flags.len() != versions.len() {
        assert(string_views(kept@) =~= marked(string_views(versions@), flags@));
        return kept;
    }
    let mut i: usize = 0;
    let ghost all = string_views(versions@);
    assert(all.take(0) =~= Seq::<Seq<char>>::empty());
    assert(string_views(kept@) =~= marked(all.take(0), flags@.take(0)));
    while i < versions.len()
        invariant
            i <= versions.len(),
            flags@.len() == versions@.len(),
            all == string_views(versions@),
            string_views(kept@) == marked(all.take(i as int), flags@.take(i as int)),
        decreases versions.len() - i,
    {
        let ghost before = string_views(kept@);
        assert(all.take(i + 1).drop_last() =~= all.take(i as int));
        assert(flags@.take(i + 1).drop_last() =~= flags@.take(i as int));
        if flags[i] {
            kept.push(versions[i].clone());
            assert(string_views(kept@) =~= before.push(versions@[i as int]@));
        }
        i += 1;
    }
    assert(all.take(versions@.len() as int) =~= all);
    assert(flags@.take(versions@.len() as int) =~= flags@);
    kept
}

/// Copies of the strings that `items` borrows.
pub fn owned(items: &Vec<&String>) -> (copies: Vec<String>)
    ensures
        string_views(copies@) == borrowed_views(items@),
{
    let mut copies: Vec<String> = Vec::new();
    let mut i: usize = 0;
    while i < items.len()
        invariant
            i <= items.len(),
            copies@.len() == i,
            forall|j: int| 0 <= j < i ==> (#[trigger] copies@[j])@ == items@[j]@,
        decreases items.len() - i,
    {
        copies.push(items[i].clone());
        i += 1;
    }
    assert(string_views(copies@) =~= borrowed_views(items@));
    copies
}

/// The versions left of `versions` after the filter by stability, then the
/// filter by pattern.
pub fn select_versions(
    versions: Vec<String>,
    version_regex: &Option<String>,
    stability: &Option<VersionStability>,
) -> (r: Result<Vec<String>, ListError>)
    ensures
        match selected(
            string_views(versions@),
            optional(*version_regex),
            *stability,
        ) {
            Ok(kept) => r is Ok && string_views(r->Ok_0@) == kept,
            Err(e) => r == Err::<Vec<String>, ListError>(e),
        },
{
    let by_stability: Vec<String> = match stability {
        Some(wanted) => match filter_versions(&versions, wanted) {
            Ok(found) => owned(&found),
            Err(error) => {
                return Err(ListError::Version { error });
            },
        },
        None => versions,
    };
    match version_regex {
        Some(pattern) => match matching_flags(pattern.as_str(), &by_stability) {
            Ok(flags) => Ok(keep_marked(&by_stability, &flags)),
            Err(_) => Err(ListError::InvalidPattern),
        },
        None => Ok(by_stability),
    }
}

/// The table of the stable and the unstable versions, each in order.
pub fn version_table(stable: &Vec<String>, unstable: &Vec<String>) -> (table: VersionTable)
    ensures
        string_views(table.titles@) == table_titles(
            string_views(stable@),
            string_views(unstable@),
        ),
        record_views(table.rows@) == table_rows(string_views(stable@), string_views(unstable@)),
{
    let mut titles: Vec<String> = Vec::new();
    if !stable.is_empty() {
        titles.push(green(italic("Stable").as_str()));
    }
    if !unstable.is_empty() {
        titles.push(yellow(italic("Unstable").as_str()));
    }
    assert(string_views(titles@) =~= table_titles(string_views(stable@), string_views(unstable@)));
    let mut rows: Vec<Vec<String>> = Vec::new();
    let both = !stable.is_empty() && !unstable.is_empty();
    let count: usize = if both {
        if stable.len() >= unstable.len() {
            stable.len()
        } else {
            unstable.len()
        }
    } else if !stable.is_empty() {
        stable.len()
    } else {
        unstable.len()
    };
    let ghost wanted = table_rows(string_views(stable@), string_views(unstable@));
    let mut i: usize = 0;
    while i < count
        invariant
            i <= count,
            wanted == table_rows(string_views(stable@), string_views(unstable@)),
            wanted.len() == count,
            both == (stable@.len() > 0 && unstable@.len() > 0),
            rows@.len() == i,
            forall|j: int|
                0 <= j < i ==> string_views((#[trigger] rows@[j])@) =~= wanted[j],
        decreases count - i,
    {
        let mut cells: Vec<String> = Vec::new();
        if both {
            if i < stable.len() {
                cells.push(stable[i].clone());
            } else {
                cells.push(String::new());
            }
            if i < unstable.len() {
                cells.push(unstable[i].clone());
            } else {
                cells.push(String::new());
            }
        } else if !stable.is_empty() {
            cells.push(stable[i].clone());
        } else {
            cells.push(unstable[i].clone());
        }
        assert(string_views(cells@) =~= wanted[i as int]);
        rows.push(cells);
        i += 1;
    }
    assert(record_views(rows@) =~~= wanted) by {
        assert forall|j: int| 0 <= j < count implies record_views(rows@)[j] == wanted[j] by {
            assert(record_views(rows@)[j] =~= string_views(rows@[j]@));
        }
    }
    VersionTable { titles, rows }
}

/// What the table of `versions` shows: the versions selected, and among
/// them the stable and the unstable ones, each in order.
pub open spec fn listed(
    versions: Seq<Seq<char>>,
    pattern: Option<Seq<char>>,
    stability: Option<VersionStability>,
) -> Result<(Seq<Seq<char>>, Seq<Seq<Seq<char>>>), ListError> {
    match selected(versions, pattern, stability) {
        Err(e) => Err(e),
        Ok(kept) => match first_failure(kept) {
            Some(error) => Err(ListError::Version { error }),
            None => {
                let stable = with_stability(kept, VersionStability::Stable);
                let unstable = with_stability(kept, VersionStability::Unstable);
                Ok((table_titles(stable, unstable), table_rows(stable, unstable)))
            },
        },
    }
}

/// The table that lists `versions`: those of the stability asked for, if
/// one is, that the pattern matches, if one is given; the stable ones in
/// the left column and the unstable ones in the right.
pub fn list_versions(
    versions: Vec<String>,
    version_regex: &Option<String>,
    stability: &Option<VersionStability>,
) -> (r: Result<VersionTable, ListError>)
    ensures
        match listed(string_views(versions@), optional(*version_regex), *stability) {
            Ok((titles, rows)) => r is Ok && string_views(r->Ok_0.titles@) == titles
                && record_views(r->Ok_0.rows@) == rows,
            Err(e) => r == Err::<VersionTable, ListError>(e),
        },
{
    let kept = match select_versions(versions, version_regex, stability) {
        Ok(kept) => kept,
        Err(e) => {
            return Err(e);
        },
    };
    let stable = match filter_versions(&kept, &VersionStability::Stable) {
        Ok(found) => owned(&found),
        Err(error) => {
            return Err(ListError::Version { error });
        },
    };
    let unstable = match filter_versions(&kept, &VersionStability::Unstable) {
        Ok(found) => owned(&found),
        Err(error) => {
            return Err(ListError::Version { error });
        },
    };
    Ok(version_table(&stable, &unstable))
}

/// The versions that the catalog offers, each in bold.
pub open spec fn bold_versions(versions: Seq<Seq<char>>) -> Seq<Seq<char>> {
    versions.map_values(|version: Seq<char>| bold_text(version))
}

/// The table that lists the versions that the catalog `releases` offers,
/// each in bold.
pub fn list_remote(
    releases: &Vec<Release>,
    version_regex: &Option<String>,
    stability: &Option<VersionStability>,
) -> (r: Result<VersionTable, ListError>)
    ensures
        match listed(
            bold_versions(versions_of(catalog(releases@))),
            optional(*version_regex),
            *stability,
        ) {
            Ok((titles, rows)) => r is Ok && string_views(r->Ok_0.titles@) == titles
                && record_views(r->Ok_0.rows@) == rows,
            Err(e) => r == Err::<VersionTable, ListError>(e),
        },
{
    let versions = get_versions(releases);
    let mut styled: Vec<String> = Vec::new();
    let mut i: usize = 0;
    while i < versions.len()
        invariant
            i <= versions.len(),
            styled@.len() == i,
            forall|j: int| 0 <= j < i ==> (#[trigger] styled@[j])@ == bold_text(versions@[j]@),
        decreases versions.len() - i,
    {
        styled.push(bold(versions[i].as_str()));
        i += 1;
    }
    assert(string_views(styled@) =~= bold_versions(string_views(versions@)));
    list_versions(styled, version_regex, stability)
}

} // verus!
