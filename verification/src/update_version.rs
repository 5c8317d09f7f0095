//! Changing the version line of scores.

use vstd::prelude::*;
use crate::compile::version_of_line;
use crate::order::{check_outdated, human_order, numerals_fit};
use crate::text::{contains, contains_str, push_str, replace, replace_str, string_of, string_views};

verus! {

/// The question asked before every score is updated.
pub const UPDATE_QUESTION: &'static str = "Are you sure you want to uppdate all scores? [y/n]";

/// The mark of a version line.
pub const VERSION_MARK: &'static str = "\\version ";

/// A line of a score after an update.
pub struct UpdatedLine {
    /// The line as it is written back.
    pub line: String,
    /// Whether the version in the line was replaced.
    pub changed: bool,
}

/// Whether the version of a version line is replaced: always where a
/// version was asked for, and otherwise where the line's version comes
/// before the new one.
pub open spec fn replaces(line: Seq<char>, version_given: bool, new_version: Seq<char>) -> bool {
    version_given || human_order(version_of_line(line), new_version) < 0
}

/// Whether the update can decide about `line`: it is no version line, or a
/// version was asked for, or the numerals of the two versions to compare
/// have at most nine digits each.
pub open spec fn decidable(
    line: Seq<char>,
    mark: Seq<char>,
    version_given: bool,
    new_version: Seq<char>,
) -> bool {
    !contains(line, mark) || version_given || (numerals_fit(version_of_line(line))
        && numerals_fit(new_version))
}

/// A line of a score after an update. A line that holds `mark` has its
/// version replaced by the new one, wherever the version occurs in the
/// line, where the version is to be replaced; every other line stays.
pub open spec fn updated_line(
    line: Seq<char>,
    mark: Seq<char>,
    version_given: bool,
    new_version: Seq<char>,
) -> (Seq<char>, bool) {
    if contains(line, mark) && replaces(line, version_given, new_version) {
        (replace(line, version_of_line(line), new_version), true)
    } else {
        (line, false)
    }
}

/// Updates one line of a score; `None` where the update cannot decide
/// about the line.
pub fn update_line(line: &str, mark: &str, version_given: bool, new_version: &str) -> (r: Option<
    UpdatedLine,
>)
    ensures
        r is Some <==> decidable(line@, mark@, version_given, new_version@),
        r is Some ==> (r->Some_0.line@, r->Some_0.changed) == updated_line(
            line@,
            mark@,
            version_given,
            new_version@,
        ),
{
    if !contains_str(line, mark) {
        return Some(UpdatedLine { line: line.to_owned(), changed: false });
    }
    let bare = replace_str(line, "\\version ", "");
    let file_version = replace_str(bare.as_str(), "\"", "");
    let replace_it = if version_given {
        true
    } else {
        match check_outdated(file_version.as_str(), new_version) {
            Some(outdated) => outdated,
            None => {
                return None;
            },
        }
    };
    if replace_it {
        Some(
            UpdatedLine {
                line: replace_str(line, file_version.as_str(), new_version),
                changed: true,
            },
        )
    } else {
        Some(UpdatedLine { line: line.to_owned(), changed: false })
    }
}

/// A score after an update.
pub struct UpdatedFile {
    /// The text to write: each line followed by a line feed.
    pub text: String,
    /// How many lines had their version replaced.
    pub changes: usize,
}

/// The text of the updated lines, each followed by a line feed.
pub open spec fn updated_text(
    lines: Seq<Seq<char>>,
    mark: Seq<char>,
    version_given: bool,
    new_version: Seq<char>,
) -> Seq<char>
    decreases lines.len(),
{
    if lines.len() == 0 {
        Seq::empty()
    } else {
        updated_text(lines.drop_last(), mark, version_given, new_version) + updated_line(
            lines.last(),
            mark,
            version_given,
            new_version,
        ).0 + "\n"@
    }
}

/// How many of the lines have their version replaced.
pub open spec fn updated_count(
    lines: Seq<Seq<char>>,
    mark: Seq<char>,
    version_given: bool,
    new_version: Seq<char>,
) -> nat
    decreases lines.len(),
{
    if lines.len() == 0 {
        0
    } else {
        updated_count(lines.drop_last(), mark, version_given, new_version) + (if updated_line(
            lines.last(),
            mark,
            version_given,
            new_version,
        ).1 {
            1nat
        } else {
            0nat
        })
    }
}

/// The update can decide about every line.
pub open spec fn all_decidable(
    lines: Seq<Seq<char>>,
    mark: Seq<char>,
    version_given: bool,
    new_version: Seq<char>,
) -> bool {
    forall|i: int|
        0 <= i < lines.len() ==> decidable(#[trigger] lines[i], mark, version_given, new_version)
}

/// Updates the lines of a score that hold `mark`; `None` where the update
/// cannot decide about a line.
pub fn update_lines(lines: &Vec<String>, mark: &str, version_given: bool, new_version: &str) -> (r:
    Option<UpdatedFile>)
    ensures
        r is Some <==> all_decidable(string_views(lines@), mark@, version_given, new_version@),
        r is Some ==> r->Some_0.text@ == updated_text(
            string_views(lines@),
            mark@,
            version_given,
            new_version@,
        ) && r->Some_0.changes == updated_count(
            string_views(lines@),
            mark@,
            version_given,
            new_version@,
        ),
{
    let mut out: Vec<char> = Vec::new();
    let mut changes: usize = 0;
    let ghost all = string_views(lines@);
    let mut i: usize = 0;
    assert(all.take(0) =~= Seq::<Seq<char>>::empty());
    while i < lines.len()
        invariant
            i <= lines.len(),
            all == string_views(lines@),
            changes <= i,
            all_decidable(all.take(i as int), mark@, version_given, new_version@),
            out@ == updated_text(all.take(i as int), mark@, version_given, new_version@),
            changes == updated_count(all.take(i as int), mark@, version_given, new_version@),
        decreases lines.len() - i,
    {
        assert(all.take(i + 1).drop_last() =~= all.take(i as int));
        assert(all.take(i + 1).last() == lines@[i as int]@);
        assert(all[i as int] == lines@[i as int]@);
        match update_line(lines[i].as_str(), mark, version_given, new_version) {
            None => {
                return None;
            },
            Some(updated) => {
                push_str(&mut out, updated.line.as_str());
                push_str(&mut out, "\n");
                if updated.changed {
                    changes += 1;
                }
            },
        }
        assert(all_decidable(all.take(i + 1), mark@, version_given, new_version@)) by {
            assert forall|j: int| 0 <= j < i + 1 implies decidable(
                #[trigger] all.take(i + 1)[j],
                mark@,
                version_given,
                new_version@,
            ) by {
                if j < i {
                    assert(all.take(i as int)[j] == all.take(i + 1)[j]);
                }
            }
        }
        i += 1;
    }
    assert(all.take(lines@.len() as int) =~= all);
    Some(UpdatedFile { text: string_of(&out), changes })
}

/// Updates the version lines of a score to `new_version`: a line that
/// holds `\version ` has its version replaced where `version` was asked
/// for, or where its own version comes before the new one.
pub fn update_version(lines: &Vec<String>, version: &Option<String>, new_version: &String) -> (r:
    Option<UpdatedFile>)
    ensures
        r is Some <==> all_decidable(
            string_views(lines@),
            VERSION_MARK@,
            version is Some,
            new_version@,
        ),
        r is Some ==> r->Some_0.text@ == updated_text(
            string_views(lines@),
            VERSION_MARK@,
            version is Some,
            new_version@,
        ) && r->Some_0.changes == updated_count(
            string_views(lines@),
            VERSION_MARK@,
            version is Some,
            new_version@,
        ),
{
    update_lines(lines, VERSION_MARK, version.is_some(), new_version.as_str())
}

/// Updates the version lines of a score as `update_version` does, but
/// takes every line that holds `\version` for a version line.
pub fn bump_version_main(lines: &Vec<String>, version: &Option<String>, new_version: &String) -> (r:
    Option<UpdatedFile>)
    ensures
        r is Some <==> all_decidable(
            string_views(lines@),
            "\\version"@,
            version is Some,
            new_version@,
        ),
        r is Some ==> r->Some_0.text@ == updated_text(
            string_views(lines@),
            "\\version"@,
            version is Some,
            new_version@,
        ) && r->Some_0.changes == updated_count(
            string_views(lines@),
            "\\version"@,
            version is Some,
            new_version@,
        ),
{
    update_lines(lines, "\\version", version.is_some(), new_version.as_str())
}

/// What is printed for each line updated in `file`.
pub fn updated_message(file: &str, new_version: &str) -> (message: String)
    ensures
        message@ == "Updated "@ + file@ + " to lilypond "@ + new_version@,
{
    let mut out: Vec<char> = Vec::new();
    push_str(&mut out, "Updated ");
    push_str(&mut out, file);
    push_str(&mut out, " to lilypond ");
    push_str(&mut out, new_version);
    string_of(&out)
}

/// Where the updated text of the file named `file_name` is written before
/// it takes the place of the file.
pub fn output_file(file_name: &str) -> (path: String)
    ensures
        path@ == "/tmp/"@ + file_name@,
{
    let mut out: Vec<char> = Vec::new();
    push_str(&mut out, "/tmp/");
    push_str(&mut out, file_name);
    string_of(&out)
}

} // verus!
