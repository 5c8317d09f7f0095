//! The helper files that scores include, and lines of text.

use vstd::prelude::*;
use crate::case::{kebab_case, to_kebab};
use crate::table::{print_table, record_views, table_text};
use crate::text::{chars_of, ends_with, has_at, push_str, string_of, string_views};

verus! {

/// The helper files.
#[derive(Clone, Copy, Debug, PartialEq, Eq, Structural)]
pub enum Helper {
    AddArticulations,
    AddFingerings,
    AddStringNumbers,
    BarNumbersCenter,
    BarNumbersLeft,
    CalculateGlissandoSlope,
    FakeClefBass,
    FakeClefTreble,
    HalfBracket,
    MoveArticulationsBelow,
    RemoveFingerings,
    SetBarsPerLine,
    Settings,
    WideTupletBrackets,
}

impl Helper {
    /// The name of the helper as it is written in the source.
    pub open spec fn name(self) -> Seq<char> {
        match self {
            Helper::AddArticulations => "AddArticulations"@,
            Helper::AddFingerings => "AddFingerings"@,
            Helper::AddStringNumbers => "AddStringNumbers"@,
            Helper::BarNumbersCenter => "BarNumbersCenter"@,
            Helper::BarNumbersLeft => "BarNumbersLeft"@,
            Helper::CalculateGlissandoSlope => "CalculateGlissandoSlope"@,
            Helper::FakeClefBass => "FakeClefBass"@,
            Helper::FakeClefTreble => "FakeClefTreble"@,
            Helper::HalfBracket => "HalfBracket"@,
            Helper::MoveArticulationsBelow => "MoveArticulationsBelow"@,
            Helper::RemoveFingerings => "RemoveFingerings"@,
            Helper::SetBarsPerLine => "SetBarsPerLine"@,
            Helper::Settings => "Settings"@,
            Helper::WideTupletBrackets => "WideTupletBrackets"@,
        }
    }

    /// The helper as it is typed and printed: its name in kebab case.
    pub fn to_string(&self) -> (s: String)
        ensures
            s@ == kebab_case(self.name()),
    {
        match self {
            Helper::AddArticulations => to_kebab("AddArticulations"),
            Helper::AddFingerings => to_kebab("AddFingerings"),
            Helper::AddStringNumbers => to_kebab("AddStringNumbers"),
            Helper::BarNumbersCenter => to_kebab("BarNumbersCenter"),
            Helper::BarNumbersLeft => to_kebab("BarNumbersLeft"),
            Helper::CalculateGlissandoSlope => to_kebab("CalculateGlissandoSlope"),
            Helper::FakeClefBass => to_kebab("FakeClefBass"),
            Helper::FakeClefTreble => to_kebab("FakeClefTreble"),
            Helper::HalfBracket => to_kebab("HalfBracket"),
            Helper::MoveArticulationsBelow => to_kebab("MoveArticulationsBelow"),
            Helper::RemoveFingerings => to_kebab("RemoveFingerings"),
            Helper::SetBarsPerLine => to_kebab("SetBarsPerLine"),
            Helper::Settings => to_kebab("Settings"),
            Helper::WideTupletBrackets => to_kebab("WideTupletBrackets"),
        }
    }

    /// The name of the file that holds the helper.
    pub fn file_name(&self) -> (name: String)
        ensures
            name@ == kebab_case(self.name()) + ".ily"@,
    {
        let mut out: Vec<char> = Vec::new();
        push_str(&mut out, self.to_string().as_str());
        push_str(&mut out, ".ily");
        string_of(&out)
    }
}

/// Whether the file at `file_path` is the one that holds `helper`: its path
/// ends with the helper's file name.
pub fn display_helper_file(helper: &Helper, file_path: &str) -> (shown: bool)
    ensures
        shown == ends_with(file_path@, kebab_case(helper.name()) + ".ily"@),
{
    let path = chars_of(file_path);
    let name = chars_of(helper.file_name().as_str());
    if name.len() > path.len() {
        false
    } else {
        has_at(&path, &name, path.len() - name.len())
    }
}

/// Appends `text` and a line feed to `lines`.
pub fn pushln(lines: &mut String, text: String)
    ensures
        final(lines)@ == old(lines)@ + text@ + seq!['\n'],
{
    let mut out: Vec<char> = Vec::new();
    push_str(&mut out, lines.as_str());
    push_str(&mut out, text.as_str());
    out.push('\n');
    assert(out@ =~= old(lines)@ + text@ + seq!['\n']);
    *lines = string_of(&out);
}

/// The rows of the table of helper files: the name of each, and what it
/// is for.
pub open spec fn helper_table() -> Seq<Seq<Seq<char>>> {
    seq![
        seq!["add-articulations"@, "Add articulations"@],
        seq!["add-fingerings"@, "Add fingerings"@],
        seq!["add-string-numbers"@, "Add string numbers"@],
        seq!["bar-numbers-center"@, "Center bar numbers"@],
        seq!["bar-numbers-left"@, "Left algin bar numbers (will appear above the clef)"@],
        seq!["calculate-glissando-slope"@, "Custom glissando"@],
        seq!["fake-clef-bass"@, "Display bass clef that doesn't affect the input notes"@],
        seq!["fake-clef-treble"@, "Display treble clef that doesn't affect the input notes"@],
        seq!["half-bracket"@, "Half bracket (e.g. for hand divisions in piano music)"@],
        seq!["move-articulations-below"@, "Move articulations below notes"@],
        seq!["remove-fingerings"@, "Remove fingering engraver"@],
        seq!["set-bars-per-line"@, "Specify the number of bars for the score, or for each line"@],
        seq!["settings"@, "Default global settings"@],
        seq!["wide-tuplet-brackets"@, "Use wider-than-default tuplet brackets"@],
    ]
}

/// The rows of the table of helper files.
pub fn helper_rows() -> (rows: Vec<Vec<String>>)
    ensures
        record_views(rows@) == helper_table(),
{
    let mut rows: Vec<Vec<String>> = Vec::new();
    rows.push(row("add-articulations", "Add articulations"));
    rows.push(row("add-fingerings", "Add fingerings"));
    rows.push(row("add-string-numbers", "Add string numbers"));
    rows.push(row("bar-numbers-center", "Center bar numbers"));
    rows.push(row("bar-numbers-left", "Left algin bar numbers (will appear above the clef)"));
    rows.push(row("calculate-glissando-slope", "Custom glissando"));
    rows.push(row("fake-clef-bass", "Display bass clef that doesn't affect the input notes"));
    rows.push(row("fake-clef-treble", "Display treble clef that doesn't affect the input notes"));
    rows.push(row("half-bracket", "Half bracket (e.g. for hand divisions in piano music)"));
    rows.push(row("move-articulations-below", "Move articulations below notes"));
    rows.push(row("remove-fingerings", "Remove fingering engraver"));
    rows.push(
        row(
            "set-bars-per-line",
            "Specify the number of bars for the score, or for each line",
        ),
    );
    rows.push(row("settings", "Default global settings"));
    rows.push(row("wide-tuplet-brackets", "Use wider-than-default tuplet brackets"));
    assert(record_views(rows@) =~~= helper_table()) by {
        assert forall|i: int| 0 <= i < 14 implies record_views(rows@)[i] == helper_table()[i] by {
            assert(record_views(rows@)[i] =~= string_views(rows@[i]@));
        }
    }
    rows
}

/// A row of two cells.
pub fn row(first: &str, second: &str) -> (cells: Vec<String>)
    ensures
        cells@.len() == 2,
        cells@[0]@ == first@,
        cells@[1]@ == second@,
{
    let mut cells: Vec<String> = Vec::new();
    cells.push(first.to_owned());
    cells.push(second.to_owned());
    cells
}

/// The table of the helper files, as it is printed.
pub fn helpers_main() -> (text: String)
    ensures
        text@ == table_text(seq!["NAME"@, "DESCRIPTION"@], helper_table()),
{
    let mut titles: Vec<String> = Vec::new();
    titles.push("NAME".to_owned());
    titles.push("DESCRIPTION".to_owned());
    assert(string_views(titles@) =~= seq!["NAME"@, "DESCRIPTION"@]);
    print_table(titles, helper_rows())
}

} // verus!
