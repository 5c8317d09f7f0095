//! The record of a score: what the header of its file says, and how the
//! record is shown.

use vstd::prelude::*;
use crate::helpers::row;
use crate::pattern::{find_match, pattern_compiles, pattern_first_match};
use crate::table::{print_table, record_views, table_text};
use crate::templates::optional;
use crate::text::{
    chars_of, lemma_split_nonempty, push_str, remove_char, split, split_by, string_of,
    string_views, trim, trimmed, views, without,
};

verus! {

/// The record of an included file that is not stored yet.
#[derive(Debug)]
pub struct NewIncludedFile<'a> {
    pub path: &'a str,
}

/// The stored record of an included file.
#[derive(Debug)]
pub struct IncludedFile {
    pub id: i32,
    pub path: String,
}

/// The record, not stored yet, that a score includes a file.
#[derive(Debug)]
pub struct NewFileLink {
    pub score_id: i32,
    pub included_file_id: i32,
}

/// The stored record that a score includes a file.
#[derive(Debug)]
pub struct FileLink {
    pub id: i32,
    pub score_id: i32,
    pub included_file_id: i32,
}

/// The record of a score that is not stored yet.
#[derive(Debug)]
pub struct NewScore {
    pub dedication: Option<String>,
    pub title: Option<String>,
    pub subtitle: Option<String>,
    pub subsubtitle: Option<String>,
    pub instrument: Option<String>,
    pub poet: Option<String>,
    pub composer: Option<String>,
    pub meter: Option<String>,
    pub arranger: Option<String>,
    pub tagline: Option<String>,
    pub copyright: Option<String>,
    pub piece: Option<String>,
    pub opus: Option<String>,
    pub ly_file_path: String,
}

/// The stored record of a score.
#[derive(Debug)]
pub struct Score {
    pub id: i32,
    pub dedication: Option<String>,
    pub title: Option<String>,
    pub subtitle: Option<String>,
    pub subsubtitle: Option<String>,
    pub instrument: Option<String>,
    pub poet: Option<String>,
    pub composer: Option<String>,
    pub meter: Option<String>,
    pub arranger: Option<String>,
    pub tagline: Option<String>,
    pub copyright: Option<String>,
    pub piece: Option<String>,
    pub opus: Option<String>,
    pub ly_file_path: String,
}

/// The pattern of the header line of `key`: the key, an equals sign with
/// any white space round it, and the rest of the line.
pub open spec fn header_pattern(key: Seq<char>) -> Seq<char> {
    key + "\\s*=\\s*.*"@
}

/// The value of a header line: what follows its last equals sign, without
/// the white space round it and without quotes.
pub open spec fn header_value(line: Seq<char>) -> Seq<char> {
    without(trimmed(split(line, "="@).last()), '"')
}

/// The value of the header line `line`.
pub fn value_of_header_line(line: &str) -> (value: String)
    ensures
        value@ == header_value(line@),
{
    let letters = chars_of(line);
    let sign = chars_of("=");
    let parts = split_by(&letters, &sign);
    proof {
        lemma_split_nonempty(letters@, sign@);
    }
    assert(views(parts@).len() == parts@.len());
    let last = &parts[parts.len() - 1];
    assert(views(parts@).last() == last@);
    string_of(&remove_char(&trim(last), '"'))
}

/// What the header in `contents` gives for `key`: the value of the first
/// line of the key; `None` where there is none, or where the key makes no
/// pattern.
pub open spec fn header_entry(contents: Seq<char>, key: Seq<char>) -> Option<Seq<char>> {
    if pattern_compiles(header_pattern(key)) {
        match pattern_first_match(header_pattern(key), contents) {
            Some(line) => Some(header_value(line)),
            None => None,
        }
    } else {
        None
    }
}

impl NewScore {
    /// What the header in `contents` gives for `key`.
    pub fn get_lilypond_header_value(contents: &str, key: &str) -> (value: Option<String>)
        ensures
            optional(value) == header_entry(contents@, key@),
    {
        let mut pattern: Vec<char> = Vec::new();
        push_str(&mut pattern, key);
        push_str(&mut pattern, "\\s*=\\s*.*");
        let pattern = string_of(&pattern);
        match find_match(pattern.as_str(), contents) {
            Ok(Some(line)) => Some(value_of_header_line(line.as_str())),
            Ok(None) => None,
            Err(_) => None,
        }
    }

    /// The record of the score at `path` whose file holds `contents`: what
    /// the header gives for each field.
    pub fn from_file(path: &str, contents: &str) -> (score: Self)
        ensures
            score.ly_file_path@ == path@,
            optional(score.dedication) == header_entry(contents@, "dedication"@),
            optional(score.title) == header_entry(contents@, "title"@),
            optional(score.subtitle) == header_entry(contents@, "subtitle"@),
            optional(score.subsubtitle) == header_entry(contents@, "subsubtitle"@),
            optional(score.instrument) == header_entry(contents@, "instrument"@),
            optional(score.poet) == header_entry(contents@, "poet"@),
            optional(score.composer) == header_entry(contents@, "composer"@),
            optional(score.meter) == header_entry(contents@, "meter"@),
            optional(score.arranger) == header_entry(contents@, "arranger"@),
            optional(score.tagline) == header_entry(contents@, "tagline"@),
            optional(score.copyright) == header_entry(contents@, "copyright"@),
            optional(score.piece) == header_entry(contents@, "piece"@),
            optional(score.opus) == header_entry(contents@, "opus"@),
    {
        NewScore {
            dedication: NewScore::get_lilypond_header_value(contents, "dedication"),
            title: NewScore::get_lilypond_header_value(contents, "title"),
            subtitle: NewScore::get_lilypond_header_value(contents, "subtitle"),
            subsubtitle: NewScore::get_lilypond_header_value(contents, "subsubtitle"),
            instrument: NewScore::get_lilypond_header_value(contents, "instrument"),
            poet: NewScore::get_lilypond_header_value(contents, "poet"),
            composer: NewScore::get_lilypond_header_value(contents, "composer"),
            meter: NewScore::get_lilypond_header_value(contents, "meter"),
            arranger: NewScore::get_lilypond_header_value(contents, "arranger"),
            tagline: NewScore::get_lilypond_header_value(contents, "tagline"),
            copyright: NewScore::get_lilypond_header_value(contents, "copyright"),
            piece: NewScore::get_lilypond_header_value(contents, "piece"),
            opus: NewScore::get_lilypond_header_value(contents, "opus"),
            ly_file_path: path.to_owned(),
        }
    }
}

/// What is shown of an optional value: the value, or nothing.
pub open spec fn shown(value: Option<Seq<char>>) -> Seq<char> {
    match value {
        Some(v) => v,
        None => Seq::empty(),
    }
}

impl Score {
    /// What is shown of an optional value.
    pub fn get_option_display(option: &Option<String>) -> (text: String)
        ensures
            text@ == shown(optional(*option)),
    {
        match option {
            Some(value) => value.clone(),
            None => String::new(),
        }
    }

    /// The rows of the table of the record: for each field its name and
    /// its value.
    pub open spec fn rows(&self) -> Seq<Seq<Seq<char>>> {
        seq![
            seq!["ly File Path"@, self.ly_file_path@],
            seq!["Dedication"@, shown(optional(self.dedication))],
            seq!["Title"@, shown(optional(self.title))],
            seq!["Subtitle"@, shown(optional(self.subtitle))],
            seq!["Subsubtitle"@, shown(optional(self.subsubtitle))],
            seq!["Instrument"@, shown(optional(self.instrument))],
            seq!["Poet"@, shown(optional(self.poet))],
            seq!["Composer"@, shown(optional(self.composer))],
            seq!["Meter"@, shown(optional(self.meter))],
            seq!["Arranger"@, shown(optional(self.arranger))],
            seq!["Tagline"@, shown(optional(self.tagline))],
            seq!["Copyright"@, shown(optional(self.copyright))],
            seq!["Piece"@, shown(optional(self.piece))],
            seq!["Opus"@, shown(optional(self.opus))],
        ]
    }

    /// The table of the record, as it is printed: a row for each field,
    /// without titles.
    pub fn display(&self) -> (text: String)
        ensures
            text@ == table_text(Seq::empty(), self.rows()),
    {
        let mut values: Vec<Vec<String>> = Vec::new();
        values.push(row("ly File Path", self.ly_file_path.as_str()));
        values.push(row("Dedication", Score::get_option_display(&self.dedication).as_str()));
        values.push(row("Title", Score::get_option_display(&self.title).as_str()));
        values.push(row("Subtitle", Score::get_option_display(&self.subtitle).as_str()));
        values.push(row("Subsubtitle", Score::get_option_display(&self.subsubtitle).as_str()));
        values.push(row("Instrument", Score::get_option_display(&self.instrument).as_str()));
        values.push(row("Poet", Score::get_option_display(&self.poet).as_str()));
        values.push(row("Composer", Score::get_option_display(&self.composer).as_str()));
        values.push(row("Meter", Score::get_option_display(&self.meter).as_str()));
        values.push(row("Arranger", Score::get_option_display(&self.arranger).as_str()));
        values.push(row("Tagline", Score::get_option_display(&self.tagline).as_str()));
        values.push(row("Copyright", Score::get_option_display(&self.copyright).as_str()));
        values.push(row("Piece", Score::get_option_display(&self.piece).as_str()));
        values.push(row("Opus", Score::get_option_display(&self.opus).as_str()));
        assert(record_views(values@) =~~= self.rows()) by {
            assert forall|i: int| 0 <= i < 14 implies record_views(values@)[i]
                == self.rows()[i] by {
                assert(record_views(values@)[i] =~= string_views(values@[i]@));
            }
        }
        let titles: Vec<String> = Vec::new();
        assert(string_views(titles@) =~= Seq::<Seq<char>>::empty());
        print_table(titles, values)
    }
}

} // verus!
