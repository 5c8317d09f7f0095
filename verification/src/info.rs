//! What a score's file says of the score: its header, key, time and
//! instruments, and how they are shown.

use vstd::prelude::*;
use crate::case::{title_case, to_title};
use crate::templates::optional;
use crate::text::{
    chars_of, contains, contains_str, push_str, remove_char, replace, replace_str, sort_strings,
    sorted, starts_with, starts_with_in, string_of, string_views, without,
};

verus! {

/// What the lines of a score say of it.
#[derive(Debug)]
pub struct CompositionMetadata {
    pub lilypond_version: Option<String>,
    pub title: Option<String>,
    pub subtitle: Option<String>,
    pub composer: Option<String>,
    pub arranger: Option<String>,
    pub key: Option<String>,
    pub time: Option<String>,
    pub instruments: Vec<String>,
}

/// The metadata of a score as plain values.
pub struct MetadataView {
    pub lilypond_version: Option<Seq<char>>,
    pub title: Option<Seq<char>>,
    pub subtitle: Option<Seq<char>>,
    pub composer: Option<Seq<char>>,
    pub arranger: Option<Seq<char>>,
    pub key: Option<Seq<char>>,
    pub time: Option<Seq<char>>,
    pub instruments: Seq<Seq<char>>,
}

impl View for CompositionMetadata {
    type V = MetadataView;

    open spec fn view(&self) -> MetadataView {
        MetadataView {
            lilypond_version: optional(self.lilypond_version),
            title: optional(self.title),
            subtitle: optional(self.subtitle),
            composer: optional(self.composer),
            arranger: optional(self.arranger),
            key: optional(self.key),
            time: optional(self.time),
            instruments: string_views(self.instruments@),
        }
    }
}

/// The value of a line: the line without `mark` and without quotes.
pub open spec fn quoted_value(line: Seq<char>, mark: Seq<char>) -> Seq<char> {
    replace(replace(line, mark, ""@), "\""@, ""@)
}

/// The key that a key line names: the line without its mark and without
/// backslashes, in title case, with a sharp sign for each `s` and a flat
/// sign for each `f`.
pub open spec fn key_value(line: Seq<char>) -> Seq<char> {
    replace(
        replace(title_case(replace(replace(line, "  \\key "@, ""@), "\\"@, ""@)), "s"@, "♯"@),
        "f"@,
        "♭"@,
    )
}

/// The time that a time line names: the line without its mark and without
/// backslashes.
pub open spec fn time_value(line: Seq<char>) -> Seq<char> {
    replace(replace(line, "  \\time "@, ""@), "\\"@, ""@)
}

/// The instrument that a line names: the line without the mark of an
/// instrument name, without quotes and without spaces.
pub open spec fn instrument_value(line: Seq<char>) -> Seq<char> {
    without(without(replace(line, "instrumentName = "@, ""@), '"'), ' ')
}

/// `value`, where `line` begins with `mark`, and else `current`.
pub open spec fn taken(
    current: Option<Seq<char>>,
    line: Seq<char>,
    mark: Seq<char>,
    value: Seq<char>,
) -> Option<Seq<char>> {
    if starts_with(line, mark) {
        Some(value)
    } else {
        current
    }
}

/// The metadata after one more line has been read. A line that begins with
/// the mark of a field sets the field; a line that holds the mark of an
/// instrument name adds an instrument.
pub open spec fn after_line(m: MetadataView, line: Seq<char>) -> MetadataView {
    MetadataView {
        lilypond_version: taken(
            m.lilypond_version,
            line,
            "\\version "@,
            quoted_value(line, "\\version "@),
        ),
        title: taken(m.title, line, "  title = "@, quoted_value(line, "  title = "@)),
        subtitle: taken(m.subtitle, line, "  subtitle = "@, quoted_value(line, "  subtitle = "@)),
        composer: taken(m.composer, line, "  composer = "@, quoted_value(line, "  composer = "@)),
        arranger: taken(m.arranger, line, "  arranger = "@, quoted_value(line, "  arranger = "@)),
        key: taken(m.key, line, "  \\key "@, key_value(line)),
        time: taken(m.time, line, "  \\time "@, time_value(line)),
        instruments: if contains(line, "instrumentName = "@) {
            m.instruments.push(instrument_value(line))
        } else {
            m.instruments
        },
    }
}

/// The metadata of a score of which nothing has been read.
pub open spec fn no_metadata() -> MetadataView {
    MetadataView {
        lilypond_version: None,
        title: None,
        subtitle: None,
        composer: None,
        arranger: None,
        key: None,
        time: None,
        instruments: Seq::empty(),
    }
}

/// The metadata that the lines of a score give, read from the first on.
pub open spec fn metadata_of(lines: Seq<Seq<char>>) -> MetadataView
    decreases lines.len(),
{
    if lines.len() == 0 {
        no_metadata()
    } else {
        after_line(metadata_of(lines.drop_last()), lines.last())
    }
}

/// The value of `line` where it begins with `mark`.
fn value_after(line: &str, mark: &str) -> (value: Option<String>)
    ensures
        optional(value) == taken(None, line@, mark@, quoted_value(line@, mark@)),
{
    if starts_with_in(&chars_of(line), &chars_of(mark)) {
        let bare = replace_str(line, mark, "");
        Some(replace_str(bare.as_str(), "\"", ""))
    } else {
        None
    }
}

/// Reads one more line of a score into `metadata`.
pub fn read_line(metadata: &mut CompositionMetadata, line: &str)
    ensures
        final(metadata)@ == after_line(old(metadata)@, line@),
{
    match value_after(line, "\\version ") {
        Some(value) => {
            metadata.lilypond_version = Some(value);
        },
        None => {},
    }
    match value_after(line, "  title = ") {
        Some(value) => {
            metadata.title = Some(value);
        },
        None => {},
    }
    match value_after(line, "  subtitle = ") {
        Some(value) => {
            metadata.subtitle = Some(value);
        },
        None => {},
    }
    match value_after(line, "  composer = ") {
        Some(value) => {
            metadata.composer = Some(value);
        },
        None => {},
    }
    match value_after(line, "  arranger = ") {
        Some(value) => {
            metadata.arranger = Some(value);
        },
        None => {},
    }
    let letters = chars_of(line);
    if starts_with_in(&letters, &chars_of("  \\key ")) {
        let bare = replace_str(replace_str(line, "  \\key ", "").as_str(), "\\", "");
        let titled = to_title(bare.as_str());
        let sharp = replace_str(titled.as_str(), "s", "♯");
        metadata.key = Some(replace_str(sharp.as_str(), "f", "♭"));
    }
    if starts_with_in(&letters, &chars_of("  \\time ")) {
        metadata.time = Some(replace_str(replace_str(line, "  \\time ", "").as_str(), "\\", ""));
    }
    if contains_str(line, "instrumentName = ") {
        let bare = chars_of(replace_str(line, "instrumentName = ", "").as_str());
        let ghost before = string_views(metadata.instruments@);
        metadata.instruments.push(string_of(&remove_char(&remove_char(&bare, '"'), ' ')));
        assert(string_views(metadata.instruments@) =~= before.push(instrument_value(line@)));
    }
}

/// What the lines of a score say of it.
pub fn display_score_info(lines: &Vec<String>) -> (metadata: CompositionMetadata)
    ensures
        metadata@ == metadata_of(string_views(lines@)),
{
    let mut metadata = CompositionMetadata {
        lilypond_version: None,
        title: None,
        subtitle: None,
        composer: None,
        arranger: None,
        key: None,
        time: None,
        instruments: Vec::new(),
    };
    assert(metadata@.instruments =~= Seq::<Seq<char>>::empty());
    let ghost all = string_views(lines@);
    let mut i: usize = 0;
    assert(all.take(0) =~= Seq::<Seq<char>>::empty());
    while i < lines.len()
        invariant
            i <= lines.len(),
            all == string_views(lines@),
            metadata@ == metadata_of(all.take(i as int)),
        decreases lines.len() - i,
    {
        assert(all.take(i + 1).drop_last() =~= all.take(i as int));
        assert(all.take(i + 1).last() == lines@[i as int]@);
        read_line(&mut metadata, lines[i].as_str());
        i += 1;
    }
    assert(all.take(lines@.len() as int) =~= all);
    metadata
}

/// A line of the information: a name, its value in quotes, a line feed.
pub open spec fn info_line(name: Seq<char>, value: Seq<char>) -> Seq<char> {
    name + " = \""@ + value + "\"\n"@
}

/// The line of a field where it has a value.
pub open spec fn field_line(name: Seq<char>, value: Option<Seq<char>>) -> Seq<char> {
    match value {
        Some(v) => info_line(name, v),
        None => Seq::empty(),
    }
}

/// The lines of the instruments, each indented and in quotes.
pub open spec fn instrument_lines(instruments: Seq<Seq<char>>) -> Seq<char>
    decreases instruments.len(),
{
    if instruments.len() == 0 {
        Seq::empty()
    } else {
        instrument_lines(instruments.drop_last()) + "    \""@ + instruments.last() + "\"\n"@
    }
}

/// The information on a score with the instruments in the order given: a
/// line for each field of the header that has a value, the key and the
/// time, C major and four-four where none is named, and the list of the
/// instruments where there are any.
pub open spec fn info_text(m: MetadataView, instruments: Seq<Seq<char>>) -> Seq<char> {
    field_line("LilyPond version"@, m.lilypond_version) + field_line("Title"@, m.title)
        + field_line("Subtitle"@, m.subtitle) + field_line("Composer"@, m.composer) + field_line(
        "Arranger"@,
        m.arranger,
    ) + (match m.key {
        Some(key) => info_line("Key"@, key),
        None => "Key = C Major\n"@,
    }) + (match m.time {
        Some(time) => info_line("Time Signature"@, time),
        None => "Time = 4/4\n"@,
    }) + (if instruments.len() > 0 {
        "Instrumentation = [ \n"@ + instrument_lines(instruments) + "]\n"@
    } else {
        Seq::empty()
    })
}

/// Appends the line of a field to `out` where the field has a value.
fn push_field(out: &mut Vec<char>, name: &str, value: &Option<String>)
    ensures
        final(out)@ == old(out)@ + field_line(name@, optional(*value)),
{
    match value {
        Some(v) => {
            push_str(out, name);
            push_str(out, " = \"");
            push_str(out, v.as_str());
            push_str(out, "\"\n");
            assert(out@ =~= old(out)@ + field_line(name@, optional(*value)));
        },
        None => {
            assert(out@ =~= old(out)@ + field_line(name@, optional(*value)));
        },
    }
}

/// The information on a score as it is shown, the instruments in the order
/// of dictionaries.
pub fn print_info(composition_metadata: CompositionMetadata) -> (lines: String)
    ensures
        exists|instruments: Seq<Seq<char>>|
            instruments.to_multiset() == composition_metadata@.instruments.to_multiset() && sorted(
                instruments,
            ) && lines@ == info_text(composition_metadata@, instruments),
{
    let mut out: Vec<char> = Vec::new();
    push_field(&mut out, "LilyPond version", &composition_metadata.lilypond_version);
    push_field(&mut out, "Title", &composition_metadata.title);
    push_field(&mut out, "Subtitle", &composition_metadata.subtitle);
    push_field(&mut out, "Composer", &composition_metadata.composer);
    push_field(&mut out, "Arranger", &composition_metadata.arranger);
    match &composition_metadata.key {
        Some(key) => {
            push_field(&mut out, "Key", &composition_metadata.key);
        },
        None => {
            push_str(&mut out, "Key = C Major\n");
        },
    }
    match &composition_metadata.time {
        Some(time) => {
            push_field(&mut out, "Time Signature", &composition_metadata.time);
        },
        None => {
            push_str(&mut out, "Time = 4/4\n");
        },
    }
    let ghost m = composition_metadata@;
    let ghost head = out@;
    let instruments = sort_strings(composition_metadata.instruments);
    let ghost ordered = string_views(instruments@);
    if !instruments.is_empty() {
        push_str(&mut out, "Instrumentation = [ \n");
        let ghost opened = out@;
        let mut i: usize = 0;
        assert(ordered.take(0) =~= Seq::<Seq<char>>::empty());
        assert(out@ =~= opened + instrument_lines(ordered.take(0)));
        while i < instruments.len()
            invariant
                i <= instruments.len(),
                ordered == string_views(instruments@),
                out@ == opened + instrument_lines(ordered.take(i as int)),
            decreases instruments.len() - i,
        {
            assert(ordered.take(i + 1).drop_last() =~= ordered.take(i as int));
            assert(ordered.take(i + 1).last() == instruments@[i as int]@);
            push_str(&mut out, "    \"");
            push_str(&mut out, instruments[i].as_str());
            push_str(&mut out, "\"\n");
            assert(out@ =~= opened + instrument_lines(ordered.take(i + 1)));
            i += 1;
        }
        assert(ordered.take(instruments@.len() as int) =~= ordered);
        push_str(&mut out, "]\n");
    }
    assert(out@ =~= info_text(m, ordered));
    string_of(&out)
}

} // verus!
