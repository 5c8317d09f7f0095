//! The lead sheet: melody, chords and words of a song.

use vstd::prelude::*;
use crate::templates::{
    get_header, header_text, optional, template_views, TemplateFile, TemplateFileView,
};
use crate::text::{push_str, string_of};

verus! {


/// The chords of the lead sheet.
pub open spec fn lead_changes_text() -> Seq<char> {
    "verse = \\chordmode {\n"@
        + "  | c1\n"@
        + "}\n"@
        + "\n"@
        + "chorus = \\chordmode {\n"@
        + "  | c1\n"@
        + "}\n"@
        + "\n"@
        + "changes = \\chords {\n"@
        + "  \\verse\n"@
        + "  \\chorus\n"@
        + "}\n"@
}

/// The chords of the lead sheet.
pub fn get_lead_changes() -> (content: String)
    ensures
        content@ == lead_changes_text(),
{
    let mut out: Vec<char> = Vec::new();
    push_str(&mut out, "verse = \\chordmode {\n");
    push_str(&mut out, "  | c1\n");
    push_str(&mut out, "}\n");
    push_str(&mut out, "\n");
    push_str(&mut out, "chorus = \\chordmode {\n");
    push_str(&mut out, "  | c1\n");
    push_str(&mut out, "}\n");
    push_str(&mut out, "\n");
    push_str(&mut out, "changes = \\chords {\n");
    push_str(&mut out, "  \\verse\n");
    push_str(&mut out, "  \\chorus\n");
    push_str(&mut out, "}\n");
    assert(out@ =~= lead_changes_text());
    string_of(&out)
}

/// The words of the lead sheet.
pub open spec fn lead_lyrics_text() -> Seq<char> {
    "verse = \\lyricmode {\n"@
        + "  Verse one\n"@
        + "}\n"@
        + "\n"@
        + "chorus = \\lyricmode {\n"@
        + "  Chorus\n"@
        + "}\n"@
        + "\n"@
        + "words = \\lyricmode {\n"@
        + "  \\verse\n"@
        + "  \\chorus\n"@
        + "}\n"@
}

/// The words of the lead sheet.
pub fn get_lead_lyrics() -> (content: String)
    ensures
        content@ == lead_lyrics_text(),
{
    let mut out: Vec<char> = Vec::new();
    push_str(&mut out, "verse = \\lyricmode {\n");
    push_str(&mut out, "  Verse one\n");
    push_str(&mut out, "}\n");
    push_str(&mut out, "\n");
    push_str(&mut out, "chorus = \\lyricmode {\n");
    push_str(&mut out, "  Chorus\n");
    push_str(&mut out, "}\n");
    push_str(&mut out, "\n");
    push_str(&mut out, "words = \\lyricmode {\n");
    push_str(&mut out, "  \\verse\n");
    push_str(&mut out, "  \\chorus\n");
    push_str(&mut out, "}\n");
    assert(out@ =~= lead_lyrics_text());
    string_of(&out)
}

/// The main file of the lead sheet, under the version line, with the header
/// of the score and the name of the instrument.
pub open spec fn lead_main_text(
    lilypond_version: Seq<char>,
    header: Seq<char>,
    instrument: Seq<char>,
) -> Seq<char> {
    lilypond_version
        + "\n"@
        + "\n"@
        + "\\include \"helpers/settings.ily\"\n"@
        + "\n"@
        + header
        + "\n"@
        + "\n"@
        + "music = \\relative c'' {\n"@
        + "    \\key c \\major\n"@
        + "    \\time 4/4\n"@
        + "    | c1\n"@
        + "}\n"@
        + "\n"@
        + "\\score {\n"@
        + "    \\new Staff \\with {\n"@
        + "        instrumentName = \""@
        + instrument
        + "\"\n"@
        + "        \\numericTimeSignature\n"@
        + "    } {\n"@
        + "        \\compressMMRests\n"@
        + "        \\music\n"@
        + "    }\n"@
        + "}\n"@
}

/// The main file of the lead sheet, under the version line, with the header
/// of the score and the name of the instrument.
pub fn get_lead_main(lilypond_version: &str, header: &str, instrument: &str) -> (content: String)
    ensures
        content@ == lead_main_text(lilypond_version@, header@, instrument@),
{
    let mut out: Vec<char> = Vec::new();
    push_str(&mut out, lilypond_version);
    push_str(&mut out, "\n");
    push_str(&mut out, "\n");
    push_str(&mut out, "\\include \"helpers/settings.ily\"\n");
    push_str(&mut out, "\n");
    push_str(&mut out, header);
    push_str(&mut out, "\n");
    push_str(&mut out, "\n");
    push_str(&mut out, "music = \\relative c'' {\n");
    push_str(&mut out, "    \\key c \\major\n");
    push_str(&mut out, "    \\time 4/4\n");
    push_str(&mut out, "    | c1\n");
    push_str(&mut out, "}\n");
    push_str(&mut out, "\n");
    push_str(&mut out, "\\score {\n");
    push_str(&mut out, "    \\new Staff \\with {\n");
    push_str(&mut out, "        instrumentName = \"");
    push_str(&mut out, instrument);
    push_str(&mut out, "\"\n");
    push_str(&mut out, "        \\numericTimeSignature\n");
    push_str(&mut out, "    } {\n");
    push_str(&mut out, "        \\compressMMRests\n");
    push_str(&mut out, "        \\music\n");
    push_str(&mut out, "    }\n");
    push_str(&mut out, "}\n");
    assert(out@ =~= lead_main_text(lilypond_version@, header@, instrument@));
    string_of(&out)
}

/// The melody of the lead sheet.
pub open spec fn lead_melody_text() -> Seq<char> {
    "verse = \\relative c'' {\n"@
        + "  | c1\n"@
        + "}\n"@
        + "\n"@
        + "chorus = \\relative c'' {\n"@
        + "  | c1\n"@
        + "}\n"@
        + "\n"@
        + "melody = {\n"@
        + "  \\verse\n"@
        + "  \\chorus\n"@
        + "}\n"@
}

/// The melody of the lead sheet.
pub fn get_lead_melody() -> (content: String)
    ensures
        content@ == lead_melody_text(),
{
    let mut out: Vec<char> = Vec::new();
    push_str(&mut out, "verse = \\relative c'' {\n");
    push_str(&mut out, "  | c1\n");
    push_str(&mut out, "}\n");
    push_str(&mut out, "\n");
    push_str(&mut out, "chorus = \\relative c'' {\n");
    push_str(&mut out, "  | c1\n");
    push_str(&mut out, "}\n");
    push_str(&mut out, "\n");
    push_str(&mut out, "melody = {\n");
    push_str(&mut out, "  \\verse\n");
    push_str(&mut out, "  \\chorus\n");
    push_str(&mut out, "}\n");
    assert(out@ =~= lead_melody_text());
    string_of(&out)
}

/// The bars of the lead sheet.
pub open spec fn lead_structure_text() -> Seq<char> {
    "key_and_time = {\n"@
        + "  \\key c \\major\n"@
        + "  \\time 4/4\n"@
        + "}\n"@
        + "\n"@
        + "verse = {\n"@
        + "  | s1 * 4\n"@
        + "}\n"@
        + "\n"@
        + "chorus = {\n"@
        + "  | s1 * 4\n"@
        + "}\n"@
        + "\n"@
        + "structure = {\n"@
        + "  \\key_and_time\n"@
        + "  \\verse\n"@
        + "  \\chorus\n"@
        + "}\n"@
}

/// The bars of the lead sheet.
pub fn get_lead_structure() -> (content: String)
    ensures
        content@ == lead_structure_text(),
{
    let mut out: Vec<char> = Vec::new();
    push_str(&mut out, "key_and_time = {\n");
    push_str(&mut out, "  \\key c \\major\n");
    push_str(&mut out, "  \\time 4/4\n");
    push_str(&mut out, "}\n");
    push_str(&mut out, "\n");
    push_str(&mut out, "verse = {\n");
    push_str(&mut out, "  | s1 * 4\n");
    push_str(&mut out, "}\n");
    push_str(&mut out, "\n");
    push_str(&mut out, "chorus = {\n");
    push_str(&mut out, "  | s1 * 4\n");
    push_str(&mut out, "}\n");
    push_str(&mut out, "\n");
    push_str(&mut out, "structure = {\n");
    push_str(&mut out, "  \\key_and_time\n");
    push_str(&mut out, "  \\verse\n");
    push_str(&mut out, "  \\chorus\n");
    push_str(&mut out, "}\n");
    assert(out@ =~= lead_structure_text());
    string_of(&out)
}

/// The files of a lead sheet: the main file, then changes, lyrics, melody and structure.
pub open spec fn lead_files(
    title: Seq<char>,
    subtitle: Option<Seq<char>>,
    composer: Seq<char>,
    arranger: Option<Seq<char>>,
    instrument: Seq<char>,
    lilypond_version: Seq<char>,
) -> Seq<TemplateFileView> {
    seq![
        TemplateFileView {
            filename: None,
            content: lead_main_text(
                lilypond_version,
                header_text(title, subtitle, composer, arranger),
                instrument,
            ),
        },
        TemplateFileView {
            filename: Some("changes"@),
            content: lead_changes_text(),
        },
        TemplateFileView {
            filename: Some("lyrics"@),
            content: lead_lyrics_text(),
        },
        TemplateFileView {
            filename: Some("melody"@),
            content: lead_melody_text(),
        },
        TemplateFileView {
            filename: Some("structure"@),
            content: lead_structure_text(),
        },
    ]
}

/// The files of a lead sheet: the main file, then changes, lyrics, melody and structure.
pub fn get_lead_templates(
    title: &String,
    subtitle: &Option<String>,
    composer: &String,
    arranger: &Option<String>,
    instrument: &String,
    lilypond_version: &str,
) -> (files: Vec<TemplateFile>)
    ensures
        template_views(files@) == lead_files(
            title@,
            optional(*subtitle),
            composer@,
            optional(*arranger),
            instrument@, lilypond_version@,
        ),
{
    let header = get_header(title, subtitle, composer, arranger);
    let mut files: Vec<TemplateFile> = Vec::new();
    files.push(
        TemplateFile {
            filename: None,
            content: get_lead_main(
                lilypond_version,
                header.as_str(),
                instrument.as_str(),
            ),
        },
    );
    files.push(
        TemplateFile {
            filename: Some("changes".to_owned()),
            content: get_lead_changes(),
        },
    );
    files.push(
        TemplateFile {
            filename: Some("lyrics".to_owned()),
            content: get_lead_lyrics(),
        },
    );
    files.push(
        TemplateFile {
            filename: Some("melody".to_owned()),
            content: get_lead_melody(),
        },
    );
    files.push(
        TemplateFile {
            filename: Some("structure".to_owned()),
            content: get_lead_structure(),
        },
    );
    assert(template_views(files@) =~= lead_files(
        title@,
        optional(*subtitle),
        composer@,
        optional(*arranger),
        instrument@, lilypond_version@,
    ));
    files
}

} // verus!
