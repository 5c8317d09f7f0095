//! The form chart: sections of a tune, each with its own score, and a summary of the form.

use vstd::prelude::*;
use crate::templates::{
    get_header, header_text, optional, template_views, TemplateFile, TemplateFileView,
};
use crate::text::{push_str, string_of};

verus! {


/// The chords of the form chart.
pub open spec fn form_changes_text() -> Seq<char> {
    "changes_verse = \\chords {\n"@
        + "  | c1\n"@
        + "}\n"@
        + "\n"@
        + "changes_chorus = \\chords {\n"@
        + "  | c1\n"@
        + "}\n"@
}

/// The chords of the form chart.
pub fn get_form_changes() -> (content: String)
    ensures
        content@ == form_changes_text(),
{
    let mut out: Vec<char> = Vec::new();
    push_str(&mut out, "changes_verse = \\chords {\n");
    push_str(&mut out, "  | c1\n");
    push_str(&mut out, "}\n");
    push_str(&mut out, "\n");
    push_str(&mut out, "changes_chorus = \\chords {\n");
    push_str(&mut out, "  | c1\n");
    push_str(&mut out, "}\n");
    assert(out@ =~= form_changes_text());
    string_of(&out)
}

/// The main file of the form chart, under the version line and with the
/// header of the score.
pub open spec fn form_main_text(lilypond_version: Seq<char>, header: Seq<char>) -> Seq<char> {
    lilypond_version
        + "\n"@
        + "\n"@
        + "\\include \"settings.ily\"\n"@
        + "\\include \"helpers/set-bars-per-line.ily\"\n"@
        + "\\include \"melody.ily\"\n"@
        + "\\include \"changes.ily\"\n"@
        + "\\include \"structure.ily\"\n"@
        + "\n"@
        + "\\paper {\n"@
        + "  score-system-spacing.basic-distance = #18\n"@
        + "}\n"@
        + "\n"@
        + header
        + "\n"@
        + "\n"@
        + "\\layout {\n"@
        + "  ragged-last = ##f\n"@
        + "  \\context {\n"@
        + "      \\Score \\consists\n"@
        + "      #(set-bars-per-line '(4))\n"@
        + "  }\n"@
        + "}\n"@
        + "\n"@
        + "\\markup \\vspace #1\n"@
        + "\n"@
        + "\\score {\n"@
        + "<<\n"@
        + "    \\numericTimeSignature\n"@
        + "    \\changes_verse\n"@
        + "    \\new Staff \\with {\n"@
        + "    instrumentName = \\markup \\box \"Verse\"\n"@
        + "    } {\n"@
        + "    <<\n"@
        + "        \\melody_verse\n"@
        + "        \\structure_verse\n"@
        + "    >>\n"@
        + "    }\n"@
        + ">>\n"@
        + "}\n"@
        + "\n"@
        + "\\score {\n"@
        + "<<\n"@
        + "    \\numericTimeSignature\n"@
        + "    \\changes_chorus\n"@
        + "    \\new Staff \\with {\n"@
        + "    instrumentName = \\markup \\box \"Chorus\"\n"@
        + "    } {\n"@
        + "    <<\n"@
        + "        \\melody_chorus\n"@
        + "        \\structure_chorus\n"@
        + "    >>\n"@
        + "    }\n"@
        + ">>\n"@
        + "}\n"@
        + "\n"@
        + "\\markup \\vspace #2\n"@
        + "\n"@
        + "\\markup \\fill-line {\n"@
        + "\\column\n"@
        + "\\override #'(padding . 5)\n"@
        + "\\table #'(1 -1 -1)\n"@
        + "  {\n"@
        + "      \\bold Verse \\italic \"\" \"\"\n"@
        + "      \\bold Chorus \\italic \"\" \"\"\n"@
        + "  }\n"@
        + "}\n"@
}

/// The main file of the form chart, under the version line and with the
/// header of the score.
pub fn get_form_main(lilypond_version: &str, header: &str) -> (content: String)
    ensures
        content@ == form_main_text(lilypond_version@, header@),
{
    let mut out: Vec<char> = Vec::new();
    push_str(&mut out, lilypond_version);
    push_str(&mut out, "\n");
    push_str(&mut out, "\n");
    push_str(&mut out, "\\include \"settings.ily\"\n");
    push_str(&mut out, "\\include \"helpers/set-bars-per-line.ily\"\n");
    push_str(&mut out, "\\include \"melody.ily\"\n");
    push_str(&mut out, "\\include \"changes.ily\"\n");
    push_str(&mut out, "\\include \"structure.ily\"\n");
    push_str(&mut out, "\n");
    push_str(&mut out, "\\paper {\n");
    push_str(&mut out, "  score-system-spacing.basic-distance = #18\n");
    push_str(&mut out, "}\n");
    push_str(&mut out, "\n");
    push_str(&mut out, header);
    push_str(&mut out, "\n");
    push_str(&mut out, "\n");
    push_str(&mut out, "\\layout {\n");
    push_str(&mut out, "  ragged-last = ##f\n");
    push_str(&mut out, "  \\context {\n");
    push_str(&mut out, "      \\Score \\consists\n");
    push_str(&mut out, "      #(set-bars-per-line '(4))\n");
    push_str(&mut out, "  }\n");
    push_str(&mut out, "}\n");
    push_str(&mut out, "\n");
    push_str(&mut out, "\\markup \\vspace #1\n");
    push_str(&mut out, "\n");
    push_str(&mut out, "\\score {\n");
    push_str(&mut out, "<<\n");
    push_str(&mut out, "    \\numericTimeSignature\n");
    push_str(&mut out, "    \\changes_verse\n");
    push_str(&mut out, "    \\new Staff \\with {\n");
    push_str(&mut out, "    instrumentName = \\markup \\box \"Verse\"\n");
    push_str(&mut out, "    } {\n");
    push_str(&mut out, "    <<\n");
    push_str(&mut out, "        \\melody_verse\n");
    push_str(&mut out, "        \\structure_verse\n");
    push_str(&mut out, "    >>\n");
    push_str(&mut out, "    }\n");
    push_str(&mut out, ">>\n");
    push_str(&mut out, "}\n");
    push_str(&mut out, "\n");
    push_str(&mut out, "\\score {\n");
    push_str(&mut out, "<<\n");
    push_str(&mut out, "    \\numericTimeSignature\n");
    push_str(&mut out, "    \\changes_chorus\n");
    push_str(&mut out, "    \\new Staff \\with {\n");
    push_str(&mut out, "    instrumentName = \\markup \\box \"Chorus\"\n");
    push_str(&mut out, "    } {\n");
    push_str(&mut out, "    <<\n");
    push_str(&mut out, "        \\melody_chorus\n");
    push_str(&mut out, "        \\structure_chorus\n");
    push_str(&mut out, "    >>\n");
    push_str(&mut out, "    }\n");
    push_str(&mut out, ">>\n");
    push_str(&mut out, "}\n");
    push_str(&mut out, "\n");
    push_str(&mut out, "\\markup \\vspace #2\n");
    push_str(&mut out, "\n");
    push_str(&mut out, "\\markup \\fill-line {\n");
    push_str(&mut out, "\\column\n");
    push_str(&mut out, "\\override #'(padding . 5)\n");
    push_str(&mut out, "\\table #'(1 -1 -1)\n");
    push_str(&mut out, "  {\n");
    push_str(&mut out, "      \\bold Verse \\italic \"\" \"\"\n");
    push_str(&mut out, "      \\bold Chorus \\italic \"\" \"\"\n");
    push_str(&mut out, "  }\n");
    push_str(&mut out, "}\n");
    assert(out@ =~= form_main_text(lilypond_version@, header@));
    string_of(&out)
}

/// The melody of the form chart, in slashes.
pub open spec fn form_melody_text() -> Seq<char> {
    "melody_verse = \\new Voice \\with {\n"@
        + "  \\consists \"Pitch_squash_engraver\"\n"@
        + "} \\relative c' {\n"@
        + "  \\improvisationOn\n"@
        + "  | c1\n"@
        + "}\n"@
        + "\n"@
        + "melody_chorus = \\new Voice \\with {\n"@
        + "  \\consists \"Pitch_squash_engraver\"\n"@
        + "} \\relative c' {\n"@
        + "  \\improvisationOn\n"@
        + "  | c1\n"@
        + "}\n"@
}

/// The melody of the form chart, in slashes.
pub fn get_form_melody() -> (content: String)
    ensures
        content@ == form_melody_text(),
{
    let mut out: Vec<char> = Vec::new();
    push_str(&mut out, "melody_verse = \\new Voice \\with {\n");
    push_str(&mut out, "  \\consists \"Pitch_squash_engraver\"\n");
    push_str(&mut out, "} \\relative c' {\n");
    push_str(&mut out, "  \\improvisationOn\n");
    push_str(&mut out, "  | c1\n");
    push_str(&mut out, "}\n");
    push_str(&mut out, "\n");
    push_str(&mut out, "melody_chorus = \\new Voice \\with {\n");
    push_str(&mut out, "  \\consists \"Pitch_squash_engraver\"\n");
    push_str(&mut out, "} \\relative c' {\n");
    push_str(&mut out, "  \\improvisationOn\n");
    push_str(&mut out, "  | c1\n");
    push_str(&mut out, "}\n");
    assert(out@ =~= form_melody_text());
    string_of(&out)
}

/// The bars of the form chart.
pub open spec fn form_structure_text() -> Seq<char> {
    "key_and_time = {\n"@
        + "  \\key c \\major\n"@
        + "  \time 4/4\n"@
        + "}\n"@
        + "\n"@
        + "structure_verse = {\n"@
        + "  \\key_and_time\n"@
        + "  | s1 * 4\n"@
        + "  \\bar \"||\"\n"@
        + "}\n"@
        + "\n"@
        + "structure_chorus = {\n"@
        + "  \\key_and_time\n"@
        + "  | s1 * 4\n"@
        + "  \\bar \"||\"\n"@
        + "}\n"@
}

/// The bars of the form chart.
pub fn get_form_structure() -> (content: String)
    ensures
        content@ == form_structure_text(),
{
    let mut out: Vec<char> = Vec::new();
    push_str(&mut out, "key_and_time = {\n");
    push_str(&mut out, "  \\key c \\major\n");
    push_str(&mut out, "  \time 4/4\n");
    push_str(&mut out, "}\n");
    push_str(&mut out, "\n");
    push_str(&mut out, "structure_verse = {\n");
    push_str(&mut out, "  \\key_and_time\n");
    push_str(&mut out, "  | s1 * 4\n");
    push_str(&mut out, "  \\bar \"||\"\n");
    push_str(&mut out, "}\n");
    push_str(&mut out, "\n");
    push_str(&mut out, "structure_chorus = {\n");
    push_str(&mut out, "  \\key_and_time\n");
    push_str(&mut out, "  | s1 * 4\n");
    push_str(&mut out, "  \\bar \"||\"\n");
    push_str(&mut out, "}\n");
    assert(out@ =~= form_structure_text());
    string_of(&out)
}

/// The files of a form chart: the main file, then changes, melody and structure.
pub open spec fn form_files(
    title: Seq<char>,
    subtitle: Option<Seq<char>>,
    composer: Seq<char>,
    arranger: Option<Seq<char>>,
    lilypond_version: Seq<char>,
) -> Seq<TemplateFileView> {
    seq![
        TemplateFileView {
            filename: None,
            content: form_main_text(
                lilypond_version,
                header_text(title, subtitle, composer, arranger),
            ),
        },
        TemplateFileView {
            filename: Some("changes"@),
            content: form_changes_text(),
        },
        TemplateFileView {
            filename: Some("melody"@),
            content: form_melody_text(),
        },
        TemplateFileView {
            filename: Some("structure"@),
            content: form_structure_text(),
        },
    ]
}

/// The files of a form chart: the main file, then changes, melody and structure.
pub fn get_form_templates(
    title: &String,
    subtitle: &Option<String>,
    composer: &String,
    arranger: &Option<String>,
    lilypond_version: &str,
) -> (files: Vec<TemplateFile>)
    ensures
        template_views(files@) == form_files(
            title@,
            optional(*subtitle),
            composer@,
            optional(*arranger),
            lilypond_version@,
        ),
{
    let header = get_header(title, subtitle, composer, arranger);
    let mut files: Vec<TemplateFile> = Vec::new();
    files.push(
        TemplateFile {
            filename: None,
            content: get_form_main(lilypond_version, header.as_str()),
        },
    );
    files.push(
        TemplateFile {
            filename: Some("changes".to_owned()),
            content: get_form_changes(),
        },
    );
    files.push(
        TemplateFile {
            filename: Some("melody".to_owned()),
            content: get_form_melody(),
        },
    );
    files.push(
        TemplateFile {
            filename: Some("structure".to_owned()),
            content: get_form_structure(),
        },
    );
    assert(template_views(files@) =~= form_files(
        title@,
        optional(*subtitle),
        composer@,
        optional(*arranger),
        lilypond_version@,
    ));
    files
}

} // verus!
