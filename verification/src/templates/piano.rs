//! The piano score: two staves in a brace.

use vstd::prelude::*;
use crate::templates::{
    get_header, header_text, optional, template_views, TemplateFile, TemplateFileView,
};
use crate::text::{push_str, string_of};

verus! {


/// The piano score, under the version line and with the header of the
/// score.
pub open spec fn piano_text(lilypond_version: Seq<char>, header: Seq<char>) -> Seq<char> {
    "\\version "@
        + lilypond_version
        + "\n"@
        + "\n"@
        + "\\include \"settings.ily\"\n"@
        + "\n"@
        + header
        + "\n"@
        + "\n"@
        + "key_and_time = {\n"@
        + "  \\key c \\major\n"@
        + "  \\time 4/4\n"@
        + "}\n"@
        + "\n"@
        + "upper_staff = \\relative c'' {\n"@
        + "  \\key_and_time\n"@
        + "  | c1\n"@
        + "}\n"@
        + "\n"@
        + "lower_staff = \\relative c {\n"@
        + "  \\clef bass\n"@
        + "  \\key_and_time\n"@
        + "  | c1\n"@
        + "}\n"@
        + "\n"@
        + "\\score {\n"@
        + "  \\new PianoStaff \\with {\n"@
        + "    instrumentName = \"Piano\"\n"@
        + "  }\n"@
        + "  <<\n"@
        + "    \\new Staff = \"upper\" \\upper_staff\n"@
        + "    \\new Staff = \"lower\" \\lower_staff\n"@
        + "  >>\n"@
        + "}"@
}

/// The piano score, under the version line and with the header of the
/// score.
pub fn piano_content(lilypond_version: &str, header: &str) -> (content: String)
    ensures
        content@ == piano_text(lilypond_version@, header@),
{
    let mut out: Vec<char> = Vec::new();
    push_str(&mut out, "\\version ");
    push_str(&mut out, lilypond_version);
    push_str(&mut out, "\n");
    push_str(&mut out, "\n");
    push_str(&mut out, "\\include \"settings.ily\"\n");
    push_str(&mut out, "\n");
    push_str(&mut out, header);
    push_str(&mut out, "\n");
    push_str(&mut out, "\n");
    push_str(&mut out, "key_and_time = {\n");
    push_str(&mut out, "  \\key c \\major\n");
    push_str(&mut out, "  \\time 4/4\n");
    push_str(&mut out, "}\n");
    push_str(&mut out, "\n");
    push_str(&mut out, "upper_staff = \\relative c'' {\n");
    push_str(&mut out, "  \\key_and_time\n");
    push_str(&mut out, "  | c1\n");
    push_str(&mut out, "}\n");
    push_str(&mut out, "\n");
    push_str(&mut out, "lower_staff = \\relative c {\n");
    push_str(&mut out, "  \\clef bass\n");
    push_str(&mut out, "  \\key_and_time\n");
    push_str(&mut out, "  | c1\n");
    push_str(&mut out, "}\n");
    push_str(&mut out, "\n");
    push_str(&mut out, "\\score {\n");
    push_str(&mut out, "  \\new PianoStaff \\with {\n");
    push_str(&mut out, "    instrumentName = \"Piano\"\n");
    push_str(&mut out, "  }\n");
    push_str(&mut out, "  <<\n");
    push_str(&mut out, "    \\new Staff = \"upper\" \\upper_staff\n");
    push_str(&mut out, "    \\new Staff = \"lower\" \\lower_staff\n");
    push_str(&mut out, "  >>\n");
    push_str(&mut out, "}");
    assert(out@ =~= piano_text(lilypond_version@, header@));
    string_of(&out)
}

/// The one file of a piano score.
pub open spec fn piano_files(
    title: Seq<char>,
    subtitle: Option<Seq<char>>,
    composer: Seq<char>,
    arranger: Option<Seq<char>>,
    lilypond_version: Seq<char>,
) -> Seq<TemplateFileView> {
    seq![
        TemplateFileView {
            filename: None,
            content: piano_text(
                lilypond_version,
                header_text(title, subtitle, composer, arranger),
            ),
        },
    ]
}

/// The one file of a piano score.
pub fn get_piano_template(
    title: &String,
    subtitle: &Option<String>,
    composer: &String,
    arranger: &Option<String>,
    lilypond_version: &str,
) -> (files: Vec<TemplateFile>)
    ensures
        template_views(files@) == piano_files(
            title@,
            optional(*subtitle),
            composer@,
            optional(*arranger),
            lilypond_version@,
        ),
{
    let header = get_header(title, subtitle, composer, arranger);
    let mut files: Vec<TemplateFile> = Vec::new();
    files.push(
        TemplateFile {
            filename: None,
            content: piano_content(lilypond_version, header.as_str()),
        },
    );
    assert(template_views(files@) =~= piano_files(
        title@,
        optional(*subtitle),
        composer@,
        optional(*arranger),
        lilypond_version@,
    ));
    files
}

} // verus!
