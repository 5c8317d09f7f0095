//! The score for one instrument on one staff.

use vstd::prelude::*;
use crate::templates::{
    get_header, header_text, optional, template_views, TemplateFile, TemplateFileView,
};
use crate::text::{push_str, string_of};

verus! {


/// The score for one staff, under the version line, with the header of the
/// score and the name of the instrument.
pub open spec fn single_text(
    lilypond_version: Seq<char>,
    header: Seq<char>,
    instrument: Seq<char>,
) -> Seq<char> {
    lilypond_version
        + "\n"@
        + "\n"@
        + "\\include \"helpers/settings.ily\"\n"@
        + "\\include \"helpers/bar-numbers-left.ily\"\n"@
        + "\n"@
        + header
        + "\n"@
        + "\n"@
        + "music = \\relative c'' {\n"@
        + "    \\key c \\major\n"@
        + "    \\time 4/4\n"@
        + "    | c1\n"@
        + "}\n"@
        + "\n"@
        + "\\score {\n"@
        + "    \\new Staff \\with {\n"@
        + "        instrumentName = \""@
        + instrument
        + "\"\n"@
        + "        \\numericTimeSignature\n"@
        + "    } {\n"@
        + "        \\compressMMRests\n"@
        + "        \\music\n"@
        + "    }\n"@
        + "}\n"@
}

/// The score for one staff, under the version line, with the header of the
/// score and the name of the instrument.
pub fn single_content(lilypond_version: &str, header: &str, instrument: &str) -> (content: String)
    ensures
        content@ == single_text(lilypond_version@, header@, instrument@),
{
    let mut out: Vec<char> = Vec::new();
    push_str(&mut out, lilypond_version);
    push_str(&mut out, "\n");
    push_str(&mut out, "\n");
    push_str(&mut out, "\\include \"helpers/settings.ily\"\n");
    push_str(&mut out, "\\include \"helpers/bar-numbers-left.ily\"\n");
    push_str(&mut out, "\n");
    push_str(&mut out, header);
    push_str(&mut out, "\n");
    push_str(&mut out, "\n");
    push_str(&mut out, "music = \\relative c'' {\n");
    push_str(&mut out, "    \\key c \\major\n");
    push_str(&mut out, "    \\time 4/4\n");
    push_str(&mut out, "    | c1\n");
    push_str(&mut out, "}\n");
    push_str(&mut out, "\n");
    push_str(&mut out, "\\score {\n");
    push_str(&mut out, "    \\new Staff \\with {\n");
    push_str(&mut out, "        instrumentName = \"");
    push_str(&mut out, instrument);
    push_str(&mut out, "\"\n");
    push_str(&mut out, "        \\numericTimeSignature\n");
    push_str(&mut out, "    } {\n");
    push_str(&mut out, "        \\compressMMRests\n");
    push_str(&mut out, "        \\music\n");
    push_str(&mut out, "    }\n");
    push_str(&mut out, "}\n");
    assert(out@ =~= single_text(lilypond_version@, header@, instrument@));
    string_of(&out)
}

/// The one file of a score for one staff.
pub open spec fn single_files(
    title: Seq<char>,
    subtitle: Option<Seq<char>>,
    composer: Seq<char>,
    arranger: Option<Seq<char>>,
    instrument: Seq<char>,
    lilypond_version: Seq<char>,
) -> Seq<TemplateFileView> {
    seq![
        TemplateFileView {
            filename: None,
            content: single_text(
                lilypond_version,
                header_text(title, subtitle, composer, arranger),
                instrument,
            ),
        },
    ]
}

/// The one file of a score for one staff.
pub fn get_single_template(
    title: &String,
    subtitle: &Option<String>,
    composer: &String,
    arranger: &Option<String>,
    instrument: &String,
    lilypond_version: &str,
) -> (files: Vec<TemplateFile>)
    ensures
        template_views(files@) == single_files(
            title@,
            optional(*subtitle),
            composer@,
            optional(*arranger),
            instrument@, lilypond_version@,
        ),
{
    let header = get_header(title, subtitle, composer, arranger);
    let mut files: Vec<TemplateFile> = Vec::new();
    files.push(
        TemplateFile {
            filename: None,
            content: single_content(
                lilypond_version,
                header.as_str(),
                instrument.as_str(),
            ),
        },
    );
    assert(template_views(files@) =~= single_files(
        title@,
        optional(*subtitle),
        composer@,
        optional(*arranger),
        instrument@, lilypond_version@,
    ));
    files
}

} // verus!
