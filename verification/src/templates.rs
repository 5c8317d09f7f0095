//! Score templates: their kinds, the header of a score, and the banner
//! above each file when a template is shown.

use vstd::prelude::*;
use vstd::utf8::encode_utf8;
use crate::commands::TemplateCommand;
use crate::create::{get_templates, template_files};
use crate::helpers::row;
use crate::pattern::{find_match, pattern_compiles, pattern_first_match};
use crate::style::{italic, italic_text, yellow, yellow_text};
use crate::table::{print_table, record_views, table_text};
use crate::text::{
    lowercase_of, push_repeated, push_str, repeated, replace, string_of, string_views,
};

pub mod form;
pub mod lead;
pub mod piano;
pub mod single;

verus! {

/// The kinds of score that can be created.
#[derive(Clone, Copy, Debug, PartialEq, Eq, Structural)]
pub enum Template {
    Form,
    Lead,
    Piano,
    Single,
}

impl Template {
    /// The name of the template.
    pub open spec fn name(self) -> Seq<char> {
        match self {
            Template::Form => "Form"@,
            Template::Lead => "Lead"@,
            Template::Piano => "Piano"@,
            Template::Single => "Single"@,
        }
    }

    /// The name of the template, as it is printed.
    pub fn to_string(&self) -> (s: String)
        ensures
            s@ == self.name(),
    {
        match self {
            Template::Form => "Form".to_owned(),
            Template::Lead => "Lead".to_owned(),
            Template::Piano => "Piano".to_owned(),
            Template::Single => "Single".to_owned(),
        }
    }
}

/// One file of a template: the name that distinguishes it from the main
/// file, if it is not the main file, and its text.
#[derive(Debug)]
pub struct TemplateFile {
    pub filename: Option<String>,
    pub content: String,
}

/// A template file as plain values.
pub struct TemplateFileView {
    pub filename: Option<Seq<char>>,
    pub content: Seq<char>,
}

impl View for TemplateFile {
    type V = TemplateFileView;

    open spec fn view(&self) -> TemplateFileView {
        TemplateFileView {
            filename: match self.filename {
                Some(name) => Some(name@),
                None => None,
            },
            content: self.content@,
        }
    }
}

/// The template files of a list as plain values.
pub open spec fn template_views(files: Seq<TemplateFile>) -> Seq<TemplateFileView> {
    Seq::new(files.len(), |i: int| files[i]@)
}

/// One line of a header: two spaces, the key, the value in quotes.
pub open spec fn header_line(key: Seq<char>, value: Seq<char>) -> Seq<char> {
    "  "@ + key + " = \""@ + value + "\"\n"@
}

/// `string` followed by the header line of `key`, where there is a value.
pub open spec fn with_value(string: Seq<char>, key: Seq<char>, value: Option<Seq<char>>) -> Seq<
    char,
> {
    match value {
        Some(v) => string + header_line(key, v),
        None => string,
    }
}

/// `string` followed by the line `  key = "value"`, where there is a value.
pub fn add_value_to_string_if_some(string: String, key: &str, value: &Option<String>) -> (r: String)
    ensures
        r@ == with_value(
            string@,
            key@,
            match *value {
                Some(v) => Some(v@),
                None => None,
            },
        ),
{
    match value {
        Some(v) => {
            let mut out: Vec<char> = Vec::new();
            push_str(&mut out, string.as_str());
            push_str(&mut out, "  ");
            push_str(&mut out, key);
            push_str(&mut out, " = \"");
            push_str(&mut out, v.as_str());
            push_str(&mut out, "\"\n");
            assert(out@ =~= string@ + header_line(key@, v@));
            string_of(&out)
        },
        None => string,
    }
}

/// The header block of a score: title, subtitle if any, composer, arranger
/// if any.
pub open spec fn header_text(
    title: Seq<char>,
    subtitle: Option<Seq<char>>,
    composer: Seq<char>,
    arranger: Option<Seq<char>>,
) -> Seq<char> {
    with_value(
        with_value("\\header {\n  title = \""@ + title + "\"\n"@, "subtitle"@, subtitle)
            + "  composer = \""@ + composer + "\"\n"@,
        "arranger"@,
        arranger,
    ) + "}"@
}

/// The view of an optional string.
pub open spec fn optional(value: Option<String>) -> Option<Seq<char>> {
    match value {
        Some(v) => Some(v@),
        None => None,
    }
}

/// The header block of a score.
pub fn get_header(
    title: &String,
    subtitle: &Option<String>,
    composer: &String,
    arranger: &Option<String>,
) -> (header: String)
    ensures
        header@ == header_text(title@, optional(*subtitle), composer@, optional(*arranger)),
{
    let mut out: Vec<char> = Vec::new();
    push_str(&mut out, "\\header {\n  title = \"");
    push_str(&mut out, title.as_str());
    push_str(&mut out, "\"\n");
    let opened = add_value_to_string_if_some(string_of(&out), "subtitle", subtitle);
    let mut out: Vec<char> = Vec::new();
    push_str(&mut out, opened.as_str());
    push_str(&mut out, "  composer = \"");
    push_str(&mut out, composer.as_str());
    push_str(&mut out, "\"\n");
    let named = add_value_to_string_if_some(string_of(&out), "arranger", arranger);
    let mut out: Vec<char> = Vec::new();
    push_str(&mut out, named.as_str());
    push_str(&mut out, "}");
    assert(out@ =~= header_text(title@, optional(*subtitle), composer@, optional(*arranger)));
    string_of(&out)
}

/// The name that a text has as a file or directory: spaces replaced by
/// hyphens, in lower case.
pub open spec fn file_system_name(text: Seq<char>) -> Seq<char> {
    lowercase_of(replace(text, " "@, "-"@))
}

/// The name that `text` has as a file or directory.
pub fn get_file_system_name(text: &str) -> (name: String)
    ensures
        name@ == file_system_name(text@),
{
    crate::text::to_lowercase(crate::text::replace_str(text, " ", "-").as_str())
}

/// The file name of a template file: its own name with `.ily`, or for the
/// main file the title's file-system name with `.ly`.
pub open spec fn template_file_name(filename: Option<Seq<char>>, title: Seq<char>) -> Seq<char> {
    match filename {
        Some(name) => name + ".ily"@,
        None => file_system_name(title) + ".ly"@,
    }
}

/// A banner: `name` between two lines of `width` hyphens, each line a
/// comment, and an empty line after.
pub open spec fn banner(name: Seq<char>, width: nat) -> Seq<char> {
    "% "@ + repeated('-', width) + "\n% "@ + name + "\n% "@ + repeated('-', width) + "\n\n"@
}

/// The banner above the file named `name`, as wide as the name has bytes
/// in UTF-8.
pub open spec fn file_banner(name: Seq<char>) -> Seq<char> {
    banner(name, encode_utf8(name).len())
}

/// The banner above a template file when the template is shown.
pub fn format_filename(filename: &Option<String>, title: &str) -> (text: String)
    ensures
        text@ == file_banner(template_file_name(optional(*filename), title@)),
{
    let mut name: Vec<char> = Vec::new();
    match filename {
        Some(own) => {
            push_str(&mut name, own.as_str());
            push_str(&mut name, ".ily");
        },
        None => {
            push_str(&mut name, get_file_system_name(title).as_str());
            push_str(&mut name, ".ly");
        },
    }
    let name = string_of(&name);
    assert(name@ =~= template_file_name(optional(*filename), title@));
    let width: usize = name.as_str().as_bytes().len();
    let mut out: Vec<char> = Vec::new();
    push_str(&mut out, "% ");
    push_repeated(&mut out, '-', width);
    push_str(&mut out, "\n% ");
    push_str(&mut out, name.as_str());
    push_str(&mut out, "\n% ");
    push_repeated(&mut out, '-', width);
    push_str(&mut out, "\n\n");
    assert(out@ =~= banner(name@, width as nat));
    string_of(&out)
}

/// The pattern of a version in what `lilypond --version` prints: a digit,
/// two digits, a digit, with dots between.
pub const VERSION_PATTERN: &'static str = "\\d\\.\\d{2}\\.\\d";

/// The version line of a score for the version `found`.
pub open spec fn version_statement_text(found: Seq<char>) -> Seq<char> {
    "\\version \""@ + found + "\""@
}

/// The version line of a score for the version `found`.
pub fn version_statement(found: &str) -> (line: String)
    ensures
        line@ == version_statement_text(found@),
{
    let mut out: Vec<char> = Vec::new();
    push_str(&mut out, "\\version \"");
    push_str(&mut out, found);
    push_str(&mut out, "\"");
    string_of(&out)
}

/// The version line for the LilyPond whose `--version` printed `output`:
/// for the first version found in it; `None` where none is found.
pub fn get_lilypond_version(output: &str) -> (line: Option<String>)
    ensures
        !pattern_compiles(VERSION_PATTERN@) ==> line is None,
        pattern_compiles(VERSION_PATTERN@) ==> (match pattern_first_match(
            VERSION_PATTERN@,
            output@,
        ) {
            Some(found) => line is Some && line->Some_0@ == version_statement_text(found),
            None => line is None,
        }),
{
    match find_match(VERSION_PATTERN, output) {
        Ok(Some(found)) => Some(version_statement(found.as_str())),
        Ok(None) => None,
        Err(_) => None,
    }
}

/// The text that shows the files of a template: each under its banner and
/// followed by a line feed, an empty line between two files.
pub open spec fn shown_files(files: Seq<TemplateFileView>, title: Seq<char>) -> Seq<char>
    decreases files.len(),
{
    if files.len() == 0 {
        Seq::empty()
    } else {
        shown_files(files.drop_last(), title) + (if files.len() > 1 {
            "\n"@
        } else {
            ""@
        }) + file_banner(template_file_name(files.last().filename, title)) + files.last().content
            + "\n"@
    }
}

/// The text that shows the files `templates` of a score titled `title`.
pub fn print_templates(templates: &Vec<TemplateFile>, title: &str) -> (lines: String)
    ensures
        lines@ == shown_files(template_views(templates@), title@),
{
    let mut out: Vec<char> = Vec::new();
    let ghost all = template_views(templates@);
    let mut i: usize = 0;
    assert(all.take(0) =~= Seq::<TemplateFileView>::empty());
    proof {
        reveal_strlit("");
    }
    while i < templates.len()
        invariant
            i <= templates.len(),
            all == template_views(templates@),
            out@ == shown_files(all.take(i as int), title@),
        decreases templates.len() - i,
    {
        assert(all.take(i + 1).drop_last() =~= all.take(i as int));
        assert(all.take(i + 1).last() == templates@[i as int]@);
        let ghost before = out@;
        if i > 0 {
            out.push('\n');
        }
        proof {
            reveal_strlit("\n");
            reveal_strlit("");
        }
        assert(out@ =~= before + (if i > 0 {
            "\n"@
        } else {
            ""@
        }));
        push_str(&mut out, format_filename(&templates[i].filename, title).as_str());
        push_str(&mut out, templates[i].content.as_str());
        out.push('\n');
        assert(out@ =~= shown_files(all.take(i + 1), title@));
        i += 1;
    }
    assert(all.take(templates@.len() as int) =~= all);
    string_of(&out)
}

/// The text that shows the template `template`, filled with sample values.
pub open spec fn shown_template(template: Template, lilypond_version: Seq<char>) -> Seq<char> {
    shown_files(
        template_files(
            "Title"@,
            Some("Subtitle"@),
            "Composer"@,
            Some("Arranger"@),
            "Instrument"@,
            template,
            lilypond_version,
        ),
        "Title"@,
    )
}

/// The text that shows the template `template`.
pub fn show_template(template: &Template, lilypond_version: &str) -> (lines: String)
    ensures
        lines@ == shown_template(*template, lilypond_version@),
{
    let title = "Title".to_owned();
    let subtitle = Some("Subtitle".to_owned());
    let composer = "Composer".to_owned();
    let arranger = Some("Arranger".to_owned());
    let instrument = "Instrument".to_owned();
    let files = get_templates(
        &title,
        &subtitle,
        &composer,
        &arranger,
        &instrument,
        template,
        lilypond_version,
    );
    print_templates(&files, title.as_str())
}

/// The rows of the table of templates: the name of each in yellow, and
/// what it is for.
pub open spec fn template_rows() -> Seq<Seq<Seq<char>>> {
    seq![
        seq![
            yellow_text("Form"@),
            "Form chart with separate sections and form summary at the bottom"@,
        ],
        seq![yellow_text("Lead"@), "Lead sheet showing melody and chords"@],
        seq![yellow_text("Piano"@), "Piano staff score"@],
        seq![yellow_text("Single"@), "Score for a single staff instrumenta"@],
    ]
}

/// The titles of the table of templates, in italics.
pub open spec fn template_titles() -> Seq<Seq<char>> {
    seq![italic_text("Name"@), italic_text("Description"@)]
}

/// What the command on templates prints: the template to show, or else
/// the table of the templates.
pub fn templates_main(command: &Option<TemplateCommand>, lilypond_version: &str) -> (text: String)
    ensures
        text@ == (match *command {
            Some(TemplateCommand::Show { template }) => shown_template(
                template,
                lilypond_version@,
            ),
            None => table_text(template_titles(), template_rows()),
        }),
{
    match command {
        Some(TemplateCommand::Show { template }) => show_template(template, lilypond_version),
        None => {
            let mut titles: Vec<String> = Vec::new();
            titles.push(italic("Name"));
            titles.push(italic("Description"));
            assert(string_views(titles@) =~= template_titles());
            let mut rows: Vec<Vec<String>> = Vec::new();
            rows.push(
                row(
                    yellow("Form").as_str(),
                    "Form chart with separate sections and form summary at the bottom",
                ),
            );
            rows.push(row(yellow("Lead").as_str(), "Lead sheet showing melody and chords"));
            rows.push(row(yellow("Piano").as_str(), "Piano staff score"));
            rows.push(row(yellow("Single").as_str(), "Score for a single staff instrumenta"));
            assert(record_views(rows@) =~~= template_rows()) by {
                assert forall|i: int| 0 <= i < 4 implies record_views(rows@)[i]
                    == template_rows()[i] by {
                    assert(record_views(rows@)[i] =~= string_views(rows@[i]@));
                }
            }
            print_table(titles, rows)
        },
    }
}

} // verus!
