//! Editing a score: where its pdf goes, which files are watched, and where
//! a sketch is saved.

use vstd::prelude::*;
use crate::config::Config;
use crate::patterns::{base_directory, get_base, get_score_file, score_pattern};
use crate::scores::TEMPORARY_DIRECTORY;
use crate::templates::{file_system_name, get_file_system_name, optional};
use crate::text::{
    chars_of, push_str, replace, replace_str, starts_with, starts_with_in, string_of,
    string_views,
};

verus! {

/// What editing a score has to do before the score is opened and watched.
#[derive(Debug)]
pub struct EditPlan {
    /// The directory of the pdfs to compile into, if not the configured one.
    pub pdfs_directory: Option<String>,
    /// The pattern by which the pdf of the score is found once compiled.
    pub pdf_pattern: String,
}

/// The directory of pdfs for editing: the temporary directory for a
/// sketch, and else the one given.
pub open spec fn edit_directory(is_sketch: bool, pdfs_directory: Option<Seq<char>>) -> Option<
    Seq<char>,
> {
    if is_sketch {
        Some(TEMPORARY_DIRECTORY@)
    } else {
        pdfs_directory
    }
}

/// Plans the editing of the score with the file stem `stem`: a sketch is
/// compiled into the temporary directory, any other score into the
/// directory given or configured, and the pdf is looked for there under
/// any name that holds the stem.
pub fn edit_file(
    stem: &String,
    is_sketch: bool,
    scores_directory: &Option<String>,
    pdfs_directory: &Option<String>,
    config: &Config,
) -> (plan: EditPlan)
    ensures
        optional(plan.pdfs_directory) == edit_directory(is_sketch, optional(*pdfs_directory)),
        exists|directory: Seq<char>|
            base_directory(
                ".pdf"@,
                optional(*scores_directory),
                edit_directory(is_sketch, optional(*pdfs_directory)),
                *config,
                directory,
            ) && plan.pdf_pattern@ == score_pattern(directory + "/**/"@, stem@, ".pdf"@),
{
    let directory: Option<String> = if is_sketch {
        Some(TEMPORARY_DIRECTORY.to_owned())
    } else {
        match pdfs_directory {
            Some(given) => Some(given.clone()),
            None => None,
        }
    };
    let base = get_base(".pdf", scores_directory, &directory, config);
    let pdf_pattern = get_score_file(stem, ".pdf", base.as_str());
    EditPlan { pdfs_directory: directory, pdf_pattern }
}

/// The pattern for the included files of the score in the directory
/// `parent`, at any depth.
pub fn score_ily_files_pattern(parent: &str) -> (pattern: String)
    ensures
        pattern@ == parent@ + "/**/*.ily"@,
{
    let mut out: Vec<char> = Vec::new();
    push_str(&mut out, parent);
    push_str(&mut out, "/**/*.ily");
    string_of(&out)
}

/// The pattern for the helper files below the directory of the scores.
pub fn helper_ily_files_pattern(scores_directory: &str) -> (pattern: String)
    ensures
        pattern@ == scores_directory@ + "/helpers/*.ily"@,
{
    let mut out: Vec<char> = Vec::new();
    push_str(&mut out, scores_directory);
    push_str(&mut out, "/helpers/*.ily");
    string_of(&out)
}

/// The files watched while a score is edited: its included files, the
/// helper files, and the score itself.
pub fn get_watched_files(
    score_ily_files: Vec<String>,
    helper_ily_files: Vec<String>,
    file: &String,
) -> (watched_files: Vec<String>)
    ensures
        string_views(watched_files@) == string_views(score_ily_files@) + string_views(
            helper_ily_files@,
        ) + seq![file@],
{
    let ghost wanted = string_views(score_ily_files@) + string_views(helper_ily_files@) + seq![
        file@,
    ];
    let mut watched_files = score_ily_files;
    let mut helpers = helper_ily_files;
    watched_files.append(&mut helpers);
    watched_files.push(file.clone());
    assert(string_views(watched_files@) =~= wanted);
    watched_files
}

/// The pattern for the scores to compile when a file in `directory`
/// changes.
pub fn watch(directory: &str) -> (pattern: String)
    ensures
        pattern@ == directory@ + "/*.ly"@,
{
    let mut out: Vec<char> = Vec::new();
    push_str(&mut out, directory);
    push_str(&mut out, "/*.ly");
    string_of(&out)
}

/// The composer and the title under which a sketch is saved.
pub struct SketchNames {
    pub composer: String,
    pub title: String,
}

/// The name that a header line gives: the file-system name of the line
/// without `mark` and without quotes.
pub open spec fn named(line: Seq<char>, mark: Seq<char>) -> Seq<char> {
    file_system_name(replace(replace(line, mark, ""@), "\""@, ""@))
}

/// The composer under which a sketch is saved: what the last composer line
/// of the sketch names, or else `composer`.
pub open spec fn sketch_composer(lines: Seq<Seq<char>>, composer: Seq<char>) -> Seq<char>
    decreases lines.len(),
{
    if lines.len() == 0 {
        composer
    } else if starts_with(lines.last(), "  composer = "@) {
        named(lines.last(), "  composer = "@)
    } else {
        sketch_composer(lines.drop_last(), composer)
    }
}

/// The title under which a sketch is saved: what the last title line of the
/// sketch names, or else `Sketch`.
pub open spec fn sketch_title(lines: Seq<Seq<char>>) -> Seq<char>
    decreases lines.len(),
{
    if lines.len() == 0 {
        "Sketch"@
    } else if starts_with(lines.last(), "  title = "@) {
        named(lines.last(), "  title = "@)
    } else {
        sketch_title(lines.drop_last())
    }
}

/// The composer and the title under which the sketch with the lines
/// `lines` is saved.
pub fn sketch_names(lines: &Vec<String>, composer: String) -> (names: SketchNames)
    ensures
        names.composer@ == sketch_composer(string_views(lines@), composer@),
        names.title@ == sketch_title(string_views(lines@)),
{
    let mut names = SketchNames { composer, title: "Sketch".to_owned() };
    let ghost all = string_views(lines@);
    let mut i: usize = 0;
    assert(all.take(0) =~= Seq::<Seq<char>>::empty());
    while i < lines.len()
        invariant
            i <= lines.len(),
            all == string_views(lines@),
            names.composer@ == sketch_composer(all.take(i as int), composer@),
            names.title@ == sketch_title(all.take(i as int)),
        decreases lines.len() - i,
    {
        assert(all.take(i + 1).drop_last() =~= all.take(i as int));
        assert(all.take(i + 1).last() == lines@[i as int]@);
        let line = lines[i].as_str();
        let letters = chars_of(line);
        if starts_with_in(&letters, &chars_of("  composer = ")) {
            let bare = replace_str(replace_str(line, "  composer = ", "").as_str(), "\"", "");
            names.composer = get_file_system_name(bare.as_str());
        }
        if starts_with_in(&letters, &chars_of("  title = ")) {
            let bare = replace_str(replace_str(line, "  title = ", "").as_str(), "\"", "");
            names.title = get_file_system_name(bare.as_str());
        }
        i += 1;
    }
    assert(all.take(lines@.len() as int) =~= all);
    names
}

/// The directory of the sketches of `composer`.
pub open spec fn sketches_directory_of(scores_directory: Seq<char>, composer: Seq<char>) -> Seq<
    char,
> {
    scores_directory + "/scores/"@ + composer + "/sketches"@
}

/// The directory of the sketches of `composer`.
pub fn sketches_directory(scores_directory: &str, composer: &str) -> (directory: String)
    ensures
        directory@ == sketches_directory_of(scores_directory@, composer@),
{
    let mut out: Vec<char> = Vec::new();
    push_str(&mut out, scores_directory);
    push_str(&mut out, "/scores/");
    push_str(&mut out, composer);
    push_str(&mut out, "/sketches");
    assert(out@ =~= sketches_directory_of(scores_directory@, composer@));
    string_of(&out)
}

/// The file under which a sketch is saved: the time of saving and the
/// title, in the directory of the sketches.
pub fn saved_file_path(sketches_directory: &str, time: &str, title: &str) -> (path: String)
    ensures
        path@ == sketches_directory@ + "/"@ + time@ + "-"@ + title@ + ".ly"@,
{
    let mut out: Vec<char> = Vec::new();
    push_str(&mut out, sketches_directory);
    push_str(&mut out, "/");
    push_str(&mut out, time);
    push_str(&mut out, "-");
    push_str(&mut out, title);
    push_str(&mut out, ".ly");
    string_of(&out)
}

} // verus!
