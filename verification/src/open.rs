//! Opening the files of scores.

use vstd::prelude::*;
use crate::commands::ScoreFileType;
use crate::text::{push_str, string_of, string_views};

verus! {

/// Which of the files found are opened: the scores, the pdfs, or the
/// scores and then the pdfs; the pdfs where no type is named.
pub fn files_to_open(file_type: &Option<ScoreFileType>, ly_files: Vec<String>, pdfs: Vec<String>)
    -> (files: Vec<String>)
    ensures
        string_views(files@) == (match *file_type {
            Some(ScoreFileType::Both) => string_views(ly_files@) + string_views(pdfs@),
            Some(ScoreFileType::Lilypond) => string_views(ly_files@),
            Some(ScoreFileType::Pdf) => string_views(pdfs@),
            None => string_views(pdfs@),
        }),
{
    match file_type {
        Some(ScoreFileType::Both) => {
            let ghost wanted = string_views(ly_files@) + string_views(pdfs@);
            let mut files = ly_files;
            let mut more = pdfs;
            files.append(&mut more);
            assert(string_views(files@) =~= wanted);
            files
        },
        Some(ScoreFileType::Lilypond) => ly_files,
        Some(ScoreFileType::Pdf) => pdfs,
        None => pdfs,
    }
}

/// What is printed once the file at `file_path` is opened.
pub fn open_file(file_path: &str) -> (message: String)
    ensures
        message@ == "Opened "@ + file_path@,
{
    let mut out: Vec<char> = Vec::new();
    push_str(&mut out, "Opened ");
    push_str(&mut out, file_path);
    string_of(&out)
}

} // verus!
