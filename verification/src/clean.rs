//! Removing pdfs: when to ask, and which of the pdfs found to remove.

use vstd::prelude::*;
use crate::commands::{confirms, received_confirmation};
use crate::text::{push_str, string_of, string_views};

verus! {

/// The question asked before every pdf is removed.
pub const CLEAN_QUESTION: &'static str = "Are you sure you want to remove all pdfs? [y/n]";

/// What a clean has to do.
#[derive(Debug)]
pub enum CleanAction {
    /// Remove nothing.
    Nothing,
    /// Let the user pick among the pdfs found, and remove what is picked.
    Choose { candidates: Vec<String> },
    /// Remove these pdfs.
    Remove { paths: Vec<String> },
}

/// Whether the user has to be asked before a clean: no search term is
/// given, so every pdf would be removed.
pub fn confirmation_needed(search_terms: &Vec<String>) -> (needed: bool)
    ensures
        needed == (search_terms@.len() == 0),
{
    search_terms.is_empty()
}

/// Whether a clean goes on: search terms are given, or the answer to the
/// question confirms.
pub open spec fn clean_goes_on(terms: Seq<String>, response: Option<String>) -> bool {
    terms.len() > 0 || (response is Some && confirms(response->Some_0@))
}

/// Decides a clean, given the answer to the question, where it was asked,
/// and the pdfs found. Without search terms and without a confirming
/// answer nothing is removed. Of several pdfs found the user picks, unless
/// all matches are to be used; otherwise all that were found are removed.
pub fn clean_main(
    search_terms: &Vec<String>,
    response: &Option<String>,
    use_all_matches: bool,
    matching_pdfs: Vec<String>,
) -> (action: CleanAction)
    ensures
        !clean_goes_on(search_terms@, *response) ==> action is Nothing,
        clean_goes_on(search_terms@, *response) && !use_all_matches && matching_pdfs@.len() > 1
            ==> action == (CleanAction::Choose { candidates: matching_pdfs }),
        clean_goes_on(search_terms@, *response) && (use_all_matches || matching_pdfs@.len() <= 1)
            ==> action == (CleanAction::Remove { paths: matching_pdfs }),
{
    if search_terms.is_empty() {
        let confirmed = match response {
            Some(answer) => received_confirmation(answer.as_str()),
            None => false,
        };
        if !confirmed {
            return CleanAction::Nothing;
        }
    }
    if !use_all_matches && matching_pdfs.len() > 1 {
        CleanAction::Choose { candidates: matching_pdfs }
    } else {
        CleanAction::Remove { paths: matching_pdfs }
    }
}

/// The lines printed for a pdf that was to be removed: that it is removed,
/// and after that, where removing it failed, that it failed and why.
pub fn removal_lines(path: &str, failure: &Option<String>) -> (lines: Vec<String>)
    ensures
        string_views(lines@) == (match *failure {
            Some(message) => seq![
                "Removed "@ + path@,
                "Failed to remove "@ + path@ + " ("@ + message@ + ")"@,
            ],
            None => seq!["Removed "@ + path@],
        }),
{
    let mut lines: Vec<String> = Vec::new();
    let mut out: Vec<char> = Vec::new();
    push_str(&mut out, "Removed ");
    push_str(&mut out, path);
    lines.push(string_of(&out));
    match failure {
        Some(message) => {
            let mut out: Vec<char> = Vec::new();
            push_str(&mut out, "Failed to remove ");
            push_str(&mut out, path);
            push_str(&mut out, " (");
            push_str(&mut out, message.as_str());
            push_str(&mut out, ")");
            lines.push(string_of(&out));
            assert(string_views(lines@) =~= seq![
                "Removed "@ + path@,
                "Failed to remove "@ + path@ + " ("@ + message@ + ")"@,
            ]);
        },
        None => {
            assert(string_views(lines@) =~= seq!["Removed "@ + path@]);
        },
    }
    lines
}

} // verus!
