//! Finding scores: which of the scores on disk the search terms match.

use vstd::prelude::*;
use crate::text::{
    contains, contains_str, equal_str, push_str, replace, replace_str, string_of, string_views,
};

verus! {

/// The directory of temporary scores.
pub const TEMPORARY_DIRECTORY: &'static str = "/tmp/thoth";

/// The file of the temporary score.
pub fn get_temporary_ly_file() -> (path: String)
    ensures
        path@ == TEMPORARY_DIRECTORY@ + "/sketch.ly"@,
{
    let mut out: Vec<char> = Vec::new();
    push_str(&mut out, TEMPORARY_DIRECTORY);
    push_str(&mut out, "/sketch.ly");
    string_of(&out)
}

/// One score on disk: the name of the directory of its artist, the name of
/// its own directory, and the path of that directory.
#[derive(Debug)]
pub struct ScoreEntry {
    pub artist: String,
    pub name: String,
    pub path: String,
}

/// The name of a directory read as words: hyphens replaced by spaces.
pub open spec fn words_of(name: Seq<char>) -> Seq<char> {
    replace(name, "-"@, " "@)
}

/// The name of a directory read as words.
pub fn convert_path_to_string(name: &str) -> (words: String)
    ensures
        words@ == words_of(name@),
{
    replace_str(name, "-", " ")
}

/// Whether a search term matches a score: it occurs in the artist where
/// artists are searched, in the title where titles are searched, and in
/// either where neither is asked for.
pub open spec fn term_matches(
    artist: Seq<char>,
    title: Seq<char>,
    term: Seq<char>,
    search_artist: bool,
    search_title: bool,
) -> bool {
    (!search_artist && !search_title && (contains(artist, term) || contains(title, term))) || (
    search_artist && contains(artist, term)) || (search_title && contains(title, term))
}

/// Whether the search terms match a score: there is no term, or one of
/// them matches.
pub open spec fn score_matches(
    artist: Seq<char>,
    title: Seq<char>,
    terms: Seq<Seq<char>>,
    search_artist: bool,
    search_title: bool,
) -> bool {
    terms.len() == 0 || exists|i: int|
        0 <= i < terms.len() && term_matches(
            artist,
            title,
            #[trigger] terms[i],
            search_artist,
            search_title,
        )
}

/// Whether `search_terms` match the score of `artist` with `title`.
pub fn is_match(
    artist: &str,
    title: &str,
    search_terms: &Vec<String>,
    search_artist: bool,
    search_title: bool,
) -> (matched: bool)
    ensures
        matched == score_matches(
            artist@,
            title@,
            string_views(search_terms@),
            search_artist,
            search_title,
        ),
{
    if search_terms.is_empty() {
        return true;
    }
    let ghost terms = string_views(search_terms@);
    let mut i: usize = 0;
    while i < search_terms.len()
        invariant
            i <= search_terms.len(),
            terms == string_views(search_terms@),
            forall|j: int|
                0 <= j < i ==> !term_matches(
                    artist@,
                    title@,
                    #[trigger] terms[j],
                    search_artist,
                    search_title,
                ),
        decreases search_terms.len() - i,
    {
        let term = search_terms[i].as_str();
        assert(terms[i as int] == term@);
        let in_artist = contains_str(artist, term);
        let in_title = contains_str(title, term);
        if (!search_artist && !search_title && (in_artist || in_title)) || (search_artist
            && in_artist) || (search_title && in_title) {
            return true;
        }
        i += 1;
    }
    false
}

/// Whether `entry` is a score that the search terms match: it is not the
/// folder file of the desktop, and the terms match its artist and title
/// read as words.
pub open spec fn entry_matches(
    entry: ScoreEntry,
    terms: Seq<Seq<char>>,
    search_artist: bool,
    search_title: bool,
) -> bool {
    entry.name@ != ".DS_Store"@ && score_matches(
        words_of(entry.artist@),
        words_of(entry.name@),
        terms,
        search_artist,
        search_title,
    )
}

/// The paths of those of `entries` that match, in order.
pub open spec fn found(
    entries: Seq<ScoreEntry>,
    terms: Seq<Seq<char>>,
    search_artist: bool,
    search_title: bool,
) -> Seq<Seq<char>>
    decreases entries.len(),
{
    if entries.len() == 0 {
        Seq::empty()
    } else if entry_matches(entries.last(), terms, search_artist, search_title) {
        found(entries.drop_last(), terms, search_artist, search_title).push(entries.last().path@)
    } else {
        found(entries.drop_last(), terms, search_artist, search_title)
    }
}

/// The paths of the scores among `entries` that `search_terms` match, in
/// the order of `entries`.
pub fn search(
    entries: &Vec<ScoreEntry>,
    search_terms: &Vec<String>,
    search_artist: bool,
    search_title: bool,
) -> (matching_scores: Vec<String>)
    ensures
        string_views(matching_scores@) == found(
            entries@,
            string_views(search_terms@),
            search_artist,
            search_title,
        ),
{
    let mut matching_scores: Vec<String> = Vec::new();
    let ghost terms = string_views(search_terms@);
    let mut i: usize = 0;
    assert(entries@.take(0) =~= Seq::<ScoreEntry>::empty());
    assert(string_views(matching_scores@) =~= found(
        entries@.take(0),
        terms,
        search_artist,
        search_title,
    ));
    while i < entries.len()
        invariant
            i <= entries.len(),
            terms == string_views(search_terms@),
            string_views(matching_scores@) == found(
                entries@.take(i as int),
                terms,
                search_artist,
                search_title,
            ),
        decreases entries.len() - i,
    {
        let ghost before = string_views(matching_scores@);
        assert(entries@.take(i + 1).drop_last() =~= entries@.take(i as int));
        let entry = &entries[i];
        if !equal_str(entry.name.as_str(), ".DS_Store") {
            let artist = convert_path_to_string(entry.artist.as_str());
            let title = convert_path_to_string(entry.name.as_str());
            if is_match(
                artist.as_str(),
                title.as_str(),
                search_terms,
                search_artist,
                search_title,
            ) {
                matching_scores.push(entry.path.clone());
                assert(string_views(matching_scores@) =~= before.push(entry.path@));
            }
        }
        i += 1;
    }
    assert(entries@.take(entries@.len() as int) =~= entries@);
    matching_scores
}

/// The pattern for the main files of the score in the directory `score`.
pub fn get_score_ly_file(score: &String) -> (pattern: String)
    ensures
        pattern@ == score@ + "/*.ly"@,
{
    let mut out: Vec<char> = Vec::new();
    push_str(&mut out, score.as_str());
    push_str(&mut out, "/*.ly");
    string_of(&out)
}

/// The pattern for the pdfs of the score with the file stem `stem`, under
/// any name that holds the stem.
pub fn get_found_pdfs(pdfs_directory: &str, stem: &str) -> (pattern: String)
    ensures
        pattern@ == pdfs_directory@ + "/*"@ + stem@ + "*.pdf"@,
{
    let mut out: Vec<char> = Vec::new();
    push_str(&mut out, pdfs_directory);
    push_str(&mut out, "/*");
    push_str(&mut out, stem);
    push_str(&mut out, "*.pdf");
    string_of(&out)
}

/// The text from which one of `paths` is picked: one path a line.
pub open spec fn lines_of(paths: Seq<Seq<char>>) -> Seq<char>
    decreases paths.len(),
{
    if paths.len() == 0 {
        Seq::empty()
    } else if paths.len() == 1 {
        paths[0]
    } else {
        lines_of(paths.drop_last()) + "\n"@ + paths.last()
    }
}

/// The text from which one of `paths` is picked.
pub fn get_items(paths: &Vec<String>) -> (input: String)
    ensures
        input@ == lines_of(string_views(paths@)),
{
    let mut out: Vec<char> = Vec::new();
    let ghost all = string_views(paths@);
    let mut i: usize = 0;
    assert(all.take(0) =~= Seq::<Seq<char>>::empty());
    while i < paths.len()
        invariant
            i <= paths.len(),
            all == string_views(paths@),
            out@ == lines_of(all.take(i as int)),
        decreases paths.len() - i,
    {
        assert(all.take(i + 1).drop_last() =~= all.take(i as int));
        assert(all.take(i + 1).last() == paths@[i as int]@);
        assert(all.take(i + 1)[0] == paths@[0]@);
        if i > 0 {
            push_str(&mut out, "\n");
        }
        push_str(&mut out, paths[i].as_str());
        assert(out@ =~= lines_of(all.take(i + 1)));
        i += 1;
    }
    assert(all.take(paths@.len() as int) =~= all);
    string_of(&out)
}

/// Whether the user picks among the scores found: more than one is found,
/// and not all matches are to be used.
pub fn get_selected_items(use_all_matches: bool, found: usize) -> (picks: bool)
    ensures
        picks == (!use_all_matches && found > 1),
{
    !use_all_matches && found > 1
}

/// Whether the name of a file or directory marks it as hidden: it begins
/// with a dot.
pub fn is_hidden(name: &str) -> (hidden: bool)
    ensures
        hidden == crate::text::starts_with(name@, "."@),
{
    crate::text::starts_with_in(&crate::text::chars_of(name), &crate::text::chars_of("."))
}

/// The line above the contents of the directory of the scores.
pub fn print_contents(directory: &str) -> (title: String)
    ensures
        title@ == "Default scores directory: "@ + directory@,
{
    let mut out: Vec<char> = Vec::new();
    push_str(&mut out, "Default scores directory: ");
    push_str(&mut out, directory);
    string_of(&out)
}

} // verus!
