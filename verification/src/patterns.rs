//! The glob patterns by which the files of scores are found.

use vstd::prelude::*;
use crate::commands::{get_pdfs_directory_from_arg, get_scores_directory_from_arg};
use crate::config::Config;
use crate::paths::expansion_of;
use crate::text::{equal_str, push_str, string_of, string_views};

verus! {

/// The directory in which files with `extension` are looked for: that of
/// the pdfs for `.pdf`, that of the scores for all others.
pub open spec fn base_directory(
    extension: Seq<char>,
    scores_directory: Option<Seq<char>>,
    pdfs_directory: Option<Seq<char>>,
    config: Config,
    directory: Seq<char>,
) -> bool {
    let given = if extension == ".pdf"@ {
        pdfs_directory
    } else {
        scores_directory
    };
    match given {
        Some(path) => expansion_of(path, directory),
        None => directory == (if extension == ".pdf"@ {
            config.pdfs_directory@
        } else {
            config.scores_directory@
        }),
    }
}

/// The beginning of every pattern for files with `extension`: the
/// directory they are looked for in, at any depth below it.
pub fn get_base(
    extension: &str,
    scores_directory: &Option<String>,
    pdfs_directory: &Option<String>,
    config: &Config,
) -> (base: String)
    ensures
        exists|directory: Seq<char>|
            base_directory(
                extension@,
                crate::templates::optional(*scores_directory),
                crate::templates::optional(*pdfs_directory),
                *config,
                directory,
            ) && base@ == directory + "/**/"@,
{
    let directory = if equal_str(extension, ".pdf") {
        get_pdfs_directory_from_arg(pdfs_directory, config)
    } else {
        get_scores_directory_from_arg(scores_directory, config)
    };
    let mut out: Vec<char> = Vec::new();
    push_str(&mut out, directory.as_str());
    push_str(&mut out, "/**/");
    assert(base_directory(
        extension@,
        crate::templates::optional(*scores_directory),
        crate::templates::optional(*pdfs_directory),
        *config,
        directory@,
    ));
    string_of(&out)
}

/// The pattern for the files of `score` with `extension` below `base`.
pub open spec fn score_pattern(base: Seq<char>, score: Seq<char>, extension: Seq<char>) -> Seq<
    char,
> {
    base + "*"@ + score + "*"@ + extension
}

/// The pattern for every file with `extension` below `base`.
pub open spec fn any_pattern(base: Seq<char>, extension: Seq<char>) -> Seq<char> {
    base + "*"@ + extension
}

/// The patterns for `scores` below `base`: one for each score, or the one
/// for every file where no score is named.
pub open spec fn patterns_below(base: Seq<char>, scores: Seq<Seq<char>>, extension: Seq<char>)
    -> Seq<Seq<char>> {
    if scores.len() > 0 {
        Seq::new(scores.len(), |i: int| score_pattern(base, scores[i], extension))
    } else {
        seq![any_pattern(base, extension)]
    }
}

/// The pattern for the files of `score` with `extension` below `base`.
pub fn get_score_file(score: &String, extension: &str, base: &str) -> (pattern: String)
    ensures
        pattern@ == score_pattern(base@, score@, extension@),
{
    let mut out: Vec<char> = Vec::new();
    push_str(&mut out, base);
    push_str(&mut out, "*");
    push_str(&mut out, score.as_str());
    push_str(&mut out, "*");
    push_str(&mut out, extension);
    assert(out@ =~= score_pattern(base@, score@, extension@));
    string_of(&out)
}

/// The patterns for the files of `scores` with `extension` below `base`.
pub fn patterns_for(scores: &Vec<String>, extension: &str, base: &str) -> (patterns: Vec<String>)
    ensures
        string_views(patterns@) == patterns_below(base@, string_views(scores@), extension@),
{
    let mut patterns: Vec<String> = Vec::new();
    if scores.is_empty() {
        let mut out: Vec<char> = Vec::new();
        push_str(&mut out, base);
        push_str(&mut out, "*");
        push_str(&mut out, extension);
        patterns.push(string_of(&out));
        assert(string_views(patterns@) =~= patterns_below(
            base@,
            string_views(scores@),
            extension@,
        ));
        return patterns;
    }
    let mut i: usize = 0;
    while i < scores.len()
        invariant
            i <= scores.len(),
            patterns@.len() == i,
            forall|j: int|
                0 <= j < i ==> (#[trigger] patterns@[j])@ == score_pattern(
                    base@,
                    scores@[j]@,
                    extension@,
                ),
        decreases scores.len() - i,
    {
        patterns.push(get_score_file(&scores[i], extension, base));
        i += 1;
    }
    assert(string_views(patterns@) =~= patterns_below(base@, string_views(scores@), extension@));
    patterns
}

/// The patterns for the files of `scores` with `extension`, in the
/// directory given or else the configured one.
pub fn get_patterns(
    scores: &Vec<String>,
    extension: &str,
    scores_directory: &Option<String>,
    pdfs_directory: &Option<String>,
    config: &Config,
) -> (patterns: Vec<String>)
    ensures
        exists|directory: Seq<char>|
            base_directory(
                extension@,
                crate::templates::optional(*scores_directory),
                crate::templates::optional(*pdfs_directory),
                *config,
                directory,
            ) && string_views(patterns@) == patterns_below(
                directory + "/**/"@,
                string_views(scores@),
                extension@,
            ),
{
    let base = get_base(extension, scores_directory, pdfs_directory, config);
    patterns_for(scores, extension, base.as_str())
}

} // verus!
