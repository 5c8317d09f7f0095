//! Regular expressions, as the `regex` crate reads and applies them.

use vstd::prelude::*;

verus! {

/// The error that `regex` gives for a pattern it cannot compile.
#[verifier::external_type_specification]
#[verifier::external_body]
pub struct ExRegexError(regex::Error);

/// Whether `regex::Regex::new` accepts `pattern`.
pub uninterp spec fn pattern_compiles(pattern: Seq<char>) -> bool;

/// A pattern that is no regular expression.
#[derive(Clone, Copy, Debug, PartialEq, Eq, Structural)]
pub struct InvalidPattern;

/// The first match of the compiled `pattern` in `text`, from the left
/// (`regex::Regex::find`).
pub uninterp spec fn pattern_first_match(pattern: Seq<char>, text: Seq<char>) -> Option<Seq<char>>;

/// `regex::Regex::new` on `pattern`, then `regex::Regex::find` on `text`.
/// Trusted: both depend on their arguments alone; the result is the compile
/// error exactly where the pattern does not compile, and otherwise the text
/// of the leftmost match, if there is a match.
#[verifier::external_body]
fn regex_find(pattern: &str, text: &str) -> (r: Result<Option<String>, regex::Error>)
    ensures
        r is Ok <==> pattern_compiles(pattern@),
        r is Ok ==> (match r->Ok_0 {
            Some(found) => pattern_first_match(pattern@, text@) == Some(found@),
            None => pattern_first_match(pattern@, text@) is None,
        }),
{
    Ok(regex::Regex::new(pattern)?.find(text).map(|found| found.as_str().to_string()))
}

/// The first match of `pattern` in `text`.
pub fn find_match(pattern: &str, text: &str) -> (r: Result<Option<String>, InvalidPattern>)
    ensures
        r is Ok <==> pattern_compiles(pattern@),
        r is Ok ==> (match r->Ok_0 {
            Some(found) => pattern_first_match(pattern@, text@) == Some(found@),
            None => pattern_first_match(pattern@, text@) is None,
        }),
{
    match regex_find(pattern, text) {
        Ok(found) => Ok(found),
        Err(_) => Err(InvalidPattern),
    }
}

/// Whether the compiled `pattern` matches somewhere in `text`: whether it
/// has a first match there.
pub open spec fn pattern_matches(pattern: Seq<char>, text: Seq<char>) -> bool {
    pattern_first_match(pattern, text) is Some
}

/// Whether `pattern` matches somewhere in `text`.
pub fn is_match(pattern: &str, text: &str) -> (r: Result<bool, InvalidPattern>)
    ensures
        r == (if pattern_compiles(pattern@) {
            Ok::<bool, InvalidPattern>(pattern_matches(pattern@, text@))
        } else {
            Err::<bool, InvalidPattern>(InvalidPattern)
        }),
{
    match find_match(pattern, text) {
        Ok(found) => Ok(found.is_some()),
        Err(e) => Err(e),
    }
}

/// For each of `texts`, whether `pattern` matches somewhere in it.
pub open spec fn match_flags(pattern: Seq<char>, texts: Seq<Seq<char>>) -> Seq<bool> {
    Seq::new(texts.len(), |i: int| pattern_matches(pattern, texts[i]))
}

/// The position of the first `true` in `flags`.
pub open spec fn first_set(flags: Seq<bool>) -> Option<int>
    decreases flags.len(),
{
    if flags.len() == 0 {
        None
    } else {
        match first_set(flags.drop_last()) {
            Some(i) => Some(i),
            None => if flags.last() {
                Some(flags.len() - 1)
            } else {
                None
            },
        }
    }
}

/// What `first_set` gives is the first position that holds `true`.
pub proof fn lemma_first_set(flags: Seq<bool>)
    ensures
        match first_set(flags) {
            Some(i) => 0 <= i < flags.len() && flags[i] && forall|j: int|
                0 <= j < i ==> !flags[j],
            None => forall|j: int| 0 <= j < flags.len() ==> !flags[j],
        },
    decreases flags.len(),
{
    if flags.len() > 0 {
        lemma_first_set(flags.drop_last());
        assert forall|j: int| 0 <= j < flags.len() - 1 implies flags[j]
            == flags.drop_last()[j] by {}
    }
}

/// For each of `texts`, whether `pattern` matches somewhere in it.
pub fn matching_flags(pattern: &str, texts: &Vec<String>) -> (r: Result<Vec<bool>, InvalidPattern>)
    ensures
        r == (if pattern_compiles(pattern@) {
            Ok::<Vec<bool>, InvalidPattern>(r->Ok_0)
        } else {
            Err::<Vec<bool>, InvalidPattern>(InvalidPattern)
        }),
        r is Ok ==> r->Ok_0@ == match_flags(pattern@, crate::text::string_views(texts@)),
{
    match is_match(pattern, "") {
        Err(e) => {
            return Err(e);
        },
        Ok(_) => {},
    }
    let mut flags: Vec<bool> = Vec::new();
    let mut i: usize = 0;
    while i < texts.len()
        invariant
            i <= texts.len(),
            pattern_compiles(pattern@),
            flags@.len() == i,
            forall|j: int| 0 <= j < i ==> flags@[j] == pattern_matches(pattern@, texts@[j]@),
        decreases texts.len() - i,
    {
        match is_match(pattern, texts[i].as_str()) {
            Ok(found) => {
                flags.push(found);
            },
            Err(e) => {
                return Err(e);
            },
        }
        i += 1;
    }
    assert(flags@ =~= match_flags(pattern@, crate::text::string_views(texts@)));
    Ok(flags)
}

/// The position of the first `true` in `flags`.
pub fn first_flag(flags: &Vec<bool>) -> (r: Option<usize>)
    ensures
        match r {
            Some(k) => first_set(flags@) == Some(k as int),
            None => first_set(flags@) is None,
        },
{
    let mut i: usize = 0;
    assert(flags@.take(0) =~= Seq::<bool>::empty());
    while i < flags.len()
        invariant
            i <= flags.len(),
            first_set(flags@.take(i as int)) is None,
        decreases flags.len() - i,
    {
        assert(flags@.take(i + 1).drop_last() =~= flags@.take(i as int));
        if flags[i] {
            proof {
                lemma_first_set_stays(flags@, i + 1);
            }
            return Some(i);
        }
        i += 1;
    }
    assert(flags@.take(flags@.len() as int) =~= flags@);
    None
}

/// A `true` among the first `k` flags is the first of the whole list.
pub proof fn lemma_first_set_stays(flags: Seq<bool>, k: int)
    requires
        0 <= k <= flags.len(),
        first_set(flags.take(k)) is Some,
    ensures
        first_set(flags) == first_set(flags.take(k)),
    decreases flags.len(),
{
    if k < flags.len() {
        assert(flags.drop_last().take(k) =~= flags.take(k));
        lemma_first_set_stays(flags.drop_last(), k);
    } else {
        assert(flags.take(k) =~= flags);
    }
}

} // verus!
