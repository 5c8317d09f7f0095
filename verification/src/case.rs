//! Letter case of words, as the crates `convert_case` and `titlecase`
//! define it.

use vstd::prelude::*;
use convert_case::{Case, Casing};
use crate::text::{chars_of, count_char, count_of};

verus! {

/// What `convert_case` makes of `s` in kebab case.
pub uninterp spec fn kebab_case(s: Seq<char>) -> Seq<char>;

/// What `convert_case` makes of `s` in title case.
pub uninterp spec fn title_case(s: Seq<char>) -> Seq<char>;

/// What `titlecase::titlecase` makes of `s`.
pub uninterp spec fn headline_case(s: Seq<char>) -> Seq<char>;

/// `Casing::to_case` with `Case::Kebab`. Trusted: the result depends on the
/// characters of `s` alone.
#[verifier::external_body]
pub(crate) fn to_kebab(s: &str) -> (r: String)
    ensures
        r@ == kebab_case(s@),
{
    s.to_case(Case::Kebab)
}

/// `Casing::to_case` with `Case::Title`. Trusted: the result depends on the
/// characters of `s` alone.
#[verifier::external_body]
pub(crate) fn to_title(s: &str) -> (r: String)
    ensures
        r@ == title_case(s@),
{
    s.to_case(Case::Title)
}

/// How many opening brackets a text may hold to be put in the case of a
/// headline.
pub const MAX_BRACKETS: usize = 16;

/// A text that can be put in the case of a headline: it holds at most
/// sixteen opening brackets. `titlecase` calls itself once for each
/// opening bracket that begins a word or what is left of one, and so needs
/// stack in proportion to their number.
pub open spec fn brackets_fit(s: Seq<char>) -> bool {
    count_of(s, '(') <= MAX_BRACKETS
}

/// Whether `s` can be put in the case of a headline.
pub fn check_brackets(s: &str) -> (fit: bool)
    ensures
        fit == brackets_fit(s@),
{
    count_char(&chars_of(s), '(') <= MAX_BRACKETS
}

/// `titlecase::titlecase`. Trusted: for a text with at most sixteen opening
/// brackets it returns, and the result depends on the characters of `s`
/// alone.
#[verifier::external_body]
pub(crate) fn to_headline(s: &str) -> (r: String)
    requires
        brackets_fit(s@),
    ensures
        r@ == headline_case(s@),
{
    titlecase::titlecase(s)
}

} // verus!
