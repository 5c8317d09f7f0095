//! Listing scores: which are shown, how a row reads, and in what order
//! the rows stand.

use vstd::prelude::*;
use crate::case::{brackets_fit, check_brackets, headline_case, to_headline};
use crate::style::{
    bold, bold_text, green, green_text, italic, italic_text, red, red_text, yellow, yellow_text,
};
use crate::text::{
    chars_of, equal, lemma_insert_adds, lemma_lex_total, lex_le, lex_le_in, lowercase_of,
    push_str, replace,
    replace_str, slice_of, starts_with, starts_with_in, string_of, string_views, to_lowercase,
};

verus! {

/// A score in the list: the names of the directories of its artist and of
/// the score, and whether its pdf is current.
#[derive(Debug)]
pub struct Composition {
    pub artist: String,
    pub title: String,
    pub is_compiled: bool,
}

/// How the name of a directory is shown: hyphens replaced by spaces, in
/// the case of a headline.
pub open spec fn display_of(value: Seq<char>) -> Seq<char> {
    headline_case(replace(value, "-"@, " "@))
}

/// A name that can be shown: with its hyphens replaced by spaces it can be
/// put in the case of a headline.
pub open spec fn displayable(value: Seq<char>) -> bool {
    brackets_fit(replace(value, "-"@, " "@))
}

/// How the name of a directory is shown.
pub fn get_display(value: &str) -> (display: String)
    requires
        displayable(value@),
    ensures
        display@ == display_of(value@),
{
    to_headline(replace_str(value, "-", " ").as_str())
}

/// How the name of a directory is shown; `None` where it cannot be shown.
pub fn check_display(value: &str) -> (display: Option<String>)
    ensures
        match display {
            Some(shown) => displayable(value@) && shown@ == display_of(value@),
            None => !displayable(value@),
        },
{
    let words = replace_str(value, "-", " ");
    if check_brackets(words.as_str()) {
        Some(to_headline(words.as_str()))
    } else {
        None
    }
}

impl Composition {
    /// The row of the score: the artist in yellow, the title in bold, and
    /// `compiled` in green or `missing` in red.
    pub open spec fn row(self) -> Seq<Seq<char>> {
        seq![
            yellow_text(display_of(self.artist@)),
            bold_text(display_of(self.title@)),
            if self.is_compiled {
                green_text("compiled"@)
            } else {
                red_text("missing"@)
            },
        ]
    }

    /// The artist and the title of the score can be shown.
    pub open spec fn displayable(self) -> bool {
        displayable(self.artist@) && displayable(self.title@)
    }

    /// The row of the score in the list.
    pub fn get_row_values(&self) -> (cells: Vec<String>)
        requires
            self.displayable(),
        ensures
            string_views(cells@) == self.row(),
    {
        let artist = get_display(self.artist.as_str());
        let title = get_display(self.title.as_str());
        let pdf = if self.is_compiled {
            green("compiled")
        } else {
            red("missing")
        };
        let mut cells: Vec<String> = Vec::new();
        cells.push(yellow(artist.as_str()));
        cells.push(bold(title.as_str()));
        cells.push(pdf);
        assert(string_views(cells@) =~= self.row());
        cells
    }

    /// The row of the score in the list; `None` where the artist or the
    /// title cannot be shown.
    pub fn check_row_values(&self) -> (cells: Option<Vec<String>>)
        ensures
            match cells {
                Some(row) => self.displayable() && string_views(row@) == self.row(),
                None => !self.displayable(),
            },
    {
        let artist = check_display(self.artist.as_str());
        let title = check_display(self.title.as_str());
        if artist.is_some() && title.is_some() {
            Some(self.get_row_values())
        } else {
            None
        }
    }
}

/// `value` without a leading `article` and the hyphen after it, where
/// `value` in lower case begins with them.
pub open spec fn without_article(value: Seq<char>, article: Seq<char>) -> Seq<char> {
    if starts_with(lowercase_of(value), article + "-"@) && article.len() + 1 <= value.len() {
        value.skip((article.len() + 1) as int)
    } else {
        value
    }
}

/// `value` without the leading `article`, in either case, and the hyphen
/// after it.
pub fn remove_leading_article(value: &String, article: &str) -> (r: String)
    ensures
        r@ == without_article(value@, article@),
{
    let mut prefix: Vec<char> = Vec::new();
    push_str(&mut prefix, article);
    push_str(&mut prefix, "-");
    proof {
        reveal_strlit("-");
    }
    assert(prefix@ =~= article@ + "-"@);
    let lower = chars_of(to_lowercase(value.as_str()).as_str());
    let letters = chars_of(value.as_str());
    if starts_with_in(&lower, &prefix) && prefix.len() <= letters.len() {
        let rest = slice_of(&letters, prefix.len(), letters.len());
        assert(rest@ =~= value@.skip((article@.len() + 1) as int));
        string_of(&rest)
    } else {
        value.clone()
    }
}

/// The key by which a name is ordered: the name without a leading `the`,
/// then without a leading `a`, then without a leading `an`.
pub open spec fn order_key(value: Seq<char>) -> Seq<char> {
    without_article(without_article(without_article(value, "the"@), "a"@), "an"@)
}

/// The key by which the name `value` is ordered.
pub fn remove_leading_articles(value: String) -> (r: String)
    ensures
        r@ == order_key(value@),
{
    let value = remove_leading_article(&value, "the");
    let value = remove_leading_article(&value, "a");
    remove_leading_article(&value, "an")
}

/// Whether a score is shown: the outdated ones where those are asked for,
/// the compiled ones where those are, and all where neither is.
pub fn should_display(outdated: bool, compiled: bool, pdf: bool) -> (shown: bool)
    ensures
        shown == ((outdated && !pdf) || (compiled && pdf) || (!outdated && !compiled)),
{
    outdated && !pdf || compiled && pdf || !outdated && !compiled
}

/// A score stands before another, or with it: its artist's key comes
/// first, or the keys of the artists are equal and its title's key comes
/// first or is equal.
pub open spec fn stands_before(a: Composition, b: Composition) -> bool {
    if order_key(a.artist@) == order_key(b.artist@) {
        lex_le(order_key(a.title@), order_key(b.title@))
    } else {
        lex_le(order_key(a.artist@), order_key(b.artist@))
    }
}

/// Whether `a` stands before `b` or with it.
pub fn precedes(a: &Composition, b: &Composition) -> (r: bool)
    ensures
        r == stands_before(*a, *b),
{
    let a_artist = chars_of(remove_leading_articles(a.artist.clone()).as_str());
    let b_artist = chars_of(remove_leading_articles(b.artist.clone()).as_str());
    if equal(&a_artist, &b_artist) {
        let a_title = chars_of(remove_leading_articles(a.title.clone()).as_str());
        let b_title = chars_of(remove_leading_articles(b.title.clone()).as_str());
        lex_le_in(&a_title, &b_title)
    } else {
        lex_le_in(&a_artist, &b_artist)
    }
}

/// Of two scores one stands before the other, or with it.
pub proof fn lemma_stands_before_total(a: Composition, b: Composition)
    ensures
        stands_before(a, b) || stands_before(b, a),
{
    lemma_lex_total(order_key(a.artist@), order_key(b.artist@));
    lemma_lex_total(order_key(a.title@), order_key(b.title@));
}

/// Each score stands before the next, or with it.
pub open spec fn in_order(compositions: Seq<Composition>) -> bool {
    forall|i: int|
        0 <= i && i + 1 < compositions.len() ==> stands_before(
            #[trigger] compositions[i],
            compositions[i + 1],
        )
}

/// The scores in the order of the list: by artist, then by title, leading
/// articles aside.
pub fn sort_compositions(compositions: Vec<Composition>) -> (r: Vec<Composition>)
    ensures
        r@.to_multiset() == compositions@.to_multiset(),
        in_order(r@),
{
    let mut rest = compositions;
    let mut r: Vec<Composition> = Vec::new();
    let ghost all = compositions@;
    assert(r@.to_multiset().add(rest@.to_multiset()) =~= all.to_multiset()) by {
        broadcast use vstd::seq_lib::group_to_multiset_ensures;

        assert(r@.to_multiset() =~= vstd::multiset::Multiset::<Composition>::empty());
    }
    while rest.len() > 0
        invariant
            r@.to_multiset().add(rest@.to_multiset()) == all.to_multiset(),
            in_order(r@),
        decreases rest.len(),
    {
        let ghost rest_before = rest@;
        let x = rest.remove(0);
        let mut j: usize = r.len();
        while j > 0 && !precedes(&r[j - 1], &x)
            invariant
                j <= r.len(),
                j < r@.len() ==> !stands_before(r@[j as int], x),
            decreases j,
        {
            j -= 1;
        }
        let ghost before = r@;
        r.insert(j, x);
        proof {
            lemma_insert_adds(before, j as int, x);
            broadcast use vstd::seq_lib::group_to_multiset_ensures;

            assert(rest@ =~= rest_before.remove(0));
            assert(rest_before.to_multiset() =~= rest@.to_multiset().insert(x));
            assert(r@.to_multiset().add(rest@.to_multiset()) =~= before.to_multiset().add(
                rest_before.to_multiset(),
            ));
            assert forall|i: int| 0 <= i && i + 1 < r@.len() implies stands_before(
                #[trigger] r@[i],
                r@[i + 1],
            ) by {
                if i + 1 < j {
                    assert(stands_before(before[i], before[i + 1]));
                } else if i + 1 == j {
                } else if i == j {
                    lemma_stands_before_total(before[j as int], x);
                } else {
                    assert(stands_before(before[i - 1], before[i]));
                }
            }
        }
    }
    assert(r@.to_multiset() =~= all.to_multiset()) by {
        broadcast use vstd::seq_lib::group_to_multiset_ensures;

        assert(rest@ =~= Seq::<Composition>::empty());
        assert(rest@.to_multiset() =~= vstd::multiset::Multiset::<Composition>::empty());
    }
    r
}

/// The titles of the list of scores, in italics.
pub open spec fn list_titles() -> Seq<Seq<char>> {
    seq![italic_text("Artist"@), italic_text("Title"@), italic_text("Status"@)]
}

/// The titles of the list of scores.
pub fn list_header() -> (header: Vec<String>)
    ensures
        string_views(header@) == list_titles(),
{
    let mut header: Vec<String> = Vec::new();
    header.push(italic("Artist"));
    header.push(italic("Title"));
    header.push(italic("Status"));
    assert(string_views(header@) =~= list_titles());
    header
}

/// The pattern for the pdfs of the score whose directory is named `name`.
pub fn pdf_pattern(pdfs_directory: &str, name: &str) -> (pattern: String)
    ensures
        pattern@ == pdfs_directory@ + "/"@ + name@ + "*.pdf"@,
{
    let mut out: Vec<char> = Vec::new();
    push_str(&mut out, pdfs_directory);
    push_str(&mut out, "/");
    push_str(&mut out, name);
    push_str(&mut out, "*.pdf");
    string_of(&out)
}

} // verus!
