//! Tables of text, as `tabled` draws them.

use vstd::prelude::*;

verus! {

/// The cells of a list of records as plain values.
pub open spec fn record_views(records: Seq<Vec<String>>) -> Seq<Seq<Seq<char>>> {
    Seq::new(
        records.len(),
        |i: int| Seq::new(records[i]@.len(), |j: int| records[i]@[j]@),
    )
}

/// The table that `tabled` draws of `records` in its rounded style, a line
/// under the first record.
pub uninterp spec fn rounded_table(records: Seq<Seq<Seq<char>>>) -> Seq<char>;

/// The table that `tabled` draws of `records` in its rounded style without
/// horizontal lines between records.
pub uninterp spec fn rounded_table_without_lines(records: Seq<Seq<Seq<char>>>) -> Seq<char>;

/// `tabled::builder::Builder` filled with `records`, built, and displayed
/// with `Style::rounded()`. Trusted: the text depends on the cells alone.
#[verifier::external_body]
fn draw_rounded(records: &Vec<Vec<String>>) -> (text: String)
    ensures
        text@ == rounded_table(record_views(records@)),
{
    let mut builder = tabled::builder::Builder::default();
    for record in records {
        builder.push_record(record);
    }
    builder.build().with(tabled::settings::Style::rounded()).to_string()
}

/// `tabled::builder::Builder` filled with `records`, built, and displayed
/// with `Style::rounded().remove_horizontals()`. Trusted: the text depends
/// on the cells alone.
#[verifier::external_body]
fn draw_rounded_without_lines(records: &Vec<Vec<String>>) -> (text: String)
    ensures
        text@ == rounded_table_without_lines(record_views(records@)),
{
    let mut builder = tabled::builder::Builder::default();
    for record in records {
        builder.push_record(record);
    }
    builder.build().with(tabled::settings::Style::rounded().remove_horizontals()).to_string()
}

/// The text of a table: with titles, the titles as first record and a line
/// under them; without, the rows alone and no line between them.
pub open spec fn table_text(titles: Seq<Seq<char>>, rows: Seq<Seq<Seq<char>>>) -> Seq<char> {
    if titles.len() == 0 {
        rounded_table_without_lines(rows)
    } else {
        rounded_table(seq![titles] + rows)
    }
}

/// The table of `rows` under `titles`, as it is printed.
pub fn print_table(titles: Vec<String>, rows: Vec<Vec<String>>) -> (text: String)
    ensures
        text@ == table_text(crate::text::string_views(titles@), record_views(rows@)),
{
    if titles.is_empty() {
        draw_rounded_without_lines(&rows)
    } else {
        let mut records: Vec<Vec<String>> = Vec::new();
        let ghost header = crate::text::string_views(titles@);
        records.push(titles);
        let mut rows = rows;
        let ghost body = record_views(rows@);
        assert(record_views(records@) =~~= seq![header]);
        records.append(&mut rows);
        assert(record_views(records@) =~~= seq![header] + body);
        draw_rounded(&records)
    }
}

} // verus!
