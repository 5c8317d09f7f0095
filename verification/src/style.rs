//! Terminal styles: the escape sequences that `owo-colors` puts round a
//! text.

use vstd::prelude::*;
use owo_colors::OwoColorize;

verus! {

/// `text` in bold: between the sequence that sets bold and the one that
/// resets all styles.
pub open spec fn bold_text(text: Seq<char>) -> Seq<char> {
    "\x1b[1m"@ + text + "\x1b[0m"@
}

/// `text` in italics: between the sequence that sets italics and the one
/// that resets all styles.
pub open spec fn italic_text(text: Seq<char>) -> Seq<char> {
    "\x1b[3m"@ + text + "\x1b[0m"@
}

/// `text` in red: between the sequence that sets a red foreground and the
/// one that sets the default foreground.
pub open spec fn red_text(text: Seq<char>) -> Seq<char> {
    "\x1b[31m"@ + text + "\x1b[39m"@
}

/// `text` in green.
pub open spec fn green_text(text: Seq<char>) -> Seq<char> {
    "\x1b[32m"@ + text + "\x1b[39m"@
}

/// `text` in yellow.
pub open spec fn yellow_text(text: Seq<char>) -> Seq<char> {
    "\x1b[33m"@ + text + "\x1b[39m"@
}

/// `OwoColorize::bold`, displayed. Trusted: the text between `ESC[1m` and
/// `ESC[0m`.
#[verifier::external_body]
pub(crate) fn bold(text: &str) -> (styled: String)
    ensures
        styled@ == bold_text(text@),
{
    text.bold().to_string()
}

/// `OwoColorize::italic`, displayed. Trusted: the text between `ESC[3m` and
/// `ESC[0m`.
#[verifier::external_body]
pub(crate) fn italic(text: &str) -> (styled: String)
    ensures
        styled@ == italic_text(text@),
{
    text.italic().to_string()
}

/// `OwoColorize::red`, displayed. Trusted: the text between `ESC[31m` and
/// `ESC[39m`.
#[verifier::external_body]
pub(crate) fn red(text: &str) -> (styled: String)
    ensures
        styled@ == red_text(text@),
{
    text.red().to_string()
}

/// `OwoColorize::green`, displayed. Trusted: the text between `ESC[32m` and
/// `ESC[39m`.
#[verifier::external_body]
pub(crate) fn green(text: &str) -> (styled: String)
    ensures
        styled@ == green_text(text@),
{
    text.green().to_string()
}

/// `OwoColorize::yellow`, displayed. Trusted: the text between `ESC[33m`
/// and `ESC[39m`.
#[verifier::external_body]
pub(crate) fn yellow(text: &str) -> (styled: String)
    ensures
        styled@ == yellow_text(text@),
{
    text.yellow().to_string()
}

} // verus!
