//! Where the tool keeps its files, and the expansion of `~` in a path.

use vstd::prelude::*;
use crate::text::ends_with;

verus! {

/// The file that holds the globally selected version.
pub const GLOBAL_PATH: &'static str = "~/.thoth-versions";

/// The directory under which each installed version has its own directory.
pub const INSTALL_PATH: &'static str = "~/.local/share/thoth";

/// The configuration file.
pub const CONFIG_PATH: &'static str = "~/.config/thoth/config.toml";

/// A path in which `~` stands for the home directory: `~` alone, or `~`
/// before a separator.
pub open spec fn tilde_applies(path: Seq<char>) -> bool {
    path.len() > 0 && path[0] == '~' && (path.len() == 1 || path[1] == '/' || path[1] == '\\')
}

/// `expanded` may be what `path` becomes when `~` is replaced by a home
/// directory: `path` itself, or, where `~` applies, some directory followed
/// by the rest of `path`.
pub open spec fn expansion_of(path: Seq<char>, expanded: Seq<char>) -> bool {
    expanded == path || (tilde_applies(path) && ends_with(expanded, path.skip(1)))
}

/// `shellexpand::tilde`. Trusted: a path in which `~` does not apply comes
/// back unchanged; one in which it applies comes back unchanged or with the
/// home directory of the machine in place of `~`.
#[verifier::external_body]
pub(crate) fn tilde(path: &str) -> (expanded: String)
    ensures
        expansion_of(path@, expanded@),
{
    shellexpand::tilde(path).to_string()
}

/// The directory under which versions are installed.
pub fn get_install_path() -> (path: String)
    ensures
        expansion_of(INSTALL_PATH@, path@),
{
    tilde(INSTALL_PATH)
}

/// The file that holds the globally selected version.
pub fn get_global_path() -> (path: String)
    ensures
        expansion_of(GLOBAL_PATH@, path@),
{
    tilde(GLOBAL_PATH)
}

/// The configuration file.
pub fn get_config_path() -> (path: String)
    ensures
        expansion_of(CONFIG_PATH@, path@),
{
    tilde(CONFIG_PATH)
}

} // verus!
