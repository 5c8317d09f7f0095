//! The commands of the tool and the values they take.

use vstd::prelude::*;
use crate::case::{kebab_case, to_kebab};
use crate::config::Config;
use crate::helpers::Helper;
use crate::paths::{expansion_of, tilde};
use crate::templates::Template;
use crate::text::{chars_of, equal, lowercase_of, remove_char, string_of, to_lowercase, without};
use crate::version::VersionStability;

verus! {

/// The settings that the configuration holds.
#[derive(Clone, Copy, Debug, PartialEq, Eq, Structural)]
pub enum ConfigKey {
    Composer,
    Instrument,
    PDFSDirectory,
    ScoresDirectory,
    Template,
}

impl ConfigKey {
    /// The name of the key as it is written in the source.
    pub open spec fn name(self) -> Seq<char> {
        match self {
            ConfigKey::Composer => "Composer"@,
            ConfigKey::Instrument => "Instrument"@,
            ConfigKey::PDFSDirectory => "PDFSDirectory"@,
            ConfigKey::ScoresDirectory => "ScoresDirectory"@,
            ConfigKey::Template => "Template"@,
        }
    }

    /// The key as it is typed and printed: its name in kebab case.
    pub fn to_string(&self) -> (s: String)
        ensures
            s@ == kebab_case(self.name()),
    {
        match self {
            ConfigKey::Composer => to_kebab("Composer"),
            ConfigKey::Instrument => to_kebab("Instrument"),
            ConfigKey::PDFSDirectory => to_kebab("PDFSDirectory"),
            ConfigKey::ScoresDirectory => to_kebab("ScoresDirectory"),
            ConfigKey::Template => to_kebab("Template"),
        }
    }
}

/// Which files of a score a command is about.
#[derive(Clone, Copy, Debug, PartialEq, Eq, Structural)]
pub enum ScoreFileType {
    Both,
    Lilypond,
    Pdf,
}

/// The shells for which the tool can keep the search path current.
#[derive(Clone, Copy, Debug, PartialEq, Eq, Structural)]
pub enum Shell {
    Nu,
    Zsh,
}

/// The commands on installed and offered versions of LilyPond.
#[allow(inconsistent_fields)]
#[derive(Debug)]
pub enum LilypondCommand {
    /// Install a version.
    Install { version: Option<String> },
    /// Uninstall a version.
    Uninstall { version: String },
    /// List the installed versions.
    List { version_regex: Option<String>, stability: Option<VersionStability> },
    /// List the versions that can be downloaded.
    ListRemote { version_regex: Option<String>, stability: Option<VersionStability> },
}

/// The commands on templates.
#[derive(Debug)]
pub enum TemplateCommand {
    /// Show the text of a template.
    Show { template: Template },
}

/// The commands on helper files.
#[derive(Debug)]
pub enum HelperCommand {
    /// Show the text of a helper file.
    Show { helper: Helper },
}

/// The commands of the tool.
#[allow(inconsistent_fields)]
#[derive(Debug)]
pub enum Command {
    /// Print the hook that keeps the search path of a shell current.
    Activate { shell: Shell },
    /// Print the search path with the selected version in front.
    UpdatePath { shell: Shell, version: Option<String> },
    /// Remove pdfs.
    Clean {
        search_terms: Vec<String>,
        artist: bool,
        title: bool,
        all: bool,
        scores_directory: Option<String>,
        pdfs_directory: Option<String>,
    },
    /// Create pdfs.
    Compile {
        search_terms: Vec<String>,
        artist: bool,
        title: bool,
        all: bool,
        lilypond_version: Option<String>,
        scores_directory: Option<String>,
        pdfs_directory: Option<String>,
        force: bool,
    },
    /// Show or change the configuration.
    Config { key: Option<ConfigKey>, set: Option<String>, edit: bool, path: bool },
    /// Create a score from a template.
    Create {
        title: String,
        subtitle: Option<String>,
        composer: Option<String>,
        arranger: Option<String>,
        template: Option<Template>,
        instrument: Option<String>,
        edit: bool,
        lilypond_version: Option<String>,
        scores_directory: Option<String>,
        pdfs_directory: Option<String>,
    },
    /// Open a score in the editor and the viewer, and compile it on change.
    Edit {
        search_terms: String,
        artist: bool,
        title: bool,
        all: bool,
        lilypond_version: Option<String>,
        scores_directory: Option<String>,
        pdfs_directory: Option<String>,
    },
    /// Show what a score's file says of it.
    Info {
        search_term: String,
        artist: bool,
        title: bool,
        all: bool,
        scores_directory: Option<String>,
    },
    /// Show or manage the installed versions of LilyPond.
    Lilypond { version: Option<String>, command: Option<LilypondCommand> },
    /// List scores.
    List {
        search_terms: Vec<String>,
        compiled: bool,
        outdated: bool,
        artist: bool,
        title: bool,
        scores_directory: Option<String>,
        pdfs_directory: Option<String>,
    },
    /// Open scores.
    Open {
        search_terms: Vec<String>,
        artist: bool,
        title: bool,
        all: bool,
        file_type: Option<ScoreFileType>,
        scores_directory: Option<String>,
        pdfs_directory: Option<String>,
    },
    /// List the templates.
    Templates { command: Option<TemplateCommand> },
    /// List the helper files.
    Helpers { command: Option<HelperCommand> },
    /// Open a temporary score.
    Sketch { lilypond_version: Option<String> },
    /// Change the version line of scores.
    UpdateVersion {
        search_terms: Vec<String>,
        version: Option<String>,
        artist: bool,
        title: bool,
        all: bool,
        scores_directory: Option<String>,
    },
}

/// The composer to use: the one given, with `~` expanded, or else the
/// configured one.
pub fn get_composer_from_arg(composer: &Option<String>, config: &Config) -> (r: String)
    ensures
        match *composer {
            Some(given) => expansion_of(given@, r@),
            None => r@ == config.composer@,
        },
{
    match composer {
        Some(given) => tilde(given.as_str()),
        None => config.get_composer(),
    }
}

/// The template to use: the one given, or else the configured one.
pub fn get_template_from_arg(template: &Option<Template>, config: &Config) -> (r: Template)
    ensures
        r == (match *template {
            Some(given) => given,
            None => config.template,
        }),
{
    match template {
        Some(given) => *given,
        None => config.get_template(),
    }
}

/// The directory of the scores: the one given, with `~` expanded, or else
/// the configured one.
pub fn get_scores_directory_from_arg(scores_directory: &Option<String>, config: &Config) -> (r:
    String)
    ensures
        match *scores_directory {
            Some(given) => expansion_of(given@, r@),
            None => r@ == config.scores_directory@,
        },
{
    match scores_directory {
        Some(given) => tilde(given.as_str()),
        None => config.get_scores_directory(),
    }
}

/// The directory of the pdfs: the one given, with `~` expanded, or else the
/// configured one.
pub fn get_pdfs_directory_from_arg(pdfs_directory: &Option<String>, config: &Config) -> (r: String)
    ensures
        match *pdfs_directory {
            Some(given) => expansion_of(given@, r@),
            None => r@ == config.pdfs_directory@,
        },
{
    match pdfs_directory {
        Some(given) => tilde(given.as_str()),
        None => config.get_pdfs_directory(),
    }
}

/// Whether the answer to a question is yes: `y` in either case, line feeds
/// aside.
pub open spec fn confirms(response: Seq<char>) -> bool {
    lowercase_of(without(response, '\n')) == "y"@
}

/// Whether `response`, the line read after a question, confirms it.
pub fn received_confirmation(response: &str) -> (confirmed: bool)
    ensures
        confirmed == confirms(response@),
{
    let line = string_of(&remove_char(&chars_of(response), '\n'));
    let lower = to_lowercase(line.as_str());
    equal(&chars_of(lower.as_str()), &chars_of("y"))
}

} // verus!
