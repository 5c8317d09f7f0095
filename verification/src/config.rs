//! The configuration: the composer, the directories, the template and the
//! instrument that are used where a command names none.

use vstd::prelude::*;
use crate::commands::ConfigKey;
use crate::helpers::row;
use crate::paths::{expansion_of, tilde};
use crate::style::{bold, bold_text, yellow, yellow_text};
use crate::table::{print_table, record_views, table_text};
use crate::templates::{optional, Template};
use crate::text::{equal_str, push_str, string_of};

verus! {

/// The configuration as its file holds it: every setting may be missing.
#[derive(Debug)]
pub struct ConfigFile {
    pub composer: Option<String>,
    pub scores_directory: Option<String>,
    pub pdfs_directory: Option<String>,
    pub template: Option<Template>,
    pub instrument: Option<String>,
}

/// The configuration in use.
#[derive(Debug)]
pub struct Config {
    pub composer: String,
    pub scores_directory: String,
    pub pdfs_directory: String,
    pub template: Template,
    pub instrument: String,
}

/// `users::get_current_username`, as text. Trusted for nothing: who runs
/// the process is a fact of the machine. `None` where there is no such
/// user, or the name is not Unicode.
#[verifier::external_body]
fn current_username() -> (name: Option<String>)
{
    users::get_current_username().and_then(|name| name.to_str().map(|text| text.to_string()))
}

/// The name to use for a user who was looked up: the name found, or the
/// empty name where none was.
pub fn username_or_empty(found: Option<String>) -> (name: String)
    ensures
        name@ == (match found {
            Some(user) => user@,
            None => Seq::<char>::empty(),
        }),
{
    match found {
        Some(user) => user,
        None => String::new(),
    }
}

/// The name of the user who runs the process; empty where there is none.
/// Which name that is depends on the machine alone, so nothing is stated
/// of it here: `username_or_empty` says what becomes of each answer.
pub fn get_username() -> (name: String)
{
    username_or_empty(current_username())
}

/// The directory of the scores where none is configured.
pub fn get_default_scores_directory() -> (directory: String)
    ensures
        directory@ == "~/scores"@,
{
    "~/scores".to_owned()
}

/// The directory of the pdfs, below that of the scores, where none is
/// configured.
pub fn get_default_pdfs_directory() -> (directory: String)
    ensures
        directory@ == "pdfs"@,
{
    "pdfs".to_owned()
}

/// The template where none is configured.
pub fn get_default_template() -> (template: Template)
    ensures
        template == Template::Piano,
{
    Template::Piano
}

/// The instrument where none is configured.
pub fn get_default_instrument() -> (instrument: String)
    ensures
        instrument@ == "Instrument"@,
{
    "Instrument".to_owned()
}

/// The template that `value` names, in lower case.
pub fn get_template_from_string(value: &str) -> (template: Option<Template>)
    ensures
        template == (if value@ == "form"@ {
            Some(Template::Form)
        } else if value@ == "lead"@ {
            Some(Template::Lead)
        } else if value@ == "piano"@ {
            Some(Template::Piano)
        } else if value@ == "single"@ {
            Some(Template::Single)
        } else {
            None
        }),
{
    if equal_str(value, "form") {
        Some(Template::Form)
    } else if equal_str(value, "lead") {
        Some(Template::Lead)
    } else if equal_str(value, "piano") {
        Some(Template::Piano)
    } else if equal_str(value, "single") {
        Some(Template::Single)
    } else {
        None
    }
}

impl Default for ConfigFile {
    fn default() -> (file: Self)
        ensures
            file.composer is None,
            file.scores_directory is None,
            file.pdfs_directory is None,
            file.template is None,
            file.instrument is None,
    {
        ConfigFile {
            composer: None,
            scores_directory: None,
            pdfs_directory: None,
            template: None,
            instrument: None,
        }
    }
}

impl ConfigFile {
    /// The file that holds every setting of `config`.
    pub fn from_config(config: Config) -> (file: Self)
        ensures
            optional(file.composer) == Some(config.composer@),
            optional(file.scores_directory) == Some(config.scores_directory@),
            optional(file.pdfs_directory) == Some(config.pdfs_directory@),
            file.template == Some(config.template),
            optional(file.instrument) == Some(config.instrument@),
    {
        ConfigFile {
            composer: Some(config.composer),
            scores_directory: Some(config.scores_directory),
            pdfs_directory: Some(config.pdfs_directory),
            template: Some(config.template),
            instrument: Some(config.instrument),
        }
    }
}

impl Default for Config {
    fn default() -> (config: Self)
        ensures
            config.scores_directory@ == "~/scores"@,
            config.pdfs_directory@ == "pdfs"@,
            config.template == Template::Piano,
            config.instrument@ == "Instrument"@,
    {
        Config {
            composer: get_username(),
            scores_directory: get_default_scores_directory(),
            pdfs_directory: get_default_pdfs_directory(),
            template: get_default_template(),
            instrument: get_default_instrument(),
        }
    }
}

/// A row of the table of settings: the key in yellow, the value in bold.
pub open spec fn styled_row(key: Seq<char>, value: Seq<char>) -> Seq<Seq<char>> {
    seq![yellow_text(key), bold_text(value)]
}

impl Config {
    /// The configuration that a file gives. A missing composer is the user
    /// who runs the process. A directory given has `~` expanded; a missing
    /// directory of scores is `~/scores` as it stands, and a missing
    /// directory of pdfs is `pdfs` below the directory of scores. A missing
    /// template is the piano score, a missing instrument `Instrument`.
    pub fn from_config_file(config_file: ConfigFile) -> (config: Self)
        ensures
            match config_file.composer {
                Some(composer) => config.composer@ == composer@,
                None => true,
            },
            match config_file.scores_directory {
                Some(directory) => expansion_of(directory@, config.scores_directory@),
                None => config.scores_directory@ == "~/scores"@,
            },
            match config_file.pdfs_directory {
                Some(directory) => expansion_of(directory@, config.pdfs_directory@),
                None => config.pdfs_directory@ == config.scores_directory@ + "/"@ + "pdfs"@,
            },
            config.template == (match config_file.template {
                Some(template) => template,
                None => Template::Piano,
            }),
            config.instrument@ == (match config_file.instrument {
                Some(instrument) => instrument@,
                None => "Instrument"@,
            }),
    {
        let composer = match config_file.composer {
            Some(composer) => composer,
            None => get_username(),
        };
        let scores_directory = match config_file.scores_directory {
            Some(directory) => tilde(directory.as_str()),
            None => get_default_scores_directory(),
        };
        let pdfs_directory = match config_file.pdfs_directory {
            Some(directory) => tilde(directory.as_str()),
            None => {
                let mut out: Vec<char> = Vec::new();
                push_str(&mut out, scores_directory.as_str());
                push_str(&mut out, "/");
                push_str(&mut out, get_default_pdfs_directory().as_str());
                string_of(&out)
            },
        };
        let template = match config_file.template {
            Some(template) => template,
            None => get_default_template(),
        };
        let instrument = match config_file.instrument {
            Some(instrument) => instrument,
            None => get_default_instrument(),
        };
        Config { composer, scores_directory, pdfs_directory, template, instrument }
    }

    /// The configured composer.
    pub fn get_composer(&self) -> (composer: String)
        ensures
            composer@ == self.composer@,
    {
        self.composer.clone()
    }

    /// The configured instrument.
    pub fn get_instrument(&self) -> (instrument: String)
        ensures
            instrument@ == self.instrument@,
    {
        self.instrument.clone()
    }

    /// The configured directory of the scores.
    pub fn get_scores_directory(&self) -> (directory: String)
        ensures
            directory@ == self.scores_directory@,
    {
        self.scores_directory.clone()
    }

    /// The configured directory of the pdfs.
    pub fn get_pdfs_directory(&self) -> (directory: String)
        ensures
            directory@ == self.pdfs_directory@,
    {
        self.pdfs_directory.clone()
    }

    /// The configured template.
    pub fn get_template(&self) -> (template: Template)
        ensures
            template == self.template,
    {
        self.template
    }

    /// `key` as the table of settings shows a key.
    pub fn style_key(key: &str) -> (styled: String)
        ensures
            styled@ == yellow_text(key@),
    {
        yellow(key)
    }

    /// `value` as the table of settings shows a value.
    pub fn style_value(value: &str) -> (styled: String)
        ensures
            styled@ == bold_text(value@),
    {
        bold(value)
    }

    /// The row of the table of settings for `key` and `value`.
    pub fn style_key_value(key: &str, value: &str) -> (cells: Vec<String>)
        ensures
            crate::text::string_views(cells@) == styled_row(key@, value@),
    {
        let mut cells: Vec<String> = Vec::new();
        cells.push(Config::style_key(key));
        cells.push(Config::style_value(value));
        assert(crate::text::string_views(cells@) =~= styled_row(key@, value@));
        cells
    }

    /// The rows of the table of settings.
    pub open spec fn rows(&self) -> Seq<Seq<Seq<char>>> {
        seq![
            styled_row("composer"@, self.composer@),
            styled_row("instrument"@, self.instrument@),
            styled_row("scores_directory"@, self.scores_directory@),
            styled_row("pdfs_directory"@, self.pdfs_directory@),
            styled_row("template"@, self.template.name()),
        ]
    }

    /// The table of settings, as it is printed: one row for each setting,
    /// without titles.
    pub fn display(&self) -> (text: String)
        ensures
            text@ == table_text(Seq::empty(), self.rows()),
    {
        let mut rows: Vec<Vec<String>> = Vec::new();
        rows.push(Config::style_key_value("composer", self.composer.as_str()));
        rows.push(Config::style_key_value("instrument", self.instrument.as_str()));
        rows.push(Config::style_key_value("scores_directory", self.scores_directory.as_str()));
        rows.push(Config::style_key_value("pdfs_directory", self.pdfs_directory.as_str()));
        rows.push(Config::style_key_value("template", self.template.to_string().as_str()));
        assert(record_views(rows@) =~~= self.rows()) by {
            assert forall|i: int| 0 <= i < 5 implies record_views(rows@)[i] == self.rows()[i] by {
                assert(record_views(rows@)[i] =~= crate::text::string_views(rows@[i]@));
            }
        }
        let titles: Vec<String> = Vec::new();
        assert(crate::text::string_views(titles@) =~= Seq::<Seq<char>>::empty());
        print_table(titles, rows)
    }

    /// The value of the setting `key`, as it is printed; the template by
    /// its name.
    pub fn display_value(&self, key: &ConfigKey) -> (text: String)
        ensures
            text@ == (match *key {
                ConfigKey::Composer => self.composer@,
                ConfigKey::Instrument => self.instrument@,
                ConfigKey::ScoresDirectory => self.scores_directory@,
                ConfigKey::PDFSDirectory => self.pdfs_directory@,
                ConfigKey::Template => self.template.name(),
            }),
    {
        match key {
            ConfigKey::Composer => self.get_composer(),
            ConfigKey::Instrument => self.get_instrument(),
            ConfigKey::ScoresDirectory => self.get_scores_directory(),
            ConfigKey::PDFSDirectory => self.get_pdfs_directory(),
            ConfigKey::Template => self.get_template().to_string(),
        }
    }

    /// Sets the setting `key` to `value`. A template is set only where
    /// `value` names one.
    pub fn set_value(&mut self, key: &ConfigKey, value: String)
        ensures
            final(self).composer@ == (if *key == ConfigKey::Composer {
                value@
            } else {
                old(self).composer@
            }),
            final(self).instrument@ == (if *key == ConfigKey::Instrument {
                value@
            } else {
                old(self).instrument@
            }),
            final(self).scores_directory@ == (if *key == ConfigKey::ScoresDirectory {
                value@
            } else {
                old(self).scores_directory@
            }),
            final(self).pdfs_directory@ == (if *key == ConfigKey::PDFSDirectory {
                value@
            } else {
                old(self).pdfs_directory@
            }),
            final(self).template == (if *key == ConfigKey::Template {
                if value@ == "form"@ {
                    Template::Form
                } else if value@ == "lead"@ {
                    Template::Lead
                } else if value@ == "piano"@ {
                    Template::Piano
                } else if value@ == "single"@ {
                    Template::Single
                } else {
                    old(self).template
                }
            } else {
                old(self).template
            }),
    {
        match key {
            ConfigKey::Composer => {
                self.composer = value;
            },
            ConfigKey::ScoresDirectory => {
                self.scores_directory = value;
            },
            ConfigKey::PDFSDirectory => {
                self.pdfs_directory = value;
            },
            ConfigKey::Template => {
                match get_template_from_string(value.as_str()) {
                    Some(template) => {
                        self.template = template;
                    },
                    None => {},
                }
            },
            ConfigKey::Instrument => {
                self.instrument = value;
            },
        }
    }
}

/// What the command on the configuration does.
#[derive(Debug)]
pub enum ConfigAction {
    /// Open the configuration file in the editor.
    Edit,
    /// Print the path of the configuration file.
    DisplayPath,
    /// Print the value of a setting.
    DisplayValue { key: ConfigKey },
    /// Set a setting, write the configuration, and print it.
    SetValue { key: ConfigKey, value: String },
    /// Print that the key to set is missing.
    AskForKey,
    /// Print the whole configuration.
    Display,
}

/// What is printed where a value is given without a key.
pub const KEY_MISSING: &'static str = "Please specify the key to set.";

/// Decides the command on the configuration. Editing comes first, then
/// the path; a key is shown, or set where a value is given; a value
/// without a key is asked its key; without either the whole configuration
/// is shown.
pub fn config_main(
    edit: bool,
    path: bool,
    key: &Option<ConfigKey>,
    set: &Option<String>,
) -> (action: ConfigAction)
    ensures
        edit ==> action is Edit,
        !edit && path ==> action is DisplayPath,
        !edit && !path ==> (match (*key, *set) {
            (Some(k), Some(v)) => action matches ConfigAction::SetValue { key, value } && key == k
                && value@ == v@,
            (Some(k), None) => action == (ConfigAction::DisplayValue { key: k }),
            (None, Some(_)) => action is AskForKey,
            (None, None) => action is Display,
        }),
{
    if edit {
        ConfigAction::Edit
    } else if path {
        ConfigAction::DisplayPath
    } else {
        match key {
            Some(k) => match set {
                Some(value) => ConfigAction::SetValue { key: *k, value: value.clone() },
                None => ConfigAction::DisplayValue { key: *k },
            },
            None => match set {
                Some(_) => ConfigAction::AskForKey,
                None => ConfigAction::Display,
            },
        }
    }
}

} // verus!
