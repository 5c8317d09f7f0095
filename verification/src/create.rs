//! Creating a score from a template: the files of the template, where they
//! go, and what is printed of the new score.

use vstd::prelude::*;
use crate::templates::form::{form_files, get_form_templates};
use crate::templates::lead::{get_lead_templates, lead_files};
use crate::templates::piano::{get_piano_template, piano_files};
use crate::templates::single::{get_single_template, single_files};
use crate::templates::{
    add_value_to_string_if_some, file_system_name, get_file_system_name, optional, template_views,
    with_value, Template, TemplateFile, TemplateFileView,
};
use crate::commands::{get_composer_from_arg, get_scores_directory_from_arg, get_template_from_arg};
use crate::config::Config;
use crate::paths::expansion_of;
use crate::text::{push_str, string_of, string_views};

verus! {

/// What a new score is made from. What is `None` comes from the
/// configuration.
#[derive(Debug)]
pub struct ScoreFileSettings {
    pub title: String,
    pub subtitle: Option<String>,
    pub composer: Option<String>,
    pub arranger: Option<String>,
    pub template: Option<Template>,
    pub instrument: Option<String>,
}

impl Default for ScoreFileSettings {
    fn default() -> (settings: Self)
        ensures
            settings.title@ == "Sketch"@,
            settings.subtitle is None,
            settings.composer is None,
            settings.arranger is None,
            settings.instrument is None,
            settings.template == Some(Template::Piano),
    {
        ScoreFileSettings {
            title: "Sketch".to_owned(),
            subtitle: None,
            composer: None,
            arranger: None,
            instrument: None,
            template: Some(Template::Piano),
        }
    }
}

/// The files of a template.
pub open spec fn template_files(
    title: Seq<char>,
    subtitle: Option<Seq<char>>,
    composer: Seq<char>,
    arranger: Option<Seq<char>>,
    instrument: Seq<char>,
    template: Template,
    lilypond_version: Seq<char>,
) -> Seq<TemplateFileView> {
    match template {
        Template::Form => form_files(title, subtitle, composer, arranger, lilypond_version),
        Template::Lead => lead_files(
            title,
            subtitle,
            composer,
            arranger,
            instrument,
            lilypond_version,
        ),
        Template::Piano => piano_files(title, subtitle, composer, arranger, lilypond_version),
        Template::Single => single_files(
            title,
            subtitle,
            composer,
            arranger,
            instrument,
            lilypond_version,
        ),
    }
}

/// The files of the template `template` for a score.
pub fn get_templates(
    title: &String,
    subtitle: &Option<String>,
    composer: &String,
    arranger: &Option<String>,
    instrument: &String,
    template: &Template,
    lilypond_version: &str,
) -> (files: Vec<TemplateFile>)
    ensures
        template_views(files@) == template_files(
            title@,
            optional(*subtitle),
            composer@,
            optional(*arranger),
            instrument@,
            *template,
            lilypond_version@,
        ),
{
    match template {
        Template::Form => get_form_templates(title, subtitle, composer, arranger, lilypond_version),
        Template::Lead => get_lead_templates(
            title,
            subtitle,
            composer,
            arranger,
            instrument,
            lilypond_version,
        ),
        Template::Piano => get_piano_template(
            title,
            subtitle,
            composer,
            arranger,
            lilypond_version,
        ),
        Template::Single => get_single_template(
            title,
            subtitle,
            composer,
            arranger,
            instrument,
            lilypond_version,
        ),
    }
}

/// The path of a file of a score: in `parent`, the title, and for a file
/// other than the main one its own name after a hyphen.
pub open spec fn created_path(filename: Option<Seq<char>>, parent: Seq<char>, title: Seq<char>)
    -> Seq<char> {
    parent + "/"@ + (match filename {
        Some(name) => title + "-"@ + name + ".ily"@,
        None => title + ".ly"@,
    })
}

/// The path at which the file `template` of a score is created.
pub fn create_file(template: &TemplateFile, parent: &String, title: String) -> (path: String)
    ensures
        path@ == created_path(optional(template.filename), parent@, title@),
{
    let mut out: Vec<char> = Vec::new();
    push_str(&mut out, parent.as_str());
    push_str(&mut out, "/");
    push_str(&mut out, title.as_str());
    match &template.filename {
        Some(name) => {
            push_str(&mut out, "-");
            push_str(&mut out, name.as_str());
            push_str(&mut out, ".ily");
        },
        None => {
            push_str(&mut out, ".ly");
        },
    }
    assert(out@ =~= created_path(optional(template.filename), parent@, title@));
    string_of(&out)
}

/// The directory of a score: for a sketch, below `/tmp`; otherwise below
/// the directory of the scores, under `scores` and the composer.
pub open spec fn score_directory(
    is_sketch: bool,
    scores_directory: Seq<char>,
    composer: Seq<char>,
    title: Seq<char>,
) -> Seq<char> {
    if is_sketch {
        "/tmp/"@ + file_system_name(title)
    } else {
        scores_directory + "/scores/"@ + file_system_name(composer) + "/"@ + file_system_name(
            title,
        )
    }
}

/// The directory in which the score `title` of `composer` is created.
pub fn score_parent(
    is_sketch: bool,
    scores_directory: &str,
    composer: &str,
    title: &str,
) -> (parent: String)
    ensures
        parent@ == score_directory(is_sketch, scores_directory@, composer@, title@),
{
    let mut out: Vec<char> = Vec::new();
    if is_sketch {
        push_str(&mut out, "/tmp/");
        push_str(&mut out, get_file_system_name(title).as_str());
    } else {
        push_str(&mut out, scores_directory);
        push_str(&mut out, "/scores/");
        push_str(&mut out, get_file_system_name(composer).as_str());
        push_str(&mut out, "/");
        push_str(&mut out, get_file_system_name(title).as_str());
    }
    assert(out@ =~= score_directory(is_sketch, scores_directory@, composer@, title@));
    string_of(&out)
}

/// What is printed of a new score.
pub open spec fn score_info(
    title: Seq<char>,
    subtitle: Option<Seq<char>>,
    composer: Seq<char>,
    arranger: Option<Seq<char>>,
    instrument: Option<Seq<char>>,
    template: Template,
) -> Seq<char> {
    with_value(
        with_value(
            with_value(
                "Created score for \""@ + title + "\" using "@ + template.name() + " template:\n"@,
                "subtitle"@,
                subtitle,
            ) + "Composer = "@ + composer + "\n"@,
            "Arranger"@,
            arranger,
        ),
        "Instrument"@,
        instrument,
    )
}

/// What is printed of a new score: its title and template, and a line for
/// each of subtitle, composer, arranger and instrument that it has.
pub fn print_score_info(
    title: &String,
    subtitle: &Option<String>,
    composer: &String,
    arranger: &Option<String>,
    instrument: &Option<String>,
    template: &Template,
) -> (info: String)
    ensures
        info@ == score_info(
            title@,
            optional(*subtitle),
            composer@,
            optional(*arranger),
            optional(*instrument),
            *template,
        ),
{
    let mut out: Vec<char> = Vec::new();
    push_str(&mut out, "Created score for \"");
    push_str(&mut out, title.as_str());
    push_str(&mut out, "\" using ");
    push_str(&mut out, template.to_string().as_str());
    push_str(&mut out, " template:\n");
    let opened = add_value_to_string_if_some(string_of(&out), "subtitle", subtitle);
    let mut out: Vec<char> = Vec::new();
    push_str(&mut out, opened.as_str());
    push_str(&mut out, "Composer = ");
    push_str(&mut out, composer.as_str());
    push_str(&mut out, "\n");
    let named = add_value_to_string_if_some(string_of(&out), "Arranger", arranger);
    let info = add_value_to_string_if_some(named, "Instrument", instrument);
    assert(info@ =~= score_info(
        title@,
        optional(*subtitle),
        composer@,
        optional(*arranger),
        optional(*instrument),
        *template,
    ));
    info
}

/// The files of a new score and where they go.
#[derive(Debug)]
pub struct ScorePlan {
    /// The directory of the score, to be created with its parents.
    pub parent: String,
    /// The path of each file of the score.
    pub paths: Vec<String>,
    /// The files of the score, in the order of `paths`.
    pub files: Vec<TemplateFile>,
}

/// The paths of the files `files` of the score `title` in `parent`.
pub open spec fn created_paths(files: Seq<TemplateFileView>, parent: Seq<char>, title: Seq<char>)
    -> Seq<Seq<char>> {
    Seq::new(files.len(), |i: int| created_path(files[i].filename, parent, title))
}

/// What a new score is made from, once the configuration has filled in
/// what the settings leave open.
pub open spec fn settled(
    settings: ScoreFileSettings,
    scores_directory: Option<Seq<char>>,
    config: Config,
    composer: Seq<char>,
    directory: Seq<char>,
) -> bool {
    (match settings.composer {
        Some(given) => expansion_of(given@, composer),
        None => composer == config.composer@,
    }) && (match scores_directory {
        Some(given) => expansion_of(given, directory),
        None => directory == config.scores_directory@,
    })
}

/// The template of a new score: the one of the settings, or else the
/// configured one.
pub open spec fn settled_template(settings: ScoreFileSettings, config: Config) -> Template {
    match settings.template {
        Some(given) => given,
        None => config.template,
    }
}

/// The instrument of a new score: the one of the settings, or else the
/// configured one.
pub open spec fn settled_instrument(settings: ScoreFileSettings, config: Config) -> Seq<char> {
    match settings.instrument {
        Some(given) => given@,
        None => config.instrument@,
    }
}

/// Plans a new score: its directory, and the files of its template with
/// their paths. Composer, template, instrument and the directory of the
/// scores come from the configuration where the settings name none.
pub fn create_score(
    settings: &ScoreFileSettings,
    scores_directory: &Option<String>,
    is_sketch: bool,
    config: &Config,
    lilypond_version: &str,
) -> (plan: ScorePlan)
    ensures
        exists|composer: Seq<char>, directory: Seq<char>|
            settled(*settings, optional(*scores_directory), *config, composer, directory)
                && plan.parent@ == score_directory(is_sketch, directory, composer, settings.title@)
                && template_views(plan.files@) == template_files(
                settings.title@,
                optional(settings.subtitle),
                composer,
                optional(settings.arranger),
                settled_instrument(*settings, *config),
                settled_template(*settings, *config),
                lilypond_version@,
            ) && string_views(plan.paths@) == created_paths(
                template_views(plan.files@),
                plan.parent@,
                file_system_name(settings.title@),
            ),
{
    let composer = get_composer_from_arg(&settings.composer, config);
    let template = get_template_from_arg(&settings.template, config);
    let directory = get_scores_directory_from_arg(scores_directory, config);
    let instrument = match &settings.instrument {
        Some(given) => given.clone(),
        None => config.get_instrument(),
    };
    let parent = score_parent(
        is_sketch,
        directory.as_str(),
        composer.as_str(),
        settings.title.as_str(),
    );
    let files = get_templates(
        &settings.title,
        &settings.subtitle,
        &composer,
        &settings.arranger,
        &instrument,
        &template,
        lilypond_version,
    );
    let mut paths: Vec<String> = Vec::new();
    let mut i: usize = 0;
    while i < files.len()
        invariant
            i <= files.len(),
            paths@.len() == i,
            forall|j: int|
                0 <= j < i ==> (#[trigger] paths@[j])@ == created_path(
                    optional(files@[j].filename),
                    parent@,
                    file_system_name(settings.title@),
                ),
        decreases files.len() - i,
    {
        paths.push(create_file(&files[i], &parent, get_file_system_name(settings.title.as_str())));
        i += 1;
    }
    assert(string_views(paths@) =~= created_paths(
        template_views(files@),
        parent@,
        file_system_name(settings.title@),
    ));
    assert(settled(*settings, optional(*scores_directory), *config, composer@, directory@));
    ScorePlan { parent, paths, files }
}

} // verus!
