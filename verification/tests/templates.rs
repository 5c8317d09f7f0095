use thoth::commands::TemplateCommand;
use thoth::config::Config;
use thoth::create::{
    create_file, create_score, get_templates, print_score_info, score_parent, ScoreFileSettings,
};
use thoth::table::print_table;
use thoth::templates::form::{
    get_form_changes, get_form_main, get_form_melody, get_form_structure, get_form_templates,
};
use thoth::templates::lead::{
    get_lead_changes, get_lead_lyrics, get_lead_main, get_lead_melody, get_lead_structure,
    get_lead_templates,
};
use thoth::templates::piano::{get_piano_template, piano_content};
use thoth::templates::single::{get_single_template, single_content};
use thoth::templates::{
    add_value_to_string_if_some, format_filename, get_file_system_name, get_header,
    get_lilypond_version, print_templates, show_template, templates_main, version_statement,
    Template, TemplateFile, VERSION_PATTERN,
};

fn text(s: &str) -> String {
    s.to_string()
}

fn config() -> Config {
    Config {
        composer: "me".to_string(),
        scores_directory: "/s".to_string(),
        pdfs_directory: "/p".to_string(),
        template: Template::Lead,
        instrument: "Oboe".to_string(),
    }
}

const VERSION: &str = "\\version \"2.24.0\"";
const HEADER: &str = "\\header {\n  title = \"T\"\n  composer = \"C\"\n}";

#[test]
fn a_value_adds_a_line() {
    assert_eq!(
        add_value_to_string_if_some(text("x\n"), "subtitle", &Some(text("Sub"))),
        "x\n  subtitle = \"Sub\"\n"
    );
    assert_eq!(add_value_to_string_if_some(text("x\n"), "subtitle", &None), "x\n");
    assert_eq!(add_value_to_string_if_some(text(""), "", &Some(text(""))), "   = \"\"\n");
}

#[test]
fn the_header_of_a_score() {
    assert_eq!(get_header(&text("T"), &None, &text("C"), &None), HEADER);
    assert_eq!(
        get_header(&text("Title"), &Some(text("Sub")), &text("Comp"), &Some(text("Arr"))),
        "\\header {\n  title = \"Title\"\n  subtitle = \"Sub\"\n  composer = \"Comp\"\n  arranger = \"Arr\"\n}"
    );
}

#[test]
fn names_for_the_file_system() {
    assert_eq!(get_file_system_name("My Title"), "my-title");
    assert_eq!(get_file_system_name("J. S. Bach"), "j.-s.-bach");
    assert_eq!(get_file_system_name("ÉTUDE  No 1"), "étude--no-1");
    assert_eq!(get_file_system_name(""), "");
}

#[test]
fn the_banner_is_as_wide_as_the_name_has_bytes() {
    assert_eq!(
        format_filename(&Some(text("melody")), "Anything"),
        "% ----------\n% melody.ily\n% ----------\n\n"
    );
    assert_eq!(format_filename(&None, "My Title"), "% -----------\n% my-title.ly\n% -----------\n\n");
    assert_eq!(format_filename(&None, "É"), "% -----\n% é.ly\n% -----\n\n");
    assert_eq!(format_filename(&None, ""), "% ---\n% .ly\n% ---\n\n");
}

#[test]
fn the_version_line_comes_from_what_lilypond_prints() {
    assert_eq!(VERSION_PATTERN, r"\d\.\d{2}\.\d");
    assert_eq!(
        get_lilypond_version("GNU LilyPond 2.24.3 (running Guile 2.2)\n"),
        Some(text("\\version \"2.24.3\""))
    );
    assert_eq!(
        get_lilypond_version("GNU LilyPond 2.25.12\nand 2.24.0"),
        Some(text("\\version \"2.25.1\""))
    );
    assert_eq!(get_lilypond_version("GNU LilyPond 2.4.3"), None);
    assert_eq!(get_lilypond_version(""), None);
    assert_eq!(version_statement("2.24.0"), VERSION);
}

#[test]
fn the_piano_score() {
    let content = piano_content(VERSION, HEADER);
    assert!(content.starts_with("\\version \\version \"2.24.0\"\n\n\\include \"settings.ily\"\n\n\\header {\n"));
    assert!(content.contains("}\n\nkey_and_time = {\n  \\key c \\major\n  \\time 4/4\n}\n\nupper_staff = \\relative c'' {\n"));
    assert!(content.ends_with("    \\new Staff = \"lower\" \\lower_staff\n  >>\n}"));
    let files = get_piano_template(&text("T"), &None, &text("C"), &None, VERSION);
    assert_eq!(files.len(), 1);
    assert_eq!(files[0].filename, None);
    assert_eq!(files[0].content, content);
}

#[test]
fn the_score_for_one_staff() {
    let content = single_content(VERSION, HEADER, "Oboe");
    assert!(content.starts_with("\\version \"2.24.0\"\n\n\\include \"helpers/settings.ily\"\n\\include \"helpers/bar-numbers-left.ily\"\n\n\\header {\n"));
    assert!(content.contains("\\score {\n    \\new Staff \\with {\n        instrumentName = \"Oboe\"\n        \\numericTimeSignature\n    } {\n"));
    assert!(content.ends_with("        \\compressMMRests\n        \\music\n    }\n}\n"));
    let files = get_single_template(&text("T"), &None, &text("C"), &None, &text("Oboe"), VERSION);
    assert_eq!(files.len(), 1);
    assert_eq!(files[0].filename, None);
    assert_eq!(files[0].content, content);
}

#[test]
fn the_lead_sheet() {
    assert_eq!(
        get_lead_changes(),
        "verse = \\chordmode {\n  | c1\n}\n\nchorus = \\chordmode {\n  | c1\n}\n\nchanges = \\chords {\n  \\verse\n  \\chorus\n}\n"
    );
    assert_eq!(
        get_lead_lyrics(),
        "verse = \\lyricmode {\n  Verse one\n}\n\nchorus = \\lyricmode {\n  Chorus\n}\n\nwords = \\lyricmode {\n  \\verse\n  \\chorus\n}\n"
    );
    assert_eq!(
        get_lead_melody(),
        "verse = \\relative c'' {\n  | c1\n}\n\nchorus = \\relative c'' {\n  | c1\n}\n\nmelody = {\n  \\verse\n  \\chorus\n}\n"
    );
    assert_eq!(
        get_lead_structure(),
        "key_and_time = {\n  \\key c \\major\n  \\time 4/4\n}\n\nverse = {\n  | s1 * 4\n}\n\nchorus = {\n  | s1 * 4\n}\n\nstructure = {\n  \\key_and_time\n  \\verse\n  \\chorus\n}\n"
    );
    let main = get_lead_main(VERSION, HEADER, "Sax");
    assert!(main.starts_with("\\version \"2.24.0\"\n\n\\include \"helpers/settings.ily\"\n\n\\header {"));
    assert!(main.contains("instrumentName = \"Sax\"\n"));
    let files = get_lead_templates(&text("T"), &None, &text("C"), &None, &text("Sax"), VERSION);
    let names: Vec<Option<&str>> = files.iter().map(|f| f.filename.as_deref()).collect();
    assert_eq!(names, vec![None, Some("changes"), Some("lyrics"), Some("melody"), Some("structure")]);
    assert_eq!(files[0].content, main);
    assert_eq!(files[2].content, get_lead_lyrics());
}

#[test]
fn the_form_chart() {
    assert_eq!(
        get_form_changes(),
        "changes_verse = \\chords {\n  | c1\n}\n\nchanges_chorus = \\chords {\n  | c1\n}\n"
    );
    assert!(get_form_melody().starts_with("melody_verse = \\new Voice \\with {\n  \\consists \"Pitch_squash_engraver\"\n} \\relative c' {\n  \\improvisationOn\n"));
    assert!(get_form_structure().starts_with("key_and_time = {\n  \\key c \\major\n  \time 4/4\n}\n\nstructure_verse = {\n"));
    assert!(get_form_structure().ends_with("  \\bar \"||\"\n}\n"));
    let main = get_form_main(VERSION, HEADER);
    assert!(main.starts_with("\\version \"2.24.0\"\n\n\\include \"settings.ily\"\n\\include \"helpers/set-bars-per-line.ily\"\n"));
    assert!(main.contains("\\paper {\n  score-system-spacing.basic-distance = #18\n}\n\n\\header {"));
    assert!(main.ends_with("      \\bold Verse \\italic \"\" \"\"\n      \\bold Chorus \\italic \"\" \"\"\n  }\n}\n"));
    let files = get_form_templates(&text("T"), &None, &text("C"), &None, VERSION);
    let names: Vec<Option<&str>> = files.iter().map(|f| f.filename.as_deref()).collect();
    assert_eq!(names, vec![None, Some("changes"), Some("melody"), Some("structure")]);
    assert_eq!(files[0].content, main);
    assert_eq!(files[3].content, get_form_structure());
}

#[test]
fn the_files_of_each_template() {
    let title = text("T");
    let composer = text("C");
    let instrument = text("Oboe");
    let count = |template: Template| {
        get_templates(&title, &None, &composer, &None, &instrument, &template, VERSION).len()
    };
    assert_eq!(count(Template::Form), 4);
    assert_eq!(count(Template::Lead), 5);
    assert_eq!(count(Template::Piano), 1);
    assert_eq!(count(Template::Single), 1);
    let single = get_templates(&title, &None, &composer, &None, &instrument, &Template::Single, VERSION);
    assert_eq!(single[0].content, single_content(VERSION, HEADER, "Oboe"));
}

#[test]
fn a_template_is_shown_file_by_file() {
    let files = vec![
        TemplateFile { filename: None, content: text("main") },
        TemplateFile { filename: Some(text("melody")), content: text("notes") },
    ];
    assert_eq!(
        print_templates(&files, "My Title"),
        "% -----------\n% my-title.ly\n% -----------\n\nmain\n\n% ----------\n% melody.ily\n% ----------\n\nnotes\n"
    );
    assert_eq!(print_templates(&Vec::new(), "x"), "");
    let shown = show_template(&Template::Piano, VERSION);
    let header = get_header(&text("Title"), &Some(text("Subtitle")), &text("Composer"), &Some(text("Arranger")));
    assert_eq!(
        shown,
        format!("% --------\n% title.ly\n% --------\n\n{}\n", piano_content(VERSION, &header))
    );
    assert!(show_template(&Template::Lead, VERSION).contains("instrumentName = \"Instrument\""));
}

#[test]
fn the_command_on_templates() {
    assert_eq!(
        templates_main(&Some(TemplateCommand::Show { template: Template::Form }), VERSION),
        show_template(&Template::Form, VERSION)
    );
    let table = templates_main(&None, VERSION);
    let expected = print_table(
        vec![text("\u{1b}[3mName\u{1b}[0m"), text("\u{1b}[3mDescription\u{1b}[0m")],
        vec![
            vec![
                text("\u{1b}[33mForm\u{1b}[39m"),
                text("Form chart with separate sections and form summary at the bottom"),
            ],
            vec![text("\u{1b}[33mLead\u{1b}[39m"), text("Lead sheet showing melody and chords")],
            vec![text("\u{1b}[33mPiano\u{1b}[39m"), text("Piano staff score")],
            vec![text("\u{1b}[33mSingle\u{1b}[39m"), text("Score for a single staff instrumenta")],
        ],
    );
    assert_eq!(table, expected);
}

#[test]
fn a_sketch_is_a_piano_score_titled_sketch() {
    let settings = ScoreFileSettings::default();
    assert_eq!(settings.title, "Sketch");
    assert_eq!(settings.template, Some(Template::Piano));
    assert!(settings.subtitle.is_none() && settings.composer.is_none());
    assert!(settings.arranger.is_none() && settings.instrument.is_none());
}

#[test]
fn where_the_files_of_a_score_are_created() {
    let main = TemplateFile { filename: None, content: text("x") };
    let part = TemplateFile { filename: Some(text("melody")), content: text("y") };
    assert_eq!(create_file(&main, &text("/s/scores/me/my-title"), text("my-title")), "/s/scores/me/my-title/my-title.ly");
    assert_eq!(
        create_file(&part, &text("/s/scores/me/my-title"), text("my-title")),
        "/s/scores/me/my-title/my-title-melody.ily"
    );
    assert_eq!(score_parent(false, "/s", "J S Bach", "My Title"), "/s/scores/j-s-bach/my-title");
    assert_eq!(score_parent(true, "/s", "J S Bach", "My Title"), "/tmp/my-title");
}

#[test]
fn a_score_is_planned_from_settings_and_configuration() {
    let settings = ScoreFileSettings {
        title: text("My Song"),
        subtitle: None,
        composer: None,
        arranger: Some(text("Arr")),
        template: None,
        instrument: None,
    };
    let plan = create_score(&settings, &None, false, &config(), VERSION);
    assert_eq!(plan.parent, "/s/scores/me/my-song");
    assert_eq!(
        plan.paths,
        vec![
            "/s/scores/me/my-song/my-song.ly",
            "/s/scores/me/my-song/my-song-changes.ily",
            "/s/scores/me/my-song/my-song-lyrics.ily",
            "/s/scores/me/my-song/my-song-melody.ily",
            "/s/scores/me/my-song/my-song-structure.ily",
        ]
    );
    assert_eq!(plan.files.len(), 5);
    assert!(plan.files[0].content.contains("  title = \"My Song\"\n  composer = \"me\"\n  arranger = \"Arr\"\n}"));
    assert!(plan.files[0].content.contains("instrumentName = \"Oboe\""));
    let settings = ScoreFileSettings {
        title: text("Sketch"),
        subtitle: None,
        composer: Some(text("Bach")),
        arranger: None,
        template: Some(Template::Piano),
        instrument: Some(text("Organ")),
    };
    let plan = create_score(&settings, &Some(text("/else")), true, &config(), VERSION);
    assert_eq!(plan.parent, "/tmp/sketch");
    assert_eq!(plan.paths, vec!["/tmp/sketch/sketch.ly"]);
    assert!(plan.files[0].content.contains("composer = \"Bach\""));
    let plan = create_score(&settings, &Some(text("/else")), false, &config(), VERSION);
    assert_eq!(plan.parent, "/else/scores/bach/sketch");
}

#[test]
fn what_is_printed_of_a_new_score() {
    assert_eq!(
        print_score_info(&text("T"), &None, &text("C"), &None, &None, &Template::Piano),
        "Created score for \"T\" using Piano template:\nComposer = C\n"
    );
    assert_eq!(
        print_score_info(
            &text("T"),
            &Some(text("S")),
            &text("C"),
            &Some(text("A")),
            &Some(text("I")),
            &Template::Lead
        ),
        "Created score for \"T\" using Lead template:\n  subtitle = \"S\"\nComposer = C\n  Arranger = \"A\"\n  Instrument = \"I\"\n"
    );
}
