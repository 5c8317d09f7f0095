use thoth::compile::{
    catalog_needed, compile_arguments, compile_command, compile_input_file, compile_needed,
    compiled_message, file_version, get_binary, is_compiled, is_current, output_file_pattern,
    version_to_compile,
};
use thoth::config::Config;
use thoth::edit::{
    edit_file, sketch_names, get_watched_files, helper_ily_files_pattern, saved_file_path,
    score_ily_files_pattern, sketches_directory, watch,
};
use thoth::info::{display_score_info, print_info, read_line, CompositionMetadata};
use thoth::models::{
    value_of_header_line, FileLink, IncludedFile, NewFileLink, NewIncludedFile, NewScore, Score,
};
use thoth::order::{check_numerals, check_outdated, check_sort, is_outdated, sort};
use thoth::patterns::{get_base, get_patterns, get_score_file, patterns_for};
use thoth::releases::{DirectAssetUrl, Link, Release};
use thoth::scores::{
    convert_path_to_string, get_found_pdfs, get_items, get_score_ly_file, get_selected_items,
    get_temporary_ly_file, is_hidden, is_match, print_contents, search, ScoreEntry,
    TEMPORARY_DIRECTORY,
};
use thoth::commands::Shell;
use thoth::table::print_table;
use thoth::templates::Template;
use thoth::update_path::{clear_lilypond, get_new_version, update_path};
use thoth::update_version::{
    bump_version_main, output_file, update_line, update_lines, update_version, updated_message,
    UPDATE_QUESTION, VERSION_MARK,
};

fn strings(items: &[&str]) -> Vec<String> {
    items.iter().map(|item| item.to_string()).collect()
}

fn text(s: &str) -> String {
    s.to_string()
}

fn config() -> Config {
    Config {
        composer: "me".to_string(),
        scores_directory: "/s".to_string(),
        pdfs_directory: "/p".to_string(),
        template: Template::Lead,
        instrument: "Oboe".to_string(),
    }
}

fn release(tag: &str) -> Release {
    Release {
        tag_name: tag.to_string(),
        assets: Link { links: vec![DirectAssetUrl { direct_asset_url: "u".to_string() }] },
    }
}

fn entry(artist: &str, name: &str) -> ScoreEntry {
    ScoreEntry {
        artist: artist.to_string(),
        name: name.to_string(),
        path: format!("/s/scores/{artist}/{name}"),
    }
}

fn metadata() -> CompositionMetadata {
    CompositionMetadata {
        lilypond_version: None,
        title: None,
        subtitle: None,
        composer: None,
        arranger: None,
        key: None,
        time: None,
        instruments: Vec::new(),
    }
}

#[test]
fn a_pdf_is_current_when_it_is_as_new_as_the_score() {
    assert!(is_compiled(&Some(5), &Some(5)));
    assert!(is_compiled(&Some(5), &Some(6)));
    assert!(!is_compiled(&Some(6), &Some(5)));
    assert!(!is_compiled(&Some(0), &None));
    assert!(is_compiled(&None, &Some(0)));
    assert!(is_compiled(&None, &None));
    for input in [None, Some(1u128), Some(2)] {
        for output in [None, Some(1u128), Some(2)] {
            assert_eq!(is_compiled(&input, &output), input <= output);
        }
    }
}

#[test]
fn a_score_of_another_version_has_its_own_binary() {
    let releases = vec![release("v2.24.0"), release("v2.22.2")];
    assert_eq!(
        get_binary(&text("2.22.2"), "2.24.0", "/root/thoth", &releases),
        Some(text("/root/thoth/lilypond-2.22.2/bin"))
    );
    assert_eq!(get_binary(&text("2.24.0"), "2.24.0", "/root/thoth", &releases), None);
    assert_eq!(get_binary(&text("2.20.0"), "2.24.0", "/root/thoth", &releases), None);
    assert_eq!(get_binary(&text(""), "2.24.0", "/root/thoth", &releases), None);
    assert_eq!(
        get_binary(&text("latest-stable"), "2.24.0", "/r", &releases),
        Some(text("/r/lilypond-latest-stable/bin"))
    );
}

#[test]
fn the_version_of_a_score_is_in_its_first_version_line() {
    assert_eq!(
        file_version(&strings(&["% a score", "\\version \"2.24.0\"", "\\version \"2.22.0\""])),
        "2.24.0"
    );
    assert_eq!(file_version(&strings(&["  \\version \"2.24.0\" % x"])), "  2.24.0 % x");
    assert_eq!(file_version(&strings(&["\\version\"2.24.0\""])), "\\version2.24.0");
    assert_eq!(file_version(&strings(&["\\header {", "}"])), "");
    assert_eq!(file_version(&Vec::new()), "");
}

#[test]
fn the_command_that_compiles() {
    assert_eq!(compile_command(&None), "lilypond");
    assert_eq!(compile_command(&Some(text("/r/lilypond-2.22.2/bin"))), "/r/lilypond-2.22.2/bin/lilypond");
    assert_eq!(
        compile_arguments("/s", "/p", "/s/scores/a/b/b.ly"),
        strings(&["--include", "/s", "--output", "/p", "/s/scores/a/b/b.ly"])
    );
    assert_eq!(output_file_pattern("/p", "b"), "/p/b*.pdf");
    assert_eq!(compiled_message("/p", "b"), "Compiled /p/b.pdf");
}

#[test]
fn the_compiling_of_a_score_is_planned() {
    let releases = vec![release("v2.24.0"), release("v2.22.2")];
    let lines = strings(&["\\version \"2.22.2\"", "\\header {"]);
    let old = vec![Some(1u128)];
    let plan = compile_input_file(
        "/s/a.ly", &Some(2), &old, false, &lines, &None, "2.24.0", "/r", &releases, "/s", "/p",
    )
    .unwrap();
    assert_eq!(plan.binary, Some(text("/r/lilypond-2.22.2/bin")));
    assert_eq!(plan.command, "/r/lilypond-2.22.2/bin/lilypond");
    assert_eq!(plan.arguments, strings(&["--include", "/s", "--output", "/p", "/s/a.ly"]));
    let plan = compile_input_file(
        "/s/a.ly",
        &Some(2),
        &Vec::new(),
        false,
        &lines,
        &Some(text("2.24.0")),
        "2.24.0",
        "/r",
        &releases,
        "/s",
        "/p",
    )
    .unwrap();
    assert_eq!(plan.binary, None);
    assert_eq!(plan.command, "lilypond");
    let plan = compile_input_file(
        "/s/a.ly", &Some(2), &old, false, &Vec::new(), &None, "2.24.0", "/r", &releases, "/s", "/p",
    )
    .unwrap();
    assert_eq!(plan.binary, None);
}

#[test]
fn a_score_that_is_up_to_date_is_not_compiled_again() {
    let releases = vec![release("v2.24.0"), release("v2.22.2")];
    let lines = strings(&["\\version \"2.22.2\""]);
    let pdfs = vec![Some(1u128), None, Some(5)];
    let plan = compile_input_file(
        "/s/a.ly", &Some(5), &pdfs, false, &lines, &None, "2.24.0", "/r", &releases, "/s", "/p",
    );
    assert!(plan.is_none());
    let plan = compile_input_file(
        "/s/a.ly", &Some(5), &pdfs, true, &lines, &None, "2.24.0", "/r", &releases, "/s", "/p",
    );
    assert_eq!(plan.unwrap().command, "/r/lilypond-2.22.2/bin/lilypond");
    let plan = compile_input_file(
        "/s/a.ly", &Some(6), &pdfs, false, &lines, &None, "2.24.0", "/r", &releases, "/s", "/p",
    );
    assert!(plan.is_some());
    assert!(is_current(&Some(5), &pdfs));
    assert!(!is_current(&Some(6), &pdfs));
    assert!(!is_current(&Some(0), &Vec::new()));
    assert!(!is_current(&Some(0), &vec![None]));
    assert!(is_current(&None, &vec![None]));
    assert!(!is_current(&None, &Vec::new()));
    assert!(!compile_needed(false, &Some(5), &pdfs));
    assert!(compile_needed(true, &Some(5), &pdfs));
    assert!(compile_needed(false, &Some(6), &pdfs));
    assert!(compile_needed(false, &Some(0), &Vec::new()));
}

#[test]
fn the_catalog_is_needed_only_for_another_version() {
    assert!(!catalog_needed("2.24.0", "2.24.0"));
    assert!(catalog_needed("2.22.2", "2.24.0"));
    assert!(catalog_needed("", "2.24.0"));
    let lines = strings(&["\\version \"2.22.2\""]);
    assert_eq!(version_to_compile(&lines, &None), "2.22.2");
    assert_eq!(version_to_compile(&lines, &Some(text("2.24.0"))), "2.24.0");
    assert_eq!(version_to_compile(&Vec::new(), &None), "");
    let plan = compile_input_file(
        "/s/a.ly",
        &Some(1),
        &Vec::new(),
        false,
        &lines,
        &Some(text("2.24.0")),
        "2.24.0",
        "/r",
        &Vec::new(),
        "/s",
        "/p",
    );
    assert_eq!(plan.unwrap().binary, None);
}

#[test]
fn records_of_included_files_hold_their_fields() {
    let new_file = NewIncludedFile { path: "helpers/settings.ily" };
    let file = IncludedFile { id: 1, path: new_file.path.to_string() };
    let new_link = NewFileLink { score_id: 2, included_file_id: file.id };
    let link = FileLink { id: 3, score_id: new_link.score_id, included_file_id: 1 };
    assert_eq!(file.path, "helpers/settings.ily");
    assert_eq!((link.id, link.score_id, link.included_file_id), (3, 2, 1));
}

#[test]
fn patterns_for_the_files_of_scores() {
    let config = config();
    assert_eq!(get_base(".pdf", &None, &None, &config), "/p/**/");
    assert_eq!(get_base(".ly", &None, &None, &config), "/s/**/");
    assert_eq!(get_base(".pdf", &Some(text("/a")), &Some(text("/b")), &config), "/b/**/");
    assert_eq!(get_base(".ily", &Some(text("/a")), &Some(text("/b")), &config), "/a/**/");
    assert_eq!(get_score_file(&text("yesterday"), ".pdf", "/p/**/"), "/p/**/*yesterday*.pdf");
    assert_eq!(
        get_patterns(&strings(&["a", "b"]), ".ly", &None, &None, &config),
        strings(&["/s/**/*a*.ly", "/s/**/*b*.ly"])
    );
    assert_eq!(get_patterns(&Vec::new(), ".pdf", &None, &None, &config), strings(&["/p/**/*.pdf"]));
    assert_eq!(patterns_for(&strings(&["a"]), ".ly", "/x/"), strings(&["/x/*a*.ly"]));
}

#[test]
fn search_terms_match_artist_or_title() {
    let terms = strings(&["beatles", "help"]);
    assert!(is_match("the beatles", "yesterday", &terms, false, false));
    assert!(is_match("the who", "help", &terms, false, false));
    assert!(!is_match("the who", "my generation", &terms, false, false));
    assert!(is_match("the beatles", "yesterday", &terms, true, false));
    assert!(!is_match("the who", "help", &terms, true, false));
    assert!(!is_match("the beatles", "yesterday", &terms, false, true));
    assert!(is_match("the who", "help", &terms, false, true));
    assert!(is_match("the who", "help", &terms, true, true));
    assert!(is_match("the who", "my generation", &Vec::new(), true, true));
    assert!(is_match("x", "y", &strings(&[""]), false, false));
}

#[test]
fn scores_are_found_in_the_order_of_the_directories() {
    let entries = vec![
        entry("the-beatles", "yesterday"),
        entry("the-beatles", ".DS_Store"),
        entry("the-who", "my-generation"),
        entry("abba", "the-winner"),
    ];
    assert_eq!(
        search(&entries, &Vec::new(), false, false),
        strings(&["/s/scores/the-beatles/yesterday", "/s/scores/the-who/my-generation", "/s/scores/abba/the-winner"])
    );
    assert_eq!(
        search(&entries, &strings(&["the w"]), false, false),
        strings(&["/s/scores/the-who/my-generation", "/s/scores/abba/the-winner"])
    );
    assert_eq!(
        search(&entries, &strings(&["the w"]), true, false),
        strings(&["/s/scores/the-who/my-generation"])
    );
    assert_eq!(search(&entries, &strings(&["the-who"]), false, false), Vec::<String>::new());
    assert!(search(&Vec::new(), &Vec::new(), false, false).is_empty());
    assert_eq!(convert_path_to_string("my-generation"), "my generation");
}

#[test]
fn patterns_and_paths_of_scores() {
    assert_eq!(TEMPORARY_DIRECTORY, "/tmp/thoth");
    assert_eq!(get_temporary_ly_file(), "/tmp/thoth/sketch.ly");
    assert_eq!(get_score_ly_file(&text("/s/scores/a/b")), "/s/scores/a/b/*.ly");
    assert_eq!(get_found_pdfs("/p", "b"), "/p/*b*.pdf");
    assert_eq!(get_items(&strings(&["/a", "/b", "/c"])), "/a\n/b\n/c");
    assert_eq!(get_items(&strings(&["/a"])), "/a");
    assert_eq!(get_items(&Vec::new()), "");
    assert!(get_selected_items(false, 2));
    assert!(!get_selected_items(false, 1));
    assert!(!get_selected_items(true, 2));
    assert!(!get_selected_items(false, 0));
    assert!(is_hidden(".git"));
    assert!(!is_hidden("scores"));
    assert!(!is_hidden(""));
    assert_eq!(print_contents("/s"), "Default scores directory: /s");
}

#[test]
fn a_sketch_is_edited_in_the_temporary_directory() {
    let config = config();
    let plan = edit_file(&text("sketch"), true, &None, &Some(text("/x")), &config);
    assert_eq!(plan.pdfs_directory, Some(text("/tmp/thoth")));
    assert_eq!(plan.pdf_pattern, "/tmp/thoth/**/*sketch*.pdf");
    let plan = edit_file(&text("b"), false, &None, &Some(text("/x")), &config);
    assert_eq!(plan.pdfs_directory, Some(text("/x")));
    assert_eq!(plan.pdf_pattern, "/x/**/*b*.pdf");
    let plan = edit_file(&text("b"), false, &None, &None, &config);
    assert_eq!(plan.pdfs_directory, None);
    assert_eq!(plan.pdf_pattern, "/p/**/*b*.pdf");
}

#[test]
fn what_is_watched_while_a_score_is_edited() {
    assert_eq!(score_ily_files_pattern("/s/scores/a/b"), "/s/scores/a/b/**/*.ily");
    assert_eq!(helper_ily_files_pattern("/s"), "/s/helpers/*.ily");
    assert_eq!(watch("/s/scores/a/b"), "/s/scores/a/b/*.ly");
    assert_eq!(
        get_watched_files(strings(&["m.ily"]), strings(&["h1.ily", "h2.ily"]), &text("b.ly")),
        strings(&["m.ily", "h1.ily", "h2.ily", "b.ly"])
    );
    assert_eq!(get_watched_files(Vec::new(), Vec::new(), &text("b.ly")), strings(&["b.ly"]));
}

#[test]
fn a_sketch_is_saved_under_its_composer_and_title() {
    let lines = strings(&[
        "\\header {",
        "  title = \"My Idea\"",
        "  composer = \"J S Bach\"",
        "}",
    ]);
    let names = sketch_names(&lines, text("me"));
    assert_eq!(names.composer, "j-s-bach");
    assert_eq!(names.title, "my-idea");
    let names = sketch_names(&strings(&["title = \"x\"", " composer = \"x\""]), text("Me"));
    assert_eq!(names.composer, "Me");
    assert_eq!(names.title, "Sketch");
    let names = sketch_names(&strings(&["  title = \"A\"", "  title = \"B\""]), text("me"));
    assert_eq!(names.title, "b");
    assert_eq!(sketches_directory("/s", "j-s-bach"), "/s/scores/j-s-bach/sketches");
    assert_eq!(
        saved_file_path("/s/scores/me/sketches", "2024-03-23_10:00:00", "my-idea"),
        "/s/scores/me/sketches/2024-03-23_10:00:00-my-idea.ly"
    );
}

#[test]
fn the_lines_of_a_score_say_what_it_is() {
    let lines = strings(&[
        "\\version \"2.24.0\"",
        "\\header {",
        "  title = \"My Song\"",
        "  subtitle = \"Live\"",
        "  composer = \"Me\"",
        "  arranger = \"You\"",
        "}",
        "  \\key bes \\minor",
        "  \\time 3/4",
        "    instrumentName = \"Tenor Sax\"",
        "    instrumentName = \"Bass\"",
    ]);
    let metadata = display_score_info(&lines);
    assert_eq!(metadata.lilypond_version, Some(text("2.24.0")));
    assert_eq!(metadata.title, Some(text("My Song")));
    assert_eq!(metadata.subtitle, Some(text("Live")));
    assert_eq!(metadata.composer, Some(text("Me")));
    assert_eq!(metadata.arranger, Some(text("You")));
    assert_eq!(metadata.key, Some(text("Be♯ Minor")));
    assert_eq!(metadata.time, Some(text("3/4")));
    assert_eq!(metadata.instruments, strings(&["TenorSax", "Bass"]));
    let nothing = display_score_info(&Vec::new());
    assert!(nothing.title.is_none() && nothing.key.is_none() && nothing.instruments.is_empty());
}

#[test]
fn a_line_sets_the_field_it_begins_with() {
    let mut m = metadata();
    read_line(&mut m, "  title = \"A\"");
    read_line(&mut m, "title = \"B\"");
    read_line(&mut m, "  title = \"C\" title");
    assert_eq!(m.title, Some(text("C title")));
    read_line(&mut m, "  \\key f \\major");
    assert_eq!(m.key, Some(text("F Major")));
    read_line(&mut m, "  \\key fis \\major");
    assert_eq!(m.key, Some(text("Fi♯ Major")));
    read_line(&mut m, "  \\time 4/4");
    assert_eq!(m.time, Some(text("4/4")));
    read_line(&mut m, "x instrumentName = \\markup \"A B\"");
    assert_eq!(m.instruments, strings(&["x\\markupAB"]));
    assert!(m.composer.is_none() && m.lilypond_version.is_none());
}

#[test]
fn the_information_on_a_score() {
    assert_eq!(print_info(metadata()), "Key = C Major\nTime = 4/4\n");
    let full = CompositionMetadata {
        lilypond_version: Some(text("2.24.0")),
        title: Some(text("T")),
        subtitle: Some(text("S")),
        composer: Some(text("C")),
        arranger: Some(text("A")),
        key: Some(text("F Major")),
        time: Some(text("3/4")),
        instruments: strings(&["Violin", "Cello", "Alto"]),
    };
    assert_eq!(
        print_info(full),
        "LilyPond version = \"2.24.0\"\nTitle = \"T\"\nSubtitle = \"S\"\nComposer = \"C\"\nArranger = \"A\"\nKey = \"F Major\"\nTime Signature = \"3/4\"\nInstrumentation = [ \n    \"Alto\"\n    \"Cello\"\n    \"Violin\"\n]\n"
    );
}

#[test]
fn versions_are_compared_by_their_numbers() {
    assert!(is_outdated("2.22.0", "2.24.0"));
    assert!(is_outdated("2.9.0", "2.10.0"));
    assert!(!is_outdated("2.24.0", "2.24.0"));
    assert!(!is_outdated("2.24.1", "2.24.0"));
    assert_eq!(check_outdated("2.9.0", "2.10.0"), Some(true));
    assert_eq!(check_outdated("2.10.0", "2.9.0"), Some(false));
    assert_eq!(check_outdated("1234567890", "1"), None);
    assert_eq!(check_outdated("1", "x12345678901"), None);
    assert_eq!(check_outdated("123456789", "123456788"), Some(false));
    assert!(check_numerals("2.24.0"));
    assert!(check_numerals("123456789.123456789"));
    assert!(!check_numerals("a1234567890b"));
    assert!(check_numerals(""));
}

#[test]
fn versions_are_sorted_by_their_numbers() {
    assert_eq!(
        sort(strings(&["2.24.0", "2.25.10", "2.25.9", "2.22.2"])),
        strings(&["2.22.2", "2.24.0", "2.25.9", "2.25.10"])
    );
    assert_eq!(
        check_sort(strings(&["file10.txt", "file2.txt", "file1.txt"])),
        Some(strings(&["file1.txt", "file2.txt", "file10.txt"]))
    );
    assert_eq!(check_sort(strings(&["1", "12345678901"])), None);
    assert_eq!(check_sort(Vec::new()), Some(Vec::new()));
}

#[test]
fn a_version_line_is_updated() {
    let updated = update_line("\\version \"2.22.0\"", VERSION_MARK, false, "2.24.0").unwrap();
    assert_eq!(updated.line, "\\version \"2.24.0\"");
    assert!(updated.changed);
    let updated = update_line("\\version \"2.24.0\"", VERSION_MARK, false, "2.24.0").unwrap();
    assert_eq!(updated.line, "\\version \"2.24.0\"");
    assert!(!updated.changed);
    let updated = update_line("\\version \"2.24.0\"", VERSION_MARK, true, "2.22.0").unwrap();
    assert_eq!(updated.line, "\\version \"2.22.0\"");
    assert!(updated.changed);
    let updated = update_line("\\header {", VERSION_MARK, true, "2.22.0").unwrap();
    assert_eq!(updated.line, "\\header {");
    assert!(!updated.changed);
    let updated = update_line("\\version ", VERSION_MARK, true, "2").unwrap();
    assert_eq!(updated.line, "2\\2v2e2r2s2i2o2n2 2");
    assert!(updated.changed);
    assert!(update_line("\\version \"1234567890\"", VERSION_MARK, false, "2.24.0").is_none());
    assert!(update_line("\\version \"1234567890\"", VERSION_MARK, true, "2.24.0").is_some());
    assert!(update_line("x 1234567890", VERSION_MARK, false, "2.24.0").is_some());
}

#[test]
fn the_version_lines_of_a_score_are_updated() {
    let lines = strings(&["\\version \"2.22.0\"", "\\header {", "}"]);
    let updated = update_version(&lines, &None, &text("2.24.0")).unwrap();
    assert_eq!(updated.text, "\\version \"2.24.0\"\n\\header {\n}\n");
    assert_eq!(updated.changes, 1);
    let updated = update_version(&lines, &None, &text("2.20.0")).unwrap();
    assert_eq!(updated.text, "\\version \"2.22.0\"\n\\header {\n}\n");
    assert_eq!(updated.changes, 0);
    let updated = update_version(&lines, &Some(text("2.20.0")), &text("2.20.0")).unwrap();
    assert_eq!(updated.text, "\\version \"2.20.0\"\n\\header {\n}\n");
    assert_eq!(updated.changes, 1);
    let updated = update_version(&Vec::new(), &None, &text("2.20.0")).unwrap();
    assert_eq!(updated.text, "");
    assert_eq!(updated.changes, 0);
    assert!(update_version(&strings(&["\\version \"1234567890\""]), &None, &text("2")).is_none());
    let updated = update_lines(&strings(&["a", "b"]), "x", false, "1").unwrap();
    assert_eq!(updated.text, "a\nb\n");
}

#[test]
fn a_bump_takes_every_line_with_the_mark() {
    let lines = strings(&["\\version\"2.22.0\""]);
    let updated = update_version(&lines, &Some(text("2.24.0")), &text("2.24.0")).unwrap();
    assert_eq!(updated.changes, 0);
    let updated = bump_version_main(&lines, &Some(text("2.24.0")), &text("2.24.0")).unwrap();
    assert_eq!(updated.text, "\\version\"2.22.0\"\n");
    assert_eq!(updated.changes, 1);
    let lines = strings(&["% \\version2.22.0 of \\version"]);
    let updated = bump_version_main(&lines, &Some(text("2.24.0")), &text("2.24.0")).unwrap();
    assert_eq!(updated.text, "2.24.0\n");
    assert_eq!(updated_message("/s/a.ly", "2.24.0"), "Updated /s/a.ly to lilypond 2.24.0");
    assert_eq!(output_file("a.ly"), "/tmp/a.ly");
    assert_eq!(UPDATE_QUESTION, "Are you sure you want to uppdate all scores? [y/n]");
}

#[test]
fn the_directories_of_lilypond_leave_the_search_path() {
    assert_eq!(
        clear_lilypond(text("/r/lilypond-2.22.2/bin:/usr/bin:/bin")),
        "/usr/bin:/bin"
    );
    assert_eq!(
        clear_lilypond(text("/usr/bin:/r/lilypond-2.22.2/bin:/bin:/r/lilypond-2.24.0/bin:/x")),
        "/usr/bin:/bin:/x"
    );
    assert_eq!(clear_lilypond(text("/usr/bin:/r/lilypond-2.22.2/bin")), "/usr/bin:/r/lilypond-2.22.2/bin");
    assert_eq!(clear_lilypond(text("/usr/bin:/bin")), "/usr/bin:/bin");
    assert_eq!(clear_lilypond(text("")), "");
    assert_eq!(clear_lilypond(text("lilypond:xlilypond:lilypond:y")), "xy");
}

#[test]
fn the_search_path_gets_the_selected_version_in_front() {
    let path = text("/r/lilypond-2.22.2/bin:/usr/my bin:/bin");
    assert_eq!(
        update_path(&Shell::Zsh, "/r", "2.24.0", path.clone(), true),
        Some(text("/r/lilypond-2.24.0/bin:/usr/my\\ bin:/bin"))
    );
    assert_eq!(
        update_path(&Shell::Nu, "/r", "2.24.0", path.clone(), true),
        Some(text("/r/lilypond-2.24.0/bin"))
    );
    assert_eq!(update_path(&Shell::Zsh, "/r", "2.24.0", path.clone(), false), None);
    assert_eq!(update_path(&Shell::Zsh, "/r", "2.22.2", path.clone(), true), None);
    assert_eq!(update_path(&Shell::Nu, "/r", "2.22.2", path, true), None);
    assert_eq!(get_new_version(&Some(text("2.24.0")), "2.22.2"), "2.24.0");
    assert_eq!(get_new_version(&None, "2.22.2"), "2.22.2");
}

#[test]
fn the_value_of_a_header_line() {
    assert_eq!(value_of_header_line("title = \"My Song\""), "My Song");
    assert_eq!(value_of_header_line("title=x=  \"a b\"  "), "a b");
    assert_eq!(value_of_header_line("no sign"), "no sign");
    assert_eq!(value_of_header_line("x ="), "");
    assert_eq!(value_of_header_line(""), "");
}

#[test]
fn the_record_of_a_score_comes_from_its_header() {
    let contents = "\\version \"2.24.0\"\n\\header {\n  title = \"My Song\"\n  subtitle   =   \"Live\"\n  composer = \"Me\"\n  opus = \"1\"\n}\n";
    assert_eq!(NewScore::get_lilypond_header_value(contents, "title"), Some(text("My Song")));
    assert_eq!(NewScore::get_lilypond_header_value(contents, "subtitle"), Some(text("Live")));
    assert_eq!(NewScore::get_lilypond_header_value(contents, "poet"), None);
    assert_eq!(NewScore::get_lilypond_header_value(contents, "("), None);
    let score = NewScore::from_file("/s/a.ly", contents);
    assert_eq!(score.ly_file_path, "/s/a.ly");
    assert_eq!(score.title, Some(text("My Song")));
    assert_eq!(score.subtitle, Some(text("Live")));
    assert_eq!(score.subsubtitle, None);
    assert_eq!(score.composer, Some(text("Me")));
    assert_eq!(score.opus, Some(text("1")));
    assert!(score.dedication.is_none() && score.instrument.is_none() && score.poet.is_none());
    assert!(score.meter.is_none() && score.arranger.is_none() && score.tagline.is_none());
    assert!(score.copyright.is_none() && score.piece.is_none());
}

#[test]
fn the_record_of_a_score_is_drawn_as_a_table() {
    let score = Score {
        id: 1,
        dedication: None,
        title: Some(text("T")),
        subtitle: None,
        subsubtitle: None,
        instrument: None,
        poet: None,
        composer: Some(text("C")),
        meter: None,
        arranger: None,
        tagline: None,
        copyright: None,
        piece: None,
        opus: None,
        ly_file_path: text("/s/a.ly"),
    };
    let rows: Vec<Vec<String>> = [
        ("ly File Path", "/s/a.ly"),
        ("Dedication", ""),
        ("Title", "T"),
        ("Subtitle", ""),
        ("Subsubtitle", ""),
        ("Instrument", ""),
        ("Poet", ""),
        ("Composer", "C"),
        ("Meter", ""),
        ("Arranger", ""),
        ("Tagline", ""),
        ("Copyright", ""),
        ("Piece", ""),
        ("Opus", ""),
    ]
    .iter()
    .map(|(name, value)| strings(&[name, value]))
    .collect();
    assert_eq!(score.display(), print_table(Vec::new(), rows));
    assert_eq!(Score::get_option_display(&Some(text("x"))), "x");
    assert_eq!(Score::get_option_display(&None), "");
}
