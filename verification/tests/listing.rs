use thoth::config::Config;
use thoth::case::{check_brackets, MAX_BRACKETS};
use thoth::list::{
    check_display, get_display, list_header, pdf_pattern, precedes, remove_leading_article,
    remove_leading_articles, should_display, sort_compositions, Composition,
};
use thoth::listing::{
    keep_marked, list_remote, list_versions, owned, select_versions, version_table, ListError,
};
use thoth::releases::{DirectAssetUrl, Link, Release};
use thoth::table::print_table;
use thoth::templates::Template;
use thoth::version::{VersionError, VersionStability};

fn strings(items: &[&str]) -> Vec<String> {
    items.iter().map(|item| item.to_string()).collect()
}

fn release(tag: &str, files: usize) -> Release {
    Release {
        tag_name: tag.to_string(),
        assets: Link {
            links: (0..files).map(|_| DirectAssetUrl { direct_asset_url: "u".to_string() }).collect(),
        },
    }
}

fn composition(artist: &str, title: &str, is_compiled: bool) -> Composition {
    Composition { artist: artist.to_string(), title: title.to_string(), is_compiled }
}

const STABLE: &str = "\u{1b}[32m\u{1b}[3mStable\u{1b}[0m\u{1b}[39m";
const UNSTABLE: &str = "\u{1b}[33m\u{1b}[3mUnstable\u{1b}[0m\u{1b}[39m";

#[test]
fn versions_are_selected_by_stability_and_pattern() {
    let versions = strings(&["2.25.1", "2.24.4", "2.23.0", "2.24.0"]);
    assert_eq!(select_versions(versions.clone(), &None, &None), Ok(versions.clone()));
    assert_eq!(
        select_versions(versions.clone(), &None, &Some(VersionStability::Stable)),
        Ok(strings(&["2.24.4", "2.24.0"]))
    );
    assert_eq!(
        select_versions(versions.clone(), &Some("\\.0$".to_string()), &None),
        Ok(strings(&["2.23.0", "2.24.0"]))
    );
    assert_eq!(
        select_versions(
            versions.clone(),
            &Some("\\.0$".to_string()),
            &Some(VersionStability::Unstable)
        ),
        Ok(strings(&["2.23.0"]))
    );
    assert_eq!(
        select_versions(versions.clone(), &Some("[".to_string()), &None),
        Err(ListError::InvalidPattern)
    );
    assert_eq!(
        select_versions(strings(&["x"]), &None, &Some(VersionStability::Stable)),
        Err(ListError::Version { error: VersionError::InvalidSpecifier })
    );
    assert_eq!(select_versions(strings(&["x"]), &None, &None), Ok(strings(&["x"])));
}

#[test]
fn marked_items_are_kept() {
    assert_eq!(keep_marked(&strings(&["a", "b", "c"]), &vec![true, false, true]), strings(&["a", "c"]));
    assert!(keep_marked(&Vec::new(), &Vec::new()).is_empty());
    let items = strings(&["a", "b"]);
    assert_eq!(owned(&items.iter().collect()), items);
}

#[test]
fn the_table_has_a_column_for_each_stability() {
    let table = version_table(&strings(&["2.24.4", "2.24.0", "2.22.0"]), &strings(&["2.25.1"]));
    assert_eq!(table.titles, vec![STABLE, UNSTABLE]);
    assert_eq!(
        table.rows,
        vec![strings(&["2.24.4", "2.25.1"]), strings(&["2.24.0", ""]), strings(&["2.22.0", ""])]
    );
    let table = version_table(&strings(&["2.24.4"]), &strings(&["2.25.1", "2.23.0"]));
    assert_eq!(table.rows, vec![strings(&["2.24.4", "2.25.1"]), strings(&["", "2.23.0"])]);
}

#[test]
fn the_table_of_one_stability_has_one_column() {
    let table = version_table(&strings(&["2.24.4", "2.24.0"]), &Vec::new());
    assert_eq!(table.titles, vec![STABLE]);
    assert_eq!(table.rows, vec![strings(&["2.24.4"]), strings(&["2.24.0"])]);
    let table = version_table(&Vec::new(), &strings(&["2.25.1"]));
    assert_eq!(table.titles, vec![UNSTABLE]);
    assert_eq!(table.rows, vec![strings(&["2.25.1"])]);
    let table = version_table(&Vec::new(), &Vec::new());
    assert!(table.titles.is_empty());
    assert!(table.rows.is_empty());
}

#[test]
fn versions_are_listed() {
    let versions = strings(&["2.25.1", "2.24.4", "2.23.0", "2.24.0"]);
    let table = list_versions(versions.clone(), &None, &None).unwrap();
    assert_eq!(table.titles, vec![STABLE, UNSTABLE]);
    assert_eq!(table.rows, vec![strings(&["2.24.4", "2.25.1"]), strings(&["2.24.0", "2.23.0"])]);
    let table = list_versions(versions.clone(), &Some("4".to_string()), &None).unwrap();
    assert_eq!(table.titles, vec![STABLE]);
    assert_eq!(table.rows, vec![strings(&["2.24.4"]), strings(&["2.24.0"])]);
    assert_eq!(
        list_versions(strings(&["2.24.0", "x"]), &None, &None).err(),
        Some(ListError::Version { error: VersionError::InvalidSpecifier })
    );
    assert_eq!(
        list_versions(versions, &Some("(".to_string()), &None).err(),
        Some(ListError::InvalidPattern)
    );
    let table = list_versions(Vec::new(), &None, &None).unwrap();
    assert!(table.titles.is_empty() && table.rows.is_empty());
}

#[test]
fn remote_versions_are_listed_in_bold() {
    let releases = vec![release("v2.25.1", 1), release("v2.24.0", 1), release("v2.22.0", 0)];
    let table = list_remote(&releases, &None, &None).unwrap();
    assert_eq!(table.titles, vec![STABLE, UNSTABLE]);
    assert_eq!(
        table.rows,
        vec![vec!["\u{1b}[1m2.24.0\u{1b}[0m".to_string(), "\u{1b}[1m2.25.1\u{1b}[0m".to_string()]]
    );
    let table = list_remote(&releases, &None, &Some(VersionStability::Stable)).unwrap();
    assert_eq!(table.rows, vec![vec!["\u{1b}[1m2.24.0\u{1b}[0m".to_string()]]);
}

#[test]
fn a_table_is_drawn_with_round_corners() {
    let text = print_table(strings(&["NAME", "DESCRIPTION"]), vec![strings(&["a", "b"]), strings(&["cc", "d"])]);
    let expected = "\
╭──────┬─────────────╮
│ NAME │ DESCRIPTION │
├──────┼─────────────┤
│ a    │ b           │
│ cc   │ d           │
╰──────┴─────────────╯";
    assert_eq!(text, expected);
}

#[test]
fn a_table_without_titles_has_no_line_between_rows() {
    let text = print_table(Vec::new(), vec![strings(&["a", "b"]), strings(&["cc", "d"])]);
    let expected = "\
╭────┬───╮
│ a  │ b │
│ cc │ d │
╰────┴───╯";
    assert_eq!(text, expected);
}

#[test]
fn the_configuration_is_drawn_as_a_table() {
    let config = Config {
        composer: "me".to_string(),
        scores_directory: "/s".to_string(),
        pdfs_directory: "/p".to_string(),
        template: Template::Lead,
        instrument: "Oboe".to_string(),
    };
    let rows = vec![
        Config::style_key_value("composer", "me"),
        Config::style_key_value("instrument", "Oboe"),
        Config::style_key_value("scores_directory", "/s"),
        Config::style_key_value("pdfs_directory", "/p"),
        Config::style_key_value("template", "Lead"),
    ];
    assert_eq!(config.display(), print_table(Vec::new(), rows));
    assert!(config.display().contains("\u{1b}[33mtemplate\u{1b}[39m"));
    assert!(config.display().contains("\u{1b}[1mLead\u{1b}[0m"));
}

#[test]
fn names_of_directories_are_shown_as_headlines() {
    assert_eq!(get_display("the-beatles"), "The Beatles");
    assert_eq!(get_display("a-day-in-the-life"), "A Day in the Life");
    assert_eq!(get_display(""), "");
}

#[test]
fn the_row_of_a_score() {
    assert_eq!(
        composition("the-beatles", "yesterday", true).get_row_values(),
        vec![
            "\u{1b}[33mThe Beatles\u{1b}[39m",
            "\u{1b}[1mYesterday\u{1b}[0m",
            "\u{1b}[32mcompiled\u{1b}[39m"
        ]
    );
    assert_eq!(
        composition("x", "y", false).get_row_values()[2],
        "\u{1b}[31mmissing\u{1b}[39m"
    );
    assert_eq!(
        list_header(),
        vec![
            "\u{1b}[3mArtist\u{1b}[0m",
            "\u{1b}[3mTitle\u{1b}[0m",
            "\u{1b}[3mStatus\u{1b}[0m"
        ]
    );
}

#[test]
fn a_leading_article_is_removed() {
    assert_eq!(remove_leading_article(&"the-beatles".to_string(), "the"), "beatles");
    assert_eq!(remove_leading_article(&"The-Beatles".to_string(), "the"), "Beatles");
    assert_eq!(remove_leading_article(&"theory".to_string(), "the"), "theory");
    assert_eq!(remove_leading_article(&"the-".to_string(), "the"), "");
    assert_eq!(remove_leading_article(&"a-ha".to_string(), "a"), "ha");
    assert_eq!(remove_leading_article(&"".to_string(), "a"), "");
    assert_eq!(remove_leading_articles("the-a-an-x".to_string()), "x");
    assert_eq!(remove_leading_articles("an-the-x".to_string()), "the-x");
    assert_eq!(remove_leading_articles("a-the-x".to_string()), "the-x");
    assert_eq!(remove_leading_articles("beatles".to_string()), "beatles");
}

#[test]
fn which_scores_are_shown() {
    for outdated in [false, true] {
        for compiled in [false, true] {
            for pdf in [false, true] {
                assert_eq!(
                    should_display(outdated, compiled, pdf),
                    outdated && !pdf || compiled && pdf || !outdated && !compiled
                );
            }
        }
    }
    assert!(should_display(false, false, false));
    assert!(!should_display(true, false, true));
    assert!(!should_display(false, true, false));
    assert!(should_display(true, true, true));
}

#[test]
fn scores_are_ordered_by_artist_then_title_articles_aside() {
    let sorted = sort_compositions(vec![
        composition("the-who", "my-generation", true),
        composition("beatles", "yesterday", false),
        composition("the-beatles", "a-day-in-the-life", true),
        composition("abba", "waterloo", true),
        composition("the-beatles", "the-end", true),
    ]);
    let names: Vec<(String, String)> =
        sorted.iter().map(|c| (c.artist.clone(), c.title.clone())).collect();
    assert_eq!(
        names,
        vec![
            ("abba".to_string(), "waterloo".to_string()),
            ("the-beatles".to_string(), "a-day-in-the-life".to_string()),
            ("the-beatles".to_string(), "the-end".to_string()),
            ("beatles".to_string(), "yesterday".to_string()),
            ("the-who".to_string(), "my-generation".to_string()),
        ]
    );
    assert!(precedes(&composition("a-b", "x", true), &composition("b", "x", false)));
    assert!(!precedes(&composition("c", "a", true), &composition("the-b", "z", false)));
    assert!(sort_compositions(Vec::new()).is_empty());
}

#[test]
fn the_pattern_of_the_pdfs_of_a_listed_score() {
    assert_eq!(pdf_pattern("/pdfs", "yesterday"), "/pdfs/yesterday*.pdf");
}

#[test]
fn a_name_with_too_many_opening_brackets_is_not_shown() {
    assert_eq!(MAX_BRACKETS, 16);
    let sixteen = "(".repeat(16);
    let seventeen = "(".repeat(17);
    assert!(check_brackets(""));
    assert!(check_brackets("your hair[cut] looks ((very nice))"));
    assert!(check_brackets(&sixteen));
    assert!(!check_brackets(&seventeen));
    assert!(!check_brackets(&format!("a (b{}", "_(".repeat(16))));
    assert_eq!(check_display("the-beatles"), Some("The Beatles".to_string()));
    assert_eq!(check_display("looks-((very-nice))"), Some("Looks ((Very Nice))".to_string()));
    assert_eq!(check_display(&format!("{sixteen}a")), Some(format!("{sixteen}A")));
    assert_eq!(check_display(&format!("{seventeen}a")), None);
    assert_eq!(check_display(&format!("a-{}", "(-".repeat(17))), None);
    let shown = composition("the-beatles", "yesterday", true);
    assert_eq!(shown.check_row_values(), Some(shown.get_row_values()));
    assert_eq!(composition(&seventeen, "yesterday", true).check_row_values(), None);
    assert_eq!(composition("the-beatles", &seventeen, false).check_row_values(), None);
}
