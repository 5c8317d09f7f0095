use thoth::text::{
    chars_of, contains_str, equal_str, find_in, has_at, is_numeric, lex_le_in, parse_i32,
    parse_u32, push_decimal, remove_char, replace_str, sort_strings, split_by, string_of, trim,
};

fn chars(s: &str) -> Vec<char> {
    s.chars().collect()
}

fn split(s: &str, pat: &str) -> Vec<String> {
    split_by(&chars(s), &chars(pat)).iter().map(|part| part.iter().collect()).collect()
}

fn decimal(n: u64) -> String {
    let mut out = Vec::new();
    push_decimal(&mut out, n);
    out.iter().collect()
}

#[test]
fn strings_and_characters_convert_both_ways() {
    assert_eq!(chars_of("héllo ♯"), chars("héllo ♯"));
    assert_eq!(string_of(&chars("héllo ♯")), "héllo ♯");
    assert_eq!(chars_of(""), Vec::<char>::new());
    assert_eq!(string_of(&Vec::new()), "");
}

#[test]
fn a_pattern_is_found_at_its_first_position() {
    assert_eq!(find_in(&chars("abcabc"), &chars("bc"), 0), Some(1));
    assert_eq!(find_in(&chars("abcabc"), &chars("bc"), 2), Some(4));
    assert_eq!(find_in(&chars("abcabc"), &chars("bc"), 5), None);
    assert_eq!(find_in(&chars("abc"), &chars("abcd"), 0), None);
    assert_eq!(find_in(&chars("abc"), &chars(""), 0), Some(0));
    assert_eq!(find_in(&chars("abc"), &chars(""), 3), Some(3));
    assert_eq!(find_in(&chars("abc"), &chars(""), 4), None);
    assert!(has_at(&chars("abc"), &chars("bc"), 1));
    assert!(!has_at(&chars("abc"), &chars("bc"), 2));
    assert!(!has_at(&chars("abc"), &chars("bc"), usize::MAX));
}

#[test]
fn contains_is_as_in_std() {
    for (s, pat) in [("darwin", "win"), ("x", ""), ("", ""), ("", "a"), ("aab", "ab"), ("ab", "ba")] {
        assert_eq!(contains_str(s, pat), s.contains(pat));
    }
}

#[test]
fn split_is_as_in_std() {
    for (s, pat) in [
        ("2.24.0", "."),
        ("..", "."),
        ("", "."),
        ("abc", "."),
        ("aaa", "aa"),
        ("a-darwin-b-darwin", "-darwin"),
        ("abc", ""),
        ("", ""),
    ] {
        let expected: Vec<String> = s.split(pat).map(|part| part.to_string()).collect();
        assert_eq!(split(s, pat), expected);
    }
    assert_eq!(split("1.2.3", "."), vec!["1", "2", "3"]);
    assert_eq!(split("abc", ""), vec!["", "a", "b", "c", ""]);
}

#[test]
fn replace_is_as_in_std() {
    for (s, pat, with) in [
        ("release/2.24", "release/", "release%2F"),
        ("a b c", " ", "-"),
        ("aaa", "aa", "b"),
        ("abc", "", "-"),
        ("", "", "-"),
        ("abc", "abc", ""),
        ("abc", "x", "y"),
        ("\"q\"", "\"", ""),
    ] {
        assert_eq!(replace_str(s, pat, with), s.replace(pat, with));
    }
    assert_eq!(replace_str("a b c", " ", "-"), "a-b-c");
    assert_eq!(replace_str("abc", "", "-"), "-a-b-c-");
}

#[test]
fn a_character_is_removed_everywhere() {
    assert_eq!(remove_char(&chars("\"a\"b\""), '"'), chars("ab"));
    assert_eq!(remove_char(&chars(""), '"'), chars(""));
}

#[test]
fn equality_is_by_characters() {
    assert!(equal_str("y", "y"));
    assert!(!equal_str("y", "Y"));
    assert!(!equal_str("y", "yy"));
    assert!(equal_str("", ""));
}

#[test]
fn numerals_are_the_digits_and_more() {
    assert!(is_numeric('0'));
    assert!(is_numeric('9'));
    assert!(is_numeric('\u{00bd}'));
    assert!(!is_numeric('a'));
    assert!(!is_numeric('-'));
}

#[test]
fn i32_is_parsed_as_in_std() {
    for s in [
        "0", "7", "007", "+5", "-5", "-0", "+", "-", "", "12a", " 1", "1 ", "2147483647",
        "2147483648", "-2147483648", "-2147483649", "99999999999999999999", "0000000000000000000001",
        "٣", "+-1", "1.0",
    ] {
        assert_eq!(parse_i32(&chars(s)), s.parse::<i32>().ok(), "{s}");
    }
    assert_eq!(parse_i32(&chars("-2147483648")), Some(i32::MIN));
    assert_eq!(parse_i32(&chars("24")), Some(24));
}

#[test]
fn u32_is_parsed_as_in_std() {
    for s in [
        "0", "100", "+100", "-0", "-1", "", "+", "4294967295", "4294967296", "x", "12 ",
        "00000000004294967295",
    ] {
        assert_eq!(parse_u32(&chars(s)), s.parse::<u32>().ok(), "{s}");
    }
    assert_eq!(parse_u32(&chars("4294967295")), Some(u32::MAX));
}

#[test]
fn numbers_are_written_in_decimal() {
    assert_eq!(decimal(0), "0");
    assert_eq!(decimal(7), "7");
    assert_eq!(decimal(100), "100");
    assert_eq!(decimal(4294967295), "4294967295");
    assert_eq!(decimal(u64::MAX), u64::MAX.to_string());
}

#[test]
fn white_space_is_trimmed_as_in_std() {
    for s in ["  a b  ", "a", "", "   ", "\t\n x \u{a0}", "\u{2003}y"] {
        let expected: Vec<char> = s.trim().chars().collect();
        assert_eq!(trim(&chars(s)), expected, "{s:?}");
    }
}

#[test]
fn the_order_of_dictionaries_is_that_of_strings() {
    let words = ["", "a", "ab", "b", "B", "é", "abc", "ab"];
    for a in words {
        for b in words {
            assert_eq!(lex_le_in(&chars(a), &chars(b)), a <= b, "{a} {b}");
        }
    }
}

#[test]
fn strings_are_sorted_as_in_std() {
    let items: Vec<String> =
        ["violin", "Cello", "bass", "violin", "", "alto"].iter().map(|s| s.to_string()).collect();
    let mut expected = items.clone();
    expected.sort();
    assert_eq!(sort_strings(items), expected);
    assert!(sort_strings(Vec::new()).is_empty());
}
