use mock_relayer::text::{
    chars_of, contains_text, find, find_from, is_whitespace, matches_at, same_text, split_tokens,
};

fn chars(s: &str) -> Vec<char> {
    s.chars().collect()
}

#[test]
fn whitespace_is_what_the_standard_library_calls_whitespace() {
    let mut code: u32 = 0;
    while code <= 0x10ffff {
        if let Some(c) = char::from_u32(code) {
            assert_eq!(is_whitespace(c), c.is_whitespace(), "U+{:04X}", code);
        }
        code += 1;
    }
}

#[test]
fn whitespace_edge_cases() {
    assert!(is_whitespace(' '));
    assert!(is_whitespace('\t'));
    assert!(is_whitespace('\n'));
    assert!(is_whitespace('\u{a0}'));
    assert!(is_whitespace('\u{3000}'));
    assert!(!is_whitespace('\u{180e}'));
    assert!(!is_whitespace('\u{200b}'));
    assert!(!is_whitespace('a'));
}

#[test]
fn chars_of_keeps_every_character() {
    assert_eq!(chars_of("a\u{e9}\u{1f600}z"), vec!['a', '\u{e9}', '\u{1f600}', 'z']);
    assert_eq!(chars_of(""), Vec::<char>::new());
}

#[test]
fn tokens_split_on_any_whitespace() {
    let words = split_tokens("  CANCEL \t RES-1234\nextra ");
    assert_eq!(words, vec!["CANCEL".to_string(), "RES-1234".to_string(), "extra".to_string()]);
}

#[test]
fn tokens_of_blank_text_are_none() {
    assert_eq!(split_tokens(""), Vec::<String>::new());
    assert_eq!(split_tokens(" \t\r\n"), Vec::<String>::new());
}

#[test]
fn tokens_agree_with_split_whitespace() {
    let samples = [
        "LIST",
        " a  b\u{a0}c\u{2003}d ",
        "caf\u{e9} \u{1f600}\u{3000}x",
        "one",
        "\n\nline one\nline two\n",
    ];
    for sample in samples {
        let expected: Vec<String> = sample.split_whitespace().map(|w| w.to_string()).collect();
        assert_eq!(split_tokens(sample), expected, "{:?}", sample);
    }
}

#[test]
fn contains_finds_inner_text() {
    assert!(contains_text("noreply@opentable.com", "opentable.com"));
    assert!(!contains_text("noreply@example.org", "opentable.com"));
    assert!(contains_text("abc", ""));
    assert!(contains_text("", ""));
    assert!(!contains_text("", "a"));
    assert!(!contains_text("ab", "abc"));
}

#[test]
fn matches_at_checks_one_position() {
    let hay = chars("banana");
    let needle = chars("ana");
    assert!(!matches_at(&hay, &needle, 0));
    assert!(matches_at(&hay, &needle, 1));
    assert!(matches_at(&hay, &needle, 3));
    assert!(!matches_at(&hay, &needle, 4));
    assert!(!matches_at(&hay, &needle, 100));
}

#[test]
fn find_gives_the_leftmost_position() {
    let hay = chars("banana");
    assert_eq!(find(&hay, &chars("ana")), Some(1));
    assert_eq!(find(&hay, &chars("nab")), None);
    assert_eq!(find(&hay, &chars("")), Some(0));
    assert_eq!(find_from(&hay, &chars("ana"), 2), Some(3));
    assert_eq!(find_from(&hay, &chars("ana"), 4), None);
    assert_eq!(find_from(&hay, &chars(""), 6), Some(6));
    assert_eq!(find_from(&hay, &chars(""), 7), None);
}

#[test]
fn find_counts_characters_not_bytes() {
    let hay = chars("\u{e9}\u{e9}at x");
    assert_eq!(find(&hay, &chars("at ")), Some(2));
}

#[test]
fn same_text_compares_character_for_character() {
    assert!(same_text("LIST", "LIST"));
    assert!(!same_text("LIST", "list"));
    assert!(!same_text("LIST", "LIS"));
    assert!(same_text("", ""));
}
