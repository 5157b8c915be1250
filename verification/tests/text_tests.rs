use lambda_log_viewer::text::{
    all_keywords_found, char_is_space, chars_of, lowercase_chars, matches_filter, plain_lines,
};

#[test]
fn white_space_agrees_with_std_on_every_char() {
    let mut code: u32 = 0;
    while code <= 0x10FFFF {
        if let Some(c) = char::from_u32(code) {
            assert_eq!(char_is_space(c), c.is_whitespace(), "U+{:04X}", code);
        }
        code += 1;
    }
}

#[test]
fn chars_of_keeps_order() {
    assert_eq!(chars_of("aé\n"), vec!['a', 'é', '\n']);
    assert_eq!(chars_of(""), Vec::<char>::new());
}

#[test]
fn lowercase_chars_lowers() {
    assert_eq!(lowercase_chars("ErrOR Ä"), vec!['e', 'r', 'r', 'o', 'r', ' ', 'ä']);
}

#[test]
fn empty_filter_keeps_everything() {
    assert!(matches_filter("", "anything"));
    assert!(matches_filter("", ""));
}

#[test]
fn blank_filter_keeps_everything() {
    assert!(matches_filter("  \t ", "anything"));
}

#[test]
fn every_keyword_must_occur() {
    assert!(matches_filter("error b", "Error B"));
    assert!(matches_filter("B error", "error B"));
    assert!(!matches_filter("error b", "error A"));
    assert!(!matches_filter("error b", "warn B"));
}

#[test]
fn filter_ignores_case_on_both_sides() {
    assert!(matches_filter("TIMEOUT", "request timeout after 3s"));
    assert!(matches_filter("timeout", "Request TIMEOUT"));
}

#[test]
fn keyword_longer_than_text_is_not_found() {
    assert!(!matches_filter("abcdef", "abc"));
}

#[test]
fn keyword_at_the_end_is_found() {
    assert!(matches_filter("xyz", "..xyz"));
    assert!(!matches_filter("xyz", "..xy"));
}

#[test]
fn plain_lines_agree_with_std() {
    let samples = [
        "", "a", "a\n", "a\nb", "\n", "\n\n", "a\r\nb\r\n", "a\rb", "a\r", "\r\n", "x\n\ny", "tail\r",
        "START RequestId: 1\nline two\nEND\n",
    ];
    for s in samples {
        let want: Vec<String> = s.lines().map(|l| l.to_string()).collect();
        assert_eq!(plain_lines(s), want, "{:?}", s);
    }
}

#[test]
fn keywords_are_separated_by_any_white_space() {
    assert!(matches_filter("alpha\u{3000}beta\u{a0}gamma\tdelta", "delta gamma beta alpha"));
    assert!(!matches_filter("alpha\u{3000}beta", "alpha alone"));
    assert!(matches_filter("a\u{200b}b", "xa\u{200b}bx"));
    assert!(!matches_filter("a\u{200b}b", "a b"));
}

#[test]
fn keywords_are_compared_as_given() {
    let filter: Vec<char> = "  ab  cd ".chars().collect();
    let hit: Vec<char> = "xxcdxxab".chars().collect();
    let miss: Vec<char> = "xxcdxxa".chars().collect();
    let upper: Vec<char> = "AB CD".chars().collect();
    assert!(all_keywords_found(&filter, &hit));
    assert!(!all_keywords_found(&filter, &miss));
    assert!(!all_keywords_found(&filter, &upper));
    assert!(all_keywords_found(&Vec::new(), &miss));
    assert!(!all_keywords_found(&filter, &Vec::new()));
}

#[test]
fn repeated_keyword_needs_one_occurrence() {
    assert!(matches_filter("err err", "one err"));
}

#[test]
fn lower_case_form_may_change_the_length() {
    assert_eq!(lowercase_chars("\u{130}"), vec!['i', '\u{307}']);
    assert!(matches_filter("i\u{307}", "\u{130}stanbul"));
}

#[test]
fn plain_lines_count_line_feeds() {
    assert_eq!(plain_lines("a\nb\nc").len(), 3);
    assert_eq!(plain_lines("a\nb\nc\n").len(), 3);
    assert_eq!(plain_lines("\n\n\n").len(), 3);
    assert_eq!(plain_lines("no feed").len(), 1);
}
