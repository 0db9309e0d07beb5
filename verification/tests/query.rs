use better_man_viewer::error::ViewerError;
use better_man_viewer::query::{is_section_token, parse_man_input, section_char};
use better_man_viewer::text::is_whitespace;

fn parsed(input: &str) -> (Option<String>, String) {
    match parse_man_input(input) {
        Ok(pair) => pair,
        Err(e) => panic!("{:?} for {:?}", e, input),
    }
}

fn with_section(section: &str, topic: &str) -> (Option<String>, String) {
    (Some(section.to_string()), topic.to_string())
}

fn topic_only(topic: &str) -> (Option<String>, String) {
    (None, topic.to_string())
}

#[test]
fn single_word_is_a_topic() {
    assert_eq!(parsed("ls"), topic_only("ls"));
    assert_eq!(parsed("  ls  "), topic_only("ls"));
    assert_eq!(parsed("2"), topic_only("2"));
}

#[test]
fn section_then_topic() {
    assert_eq!(parsed("2 open"), with_section("2", "open"));
    assert_eq!(parsed("3p printf"), with_section("3p", "printf"));
    assert_eq!(parsed("2.1 open"), with_section("2.1", "open"));
}

#[test]
fn remaining_words_are_joined_by_single_spaces() {
    assert_eq!(parsed("a   b\tc"), with_section("a", "b c"));
    assert_eq!(parsed(" 1  git   log \n"), with_section("1", "git log"));
    assert_eq!(parsed("git-log   extra\u{3000}words"), topic_only("git-log extra words"));
}

#[test]
fn first_word_with_other_characters_is_no_section() {
    assert_eq!(parsed("git-log foo"), topic_only("git-log foo"));
    assert_eq!(parsed("caf\u{e9} noir"), topic_only("caf\u{e9} noir"));
    assert_eq!(parsed("a_b c"), topic_only("a_b c"));
}

#[test]
fn greedy_section_is_kept() {
    assert_eq!(parsed("2 windows"), with_section("2", "windows"));
    assert_eq!(parsed("3d graphics"), with_section("3d", "graphics"));
}

#[test]
fn man_prefix_is_taken_off() {
    assert_eq!(parsed("man ls"), topic_only("ls"));
    assert_eq!(parsed("man 2 open"), with_section("2", "open"));
    assert_eq!(parsed("   man   ls"), topic_only("ls"));
    assert_eq!(parsed("man man"), topic_only("man"));
    assert_eq!(parsed("man man ls"), with_section("man", "ls"));
}

#[test]
fn man_prefix_is_case_sensitive_and_needs_a_space() {
    assert_eq!(parsed("Man ls"), with_section("Man", "ls"));
    assert_eq!(parsed("man\tls"), with_section("man", "ls"));
    assert_eq!(parsed("manual"), topic_only("manual"));
    assert_eq!(parsed("man"), topic_only("man"));
    assert_eq!(parsed("ls man "), with_section("ls", "man"));
}

#[test]
fn empty_inputs_are_refused() {
    assert_eq!(parse_man_input(""), Err(ViewerError::EmptyInput));
    assert_eq!(parse_man_input("   "), Err(ViewerError::EmptyInput));
    assert_eq!(parse_man_input("man "), Err(ViewerError::EmptyInput));
    assert_eq!(parse_man_input(" man  \t"), Err(ViewerError::EmptyInput));
    assert_eq!(parse_man_input("\n\t\u{2003}"), Err(ViewerError::EmptyInput));
}

#[test]
fn section_tokens() {
    assert!(is_section_token("1"));
    assert!(is_section_token("3p"));
    assert!(is_section_token("2.1"));
    assert!(is_section_token("."));
    assert!(is_section_token("Zz09"));
    assert!(!is_section_token(""));
    assert!(!is_section_token("a-b"));
    assert!(!is_section_token("1 "));
    assert!(!is_section_token("\u{e9}"));
    assert!(!is_section_token("\u{661}"));
}

#[test]
fn section_characters_are_ascii_letters_digits_and_dot() {
    let mut n: u32 = 0;
    while n <= 0x10FFFF {
        if let Some(c) = char::from_u32(n) {
            assert_eq!(section_char(c), c.is_ascii_alphanumeric() || c == '.', "{:?}", c);
        }
        n += 1;
    }
}

#[test]
fn white_space_is_what_the_standard_library_calls_so() {
    let mut n: u32 = 0;
    while n <= 0x10FFFF {
        if let Some(c) = char::from_u32(n) {
            assert_eq!(is_whitespace(c), c.is_whitespace(), "{:?}", c);
        }
        n += 1;
    }
}

#[test]
fn parsing_agrees_with_splitting_on_white_space() {
    let inputs = [
        "ls", "2 open", "  a b  c ", "x\ty\nz", "git-log a", "1", ". dot", "\u{a0}nbsp\u{a0}x",
        "tar --help", "7 regex extra words",
    ];
    for input in inputs {
        let parts: Vec<&str> = input.split_whitespace().collect();
        let expected = if parts.len() >= 2 && is_section_token(parts[0]) {
            (Some(parts[0].to_string()), parts[1..].join(" "))
        } else {
            (None, parts.join(" "))
        };
        assert_eq!(parsed(input), expected);
    }
}
