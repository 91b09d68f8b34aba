use user_model::errors::UserErrorCode;
use user_model::parser::user_name::{
    first_broken_rule, has_forbidden_characters, is_forbidden, UserName, MAX_GRAPHEMES,
};

const FORBIDDEN: [char; 9] = ['/', '(', ')', '"', '<', '>', '\\', '{', '}'];

fn content(name: &UserName) -> &str {
    name.as_ref()
}

#[test]
fn a_256_grapheme_long_name_is_valid() {
    let name = "a̐".repeat(256);
    assert!(UserName::parse(name).is_ok());
}

#[test]
fn a_name_longer_than_256_graphemes_is_rejected() {
    let name = "a".repeat(257);
    assert!(UserName::parse(name).is_err());
}

#[test]
fn whitespace_only_names_are_rejected() {
    let name = " ".to_string();
    assert!(UserName::parse(name).is_err());
}

#[test]
fn empty_string_is_rejected() {
    let name = "".to_string();
    assert!(UserName::parse(name).is_err());
}

#[test]
fn names_containing_an_invalid_character_are_rejected() {
    for name in &['/', '(', ')', '"', '<', '>', '\\', '{', '}'] {
        let name = name.to_string();
        assert!(UserName::parse(name).is_err());
    }
}

#[test]
fn a_valid_name_is_parsed_successfully() {
    let name = "nathan".to_string();
    assert!(UserName::parse(name).is_ok());
}

#[test]
fn a_parsed_name_holds_the_text_it_was_given() {
    let name = UserName::parse("nathan".to_string()).unwrap();
    assert_eq!(content(&name), "nathan");
}

#[test]
fn surrounding_whitespace_and_case_are_kept() {
    let name = UserName::parse("  Jo Ann\t".to_string()).unwrap();
    assert_eq!(content(&name), "  Jo Ann\t");
}

#[test]
fn a_decomposed_name_is_not_normalised() {
    let name = UserName::parse("Ame\u{301}lie".to_string()).unwrap();
    assert_eq!(content(&name), "Ame\u{301}lie");
    assert_eq!(content(&name).chars().count(), 7);
}

#[test]
fn the_empty_text_is_empty() {
    let r = UserName::parse(String::new());
    assert_eq!(r.err(), Some(UserErrorCode::UserNameIsEmpty));
}

#[test]
fn three_spaces_are_empty() {
    let r = UserName::parse("   ".to_string());
    assert_eq!(r.err(), Some(UserErrorCode::UserNameIsEmpty));
}

#[test]
fn whitespace_beyond_ascii_is_empty() {
    let r = UserName::parse("\u{2003}\u{a0}\n\u{3000}\u{85}".to_string());
    assert_eq!(r.err(), Some(UserErrorCode::UserNameIsEmpty));
}

#[test]
fn a_zero_width_space_is_not_whitespace() {
    let name = UserName::parse("\u{200b}".to_string()).unwrap();
    assert_eq!(content(&name), "\u{200b}");
}

#[test]
fn two_hundred_and_fifty_seven_letters_are_too_long() {
    let r = UserName::parse("a".repeat(257));
    assert_eq!(r.err(), Some(UserErrorCode::UserNameTooLong));
}

#[test]
fn two_hundred_and_fifty_six_letters_are_accepted() {
    let text = "a".repeat(256);
    let name = UserName::parse(text.clone()).unwrap();
    assert_eq!(content(&name), text);
}

#[test]
fn length_is_counted_in_clusters_not_in_characters() {
    let text = "a\u{30a}".repeat(256);
    assert_eq!(text.chars().count(), 512);
    let name = UserName::parse(text.clone()).unwrap();
    assert_eq!(content(&name), text);
}

#[test]
fn one_cluster_past_the_limit_is_too_long() {
    let r = UserName::parse("a\u{30a}".repeat(257));
    assert_eq!(r.err(), Some(UserErrorCode::UserNameTooLong));
}

#[test]
fn a_slash_inside_a_name_is_forbidden() {
    let r = UserName::parse("foo/bar".to_string());
    assert_eq!(r.err(), Some(UserErrorCode::UserNameContainForbiddenCharacters));
}

#[test]
fn each_forbidden_character_alone_is_forbidden() {
    for c in FORBIDDEN {
        let r = UserName::parse(c.to_string());
        assert_eq!(r.err(), Some(UserErrorCode::UserNameContainForbiddenCharacters));
    }
}

#[test]
fn a_forbidden_character_under_a_combining_mark_is_found() {
    let r = UserName::parse("ab<\u{301}cd".to_string());
    assert_eq!(r.err(), Some(UserErrorCode::UserNameContainForbiddenCharacters));
}

#[test]
fn emptiness_is_judged_before_length() {
    let r = UserName::parse(" ".repeat(257));
    assert_eq!(r.err(), Some(UserErrorCode::UserNameIsEmpty));
}

#[test]
fn length_is_judged_before_the_characters() {
    let r = UserName::parse("/".repeat(257));
    assert_eq!(r.err(), Some(UserErrorCode::UserNameTooLong));
    let r = UserName::parse(format!("{}{{", "a".repeat(256)));
    assert_eq!(r.err(), Some(UserErrorCode::UserNameTooLong));
}

#[test]
fn a_forbidden_character_at_the_limit_is_forbidden() {
    let r = UserName::parse(format!("{}}}", "a".repeat(255)));
    assert_eq!(r.err(), Some(UserErrorCode::UserNameContainForbiddenCharacters));
}

#[test]
fn the_limit_is_256() {
    assert_eq!(MAX_GRAPHEMES, 256);
}

#[test]
fn the_rules_take_the_count_they_are_given() {
    assert_eq!(first_broken_rule("nathan", 6), None);
    assert_eq!(first_broken_rule("nathan", 0), None);
    assert_eq!(first_broken_rule("nathan", 256), None);
    assert_eq!(first_broken_rule("nathan", 257), Some(UserErrorCode::UserNameTooLong));
    assert_eq!(first_broken_rule("nathan", usize::MAX), Some(UserErrorCode::UserNameTooLong));
}

#[test]
fn the_first_broken_rule_is_the_one_reported() {
    assert_eq!(first_broken_rule("", 0), Some(UserErrorCode::UserNameIsEmpty));
    assert_eq!(first_broken_rule(" \t ", 300), Some(UserErrorCode::UserNameIsEmpty));
    assert_eq!(first_broken_rule("a(b", 300), Some(UserErrorCode::UserNameTooLong));
    assert_eq!(
        first_broken_rule("a(b", 3),
        Some(UserErrorCode::UserNameContainForbiddenCharacters)
    );
    assert_eq!(first_broken_rule(" a b ", 5), None);
}

#[test]
fn exactly_nine_characters_are_forbidden() {
    for c in FORBIDDEN {
        assert!(is_forbidden(c));
    }
    let forbidden = ('\0'..=char::MAX).filter(|c| is_forbidden(*c)).count();
    assert_eq!(forbidden, 9);
}

#[test]
fn forbidden_characters_are_found_wherever_they_stand() {
    assert!(has_forbidden_characters("/abc"));
    assert!(has_forbidden_characters("abc\\"));
    assert!(has_forbidden_characters("a\"c"));
    assert!(!has_forbidden_characters(""));
    assert!(!has_forbidden_characters("abc [def] | ghi"));
}
