use clang::documentation::{InlineCommandStyle, ParameterDirection};
use clang::token::TokenKind;
use clang::utility;

#[test]
fn strings_from_libclang() {
    assert_eq!(utility::to_string_option(None), None);
    assert_eq!(utility::to_string_option(Some(String::new())), None);
    assert_eq!(utility::to_string_option(Some("c:@a".to_string())), Some("c:@a".to_string()));
    assert_eq!(utility::chars_of("héllo"), vec!['h', 'é', 'l', 'l', 'o']);
}

#[test]
fn counts_and_flags() {
    assert_eq!(utility::count_option(3), Some(3));
    assert_eq!(utility::count_option(0), Some(0));
    assert_eq!(utility::count_option(-1), None);
    assert_eq!(utility::nonnegative(5), Some(5));
    assert_eq!(utility::nonnegative(-5), None);
    assert_eq!(utility::set_flag(0b1010, 0b0100, true), 0b1110);
    assert_eq!(utility::set_flag(0b1010, 0b0010, false), 0b1000);
    assert_eq!(utility::set_flag(0b1010, 0b0100, false), 0b1010);
    assert!(utility::starts_with(&vec!['s', 't', 'r'], &vec!['s', 't']));
    assert!(!utility::starts_with(&vec!['s'], &vec!['s', 't']));
    assert!(utility::chars_eq(&vec!['a'], &vec!['a']));
    assert!(!utility::chars_eq(&vec!['a'], &vec!['a', 'b']));
    assert!(utility::char_less('a', 'b'));
    assert!(!utility::char_less('b', 'b'));
}

#[test]
fn comment_and_token_kinds() {
    assert_eq!(ParameterDirection::from_raw(2), Some(ParameterDirection::InOut));
    assert_eq!(ParameterDirection::from_raw(3), None);
    assert_eq!(InlineCommandStyle::from_render_kind(0), None);
    assert_eq!(InlineCommandStyle::from_render_kind(2), Some(InlineCommandStyle::Monospace));
    assert_eq!(InlineCommandStyle::from_render_kind(4), None);
    assert_eq!(TokenKind::from_raw(4), Some(TokenKind::Comment));
    assert_eq!(TokenKind::from_raw(0), Some(TokenKind::Punctuation));
    assert_eq!(TokenKind::from_raw(5), None);
}
