//! Database-name expansion and operation-token matching.

use tdb::parse_db_name;
use tdb::is_db_code;
use tdb::parse_operation;
use tdb::Operation;

#[test]
fn code_is_expanded() {
    assert_eq!(parse_db_name("abc12"), "acgapplication_abc12");
}

#[test]
fn digit_in_wrong_position_passes_through() {
    assert_eq!(parse_db_name("ab1c2"), "ab1c2");
}

#[test]
fn wrong_length_passes_through() {
    assert_eq!(parse_db_name("longname"), "longname");
}

#[test]
fn empty_name_passes_through() {
    assert_eq!(parse_db_name(""), "");
}

#[test]
fn letter_case_is_preserved_in_expansion() {
    assert_eq!(parse_db_name("ABC00"), "acgapplication_ABC00");
    assert_eq!(parse_db_name("AbC99"), "acgapplication_AbC99");
}

#[test]
fn code_classification() {
    assert!(is_db_code("abc12"));
    assert!(is_db_code("XYZ00"));
    assert!(!is_db_code("ab112"));
    assert!(!is_db_code("abcd2"));
    assert!(!is_db_code("abc1x"));
    assert!(!is_db_code("abc123"));
    assert!(!is_db_code("ab12"));
    assert!(!is_db_code(""));
}

#[test]
fn non_ascii_names_are_not_codes() {
    assert!(!is_db_code("ab\u{e9}12"));
    assert_eq!(parse_db_name("ab\u{e9}12"), "ab\u{e9}12");
}

#[test]
fn operation_tokens_match_case_insensitively() {
    assert_eq!(parse_operation("s"), Some(Operation::Select));
    assert_eq!(parse_operation("select"), Some(Operation::Select));
    assert_eq!(parse_operation("SELECT"), Some(Operation::Select));
    assert_eq!(parse_operation("SeLeCt"), Some(Operation::Select));
    assert_eq!(parse_operation("S"), Some(Operation::Select));
    assert_eq!(parse_operation("i"), Some(Operation::Insert));
    assert_eq!(parse_operation("Insert"), Some(Operation::Insert));
    assert_eq!(parse_operation("U"), Some(Operation::Update));
    assert_eq!(parse_operation("update"), Some(Operation::Update));
}

#[test]
fn unknown_operation_tokens_match_nothing() {
    assert_eq!(parse_operation(""), None);
    assert_eq!(parse_operation("sel"), None);
    assert_eq!(parse_operation("deletes"), None);
    assert_eq!(parse_operation("selects"), None);
}
