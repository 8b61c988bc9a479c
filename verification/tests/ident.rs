use pg_browser::ident::{is_valid_identifier, MAX_IDENTIFIER_LEN};

#[test]
fn identifiers_of_letters_digits_and_underscores_pass() {
    assert!(is_valid_identifier("accounts"));
    assert!(is_valid_identifier("Accounts"));
    assert!(is_valid_identifier("_t1"));
    assert!(is_valid_identifier("a"));
    assert!(is_valid_identifier("Z"));
    assert!(is_valid_identifier("_"));
    assert!(is_valid_identifier("order_items_2024"));
}

#[test]
fn identifier_must_not_be_empty() {
    assert!(!is_valid_identifier(""));
}

#[test]
fn identifier_must_not_start_with_a_digit() {
    assert!(!is_valid_identifier("1abc"));
    assert!(!is_valid_identifier("9"));
}

#[test]
fn identifier_must_not_hold_other_characters() {
    assert!(!is_valid_identifier("x; DROP TABLE accounts;"));
    assert!(!is_valid_identifier("a b"));
    assert!(!is_valid_identifier("a\"b"));
    assert!(!is_valid_identifier("a'b"));
    assert!(!is_valid_identifier("a-b"));
    assert!(!is_valid_identifier("a.b"));
    assert!(!is_valid_identifier("a$"));
    assert!(!is_valid_identifier("tabl\u{e9}"));
    assert!(!is_valid_identifier(" accounts"));
    assert!(!is_valid_identifier("accounts\n"));
}

#[test]
fn identifier_length_is_bounded() {
    assert_eq!(MAX_IDENTIFIER_LEN, 63);
    let longest = "a".repeat(63);
    let too_long = "a".repeat(64);
    assert!(is_valid_identifier(&longest));
    assert!(!is_valid_identifier(&too_long));
}
