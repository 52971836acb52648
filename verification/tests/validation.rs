use natter::validate::{
    validate_message_text, validate_password, validate_space_name, validate_username,
};

#[test]
fn username_validator_accepts_letter_then_alphanumerics() {
    assert!(validate_username("ab12"));
    assert!(validate_username("ab"));
    assert!(validate_username("Alice"));
    assert!(validate_username("z9999999999999999999999999999"));
}

#[test]
fn username_validator_rejects_leading_digit() {
    assert!(!validate_username("1abc"));
}

#[test]
fn username_validator_rejects_too_short() {
    assert!(!validate_username("a"));
    assert!(!validate_username(""));
}

#[test]
fn username_validator_rejects_too_long() {
    let thirty_one: String = "a".repeat(31);
    assert!(!validate_username(&thirty_one));
    let thirty: String = "a".repeat(30);
    assert!(validate_username(&thirty));
}

#[test]
fn username_validator_rejects_other_characters() {
    assert!(!validate_username("ab-12"));
    assert!(!validate_username("ab 12"));
    assert!(!validate_username("ab\u{e9}12"));
}

#[test]
fn password_rule_counts_characters_not_bytes() {
    assert!(validate_password("12345678"));
    assert!(!validate_password("1234567"));
    assert!(validate_password("\u{e9}\u{e9}\u{e9}\u{e9}\u{e9}\u{e9}\u{e9}\u{e9}"));
}

#[test]
fn space_name_rule_is_at_most_255_characters() {
    assert!(validate_space_name(""));
    assert!(validate_space_name(&"x".repeat(255)));
    assert!(!validate_space_name(&"x".repeat(256)));
}

#[test]
fn message_text_rule_is_at_most_1024_characters() {
    assert!(validate_message_text(&"x".repeat(1024)));
    assert!(!validate_message_text(&"x".repeat(1025)));
}

#[test]
fn revalidating_the_same_payload_gives_the_same_outcome() {
    let first = validate_username("ab12");
    let second = validate_username("ab12");
    assert_eq!(first, second);
    let first = validate_password("longpassword");
    let second = validate_password("longpassword");
    assert_eq!(first, second);
}
