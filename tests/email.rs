use auth_service::{Email, EmailError};

#[test]
fn test_valid_email_simple() {
    let email = Email::parse("user@example.com").unwrap();
    assert_eq!(email.as_str(), "user@example.com");
}

#[test]
fn test_valid_email_with_subdomain() {
    let email = Email::parse("user@mail.example.com").unwrap();
    assert_eq!(email.as_str(), "user@mail.example.com");
}

#[test]
fn test_valid_email_with_plus() {
    let email = Email::parse("user+tag@example.com").unwrap();
    assert_eq!(email.as_str(), "user+tag@example.com");
}

#[test]
fn test_valid_email_with_dots() {
    let email = Email::parse("first.last@example.com").unwrap();
    assert_eq!(email.as_str(), "first.last@example.com");
}

#[test]
fn test_valid_email_with_numbers() {
    let email = Email::parse("user123@example456.com").unwrap();
    assert_eq!(email.as_str(), "user123@example456.com");
}

#[test]
fn test_valid_email_with_hyphens() {
    let email = Email::parse("user@my-domain.com").unwrap();
    assert_eq!(email.as_str(), "user@my-domain.com");
}

#[test]
fn test_valid_email_trims_whitespace() {
    let email = Email::parse("  user@example.com  ").unwrap();
    assert_eq!(email.as_str(), "user@example.com");
}

#[test]
fn test_empty_string() {
    let result = Email::parse("");
    assert_eq!(result, Err(EmailError::Empty));
}

#[test]
fn test_whitespace_only() {
    let result = Email::parse("   ");
    assert_eq!(result, Err(EmailError::Empty));
}

#[test]
fn test_missing_at_symbol() {
    let result = Email::parse("userexample.com");
    assert_eq!(result, Err(EmailError::InvalidFormat));
}

#[test]
fn test_missing_local_part() {
    let result = Email::parse("@example.com");
    assert_eq!(result, Err(EmailError::InvalidFormat));
}

#[test]
fn test_missing_domain() {
    let result = Email::parse("user@");
    assert_eq!(result, Err(EmailError::InvalidFormat));
}

#[test]
fn test_missing_domain_extension() {
    // Addresses without a top-level domain (user@localhost) are accepted.
    let result = Email::parse("user@example");
    assert!(result.is_ok(), "validator allows emails without TLD");
}

#[test]
fn test_invalid_domain_starting_with_dot() {
    let result = Email::parse("user@.example.com");
    assert_eq!(result, Err(EmailError::InvalidFormat));
}

#[test]
fn test_invalid_domain_ending_with_dot() {
    let result = Email::parse("user@example.com.");
    assert_eq!(result, Err(EmailError::InvalidFormat));
}

#[test]
fn test_multiple_at_symbols() {
    let result = Email::parse("user@@example.com");
    assert_eq!(result, Err(EmailError::InvalidFormat));
}

#[test]
fn test_invalid_characters() {
    let result = Email::parse("user name@example.com");
    assert_eq!(result, Err(EmailError::InvalidFormat));
}

#[test]
fn test_consecutive_dots() {
    // Consecutive dots in the local part are accepted, as RFC 5321 allows.
    let result = Email::parse("user..name@example.com");
    assert!(result.is_ok(), "validator allows consecutive dots per RFC 5321");
}

#[test]
fn email_test_as_ref_implementation() {
    let email = Email::parse("user@example.com").unwrap();
    let email_ref: &str = email.as_ref();
    assert_eq!(email_ref, "user@example.com");
}

#[test]
fn test_display_implementation() {
    let email = Email::parse("user@example.com").unwrap();
    assert_eq!(email.to_text(), "user@example.com");
}

#[test]
fn email_test_clone_and_equality() {
    let email1 = Email::parse("user@example.com").unwrap();
    let email2 = email1.clone();
    assert_eq!(email1, email2);
}

#[test]
fn email_parse_is_idempotent_on_its_own_output() {
    for raw in ["  a@x.com ", "\tuser+tag@mail.example.com\n", "first.last@example.com"] {
        let once = Email::parse(raw).unwrap();
        let twice = Email::parse(once.as_str()).unwrap();
        assert_eq!(once, twice);
        assert_eq!(once.as_str(), raw.trim());
    }
}

#[test]
fn email_trims_unicode_white_space() {
    let email = Email::parse("\u{3000}user@example.com\u{a0}").unwrap();
    assert_eq!(email.as_str(), "user@example.com");
}

#[test]
fn email_equal_addresses_compare_equal() {
    let a = Email::parse("user@example.com").unwrap();
    let b = Email::parse(" user@example.com").unwrap();
    let c = Email::parse("other@example.com").unwrap();
    assert!(a.same_as(&b));
    assert!(!a.same_as(&c));
    assert_eq!(a.to_owned_email(), b);
}
