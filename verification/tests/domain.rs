use zero2prod::domain::{SubscriberEmail, SubscriberName, ValidationError};

#[test]
fn empty_string_is_rejected() {
    let email = "".to_owned();
    assert!(SubscriberEmail::parse(&email).is_err());
}

#[test]
fn email_missing_at_symbol_is_rejected() {
    let email = "ursula.domain.com".to_owned();
    assert!(SubscriberEmail::parse(&email).is_err());
}

#[test]
fn email_missing_subject_is_rejected() {
    let email = "@domain.com".to_owned();
    assert!(SubscriberEmail::parse(&email).is_err());
}

#[test]
fn email_missing_domain_is_rejected() {
    assert!(SubscriberEmail::parse("ursula@").is_err());
}

#[test]
fn invalid_email_error_carries_the_input() {
    match SubscriberEmail::parse("not-an-email") {
        Err(ValidationError::InvalidEmail(raw)) => assert_eq!(raw, "not-an-email"),
        other => panic!("expected InvalidEmail, got {:?}", other),
    }
}

#[test]
fn valid_email_round_trips_exactly() {
    let email = SubscriberEmail::parse("ursula_le_guin@gmail.com").unwrap();
    assert_eq!(email.as_ref(), "ursula_le_guin@gmail.com");
}

#[test]
fn more_valid_emails_are_accepted() {
    for raw in ["a@b.com", "first.last+tag@sub.example.org", "x_9@domain.co"] {
        let parsed = SubscriberEmail::parse(raw).unwrap();
        assert_eq!(parsed.as_ref(), raw);
    }
}

#[test]
fn whitespace_only_name_is_rejected_as_empty() {
    for raw in ["", " ", "   ", "\t\n  \r ", "\u{00A0}\u{2003}"] {
        assert!(matches!(
            SubscriberName::parse(raw),
            Err(ValidationError::Empty)
        ));
    }
}

#[test]
fn a_256_grapheme_long_name_is_valid() {
    let name = "a".repeat(256);
    assert!(SubscriberName::parse(&name).is_ok());
}

#[test]
fn a_name_longer_than_256_graphemes_is_rejected() {
    let name = "a".repeat(257);
    assert!(matches!(
        SubscriberName::parse(&name),
        Err(ValidationError::TooLong)
    ));
}

#[test]
fn length_is_counted_in_graphemes_not_chars() {
    // 200 clusters of two chars each: 400 chars but only 200 graphemes.
    let name = "e\u{0301}".repeat(200);
    let parsed = SubscriberName::parse(&name).unwrap();
    assert_eq!(parsed.as_ref(), name);
}

#[test]
fn names_containing_a_forbidden_character_are_rejected() {
    for c in ['/', '(', ')', '"', '<', '>', '\\', '{', '}'] {
        let name = format!("valid name {c} valid tail");
        assert!(matches!(
            SubscriberName::parse(&name),
            Err(ValidationError::ForbiddenCharacter)
        ));
    }
}

#[test]
fn a_valid_name_is_accepted_and_kept() {
    let parsed = SubscriberName::parse("Ursula Le Guin").unwrap();
    assert_eq!(parsed.as_ref(), "Ursula Le Guin");
}

#[test]
fn a_name_is_trimmed_on_both_ends() {
    let parsed = SubscriberName::parse("  \t le guin \n ").unwrap();
    assert_eq!(parsed.as_ref(), "le guin");
}

#[test]
fn interior_whitespace_is_kept() {
    let parsed = SubscriberName::parse(" a \t b ").unwrap();
    assert_eq!(parsed.as_ref(), "a \t b");
}
