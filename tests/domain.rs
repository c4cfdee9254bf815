use zero2prod::domain::{NewSubscriber, SubscriberEmail, SubscriberName, SubscriptionRequest};

#[test]
fn a_256_character_name_is_valid() {
    let name = "ё".repeat(256);
    assert!(SubscriberName::parse(name).is_ok());
}

#[test]
fn a_name_longer_than_256_characters_is_rejected() {
    let name = "a".repeat(257);
    assert!(SubscriberName::parse(name).is_err());
}

#[test]
fn whitespace_only_names_are_rejected() {
    assert!(SubscriberName::parse(" \t\n".to_string()).is_err());
}

#[test]
fn empty_string_is_rejected() {
    assert!(SubscriberName::parse("".to_string()).is_err());
}

#[test]
fn names_containing_an_invalid_character_are_rejected() {
    for name in &['/', '(', ')', '"', '<', '>', '\\', '{', '}'] {
        let name = format!("ursula{}", name);
        assert!(SubscriberName::parse(name).is_err());
    }
}

#[test]
fn names_containing_a_control_character_are_rejected() {
    assert!(SubscriberName::parse("ursula\u{7}".to_string()).is_err());
    assert!(SubscriberName::parse("ur\u{85}sula".to_string()).is_err());
}

#[test]
fn a_valid_name_is_parsed_successfully() {
    let name = SubscriberName::parse("Ursula".to_string()).unwrap();
    assert_eq!(name.as_ref(), "Ursula");
}

#[test]
fn a_rejected_name_names_itself_in_the_error() {
    let error = SubscriberName::parse("a/b".to_string()).unwrap_err();
    assert_eq!(error, "a/b is not a valid subscriber name.");
}

#[test]
fn empty_email_is_rejected() {
    assert!(SubscriberEmail::parse("".to_string()).is_err());
}

#[test]
fn email_missing_at_symbol_is_rejected() {
    assert!(SubscriberEmail::parse("ursuladomain.com".to_string()).is_err());
}

#[test]
fn email_missing_subject_is_rejected() {
    assert!(SubscriberEmail::parse("@domain.com".to_string()).is_err());
}

#[test]
fn email_missing_domain_is_rejected() {
    assert!(SubscriberEmail::parse("ursula@".to_string()).is_err());
}

#[test]
fn email_with_a_dotted_domain_is_accepted() {
    let email = SubscriberEmail::parse("ursula@domain.com".to_string()).unwrap();
    assert_eq!(email.as_ref(), "ursula@domain.com");
}

#[test]
fn email_whose_domain_has_no_dot_is_rejected() {
    assert!(SubscriberEmail::parse("ursula@domain".to_string()).is_err());
}

#[test]
fn email_with_two_at_symbols_is_rejected() {
    assert!(SubscriberEmail::parse("ursula@le@domain.com".to_string()).is_err());
}

#[test]
fn email_with_misplaced_dots_is_rejected() {
    assert!(SubscriberEmail::parse("ursula@domain..com".to_string()).is_err());
    assert!(SubscriberEmail::parse("ursula@.domain.com".to_string()).is_err());
    assert!(SubscriberEmail::parse("ursula@domain.com.".to_string()).is_err());
    assert!(SubscriberEmail::parse(".ursula@domain.com".to_string()).is_err());
}

#[test]
fn email_with_whitespace_is_rejected() {
    assert!(SubscriberEmail::parse("ursula le guin@domain.com".to_string()).is_err());
}

#[test]
fn definitely_not_an_email_is_rejected() {
    let error = SubscriberEmail::parse("definitely-not-an-email".to_string()).unwrap_err();
    assert_eq!(error, "definitely-not-an-email is not a valid subscriber email.");
}

#[test]
fn emails_compare_by_their_text() {
    let a = SubscriberEmail::parse("ursula@domain.com".to_string()).unwrap();
    let b = SubscriberEmail::parse("ursula@domain.com".to_string()).unwrap();
    let c = SubscriberEmail::parse("le_guin@domain.com".to_string()).unwrap();
    assert_eq!(a, b);
    assert_ne!(a, c);
    assert_eq!(a.clone(), a);
}

#[test]
fn a_valid_request_becomes_a_new_subscriber() {
    let request = SubscriptionRequest {
        email: "ursula_le_guin@gmail.com".to_string(),
        name: "le guin".to_string(),
    };
    let subscriber = NewSubscriber::try_from(request).unwrap();
    assert_eq!(subscriber.email.as_ref(), "ursula_le_guin@gmail.com");
    assert_eq!(subscriber.name.as_ref(), "le guin");
}

#[test]
fn the_name_is_checked_before_the_email() {
    let request = SubscriptionRequest {
        email: "definitely-not-an-email".to_string(),
        name: "".to_string(),
    };
    let error = NewSubscriber::try_from(request).unwrap_err();
    assert_eq!(error, " is not a valid subscriber name.");
}

#[test]
fn emails_order_by_their_text() {
    let a = SubscriberEmail::parse("alice@domain.com".to_string()).unwrap();
    let b = SubscriberEmail::parse("bob@domain.com".to_string()).unwrap();
    assert!(a < b);
    let mut set = std::collections::BTreeSet::new();
    set.insert(b.clone());
    set.insert(a.clone());
    set.insert(a.clone());
    assert_eq!(set.len(), 2);
    assert_eq!(set.iter().next().unwrap().as_ref(), "alice@domain.com");
}
