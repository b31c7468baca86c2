use zero_to_prod::domain::{validate_email, validate_name, SubscriberEmail, SubscriberName};
use zero_to_prod::subscriptions::{parse_subscriber, FormData};

#[test]
fn a_plain_address_is_accepted() {
    assert!(validate_email("ursula_le_guin@gmail.com"));
    let parsed = SubscriberEmail::parse(String::from("ursula_le_guin@gmail.com"))
        .expect("the address is valid");
    assert_eq!(parsed.as_str(), "ursula_le_guin@gmail.com");
}

#[test]
fn addresses_without_an_at_sign_are_rejected() {
    assert!(!validate_email("definitely-not-an-email"));
    assert!(!validate_email("not-an-email"));
}

#[test]
fn addresses_with_a_misplaced_or_repeated_at_sign_are_rejected() {
    assert!(!validate_email("@gmail.com"));
    assert!(!validate_email("ursula@"));
    assert!(!validate_email("a@b@c.io"));
}

#[test]
fn addresses_with_a_space_or_too_short_are_rejected() {
    assert!(!validate_email("a b@c.io"));
    assert!(!validate_email(""));
    assert!(!validate_email("a@"));
}

#[test]
fn the_email_error_names_the_offending_address() {
    let err = SubscriberEmail::parse(String::from("not-an-email")).unwrap_err();
    assert_eq!(err, "not-an-email is not a valid subscriber email.");
}

#[test]
fn ordinary_names_are_accepted() {
    assert!(validate_name("le guin"));
    assert!(validate_name("Ursula"));
    let parsed = SubscriberName::parse(String::from("le guin")).expect("the name is valid");
    assert_eq!(parsed.as_str(), "le guin");
}

#[test]
fn empty_or_blank_names_are_rejected() {
    assert!(!validate_name(""));
    assert!(!validate_name("   "));
}

#[test]
fn overlong_names_are_rejected() {
    let at_bound = "a".repeat(256);
    assert!(validate_name(&at_bound));
    let too_long = "a".repeat(257);
    assert!(!validate_name(&too_long));
}

#[test]
fn names_with_forbidden_characters_are_rejected() {
    for name in ["a/b", "a(b", "a)b", "a\"b", "a<b", "a>b", "a\\b", "a{b", "a}b"] {
        assert!(!validate_name(name), "{name} must be rejected");
    }
}

#[test]
fn a_valid_form_parses_into_a_subscriber() {
    let form = FormData {
        email: String::from("ursula_le_guin@gmail.com"),
        name: String::from("le guin"),
    };
    let subscriber = parse_subscriber(form).expect("the form is valid");
    assert_eq!(subscriber.email.as_str(), "ursula_le_guin@gmail.com");
    assert_eq!(subscriber.name.as_str(), "le guin");
}

#[test]
fn the_name_is_checked_before_the_email() {
    let form = FormData { email: String::from("not-an-email"), name: String::from("") };
    let err = parse_subscriber(form).unwrap_err();
    assert_eq!(err, " is not a valid subscriber name.");

    let form = FormData { email: String::from("not-an-email"), name: String::from("Ursula") };
    let err = parse_subscriber(form).unwrap_err();
    assert_eq!(err, "not-an-email is not a valid subscriber email.");
}
