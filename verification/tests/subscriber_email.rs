use newsletter::domain::subscriber_email::rejection;
use newsletter::domain::SubscriberEmail;

#[test]
fn empty_email_is_rejected() {
    let email = "".to_string();
    assert!(SubscriberEmail::parse(email).is_err());
}

#[test]
fn email_missing_at_symbol_is_rejected() {
    let email = "testemail.com".to_string();
    assert!(SubscriberEmail::parse(email).is_err());
}

#[test]
fn email_missing_subject_is_rejected() {
    let email = "@email.com".to_string();
    assert!(SubscriberEmail::parse(email).is_err());
}

#[test]
fn valid_emails_are_parsed_successfully() {
    let valid = vec![
        "ursula_le_guin@gmail.com",
        "matt_b@gmail.com",
        "a@x.com",
        "first.last@sub.example.org",
        "weirder-email@here.and.there.com",
        "abc@bar",
    ];
    for email in valid {
        assert!(SubscriberEmail::parse(email.to_string()).is_ok(), "{} was refused", email);
    }
}

#[test]
fn parsed_email_keeps_the_text_verbatim() {
    let email = SubscriberEmail::parse("Ursula.LeGuin@Example.COM".to_string()).unwrap();
    assert_eq!(email.as_ref(), "Ursula.LeGuin@Example.COM");
    assert_eq!(email.to_string(), "Ursula.LeGuin@Example.COM".to_string());
}

#[test]
fn rejection_names_the_refused_text() {
    let refused = SubscriberEmail::parse("defs-not-an-email".to_string());
    assert_eq!(
        refused,
        Err("defs-not-an-email is not a valid subscriber email".to_string())
    );
    let empty = SubscriberEmail::parse(String::new());
    assert_eq!(empty, Err(" is not a valid subscriber email".to_string()));
}

#[test]
fn malformed_addresses_are_rejected() {
    let malformed = vec![
        "abc@",
        "a @x.cz",
        "abc@.com",
        "something@@somewhere.com",
        "a@b.com\n",
        "John.Doe@exam_ple.com",
        "trailingdot@shouldfail.com.",
    ];
    for email in malformed {
        assert!(SubscriberEmail::parse(email.to_string()).is_err(), "{} was accepted", email);
    }
}

#[test]
fn email_equality_follows_the_text() {
    let a = SubscriberEmail::parse("a@x.com".to_string()).unwrap();
    let same = SubscriberEmail::parse("a@x.com".to_string()).unwrap();
    let upper = SubscriberEmail::parse("A@x.com".to_string()).unwrap();
    let other = SubscriberEmail::parse("b@x.com".to_string()).unwrap();
    assert_eq!(a, same);
    assert_ne!(a, upper);
    assert_ne!(a, other);
    let copy = a.clone();
    assert_eq!(copy, a);
    assert_eq!(copy.as_ref(), "a@x.com");
}

#[test]
fn refusal_is_worded_after_the_text() {
    assert_eq!(rejection("nobody"), "nobody is not a valid subscriber email".to_string());
    assert_eq!(rejection(""), " is not a valid subscriber email".to_string());
}
