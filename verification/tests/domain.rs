use hello_actix_web::domain::{NewSubScriber, SubscriberEmail, SubscriberName};
use hello_actix_web::routes::subscriptions::FormData;

#[test]
fn empty_string_rejected() {
    let email = "".to_string();
    assert!(SubscriberEmail::parse(email).is_err());
}

#[test]
fn email_missing_at_symbol_rejected() {
    let email = "abc.def".to_string();
    assert!(SubscriberEmail::parse(email).is_err());
}

#[test]
fn email_missing_subject_rejected() {
    let email = "@abc.def".to_string();
    assert!(SubscriberEmail::parse(email).is_err());
}

#[test]
fn valid_email_is_accepted_as_given() {
    let email = SubscriberEmail::parse("le_guin@gmail.com".to_string()).unwrap();
    assert_eq!(email.as_ref(), "le_guin@gmail.com");
}

#[test]
fn email_without_domain_rejected() {
    assert!(SubscriberEmail::parse("invalid_email".to_string()).is_err());
    assert!(SubscriberEmail::parse("@invalid_email".to_string()).is_err());
}

#[test]
fn refused_email_message_names_the_address() {
    let message = SubscriberEmail::parse("abc.def".to_string()).unwrap_err();
    assert_eq!(message, "abc.def is not a valid subscriber email");
}

#[test]
fn user_part_longer_than_sixty_four_rejected() {
    let long = format!("{}@example.com", "a".repeat(65));
    assert!(SubscriberEmail::parse(long).is_err());
    let ok = format!("{}@example.com", "a".repeat(64));
    assert!(SubscriberEmail::parse(ok).is_ok());
}

#[test]
fn empty_name_rejected() {
    let message = SubscriberName::parse(String::new()).unwrap_err();
    assert_eq!(message, " is not a valid subscriber name");
}

#[test]
fn name_is_kept_as_given() {
    let name = SubscriberName::parse("le guin".to_string()).unwrap();
    assert_eq!(name.as_ref(), "le guin");
}

#[test]
fn valid_form_gives_a_new_subscriber() {
    let form = FormData { email: "le_guin@gmail.com".to_string(), name: "le guin".to_string() };
    match NewSubScriber::try_from(form) {
        Ok(s) => {
            assert_eq!(s.name.as_ref(), "le guin");
            assert_eq!(s.email.as_ref(), "le_guin@gmail.com");
        }
        Err(m) => panic!("refused: {}", m),
    }
}

#[test]
fn form_with_empty_name_is_refused_for_the_name_first() {
    let form = FormData { email: String::new(), name: String::new() };
    match NewSubScriber::try_from(form) {
        Ok(_) => panic!("accepted"),
        Err(m) => assert_eq!(m, " is not a valid subscriber name"),
    }
}

#[test]
fn form_with_empty_email_is_refused() {
    let form = FormData { email: String::new(), name: "le guin".to_string() };
    match NewSubScriber::try_from(form) {
        Ok(_) => panic!("accepted"),
        Err(m) => assert_eq!(m, " is not a valid subscriber email"),
    }
}

#[test]
fn form_with_invalid_email_is_refused() {
    let form = FormData { email: "invalid_email".to_string(), name: "le guin".to_string() };
    assert!(NewSubScriber::try_from(form).is_err());
}
