use hello_actix_web::configuration::ApplicaionSettings;
use hello_actix_web::constants::SUBSCRIPTION_TOKEN_LENGTH;
use hello_actix_web::domain::{NewSubScriber, PersistedSubscriptionTokens};
use hello_actix_web::helper::error_chain_fmt;
use hello_actix_web::routes::subscriptions::{
    confirmation_email, generate_subscription_token, register_subscriber, subscribe_next,
    subscribe_start, subscriber_record, token_from_draws, token_record, FormData,
    SubscribeAction, SubscribeStep,
};
use hello_actix_web::routes::subscriptions_confirm::{
    confirm_status, status_update_outcome, token_lookup_outcome, ConfirmError,
};

fn new_subscriber() -> NewSubScriber {
    let form = FormData { email: "le_guin@gmail.com".to_string(), name: "le guin".to_string() };
    match NewSubScriber::try_from(form) {
        Ok(s) => s,
        Err(m) => panic!("{}", m),
    }
}

#[test]
fn token_is_alphanumeric_of_the_token_length() {
    let token = generate_subscription_token();
    assert_eq!(token.len(), SUBSCRIPTION_TOKEN_LENGTH);
    assert!(token.chars().all(|c| c.is_ascii_alphanumeric()));
}

#[test]
fn token_is_made_of_the_draws() {
    assert_eq!(token_from_draws(&vec![b'a', b'Z', b'0', b'7']), "aZ07");
    assert_eq!(token_from_draws(&vec![]), "");
}

#[test]
fn subscriber_record_keeps_what_it_is_given() {
    let subscriber = subscriber_record(new_subscriber(), 42, 1_700_000_000_000_000);
    assert_eq!(subscriber.id, 42);
    assert_eq!(subscriber.subscribed_at, 1_700_000_000_000_000);
    assert_eq!(subscriber.status, "pending_confirmation");
    assert_eq!(subscriber.name.as_ref(), "le guin");
    assert_eq!(subscriber.email.as_ref(), "le_guin@gmail.com");
}

#[test]
fn new_subscriber_is_pending_confirmation() {
    let subscriber = register_subscriber(new_subscriber());
    assert_eq!(subscriber.status, "pending_confirmation");
    assert_eq!(subscriber.name.as_ref(), "le guin");
    assert_eq!(subscriber.email.as_ref(), "le_guin@gmail.com");
    assert_eq!((subscriber.id >> 76) & 0xf, 4);
    assert_eq!((subscriber.id >> 62) & 0x3, 2);
    assert_eq!(uuid::Uuid::from_u128(subscriber.id).get_version_num(), 4);
    assert!(subscriber.subscribed_at > 0);
}

#[test]
fn token_confirms_its_subscriber() {
    let subscriber = register_subscriber(new_subscriber());
    let tokens = token_record(&subscriber);
    assert_eq!(tokens.subscriber_id, subscriber.id);
    assert_eq!(tokens.token.len(), SUBSCRIPTION_TOKEN_LENGTH);
    assert!(tokens.token.chars().all(|c| c.is_ascii_alphanumeric()));
}

#[test]
fn confirmation_email_carries_one_link_in_both_bodies() {
    let application = ApplicaionSettings {
        port: 0,
        host: "127.0.0.1".to_string(),
        base_url: "http://127.0.0.1".to_string(),
        has_domain: false,
    };
    let subscriber = register_subscriber(new_subscriber());
    let tokens = PersistedSubscriptionTokens { subscriber_id: subscriber.id, token: "abc".to_string() };
    let email = confirmation_email(&application, &subscriber, &tokens);
    let link = "http://127.0.0.1/subscriptions/confirm?subscription_token=abc";
    assert_eq!(email.recipient, "le_guin@gmail.com");
    assert_eq!(email.subject, "Welcome!");
    assert_eq!(
        email.html_body,
        format!("<p>Please <a href=\"{}\">click</a> to confirm your subscription.</p>", link)
    );
    assert_eq!(email.text_body, format!("Please visit {} to confirm your subscription.", link));
    assert_eq!(&email.html_body[19..19 + link.len()], &email.text_body[13..13 + link.len()]);
}

fn run_subscribe(outcomes: &[bool]) -> (u16, usize) {
    let mut action = subscribe_start();
    let mut ran: usize = 0;
    loop {
        match action {
            SubscribeAction::Respond(status) => return (status, ran),
            SubscribeAction::Run(step) => {
                let ok = outcomes[ran];
                ran += 1;
                action = subscribe_next(step, ok);
            }
        }
    }
}

#[test]
fn subscribe_runs_every_step_in_order() {
    let mut action = subscribe_start();
    let expected = [
        SubscribeStep::ParseForm,
        SubscribeStep::BeginTransaction,
        SubscribeStep::InsertSubscriber,
        SubscribeStep::StoreToken,
        SubscribeStep::Commit,
        SubscribeStep::SendConfirmationEmail,
    ];
    for step in expected {
        assert_eq!(action, SubscribeAction::Run(step));
        action = subscribe_next(step, true);
    }
    assert_eq!(action, SubscribeAction::Respond(200));
}

#[test]
fn invalid_form_is_answered_400_before_any_database_work() {
    assert_eq!(run_subscribe(&[false]), (400, 1));
}

#[test]
fn database_and_email_failures_are_answered_500() {
    for k in 1..6 {
        let mut outcomes = vec![true; 6];
        outcomes[k] = false;
        assert_eq!(run_subscribe(&outcomes), (500, k + 1));
    }
    assert_eq!(run_subscribe(&[true; 6]), (200, 6));
}

#[test]
fn error_chain_is_shown_cause_by_cause() {
    let text = error_chain_fmt(
        &"top".to_string(),
        &vec!["middle".to_string(), "bottom".to_string()],
    );
    assert_eq!(text, "top\n\nCaused by:\n\tmiddle\nCaused by:\n\tbottom\n");
    assert_eq!(error_chain_fmt(&"alone".to_string(), &vec![]), "alone\n\n");
}

#[test]
fn unknown_token_is_answered_401() {
    let outcome = token_lookup_outcome("a_common_string".to_string(), Ok(None));
    match outcome {
        Err(e) => {
            assert_eq!(e.status_code(), 401);
            assert_eq!(e.message(), "invalid token");
            assert_eq!(e.debug_text(), "invalid token\n\n");
        }
        Ok(_) => panic!("accepted an unknown token"),
    }
}

#[test]
fn found_token_names_its_subscriber() {
    let id: u128 = 7;
    match token_lookup_outcome("tok".to_string(), Ok(Some(id))) {
        Ok(t) => {
            assert_eq!(t.subscriber_id, id);
            assert_eq!(t.token, "tok");
        }
        Err(_) => panic!("refused a known token"),
    }
}

#[test]
fn failed_lookup_is_answered_500() {
    let causes = vec!["error communicating with database".to_string(), "connection lost".to_string()];
    match token_lookup_outcome("tok".to_string(), Err(causes)) {
        Err(e) => {
            assert_eq!(e.status_code(), 500);
            assert_eq!(e.message(), "failed to query token in the DB");
            assert_eq!(
                e.debug_text(),
                "failed to query token in the DB\n\nCaused by:\n\terror communicating with database\nCaused by:\n\tconnection lost\n"
            );
        }
        Ok(_) => panic!("accepted"),
    }
}

#[test]
fn status_update_outcomes() {
    let ok = status_update_outcome(Ok(1));
    assert_eq!(confirm_status(&ok), 200);
    let failed = status_update_outcome(Err(vec!["no column".to_string()]));
    assert_eq!(confirm_status(&failed), 500);
    match failed {
        Err(ConfirmError::UnexpectedError(context, causes)) => {
            assert_eq!(context, "failed to update subscriber status in the DB");
            assert_eq!(causes, vec!["no column".to_string()]);
        }
        _ => panic!("not an unexpected error"),
    }
    assert_eq!(confirm_status(&Err(ConfirmError::InvalidToken)), 401);
}
