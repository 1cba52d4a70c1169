use rand::Rng;
use vstd::prelude::*;

use crate::configuration::ApplicaionSettings;
use crate::constants::SUBSCRIPTION_TOKEN_LENGTH;
use crate::domain::new_subscriber::NewSubScriber;
use crate::domain::persisted_data::{is_v4_uuid, PersistedSubscriber, PersistedSubscriptionTokens};
use crate::domain::subscriber_email::{invalid_email_message, validated_email, SubscriberEmail};
use crate::domain::subscriber_name::{invalid_name_message, valid_name, SubscriberName};
use crate::text::push_char;

verus! {

/// The fields of a subscription form.
pub struct FormData {
    pub email: String,
    pub name: String,
}

impl NewSubScriber {
    /// Accepts a form whose name and address are both valid. Where one is not, the form is
    /// refused with the message of the name if the name is invalid, else with that of the
    /// address.
    pub fn try_from(value: FormData) -> (subscriber: Result<NewSubScriber, String>)
        ensures
            subscriber is Ok <==> valid_name(value.name@) && validated_email(value.email@),
            subscriber matches Ok(s) ==> s.name@ == value.name@ && s.email@ == value.email@,
            subscriber matches Err(message) ==> message@ == if !valid_name(value.name@) {
                invalid_name_message(value.name@)
            } else {
                invalid_email_message(value.email@)
            },
    {
        let name = SubscriberName::parse(value.name);
        let email = SubscriberEmail::parse(value.email);
        match (name, email) {
            (Ok(name), Ok(email)) => Ok(NewSubScriber { name, email }),
            (Err(message), _) => Err(message),
            (_, Err(message)) => Err(message),
        }
    }
}

// ---------------------------------------------------------------------------------------------
// The records that a subscription stores

#[verifier::external_type_specification]
#[verifier::external_body]
pub struct ExThreadRng(rand::rngs::ThreadRng);

/// Calls `uuid::Uuid::new_v4` and reads the UUID as a 128-bit number (`as_u128`): random bits,
/// with the version nibble set to 4 and the variant bits to `10`, as the crate's source sets
/// them. The random bits are left unsaid.
#[verifier::external_body]
fn new_subscriber_id() -> (id: u128)
    ensures
        is_v4_uuid(id),
{
    uuid::Uuid::new_v4().as_u128()
}

/// Calls `chrono::Utc::now` and reads it as microseconds since the Unix epoch. Nothing is
/// stated of the time.
#[verifier::external_body]
fn now_micros() -> i64 {
    chrono::Utc::now().timestamp_micros()
}

/// Calls `rand::rng`: the random number generator of the thread.
#[verifier::external_body]
fn thread_rng() -> rand::rngs::ThreadRng {
    rand::rng()
}

/// Whether `c` is an ASCII letter or digit.
pub open spec fn is_ascii_alphanumeric(c: char) -> bool {
    ||| 'a' <= c <= 'z'
    ||| 'A' <= c <= 'Z'
    ||| '0' <= c <= '9'
}

/// Calls `rand::Rng::sample` with `rand::distr::Alphanumeric`, which draws a byte from the
/// ASCII letters and digits (`A`..`Z`, `a`..`z`, `0`..`9`).
#[verifier::external_body]
fn sample_alphanumeric(rng: &mut rand::rngs::ThreadRng) -> (b: u8)
    ensures
        is_ascii_alphanumeric(b as char),
{
    rng.sample(rand::distr::Alphanumeric)
}

/// Whether `token` can be a subscription token: `SUBSCRIPTION_TOKEN_LENGTH` ASCII letters and
/// digits.
pub open spec fn is_subscription_token(token: Seq<char>) -> bool {
    &&& token.len() == SUBSCRIPTION_TOKEN_LENGTH
    &&& forall|i: int| 0 <= i < token.len() ==> is_ascii_alphanumeric(#[trigger] token[i])
}

/// The token made of the drawn bytes, each read as the character of that code.
pub fn token_from_draws(draws: &Vec<u8>) -> (token: String)
    ensures
        token@ == draws@.map_values(|b: u8| b as char),
{
    let mut token = String::new();
    let n = draws.len();
    let mut i: usize = 0;
    while i < n
        invariant
            n == draws@.len(),
            0 <= i <= n,
            token@ == draws@.take(i as int).map_values(|b: u8| b as char),
        decreases n - i,
    {
        push_char(&mut token, draws[i] as char);
        assert(draws@.take(i + 1) =~= draws@.take(i as int).push(draws@[i as int]));
        assert(token@ =~= draws@.take(i + 1).map_values(|b: u8| b as char));
        i = i + 1;
    }
    assert(draws@.take(n as int) =~= draws@);
    token
}

/// Different draws give different tokens: the token keeps each drawn byte, as its character,
/// in its place.
pub proof fn tokens_tell_draws_apart(a: Seq<u8>, b: Seq<u8>)
    requires
        a != b,
    ensures
        a.map_values(|x: u8| x as char) != b.map_values(|x: u8| x as char),
{
    let ta = a.map_values(|x: u8| x as char);
    let tb = b.map_values(|x: u8| x as char);
    if a.len() == b.len() {
        if forall|i: int| 0 <= i < a.len() ==> #[trigger] a[i] == b[i] {
            assert(a =~= b);
        }
        let i = choose|i: int| 0 <= i < a.len() && #[trigger] a[i] != b[i];
        assert(ta[i] == a[i] as char && tb[i] == b[i] as char);
        assert((a[i] as char) as u8 == a[i]);
        assert((b[i] as char) as u8 == b[i]);
    } else {
        assert(ta.len() != tb.len());
    }
}

/// A fresh random subscription token: `SUBSCRIPTION_TOKEN_LENGTH` bytes drawn from the ASCII
/// letters and digits, read as characters.
pub fn generate_subscription_token() -> (token: String)
    ensures
        is_subscription_token(token@),
{
    let mut rng = thread_rng();
    let mut draws: Vec<u8> = Vec::new();
    let mut i: usize = 0;
    while i < SUBSCRIPTION_TOKEN_LENGTH
        invariant
            0 <= i <= SUBSCRIPTION_TOKEN_LENGTH,
            draws@.len() == i,
            forall|j: int| 0 <= j < draws@.len() ==> is_ascii_alphanumeric(#[trigger] draws@[j] as char),
        decreases SUBSCRIPTION_TOKEN_LENGTH - i,
    {
        let b = sample_alphanumeric(&mut rng);
        draws.push(b);
        i = i + 1;
    }
    let token = token_from_draws(&draws);
    assert forall|j: int| 0 <= j < token@.len() implies is_ascii_alphanumeric(#[trigger] token@[j]) by {
        assert(token@[j] == draws@[j] as char);
    }
    token
}

/// The status of a subscriber who has not yet confirmed.
pub open spec fn pending_confirmation() -> Seq<char> {
    "pending_confirmation"@
}

/// The record of a new subscriber with identifier `id`, subscribed at `subscribed_at`: the
/// subscriber's name and address, and the status `pending_confirmation`.
pub fn subscriber_record(new_subscriber: NewSubScriber, id: u128, subscribed_at: i64) -> (subscriber:
    PersistedSubscriber)
    ensures
        subscriber.id == id,
        subscriber.subscribed_at == subscribed_at,
        subscriber.email == new_subscriber.email,
        subscriber.name == new_subscriber.name,
        subscriber.status@ == pending_confirmation(),
{
    PersistedSubscriber {
        id,
        email: new_subscriber.email,
        name: new_subscriber.name,
        subscribed_at,
        status: String::from_str("pending_confirmation"),
    }
}

/// The record of a new subscriber, with a fresh random version-4 UUID and the current time.
pub fn register_subscriber(new_subscriber: NewSubScriber) -> (subscriber: PersistedSubscriber)
    ensures
        is_v4_uuid(subscriber.id),
        subscriber.email == new_subscriber.email,
        subscriber.name == new_subscriber.name,
        subscriber.status@ == pending_confirmation(),
{
    let id = new_subscriber_id();
    let subscribed_at = now_micros();
    subscriber_record(new_subscriber, id, subscribed_at)
}

/// A fresh token that confirms `subscriber`.
pub fn token_record(subscriber: &PersistedSubscriber) -> (tokens: PersistedSubscriptionTokens)
    ensures
        tokens.subscriber_id == subscriber.id,
        is_subscription_token(tokens.token@),
{
    PersistedSubscriptionTokens { subscriber_id: subscriber.id, token: generate_subscription_token() }
}

// ---------------------------------------------------------------------------------------------
// The confirmation e-mail

/// The e-mail that asks a new subscriber to confirm.
pub struct ConfirmationEmail {
    pub recipient: String,
    pub subject: String,
    pub html_body: String,
    pub text_body: String,
}

/// The link that confirms a subscription.
pub open spec fn confirmation_link(base_url: Seq<char>, token: Seq<char>) -> Seq<char> {
    base_url + "/subscriptions/confirm?subscription_token="@ + token
}

/// The HTML body of the confirmation e-mail.
pub open spec fn confirmation_html(link: Seq<char>) -> Seq<char> {
    "<p>Please <a href=\""@ + link + "\">click</a> to confirm your subscription.</p>"@
}

/// The plain-text body of the confirmation e-mail.
pub open spec fn confirmation_text(link: Seq<char>) -> Seq<char> {
    "Please visit "@ + link + " to confirm your subscription."@
}

/// The confirmation e-mail for `subscriber`, with the link of `token` in both bodies.
pub fn confirmation_email(
    application: &ApplicaionSettings,
    subscriber: &PersistedSubscriber,
    token: &PersistedSubscriptionTokens,
) -> (email: ConfirmationEmail)
    ensures
        email.recipient@ == subscriber.email@,
        email.subject@ == "Welcome!"@,
        email.html_body@ == confirmation_html(
            confirmation_link(application.base_url@, token.token@),
        ),
        email.text_body@ == confirmation_text(
            confirmation_link(application.base_url@, token.token@),
        ),
{
    let mut link = application.base_url.clone();
    link.append("/subscriptions/confirm?subscription_token=");
    link.append(token.token.as_str());
    let mut html_body = String::from_str("<p>Please <a href=\"");
    html_body.append(link.as_str());
    html_body.append("\">click</a> to confirm your subscription.</p>");
    let mut text_body = String::from_str("Please visit ");
    text_body.append(link.as_str());
    text_body.append(" to confirm your subscription.");
    ConfirmationEmail {
        recipient: String::from_str(subscriber.email.as_ref()),
        subject: String::from_str("Welcome!"),
        html_body,
        text_body,
    }
}

/// The confirmation link is the base URL, then the 42 characters of
/// `/subscriptions/confirm?subscription_token=`, then the stored token character for character.
pub proof fn confirmation_link_carries_token(base_url: Seq<char>, token: Seq<char>)
    ensures
        ({
            let link = confirmation_link(base_url, token);
            let b: int = base_url.len() as int;
            &&& link.len() == b + 42 + token.len()
            &&& link.subrange(0, b) == base_url
            &&& link.subrange(b, b + 42) == "/subscriptions/confirm?subscription_token="@
            &&& link.subrange(b + 42, link.len() as int) == token
        }),
{
    reveal_strlit("/subscriptions/confirm?subscription_token=");
    let link = confirmation_link(base_url, token);
    let b: int = base_url.len() as int;
    assert(link.subrange(0, b) =~= base_url);
    assert(link.subrange(b, b + 42) =~= "/subscriptions/confirm?subscription_token="@);
    assert(link.subrange(b + 42, link.len() as int) =~= token);
}

/// Both bodies of the confirmation e-mail carry the same link: the HTML one right after its
/// first 19 characters (`<p>Please <a href="`), the plain-text one right after its first 13
/// (`Please visit `).
pub proof fn confirmation_bodies_share_link(link: Seq<char>)
    ensures
        confirmation_html(link).subrange(19, 19 + link.len() as int) == link,
        confirmation_text(link).subrange(13, 13 + link.len() as int) == link,
{
    reveal_strlit("<p>Please <a href=\"");
    reveal_strlit("Please visit ");
    assert(confirmation_html(link).subrange(19, 19 + link.len() as int) =~= link);
    assert(confirmation_text(link).subrange(13, 13 + link.len() as int) =~= link);
}

// ---------------------------------------------------------------------------------------------
// The course of a subscription request

/// The outside steps of a subscription request, in the order in which they run: read the
/// form, open a database transaction, store the subscriber, store its token, commit, and send
/// the confirmation e-mail.
#[derive(Clone, Copy, Debug, PartialEq, Eq, Structural)]
pub enum SubscribeStep {
    ParseForm,
    BeginTransaction,
    InsertSubscriber,
    StoreToken,
    Commit,
    SendConfirmationEmail,
}

/// What to do next: run a step, or answer the request with an HTTP status.
#[derive(Clone, Copy, Debug, PartialEq, Eq, Structural)]
pub enum SubscribeAction {
    Run(SubscribeStep),
    Respond(u16),
}

/// What follows `step`, given whether it succeeded: a form that cannot be read is answered
/// with 400 (bad request), any other failure with 500 (internal server error); a success runs
/// the next step, and after the e-mail has been sent the request is answered with 200.
pub open spec fn subscribe_transition(step: SubscribeStep, succeeded: bool) -> SubscribeAction {
    if !succeeded {
        SubscribeAction::Respond(
            if step == SubscribeStep::ParseForm {
                400
            } else {
                500
            },
        )
    } else {
        match step {
            SubscribeStep::ParseForm => SubscribeAction::Run(SubscribeStep::BeginTransaction),
            SubscribeStep::BeginTransaction => SubscribeAction::Run(SubscribeStep::InsertSubscriber),
            SubscribeStep::InsertSubscriber => SubscribeAction::Run(SubscribeStep::StoreToken),
            SubscribeStep::StoreToken => SubscribeAction::Run(SubscribeStep::Commit),
            SubscribeStep::Commit => SubscribeAction::Run(SubscribeStep::SendConfirmationEmail),
            SubscribeStep::SendConfirmationEmail => SubscribeAction::Respond(200),
        }
    }
}

/// The first thing a subscription request does: read the form.
pub fn subscribe_start() -> (action: SubscribeAction)
    ensures
        action == SubscribeAction::Run(SubscribeStep::ParseForm),
{
    SubscribeAction::Run(SubscribeStep::ParseForm)
}

/// What a subscription request does after `step` succeeded or failed.
pub fn subscribe_next(step: SubscribeStep, succeeded: bool) -> (action: SubscribeAction)
    ensures
        action == subscribe_transition(step, succeeded),
{
    if !succeeded {
        return SubscribeAction::Respond(
            match step {
                SubscribeStep::ParseForm => 400,
                _ => 500,
            },
        );
    }
    match step {
        SubscribeStep::ParseForm => SubscribeAction::Run(SubscribeStep::BeginTransaction),
        SubscribeStep::BeginTransaction => SubscribeAction::Run(SubscribeStep::InsertSubscriber),
        SubscribeStep::InsertSubscriber => SubscribeAction::Run(SubscribeStep::StoreToken),
        SubscribeStep::StoreToken => SubscribeAction::Run(SubscribeStep::Commit),
        SubscribeStep::Commit => SubscribeAction::Run(SubscribeStep::SendConfirmationEmail),
        SubscribeStep::SendConfirmationEmail => SubscribeAction::Respond(200),
    }
}

/// The answer that a request reaches from `action` when the steps it runs succeed or fail as
/// `outcomes` says, in order; `None` if it runs out of outcomes first.
pub open spec fn subscribe_response(action: SubscribeAction, outcomes: Seq<bool>) -> Option<u16>
    decreases outcomes.len(),
{
    match action {
        SubscribeAction::Respond(status) => Some(status),
        SubscribeAction::Run(step) => if outcomes.len() == 0 {
            None
        } else {
            subscribe_response(subscribe_transition(step, outcomes[0]), outcomes.drop_first())
        },
    }
}

/// The `i`-th step of a subscription request, counted from 0.
pub open spec fn subscribe_step(i: int) -> SubscribeStep {
    if i <= 0 {
        SubscribeStep::ParseForm
    } else if i == 1 {
        SubscribeStep::BeginTransaction
    } else if i == 2 {
        SubscribeStep::InsertSubscriber
    } else if i == 3 {
        SubscribeStep::StoreToken
    } else if i == 4 {
        SubscribeStep::Commit
    } else {
        SubscribeStep::SendConfirmationEmail
    }
}

proof fn subscribe_succeeds_from(i: int, outcomes: Seq<bool>)
    requires
        0 <= i < 6,
        6 - i <= outcomes.len(),
        forall|j: int| 0 <= j < 6 - i ==> #[trigger] outcomes[j],
    ensures
        subscribe_response(SubscribeAction::Run(subscribe_step(i)), outcomes) == Some(200u16),
    decreases 6 - i,
{
    assert(outcomes[0]);
    let rest = outcomes.drop_first();
    let step = subscribe_step(i);
    assert(subscribe_response(SubscribeAction::Run(step), outcomes) == subscribe_response(
        subscribe_transition(step, true),
        rest,
    ));
    if i < 5 {
        assert(subscribe_transition(step, true) == SubscribeAction::Run(subscribe_step(i + 1)));
        assert forall|j: int| 0 <= j < 6 - (i + 1) implies #[trigger] rest[j] by {
            assert(outcomes[j + 1]);
        }
        subscribe_succeeds_from(i + 1, rest);
    } else {
        assert(subscribe_transition(step, true) == SubscribeAction::Respond(200));
    }
}

proof fn subscribe_fails_from(i: int, outcomes: Seq<bool>, k: int)
    requires
        0 <= i < 6,
        0 <= k < 6 - i,
        k < outcomes.len(),
        !outcomes[k],
        forall|j: int| 0 <= j < k ==> #[trigger] outcomes[j],
    ensures
        subscribe_response(SubscribeAction::Run(subscribe_step(i)), outcomes) == Some(
            if i + k == 0 {
                400u16
            } else {
                500u16
            },
        ),
    decreases k,
{
    let rest = outcomes.drop_first();
    let step = subscribe_step(i);
    assert(subscribe_response(SubscribeAction::Run(step), outcomes) == subscribe_response(
        subscribe_transition(step, outcomes[0]),
        rest,
    ));
    if k > 0 {
        assert(outcomes[0]);
        assert(subscribe_transition(step, true) == SubscribeAction::Run(subscribe_step(i + 1)));
        assert(!rest[k - 1]);
        assert forall|j: int| 0 <= j < k - 1 implies #[trigger] rest[j] by {
            assert(outcomes[j + 1]);
        }
        subscribe_fails_from(i + 1, rest, k - 1);
    }
}

/// A subscription request is answered with 200 when all six steps succeed, in order.
pub proof fn subscribe_succeeds_when_every_step_does(outcomes: Seq<bool>)
    requires
        outcomes.len() >= 6,
        forall|j: int| 0 <= j < 6 ==> #[trigger] outcomes[j],
    ensures
        subscribe_response(SubscribeAction::Run(SubscribeStep::ParseForm), outcomes) == Some(
            200u16,
        ),
{
    subscribe_succeeds_from(0, outcomes);
}

/// A subscription request whose `k`-th step is the first to fail is answered at once, before
/// any later step runs: with 400 when the form could not be read, with 500 otherwise.
pub proof fn subscribe_stops_at_first_failure(outcomes: Seq<bool>, k: int)
    requires
        0 <= k < 6,
        k < outcomes.len(),
        !outcomes[k],
        forall|j: int| 0 <= j < k ==> #[trigger] outcomes[j],
    ensures
        subscribe_response(SubscribeAction::Run(SubscribeStep::ParseForm), outcomes.take(k + 1))
            == Some(
            if k == 0 {
                400u16
            } else {
                500u16
            },
        ),
{
    let short = outcomes.take(k + 1);
    assert forall|j: int| 0 <= j < k implies #[trigger] short[j] by {
        assert(outcomes[j]);
    }
    subscribe_fails_from(0, short, k);
}

} // verus!
