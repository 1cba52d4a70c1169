use secrecy::{ExposeSecret, SecretBox};
use vstd::prelude::*;

verus! {

/// A text kept in a `secrecy::SecretBox`: zeroed when dropped, redacted when printed, and read
/// only through `expose`. The generic `SecretBox` cannot be declared as a type of the
/// specifications (its parameter is bound by an outside trait), so the box is held in this
/// opaque struct and its content is named by `secret_text`.
#[verifier::external_body]
pub struct SecretText {
    secret: SecretBox<String>,
}

/// The text that a secret holds.
pub uninterp spec fn secret_text(secret: SecretText) -> Seq<char>;

/// Calls `secrecy::SecretBox::new` on the boxed text; the box keeps the text as it is, so the
/// secret holds exactly `text`.
#[verifier::external_body]
fn seal(text: String) -> (secret: SecretText)
    ensures
        secret_text(secret) == text@,
{
    SecretText { secret: SecretBox::new(Box::new(text)) }
}

/// Calls `secrecy::ExposeSecret::expose_secret`, which hands out the boxed text unchanged.
#[verifier::external_body]
fn unseal(secret: &SecretText) -> (text: &String)
    ensures
        text@ == secret_text(*secret),
{
    secret.secret.expose_secret()
}

impl SecretText {
    /// Keeps `text` secret.
    pub fn new(text: String) -> (secret: SecretText)
        ensures
            secret_text(secret) == text@,
    {
        seal(text)
    }

    /// The text of the secret.
    pub fn expose(&self) -> (text: &String)
        ensures
            text@ == secret_text(*self),
    {
        unseal(self)
    }
}

} // verus!
