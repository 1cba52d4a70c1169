use vstd::prelude::*;

use crate::domain::persisted_data::PersistedSubscriptionTokens;
use crate::helper::{error_chain_fmt, error_chain_text, messages};

verus! {

/// The query of a confirmation link.
pub struct Parameters {
    pub subscription_token: String,
}

/// Why a confirmation failed: the token is unknown, or something else went wrong, described by
/// what was being done and by the messages of the chain of errors that stopped it, from the
/// nearest to the farthest.
pub enum ConfirmError {
    InvalidToken,
    UnexpectedError(String, Vec<String>),
}

/// What was being done when the token could not be looked up.
pub open spec fn query_token_context() -> Seq<char> {
    "failed to query token in the DB"@
}

/// What was being done when the subscriber's status could not be changed.
pub open spec fn update_subscriber_context() -> Seq<char> {
    "failed to update subscriber status in the DB"@
}

impl ConfirmError {
    /// The HTTP status with which the failure is answered: 401 (unauthorized) for an unknown
    /// token, 500 (internal server error) otherwise.
    pub fn status_code(&self) -> (status: u16)
        ensures
            status == match self {
                ConfirmError::InvalidToken => 401u16,
                ConfirmError::UnexpectedError(..) => 500u16,
            },
    {
        match self {
            ConfirmError::InvalidToken => 401,
            _ => 500,
        }
    }

    /// The message of the failure: `invalid token`, or what was being done.
    pub fn message(&self) -> (message: String)
        ensures
            message@ == match self {
                ConfirmError::InvalidToken => "invalid token"@,
                ConfirmError::UnexpectedError(context, _) => context@,
            },
    {
        match self {
            ConfirmError::InvalidToken => String::from_str("invalid token"),
            ConfirmError::UnexpectedError(context, _) => context.clone(),
        }
    }

    /// The failure shown with the chain of its causes: its message, then the errors that
    /// stopped the work, one line each.
    pub fn debug_text(&self) -> (text: String)
        ensures
            text@ == match self {
                ConfirmError::InvalidToken => error_chain_text("invalid token"@, Seq::empty()),
                ConfirmError::UnexpectedError(context, causes) => error_chain_text(
                    context@,
                    messages(causes@),
                ),
            },
    {
        match self {
            ConfirmError::InvalidToken => {
                let causes: Vec<String> = Vec::new();
                let text = error_chain_fmt(&String::from_str("invalid token"), &causes);
                assert(messages(causes@) =~= Seq::<Seq<char>>::empty());
                text
            },
            ConfirmError::UnexpectedError(context, causes) => error_chain_fmt(context, causes),
        }
    }
}

/// What the lookup of `token` gives: the token and the subscriber it confirms when it was
/// found, `InvalidToken` when it was not, and an unexpected failure, with the chain of error
/// messages, when the lookup failed.
pub fn token_lookup_outcome(token: String, lookup: Result<Option<u128>, Vec<String>>) -> (outcome:
    Result<PersistedSubscriptionTokens, ConfirmError>)
    ensures
        match lookup {
            Ok(Some(id)) => outcome matches Ok(t) && t.subscriber_id == id && t.token@ == token@,
            Ok(None) => outcome matches Err(ConfirmError::InvalidToken),
            Err(causes) => outcome matches Err(ConfirmError::UnexpectedError(context, c))
                && context@ == query_token_context() && c@ == causes@,
        },
{
    match lookup {
        Ok(Some(subscriber_id)) => Ok(PersistedSubscriptionTokens { subscriber_id, token }),
        Ok(None) => Err(ConfirmError::InvalidToken),
        Err(causes) => Err(
            ConfirmError::UnexpectedError(
                String::from_str("failed to query token in the DB"),
                causes,
            ),
        ),
    }
}

/// What the change of the subscriber's status gives: the number of rows it changed, or an
/// unexpected failure, with the chain of error messages, when it failed.
pub fn status_update_outcome(update: Result<u64, Vec<String>>) -> (outcome: Result<u64, ConfirmError>)
    ensures
        match update {
            Ok(rows) => outcome == Ok::<u64, ConfirmError>(rows),
            Err(causes) => outcome matches Err(ConfirmError::UnexpectedError(context, c))
                && context@ == update_subscriber_context() && c@ == causes@,
        },
{
    match update {
        Ok(rows) => Ok(rows),
        Err(causes) => Err(
            ConfirmError::UnexpectedError(
                String::from_str("failed to update subscriber status in the DB"),
                causes,
            ),
        ),
    }
}

/// The HTTP status with which a confirmation is answered: 200 when it succeeded, else that of
/// its failure.
pub fn confirm_status(outcome: &Result<u64, ConfirmError>) -> (status: u16)
    ensures
        status == match outcome {
            Ok(_) => 200u16,
            Err(ConfirmError::InvalidToken) => 401u16,
            Err(ConfirmError::UnexpectedError(..)) => 500u16,
        },
{
    match outcome {
        Ok(_) => 200,
        Err(e) => e.status_code(),
    }
}

} // verus!
