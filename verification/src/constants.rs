use vstd::prelude::*;

verus! {

/// The number of characters of a subscription token.
pub const SUBSCRIPTION_TOKEN_LENGTH: usize = 25;

} // verus!
