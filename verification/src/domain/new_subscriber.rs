use vstd::prelude::*;

use crate::domain::subscriber_email::SubscriberEmail;
use crate::domain::subscriber_name::SubscriberName;

verus! {

/// A subscription request whose name and address were both accepted.
pub struct NewSubScriber {
    pub name: SubscriberName,
    pub email: SubscriberEmail,
}

} // verus!
