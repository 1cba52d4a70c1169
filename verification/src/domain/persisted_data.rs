use vstd::prelude::*;

use crate::domain::subscriber_email::SubscriberEmail;
use crate::domain::subscriber_name::SubscriberName;

verus! {

/// Whether `id`, read as a 128-bit UUID, has version 4 (random) and the RFC 4122 variant: the
/// version nibble (bits 76 to 79) is 4 and the variant bits (62 and 63) are `10`.
pub open spec fn is_v4_uuid(id: u128) -> bool {
    &&& (id >> 76u128) & 0xfu128 == 4
    &&& (id >> 62u128) & 0x3u128 == 2
}

/// A subscriber as it is stored: its identifier (a UUID as a 128-bit number), address, name,
/// the time of the subscription in microseconds since the Unix epoch (UTC), and its status.
pub struct PersistedSubscriber {
    pub id: u128,
    pub email: SubscriberEmail,
    pub name: SubscriberName,
    pub subscribed_at: i64,
    pub status: String,
}

/// A subscription token as it is stored, with the identifier (a UUID as a 128-bit number) of
/// the subscriber it confirms.
pub struct PersistedSubscriptionTokens {
    pub subscriber_id: u128,
    pub token: String,
}

} // verus!
