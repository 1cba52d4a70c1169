pub mod new_subscriber;
pub mod persisted_data;
pub mod subscriber_email;
pub mod subscriber_name;

pub use new_subscriber::NewSubScriber;
pub use persisted_data::{PersistedSubscriber, PersistedSubscriptionTokens};
pub use subscriber_email::SubscriberEmail;
pub use subscriber_name::SubscriberName;
