pub mod new_subscriber;
pub mod subscriber_email;
pub mod subscriber_name;

pub use new_subscriber::{NewSubscriber, NewSubscriberParseError};
pub use subscriber_email::{SubscriberEmail, SubscriberEmailParseError};
pub use subscriber_name::{SubscriberName, SubscriberNameParseError};
