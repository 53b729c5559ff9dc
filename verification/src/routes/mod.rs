pub mod admin;
pub mod newsletter;
pub mod login;
pub mod subscriptions;
pub mod subscriptions_confirm;

pub use subscriptions::{SubscribeError, SubscribeFormData};
pub use subscriptions_confirm::{ConfirmSubscriptionTokenError, Parameters};
