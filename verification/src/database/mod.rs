pub mod authentication;
pub mod issue_delivery_queue;
pub mod newsletters;
pub mod persistence;
pub mod subscriptions;
pub mod subscriptions_confirm;
pub mod unit_of_work;
