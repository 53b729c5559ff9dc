pub mod dashboard;
pub mod password;
pub mod newsletter;
