pub mod configuration;
pub mod database;
pub mod de;
pub mod domain;
pub mod email_client;
pub mod hkt;
pub mod idempotency;
pub mod outside;
pub mod pages;
pub mod routes;
pub mod services;
pub mod session_state;
pub mod startup;
pub mod status;
pub mod unicode;
pub mod utils;
pub mod authentication;
pub mod text;
pub mod tuples;
pub mod report;
pub mod issue_delivery_worker;
