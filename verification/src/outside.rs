//! Outside types that the library's records and errors carry through unchanged.
use vstd::prelude::*;

verus! {

/// A UUID, as the `uuid` crate defines it; opaque here.
#[verifier::external_type_specification]
#[verifier::external_body]
pub struct ExUuid(uuid::Uuid);

/// An error report of the `eyre` crate; opaque here.
#[verifier::external_type_specification]
#[verifier::external_body]
pub struct ExReport(eyre::Report);

} // verus!

verus! {

/// An error of the `password-hash` crate (re-exported by `argon2`); opaque here.
#[verifier::external_type_specification]
#[verifier::external_body]
pub struct ExPasswordHashError(argon2::password_hash::Error);

/// An HTTP status code, as `actix-web` re-exports it from the `http` crate; opaque here.
#[verifier::external_type_specification]
#[verifier::external_body]
pub struct ExStatusCode(actix_web::http::StatusCode);

/// An HTTP client of the `reqwest` crate; opaque here.
#[verifier::external_type_specification]
#[verifier::external_body]
pub struct ExHttpClient(reqwest::Client);

/// An error of the `reqwest` crate; opaque here.
#[verifier::external_type_specification]
#[verifier::external_body]
pub struct ExHttpError(reqwest::Error);

/// `actix-web`'s wrapper for application data that is cloned into each worker; opaque
/// here.
#[verifier::external_type_specification]
#[verifier::external_body]
#[verifier::reject_recursive_types(V)]
pub struct ExThinData<V>(actix_web::web::ThinData<V>);

/// The options of a Postgres connection, as `sqlx` builds them; opaque here.
#[verifier::external_type_specification]
#[verifier::external_body]
pub struct ExPgConnectOptions(sqlx::postgres::PgConnectOptions);

} // verus!
