//! HTTP status codes as `actix-web` holds them.
use vstd::prelude::*;

verus! {

/// Calls `StatusCode::from_u16`, whose source accepts exactly the codes from 100 to 999;
/// the refusal, an `InvalidStatusCode`, is mapped to `None`.
#[verifier::external_body]
pub(crate) fn status_code_from_u16(code: u16) -> (r: Option<actix_web::http::StatusCode>)
    ensures
        r is Some <==> 100 <= code < 1000,
{
    match actix_web::http::StatusCode::from_u16(code) {
        Ok(status) => Some(status),
        Err(_) => None,
    }
}

} // verus!
