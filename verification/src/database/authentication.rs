use vstd::prelude::*;

verus! {

/// Reading credentials failed.
#[derive(Debug)]
pub enum GetHashedCredentialsError {
    Unexpected(eyre::Report),
}

/// Storing a new password failed.
#[derive(Debug)]
pub enum UpdatePasswordError {
    UserNotFound(String),
    Unexpected(eyre::Report),
}

} // verus!
