use vstd::prelude::*;

verus! {

#[derive(Debug)]
pub enum GetSubscriberIdOfConfirmationTokenError {
    TokenNotFound { subscription_token: uuid::Uuid },
    Unexpected(eyre::Report),
}

#[derive(Debug)]
pub enum UpdateConfirmationStatusOfSubscriberIdError {
    AbnormalUpdatedRowCount(usize),
    Unexpected(eyre::Report),
}

/// The outcome of marking a subscriber confirmed, from the number of rows the update
/// affected: exactly one row must change.
pub fn confirmation_update_outcome(rows_affected: usize) -> (r: Result<(), UpdateConfirmationStatusOfSubscriberIdError>)
    ensures
        rows_affected == 1 ==> r is Ok,
        rows_affected != 1 ==> (r matches Err(UpdateConfirmationStatusOfSubscriberIdError::AbnormalUpdatedRowCount(n)) && n == rows_affected),
{
    if rows_affected == 1 {
        Ok(())
    } else {
        Err(UpdateConfirmationStatusOfSubscriberIdError::AbnormalUpdatedRowCount(rows_affected))
    }
}

} // verus!
