use vstd::prelude::*;

verus! {

#[derive(Debug)]
pub enum InsertSubscriberError {
    Unexpected(eyre::Report),
}

#[derive(Debug)]
pub enum StoreTokenError {
    Unexpected(eyre::Report),
}

} // verus!
