use vstd::prelude::*;

verus! {

#[derive(Debug)]
pub enum CommitError {
    Unexpected(eyre::Report),
}

#[derive(Debug)]
pub enum BeginError {
    Unexpected(eyre::Report),
}

} // verus!
