use vstd::prelude::*;

verus! {

#[derive(Debug)]
pub enum ScheduleTaskRetryError {
    Unexpected(eyre::Report),
}

#[derive(Debug)]
pub enum DisableTaskError {
    Unexpected(eyre::Report),
}

#[derive(Debug)]
pub enum AcquireNewsletterTaskFromIssueError {
    Unexpected(eyre::Report),
}

#[derive(Debug)]
pub enum AcquireNewsletterTaskError {
    Unexpected(eyre::Report),
}

#[derive(Debug)]
pub enum FinalizeNewsletterTaskError {
    Unexpected(eyre::Report),
}

/// Whether enqueueing the deliveries of an issue added any task.
#[derive(Debug, Clone, Copy, PartialEq, Eq, Structural)]
pub enum EnqueueDeliveryTaskResult {
    Enqueued,
    Unchanged,
}

/// The outcome of enqueueing, from the number of rows the insertion affected.
pub fn enqueue_result_from_rows_affected(rows_affected: u64) -> (r: EnqueueDeliveryTaskResult)
    ensures
        r == (if rows_affected == 0 {
            EnqueueDeliveryTaskResult::Unchanged
        } else {
            EnqueueDeliveryTaskResult::Enqueued
        }),
{
    if rows_affected == 0 {
        EnqueueDeliveryTaskResult::Unchanged
    } else {
        EnqueueDeliveryTaskResult::Enqueued
    }
}

#[derive(Debug)]
pub enum EnqueueDeliveryTaskError {
    NotFound(uuid::Uuid),
    Unexpected(eyre::Report),
}

} // verus!
