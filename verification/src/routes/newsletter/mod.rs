//! Sending a newsletter issue straight to every confirmed subscriber.
use vstd::prelude::*;

use crate::domain::subscriber_email::html5_email_is_valid;
use crate::domain::SubscriberEmail;
use crate::hkt::RefHKT;
use crate::report::{report_chain, report_with_context};

pub mod post;

verus! {

/// The two renderings of an issue's content.
pub struct Content {
    pub html: String,
    pub text: String,
}

/// A newsletter issue to send.
pub struct BodyData {
    pub title: String,
    pub content: Content,
}

/// Sending a newsletter failed.
#[derive(Debug)]
pub enum PublishNewsletterError {
    /// Reading the confirmed subscribers failed, or some sends failed (one report each).
    Unexpected(Vec<eyre::Report>),
}

/// The addresses among `addresses` that `validator` accepts, in their order. The others
/// are skipped: a subscriber with an invalid address gets no issue.
pub open spec fn deliverable_addresses(addresses: Seq<String>) -> Seq<Seq<char>>
    decreases addresses.len(),
{
    if addresses.len() == 0 {
        Seq::empty()
    } else {
        let before = deliverable_addresses(addresses.drop_last());
        if html5_email_is_valid(addresses.last()@) {
            before.push(addresses.last()@)
        } else {
            before
        }
    }
}

/// The deliverable addresses are exactly those that `validator` accepts, each kept in its
/// order: none is dropped for any other reason, none is added.
pub proof fn lemma_deliverable_addresses_are_the_valid_ones(addresses: Seq<String>)
    ensures
        deliverable_addresses(addresses) == addresses.filter(|a: String| html5_email_is_valid(a@)).map_values(|a: String| a@),
    decreases addresses.len(),
{
    let valid = |a: String| html5_email_is_valid(a@);
    let text = |a: String| a@;
    if addresses.len() == 0 {
        reveal(Seq::filter);
        assert(addresses.filter(valid).map_values(text) =~= Seq::<Seq<char>>::empty());
    } else {
        let before = addresses.drop_last();
        let last = addresses.last();
        lemma_deliverable_addresses_are_the_valid_ones(before);
        assert(before.push(last) =~= addresses);
        before.lemma_filter_push(last, valid);
        let kept = before.filter(valid);
        if valid(last) {
            assert(kept.push(last).map_values(text) =~= kept.map_values(text).push(text(last)));
        }
    }
}

/// The recipients of an issue: the addresses that `validator` accepts, in their order.
pub fn recipients<P: RefHKT<str>>(addresses: &Vec<String>) -> (r: Vec<SubscriberEmail<P>>)
    ensures
        r@.len() == deliverable_addresses(addresses@).len(),
        forall|i: int| 0 <= i < r@.len() ==> (#[trigger] r@[i])@ == deliverable_addresses(addresses@)[i],
{
    let mut out: Vec<SubscriberEmail<P>> = Vec::new();
    let n = addresses.len();
    for i in 0..n
        invariant
            n == addresses@.len(),
            out@.len() == deliverable_addresses(addresses@.take(i as int)).len(),
            forall|j: int| 0 <= j < out@.len() ==> (#[trigger] out@[j])@ == deliverable_addresses(addresses@.take(i as int))[j],
    {
        proof {
            assert(addresses@.take(i + 1).drop_last() =~= addresses@.take(i as int));
        }
        match SubscriberEmail::<P>::try_from(addresses[i].as_str()) {
            Ok(email) => out.push(email),
            Err(_) => {},
        }
    }
    proof {
        assert(addresses@.take(n as int) =~= addresses@);
    }
    out
}

/// The message that heads the failure of a send to `recipient`.
pub open spec fn send_failure_message(recipient: Seq<char>) -> Seq<char> {
    "Failed to send newsletter to: '"@ + recipient + "'"@
}

/// How many of `results` are errors.
pub open spec fn failed_count(results: Seq<Result<(), eyre::Report>>) -> nat
    decreases results.len(),
{
    if results.len() == 0 {
        0
    } else {
        failed_count(results.drop_last()) + if results.last() is Err { 1nat } else { 0nat }
    }
}

/// `failures` are the reports of the failed sends among `results`, in order: the send to
/// `recipients[i]` gave `results[i]`, and a failed one is reported, headed by its
/// recipient, under the number of failures before it.
pub open spec fn failures_reported<P: RefHKT<str>>(
    recipients: Seq<SubscriberEmail<P>>,
    results: Seq<Result<(), eyre::Report>>,
    failures: Seq<eyre::Report>,
) -> bool {
    &&& failures.len() == failed_count(results)
    &&& forall|i: int| 0 <= i < results.len() ==> (#[trigger] results[i] matches Err(e) ==> report_chain(
        failures[failed_count(results.take(i)) as int],
    ) == seq![send_failure_message(recipients[i]@)] + report_chain(e))
}

/// Fewer results hold no more errors.
proof fn lemma_failed_count_grows(results: Seq<Result<(), eyre::Report>>, j: int, i: int)
    requires
        0 <= j <= i <= results.len(),
    ensures
        failed_count(results.take(j)) <= failed_count(results.take(i)),
        j < i && results[j] is Err ==> failed_count(results.take(j)) < failed_count(results.take(i)),
    decreases i - j,
{
    if j < i {
        lemma_failed_count_grows(results, j, i - 1);
        assert(results.take(i).drop_last() =~= results.take(i - 1));
        if j == i - 1 {
            assert(results.take(i).last() == results[j]);
        }
    }
}

/// The reports of the failed sends, in order, each headed by the recipient: the send to
/// `recipients[i]` gave `results[i]`, and its failure is the report numbered by the
/// failures before it.
pub fn send_failures<P: RefHKT<str>>(recipients: &Vec<SubscriberEmail<P>>, results: Vec<Result<(), eyre::Report>>) -> (r: Vec<eyre::Report>)
    requires
        recipients@.len() == results@.len(),
    ensures
        failures_reported(recipients@, results@, r@),
{
    let mut failures: Vec<eyre::Report> = Vec::new();
    let mut rest = results;
    let n = rest.len();
    let ghost all = rest@;
    let mut i: usize = 0;
    while i < n
        invariant
            n == all.len(),
            n == recipients@.len(),
            i <= n,
            rest@ == all.subrange(i as int, n as int),
            failures@.len() == failed_count(all.take(i as int)),
            forall|j: int| 0 <= j < i ==> (#[trigger] all[j] matches Err(e) ==> report_chain(
                failures@[failed_count(all.take(j)) as int],
            ) == seq![send_failure_message(recipients@[j]@)] + report_chain(e)),
        decreases n - i,
    {
        proof {
            assert(all.take(i + 1).drop_last() =~= all.take(i as int));
        }
        let ghost before = failures@;
        let result = rest.remove(0);
        proof {
            assert(rest@ =~= all.subrange(i + 1, n as int));
            assert(result == all[i as int]);
            assert forall|j: int| 0 <= j < i && #[trigger] all[j] is Err implies failed_count(all.take(j)) < before.len() by {
                lemma_failed_count_grows(all, j, i as int);
            }
        }
        match result {
            Ok(()) => {},
            Err(e) => {
                let recipient = recipients[i].as_str();
                let mut m = "Failed to send newsletter to: '".to_owned();
                m.append(recipient);
                m.append("'");
                failures.push(report_with_context(e, m));
            },
        }
        i = i + 1;
    }
    proof {
        assert(all.take(n as int) =~= all);
    }
    failures
}

/// Sending ends well when no send failed; otherwise it fails with the reports of the
/// failed sends.
pub fn sending_outcome(failures: Vec<eyre::Report>) -> (r: Result<(), PublishNewsletterError>)
    ensures
        failures@.len() == 0 <==> r is Ok,
        r matches Err(PublishNewsletterError::Unexpected(v)) ==> v@ == failures@,
{
    if failures.len() == 0 {
        Ok(())
    } else {
        Err(PublishNewsletterError::Unexpected(failures))
    }
}

} // verus!
