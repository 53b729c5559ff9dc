//! Making and extending `eyre` error reports.
use lazy_errors::{IntoEyreResult, OrStash};
use vstd::prelude::*;

verus! {

/// The texts (`Display`) of the errors on `report`'s chain of causes, outermost first, as
/// `Report::chain` walks them.
pub uninterp spec fn report_chain(report: eyre::Report) -> Seq<Seq<char>>;

/// Calls `eyre::Report::msg`, which makes a report of one `MessageError` around `message`:
/// its chain is that one error, whose text is `message`.
#[verifier::external_body]
pub(crate) fn report_from_message(message: String) -> (r: eyre::Report)
    ensures
        report_chain(r) == seq![message@],
{
    eyre::Report::msg(message)
}

/// Calls `eyre::Report::wrap_err`, which makes a `ContextError` whose text is `context`
/// and whose source is the report's own error: `context` goes in front of the chain.
#[verifier::external_body]
pub(crate) fn report_with_context(report: eyre::Report, context: String) -> (r: eyre::Report)
    ensures
        report_chain(r) == seq![context@] + report_chain(report),
{
    report.wrap_err(context)
}

/// Calls `lazy_errors::ErrorStash::new` with `summary`, stashes `first` through
/// `OrStash::or_stash` (an `Ok` adds nothing), pushes `second` with `ErrorStash::push`, and
/// turns the stash into a result with `IntoEyreResult::into_eyre_result`. The stash then
/// holds at least `second`, and the source of `into_eyre_result` maps a stash that holds an
/// error to `Err`: a report made by `eyre!` of one string, the stash pretty-printed, which
/// starts with `summary`. What follows the summary (each stashed report as `eyre`'s
/// installed handler prints it, and the source locations) is not stated.
#[verifier::external_body]
pub(crate) fn stashed_errors(summary: String, first: Result<(), eyre::Report>, second: eyre::Report) -> (r: Result<(), eyre::Report>)
    ensures
        r is Err,
        r matches Err(e) ==> report_chain(e).len() == 1,
        r matches Err(e) ==> summary@.is_prefix_of(report_chain(e)[0]),
{
    let mut stash = lazy_errors::ErrorStash::<_, _, eyre::Report>::new(move || summary);
    let _ = first.or_stash(&mut stash);
    stash.push(second);
    stash.into_eyre_result()
}

/// Calls `eyre::Report`'s `Display`, which hands the outermost error to the handler that
/// `eyre`'s hook installed when the report was made; the default handler writes that
/// error's text. Another hook may write anything, so nothing is stated of the text.
#[verifier::external_body]
pub(crate) fn report_message(report: &eyre::Report) -> (r: String) {
    report.to_string()
}

} // verus!
