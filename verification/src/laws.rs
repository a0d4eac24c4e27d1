use vstd::prelude::*;

use crate::driver::DriverView;
use crate::driver::can_send;
use crate::driver::complete_view;
use crate::driver::initial_driver;
use crate::driver::respond_view;
use crate::driver::step_view;
use crate::protocol::CompletionReportView;
use crate::protocol::InboundPayloadView;
use crate::protocol::WorkItemView;
use crate::protocol::report_for;

verus! {

/// Model of one inbound response: the token carried in the side channel and
/// the optional payload.
pub struct ResponseView {
    pub token: Seq<char>,
    pub payload: Option<InboundPayloadView>,
}

/// The driver's state once the first `n` responses of a session have been
/// absorbed, each work item handled by the fixed dispatch.
pub open spec fn driver_after(responses: Seq<ResponseView>, n: int) -> DriverView
    decreases n,
{
    if n <= 0 {
        initial_driver()
    } else {
        step_view(
            driver_after(responses, n - 1),
            responses[n - 1].token,
            responses[n - 1].payload,
        )
    }
}

/// Token threading: the very first request of a session carries no token, and
/// as long as every response so far delivered a work item, the request built
/// immediately after response `i` echoes exactly the token response `i`
/// carried.
pub proof fn lemma_token_threading(responses: Seq<ResponseView>, i: int)
    requires
        0 <= i < responses.len(),
        forall|j: int|
            0 <= j <= i ==> (#[trigger] responses[j].payload) matches Some(
                InboundPayloadView::Work { .. },
            ),
    ensures
        driver_after(responses, 0).token is None,
        can_send(driver_after(responses, i + 1)),
        driver_after(responses, i + 1).token == Some(responses[i].token),
    decreases i,
{
    if i > 0 {
        lemma_token_threading(responses, i - 1);
    }
}

/// Exhaustive dispatch: every work item variant produces a report with code 1
/// and a non-empty message, and absorbing a work item keeps the session
/// running and, once the report is recorded, ready to send again.
pub proof fn lemma_dispatch_exhaustive(d: DriverView, token: Seq<char>, item: WorkItemView)
    requires
        can_send(d),
    ensures
        report_for(item).code == 1,
        report_for(item).message.len() > 0,
        step_view(d, token, Some(InboundPayloadView::Work { item })).running,
        can_send(step_view(d, token, Some(InboundPayloadView::Work { item }))),
{
    reveal_strlit("buying done");
    reveal_strlit("washing done");
    reveal_strlit("cooking done");
}

/// Graceful stop: a sentinel payload ends the loop with the content-less
/// outbound message, leaves no handler invocation pending, and keeps the
/// token last received.
pub proof fn lemma_graceful_stop(d: DriverView, token: Seq<char>)
    ensures
        !step_view(d, token, Some(InboundPayloadView::SentinelDone)).running,
        step_view(d, token, Some(InboundPayloadView::SentinelDone)).outbound is Empty,
        !step_view(d, token, Some(InboundPayloadView::SentinelDone)).dispatching,
        step_view(d, token, Some(InboundPayloadView::SentinelDone)).token == Some(token),
{
}

/// Error reset: an absent payload ends the loop with the content-less outbound
/// message and returns the token to its initial, absent state.
pub proof fn lemma_error_reset(d: DriverView, token: Seq<char>)
    ensures
        !step_view(d, token, None).running,
        step_view(d, token, None).outbound is Empty,
        step_view(d, token, None).token == initial_driver().token,
{
}

/// Single in-flight request: once a response delivers a work item, the driver
/// cannot build another request until a completion report has been recorded,
/// and recording one re-enables sending exactly when the session still runs.
pub proof fn lemma_single_in_flight(
    d: DriverView,
    token: Seq<char>,
    item: WorkItemView,
    report: CompletionReportView,
)
    ensures
        !can_send(respond_view(d, token, Some(InboundPayloadView::Work { item }))),
        can_send(
            complete_view(respond_view(d, token, Some(InboundPayloadView::Work { item })), report),
        ) == d.running,
{
}

} // verus!
