use vstd::prelude::*;

verus! {

// ---------------------------------------------------------------------------
// Mathematical models
//
// Contracts throughout the crate are stated over these spec-level mirrors of
// the executable message types; each executable type carries a `View` impl
// mapping it to its model.
// ---------------------------------------------------------------------------

/// Model of the heartbeat sent as the very first outbound message of a session.
pub struct HeartbeatView {
    pub sequence_number: u64,
    pub agent_id: Seq<char>,
}

/// Model of a handler's outcome record for one executed work item.
pub struct CompletionReportView {
    pub code: u32,
    pub message: Seq<char>,
}

/// Model of one unit of server-directed work.
pub enum WorkItemView {
    Buy { instruction: Seq<char> },
    Wash { instruction: Seq<char> },
    Cook { instruction: Seq<char> },
}

/// Model of the body of an outbound request.
pub enum OutboundMessageView {
    Heartbeat { heartbeat: HeartbeatView },
    Report { report: CompletionReportView },
    Empty,
}

/// Model of the payload of an inbound message. An absent payload is modelled
/// as `None` at the `Option<InboundPayloadView>` level.
pub enum InboundPayloadView {
    SentinelDone,
    Work { item: WorkItemView },
}

// ---------------------------------------------------------------------------
// Executable message types
// ---------------------------------------------------------------------------

/// The very first outbound message of a session.
#[derive(Debug, PartialEq, Eq)]
pub struct Heartbeat {
    pub sequence_number: u64,
    pub agent_id: String,
}

impl View for Heartbeat {
    type V = HeartbeatView;

    open spec fn view(&self) -> HeartbeatView {
        HeartbeatView { sequence_number: self.sequence_number, agent_id: self.agent_id@ }
    }
}

impl Clone for Heartbeat {
    fn clone(&self) -> (res: Self)
        ensures
            res@ == self@,
    {
        Heartbeat { sequence_number: self.sequence_number, agent_id: self.agent_id.clone() }
    }
}

/// The outcome record a handler produces for one executed work item.
/// A code of 1 means success; any other code reports a handler failure.
#[derive(Debug, PartialEq, Eq)]
pub struct CompletionReport {
    pub code: u32,
    pub message: String,
}

impl View for CompletionReport {
    type V = CompletionReportView;

    open spec fn view(&self) -> CompletionReportView {
        CompletionReportView { code: self.code, message: self.message@ }
    }
}

impl Clone for CompletionReport {
    fn clone(&self) -> (res: Self)
        ensures
            res@ == self@,
    {
        CompletionReport { code: self.code, message: self.message.clone() }
    }
}

/// One unit of server-directed work, carrying a free-text instruction.
#[derive(Debug, PartialEq, Eq)]
pub enum WorkItem {
    Buy { instruction: String },
    Wash { instruction: String },
    Cook { instruction: String },
}

impl View for WorkItem {
    type V = WorkItemView;

    open spec fn view(&self) -> WorkItemView {
        match self {
            WorkItem::Buy { instruction } => WorkItemView::Buy { instruction: instruction@ },
            WorkItem::Wash { instruction } => WorkItemView::Wash { instruction: instruction@ },
            WorkItem::Cook { instruction } => WorkItemView::Cook { instruction: instruction@ },
        }
    }
}

impl Clone for WorkItem {
    fn clone(&self) -> (res: Self)
        ensures
            res@ == self@,
    {
        match self {
            WorkItem::Buy { instruction } => WorkItem::Buy { instruction: instruction.clone() },
            WorkItem::Wash { instruction } => WorkItem::Wash { instruction: instruction.clone() },
            WorkItem::Cook { instruction } => WorkItem::Cook { instruction: instruction.clone() },
        }
    }
}

/// The body of an outbound request: exactly one of a heartbeat, a completion
/// report, or the intentionally content-less variant sent while terminating.
#[derive(Debug, PartialEq, Eq)]
pub enum OutboundMessage {
    Heartbeat { heartbeat: Heartbeat },
    Report { report: CompletionReport },
    Empty,
}

impl View for OutboundMessage {
    type V = OutboundMessageView;

    open spec fn view(&self) -> OutboundMessageView {
        match self {
            OutboundMessage::Heartbeat { heartbeat } => OutboundMessageView::Heartbeat {
                heartbeat: heartbeat@,
            },
            OutboundMessage::Report { report } => OutboundMessageView::Report { report: report@ },
            OutboundMessage::Empty => OutboundMessageView::Empty,
        }
    }
}

impl Clone for OutboundMessage {
    fn clone(&self) -> (res: Self)
        ensures
            res@ == self@,
    {
        match self {
            OutboundMessage::Heartbeat { heartbeat } => OutboundMessage::Heartbeat {
                heartbeat: heartbeat.clone(),
            },
            OutboundMessage::Report { report } => OutboundMessage::Report {
                report: report.clone(),
            },
            OutboundMessage::Empty => OutboundMessage::Empty,
        }
    }
}

/// The payload of an inbound message: either the sentinel meaning "no work
/// available now" or a work item. A protocol-level failure is modelled by an
/// absent (`None`) payload at the call site.
#[derive(Debug, PartialEq, Eq)]
pub enum InboundPayload {
    SentinelDone,
    Work { item: WorkItem },
}

impl View for InboundPayload {
    type V = InboundPayloadView;

    open spec fn view(&self) -> InboundPayloadView {
        match self {
            InboundPayload::SentinelDone => InboundPayloadView::SentinelDone,
            InboundPayload::Work { item } => InboundPayloadView::Work { item: item@ },
        }
    }
}

/// The fatal errors the session driver can raise.
#[derive(Debug, PartialEq, Eq, Structural)]
pub enum SessionError {
    /// A successful response arrived without a correlation token in its side
    /// channel.
    MissingCorrelationToken,
    /// The current correlation token cannot be represented in the transport's
    /// metadata encoding.
    TokenNotEncodable,
}

// ---------------------------------------------------------------------------
// Handlers and dispatch
// ---------------------------------------------------------------------------

/// The report the fixed handler for a work item's variant produces: code 1 and
/// a variant-specific success text.
pub open spec fn report_for(item: WorkItemView) -> CompletionReportView {
    match item {
        WorkItemView::Buy { .. } => CompletionReportView { code: 1, message: "buying done"@ },
        WorkItemView::Wash { .. } => CompletionReportView { code: 1, message: "washing done"@ },
        WorkItemView::Cook { .. } => CompletionReportView { code: 1, message: "cooking done"@ },
    }
}

/// Handler for `Buy` work items.
pub fn do_buy_event(instruction: &str, task_id: &str) -> (r: CompletionReport)
    ensures
        r@ == report_for(WorkItemView::Buy { instruction: instruction@ }),
{
    CompletionReport { code: 1, message: "buying done".to_string() }
}

/// Handler for `Wash` work items.
pub fn do_wash_event(instruction: &str, task_id: &str) -> (r: CompletionReport)
    ensures
        r@ == report_for(WorkItemView::Wash { instruction: instruction@ }),
{
    CompletionReport { code: 1, message: "washing done".to_string() }
}

/// Handler for `Cook` work items.
pub fn do_cook_event(instruction: &str, task_id: &str) -> (r: CompletionReport)
    ensures
        r@ == report_for(WorkItemView::Cook { instruction: instruction@ }),
{
    CompletionReport { code: 1, message: "cooking done".to_string() }
}

/// The fixed, exhaustive mapping from a work item's variant to its handler.
/// Adding a variant to `WorkItem` forces a new arm here at compile time.
pub fn dispatch_work(item: &WorkItem, task_id: &str) -> (r: CompletionReport)
    ensures
        r@ == report_for(item@),
{
    match item {
        WorkItem::Buy { instruction } => do_buy_event(instruction.as_str(), task_id),
        WorkItem::Wash { instruction } => do_wash_event(instruction.as_str(), task_id),
        WorkItem::Cook { instruction } => do_cook_event(instruction.as_str(), task_id),
    }
}

} // verus!
