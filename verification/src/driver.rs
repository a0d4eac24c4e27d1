use vstd::prelude::*;

use crate::encoding::encodable_token;
use crate::encoding::token_fits_metadata;
use crate::protocol::CompletionReport;
use crate::protocol::CompletionReportView;
use crate::protocol::Heartbeat;
use crate::protocol::HeartbeatView;
use crate::protocol::InboundPayload;
use crate::protocol::InboundPayloadView;
use crate::protocol::OutboundMessage;
use crate::protocol::OutboundMessageView;
use crate::protocol::SessionError;
use crate::protocol::WorkItem;
use crate::protocol::report_for;

verus! {

// ---------------------------------------------------------------------------
// Driver model and transitions
// ---------------------------------------------------------------------------

/// The correlation token as the model sees it.
pub open spec fn token_view(t: Option<String>) -> Option<Seq<char>> {
    match t {
        Some(s) => Some(s@),
        None => None,
    }
}

/// The optional inbound payload as the model sees it.
pub open spec fn payload_view(p: Option<InboundPayload>) -> Option<InboundPayloadView> {
    match p {
        Some(q) => Some(q@),
        None => None,
    }
}

/// Model of the driver's state: the message the next request will carry, the
/// correlation token as last received, whether the loop continues, and whether
/// a handler invocation is pending.
pub struct DriverView {
    pub outbound: OutboundMessageView,
    pub token: Option<Seq<char>>,
    pub running: bool,
    pub dispatching: bool,
}

/// The state a fresh session starts in: heartbeat number 1 for agent
/// "agent_1", no token, loop live, no handler pending.
pub open spec fn initial_driver() -> DriverView {
    DriverView {
        outbound: OutboundMessageView::Heartbeat {
            heartbeat: HeartbeatView { sequence_number: 1, agent_id: "agent_1"@ },
        },
        token: None,
        running: true,
        dispatching: false,
    }
}

/// The driver may begin a round-trip call: the session is live and no handler
/// invocation is pending.
pub open spec fn can_send(d: DriverView) -> bool {
    d.running && !d.dispatching
}

/// The state after a session-ending protocol failure: the loop is over and the
/// whole session state is reset, the token to absent.
pub open spec fn reset_view() -> DriverView {
    DriverView {
        outbound: OutboundMessageView::Empty,
        token: None,
        running: false,
        dispatching: false,
    }
}

/// How one inbound message — the token from the side channel plus the optional
/// payload — transforms the driver's state, up to but not including the
/// handler's report. An absent payload resets the session; the sentinel ends
/// the loop but keeps the token last received; a work item leaves the loop
/// live and marks a handler invocation pending.
pub open spec fn respond_view(
    d: DriverView,
    token: Seq<char>,
    payload: Option<InboundPayloadView>,
) -> DriverView {
    match payload {
        None => reset_view(),
        Some(InboundPayloadView::SentinelDone) => DriverView {
            outbound: OutboundMessageView::Empty,
            token: Some(token),
            running: false,
            dispatching: false,
        },
        Some(InboundPayloadView::Work { .. }) => DriverView {
            outbound: d.outbound,
            token: Some(token),
            running: d.running,
            dispatching: true,
        },
    }
}

/// Recording a handler's completion report: it becomes the next outbound
/// message and the pending invocation is cleared.
pub open spec fn complete_view(d: DriverView, report: CompletionReportView) -> DriverView {
    DriverView {
        outbound: OutboundMessageView::Report { report },
        token: d.token,
        running: d.running,
        dispatching: false,
    }
}

/// One full loop iteration's effect on the driver's state, with each work item
/// handled by the fixed dispatch.
pub open spec fn step_view(
    d: DriverView,
    token: Seq<char>,
    payload: Option<InboundPayloadView>,
) -> DriverView {
    match payload {
        Some(InboundPayloadView::Work { item }) => complete_view(
            respond_view(d, token, payload),
            report_for(item),
        ),
        _ => respond_view(d, token, payload),
    }
}

// ---------------------------------------------------------------------------
// Request envelope
// ---------------------------------------------------------------------------

/// Model of one request envelope handed to the transport.
pub struct RequestEnvelopeView {
    pub message: OutboundMessageView,
    pub token: Option<Seq<char>>,
}

/// One request envelope: the outbound message body plus the correlation token
/// to attach through the transport's side channel, if any.
#[derive(Debug, PartialEq, Eq)]
pub struct RequestEnvelope {
    pub message: OutboundMessage,
    pub token: Option<String>,
}

impl View for RequestEnvelope {
    type V = RequestEnvelopeView;

    open spec fn view(&self) -> RequestEnvelopeView {
        RequestEnvelopeView { message: self.message@, token: token_view(self.token) }
    }
}

/// What the driver asks its caller to do once a response has been absorbed.
#[derive(Debug, PartialEq, Eq)]
pub enum Action {
    /// Run the handler for this work item, then record its report with
    /// `report_completion` before building the next request.
    Invoke { item: WorkItem },
    /// The session is over: issue no further request.
    Stop,
}

// ---------------------------------------------------------------------------
// The session driver
// ---------------------------------------------------------------------------

/// The session driver: owns the correlation token, the next outbound message,
/// and the liveness of the request/execute/report loop. One instance drives
/// one session; nothing is shared between instances.
pub struct SessionDriver {
    outbound: OutboundMessage,
    token: Option<String>,
    running: bool,
    dispatching: bool,
}

impl View for SessionDriver {
    type V = DriverView;

    closed spec fn view(&self) -> DriverView {
        DriverView {
            outbound: self.outbound@,
            token: token_view(self.token),
            running: self.running,
            dispatching: self.dispatching,
        }
    }
}

impl SessionDriver {
    /// Start a session in the initial state.
    pub fn new() -> (d: Self)
        ensures
            d@ == initial_driver(),
    {
        SessionDriver {
            outbound: OutboundMessage::Heartbeat {
                heartbeat: Heartbeat { sequence_number: 1, agent_id: "agent_1".to_string() },
            },
            token: None,
            running: true,
            dispatching: false,
        }
    }

    /// Build the request for the next round trip: the current outbound message
    /// plus the current token, if one is held. Fails fast when that token
    /// cannot be represented in the transport's metadata encoding.
    pub fn next_request(&self) -> (r: Result<RequestEnvelope, SessionError>)
        requires
            can_send(self@),
        ensures
            match r {
                Ok(env) => {
                    &&& env@.message == self@.outbound
                    &&& env@.token == self@.token
                    &&& (self@.token matches Some(t) ==> encodable_token(t))
                },
                Err(e) => {
                    &&& e is TokenNotEncodable
                    &&& self@.token matches Some(t) && !encodable_token(t)
                },
            },
    {
        match &self.token {
            Some(t) => {
                if token_fits_metadata(t.as_str()) {
                    Ok(RequestEnvelope { message: self.outbound.clone(), token: Some(t.clone()) })
                } else {
                    Err(SessionError::TokenNotEncodable)
                }
            },
            None => Ok(RequestEnvelope { message: self.outbound.clone(), token: None }),
        }
    }

    /// Absorb one response: adopt the token from the side channel (replacing,
    /// never merging with, the previous one), decide whether the loop
    /// continues, and surface the work item, if any, for its handler. A
    /// response without a token in the side channel is a fatal protocol error
    /// that ends and resets the session.
    pub fn handle_response(
        &mut self,
        token: Option<String>,
        payload: Option<InboundPayload>,
    ) -> (r: Result<Action, SessionError>)
        requires
            can_send(old(self)@),
        ensures
            match r {
                Ok(action) => {
                    &&& token matches Some(t)
                    &&& final(self)@ == respond_view(old(self)@, t@, payload_view(payload))
                    &&& (match action {
                        Action::Invoke { item } => payload_view(payload) == Some(
                            InboundPayloadView::Work { item: item@ },
                        ),
                        Action::Stop => payload_view(payload) is None || payload_view(payload)
                            == Some(InboundPayloadView::SentinelDone),
                    })
                },
                Err(e) => {
                    &&& e is MissingCorrelationToken
                    &&& token is None
                    &&& final(self)@ == reset_view()
                },
            },
    {
        match token {
            None => {
                self.outbound = OutboundMessage::Empty;
                self.token = None;
                self.running = false;
                self.dispatching = false;
                Err(SessionError::MissingCorrelationToken)
            },
            Some(t) => {
                self.token = Some(t);
                match payload {
                    None => {
                        self.outbound = OutboundMessage::Empty;
                        self.token = None;
                        self.running = false;
                        Ok(Action::Stop)
                    },
                    Some(InboundPayload::SentinelDone) => {
                        self.outbound = OutboundMessage::Empty;
                        self.running = false;
                        Ok(Action::Stop)
                    },
                    Some(InboundPayload::Work { item }) => {
                        self.dispatching = true;
                        Ok(Action::Invoke { item })
                    },
                }
            },
        }
    }

    /// Record the report the handler produced for the pending work item: it
    /// becomes the next outbound message. A failure report (code other than 1)
    /// is recorded the same way and does not abort the session.
    pub fn report_completion(&mut self, report: CompletionReport)
        requires
            old(self)@.dispatching,
        ensures
            final(self)@ == complete_view(old(self)@, report@),
    {
        self.outbound = OutboundMessage::Report { report };
        self.dispatching = false;
    }

    /// Whether the loop continues.
    pub fn is_running(&self) -> (b: bool)
        ensures
            b == self@.running,
    {
        self.running
    }

    /// Whether a work item was delivered whose report has not yet been
    /// recorded.
    pub fn is_dispatching(&self) -> (b: bool)
        ensures
            b == self@.dispatching,
    {
        self.dispatching
    }

    /// The correlation token as last received, if any.
    pub fn current_token(&self) -> (t: &Option<String>)
        ensures
            token_view(*t) == self@.token,
    {
        &self.token
    }

    /// The message the next request will carry.
    pub fn current_outbound(&self) -> (m: &OutboundMessage)
        ensures
            m@ == self@.outbound,
    {
        &self.outbound
    }
}

} // verus!
