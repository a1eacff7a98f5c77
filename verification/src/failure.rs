//! Connection-level failures and what is told of them.
use vstd::prelude::*;

use crate::message::{RequestId, RequestIdView};

verus! {

/// A stable class of connection-level failure observed by an error hook.
#[derive(Debug, Clone, Copy, PartialEq, Eq, Structural)]
pub enum ConnectionFailureCategory {
    /// The Transport could not recover an accepted message frame.
    Framing,
    /// A decoded JSON-RPC message violated the protocol contract.
    Protocol,
    /// A Transport read or write operation failed.
    Transport,
    /// Framework panic isolation caught a panic from user dispatch.
    PanicIsolation,
    /// A connection-owned resource budget rejected work.
    Overload,
    /// Final Transport shutdown failed while the connection was closing.
    Close,
}

/// The direction in which a reported connection failure occurred.
#[derive(Debug, Clone, Copy, PartialEq, Eq, Structural)]
pub enum ConnectionDirection {
    /// Traffic received from the client.
    Inbound,
    /// Traffic sent to the client.
    Outbound,
}

/// Non-sensitive identity for a JSON-RPC request.
///
/// Numeric IDs retain their value for correlation. String IDs are represented
/// only by their kind because their peer-controlled contents may be sensitive.
#[derive(Debug, Clone, Copy, PartialEq, Eq, Structural)]
pub enum ConnectionRequestId {
    /// A numeric JSON-RPC request ID.
    Number(i32),
    /// A string JSON-RPC request ID, with its contents redacted.
    String,
}

/// What is told of a request's identity.
pub open spec fn redacted(id: RequestIdView) -> ConnectionRequestId {
    match id {
        RequestIdView::Number(number) => ConnectionRequestId::Number(number),
        RequestIdView::String(_) => ConnectionRequestId::String,
    }
}

impl From<&RequestId> for ConnectionRequestId {
    fn from(value: &RequestId) -> (redacted: Self) {
        match value {
            RequestId::Number(number) => ConnectionRequestId::Number(*number),
            RequestId::String(_) => ConnectionRequestId::String,
        }
    }
}

impl vstd::std_specs::convert::FromSpecImpl<&RequestId> for ConnectionRequestId {
    open spec fn obeys_from_spec() -> bool {
        true
    }

    open spec fn from_spec(value: &RequestId) -> ConnectionRequestId {
        redacted(value.deep_view())
    }
}

/// Non-sensitive identity attached to a connection failure when available.
#[derive(Debug, PartialEq, Eq)]
pub struct ConnectionFailureContext {
    /// Monotonic process-local identity of the affected connection.
    pub connection_id: u64,
    /// Traffic direction, when the failure belongs to one side of the wire.
    pub direction: Option<ConnectionDirection>,
    /// Framework-owned, registered, or locally declared typed outbound method,
    /// when known without trusting an unvalidated peer-controlled method name.
    pub method: Option<String>,
    /// JSON-RPC request ID, when the event belongs to a request.
    pub request_id: Option<ConnectionRequestId>,
}

/// One connection-level failure delivered to the error hook.
///
/// The report deliberately excludes parameters, results, document text, wire
/// payloads, panic payloads, and underlying error messages.
#[derive(Debug, PartialEq, Eq)]
pub struct ConnectionFailure {
    /// Stable category suitable for metrics and policy decisions.
    pub category: ConnectionFailureCategory,
    /// Non-sensitive connection and call identity.
    pub context: ConnectionFailureContext,
}

/// What a [`ConnectionFailure`] tells.
pub struct FailureView {
    pub category: ConnectionFailureCategory,
    pub connection_id: u64,
    pub direction: Option<ConnectionDirection>,
    pub method: Option<Seq<char>>,
    pub request_id: Option<ConnectionRequestId>,
}

impl View for ConnectionFailure {
    type V = FailureView;

    open spec fn view(&self) -> FailureView {
        FailureView {
            category: self.category,
            connection_id: self.context.connection_id,
            direction: self.context.direction,
            method: self.context.method.deep_view(),
            request_id: self.context.request_id,
        }
    }
}

/// Decides what is reported to the error hook of one connection.
pub struct FailureReporter<H> {
    hook: Option<H>,
    connection_id: u64,
}

/// What a [`FailureReporter`] knows.
pub struct ReporterView {
    pub hooked: bool,
    pub connection_id: u64,
}

impl ReporterView {
    /// The report of a failure; none without a hook.
    pub open spec fn report(
        self,
        category: ConnectionFailureCategory,
        direction: Option<ConnectionDirection>,
        method: Option<Seq<char>>,
        request_id: Option<RequestIdView>,
    ) -> Option<FailureView> {
        if self.hooked {
            Some(
                FailureView {
                    category,
                    connection_id: self.connection_id,
                    direction,
                    method,
                    request_id: match request_id {
                        Some(id) => Some(redacted(id)),
                        None => None,
                    },
                },
            )
        } else {
            None
        }
    }
}

/// A report came out as expected.
pub open spec fn reported(expected: Option<FailureView>, failure: Option<ConnectionFailure>) -> bool {
    match failure {
        Some(told) => expected == Some(told@),
        None => expected is None,
    }
}

/// An optional text as characters.
pub open spec fn text_view(text: Option<&str>) -> Option<Seq<char>> {
    match text {
        Some(text) => Some(text@),
        None => None,
    }
}

/// An optional identity.
pub open spec fn id_view(id: Option<&RequestId>) -> Option<RequestIdView> {
    match id {
        Some(id) => Some(id.deep_view()),
        None => None,
    }
}

impl<H> View for FailureReporter<H> {
    type V = ReporterView;

    closed spec fn view(&self) -> ReporterView {
        ReporterView { hooked: self.hook is Some, connection_id: self.connection_id }
    }
}

impl<H> FailureReporter<H> {
    /// A reporter for a connection's hook, if it has one.
    pub fn new(hook: Option<H>, connection_id: u64) -> (reporter: Self)
        ensures
            reporter@ == (ReporterView { hooked: hook is Some, connection_id }),
            reporter.target() == hook,
    {
        FailureReporter { hook, connection_id }
    }

    /// The hook that reports go to.
    pub closed spec fn target(&self) -> Option<H> {
        self.hook
    }

    /// The hook that reports go to.
    pub fn hook(&self) -> (hook: Option<&H>)
        ensures
            self@.hooked == (self.target() is Some),
            match hook {
                Some(found) => self.target() == Some(*found),
                None => self.target() is None,
            },
    {
        match &self.hook {
            Some(hook) => Some(hook),
            None => None,
        }
    }

    /// The report of a failure; none without a hook.
    pub fn report(
        &self,
        category: ConnectionFailureCategory,
        direction: Option<ConnectionDirection>,
        method: Option<&str>,
        request_id: Option<&RequestId>,
    ) -> (failure: Option<ConnectionFailure>)
        ensures
            reported(
                self@.report(category, direction, text_view(method), id_view(request_id)),
                failure,
            ),
    {
        if self.hook.is_none() {
            return None;
        }
        let method = match method {
            Some(text) => Some(text.to_owned()),
            None => None,
        };
        let request_id = match request_id {
            Some(id) => Some(ConnectionRequestId::from(id)),
            None => None,
        };
        Some(
            ConnectionFailure {
                category,
                context: ConnectionFailureContext {
                    connection_id: self.connection_id,
                    direction,
                    method,
                    request_id,
                },
            },
        )
    }

    /// Report an inbound event whose method name has not been matched against
    /// a framework-owned or registered method. Peer-controlled method names
    /// are payload-adjacent data, so they are deliberately omitted.
    pub fn report_unvalidated_inbound_method(
        &self,
        category: ConnectionFailureCategory,
        request_id: Option<&RequestId>,
    ) -> (failure: Option<ConnectionFailure>)
        ensures
            reported(
                self@.report(
                    category,
                    Some(ConnectionDirection::Inbound),
                    None,
                    id_view(request_id),
                ),
                failure,
            ),
    {
        self.report(category, Some(ConnectionDirection::Inbound), None, request_id)
    }
}

/// Textual request IDs are told apart by nothing: whatever two of them hold, the
/// reports are the same.
pub proof fn law_textual_ids_are_redacted(
    reporter: ReporterView,
    category: ConnectionFailureCategory,
    direction: Option<ConnectionDirection>,
    method: Option<Seq<char>>,
    first: Seq<char>,
    second: Seq<char>,
)
    ensures
        reporter.report(category, direction, method, Some(RequestIdView::String(first)))
            == reporter.report(category, direction, method, Some(RequestIdView::String(second))),
{
}

} // verus!
