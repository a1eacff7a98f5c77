//! The handle through which a connection reaches its peer.
//!
//! Whoever drives a connection encodes typed parameters, measures the envelope
//! of each message, performs the sending and the waiting, and decodes typed
//! results; what is admitted, correlated, cancelled and reported is decided
//! here.
use vstd::prelude::*;
use vstd::utf8::encode_utf8;

use crate::error::{ClientError, ClientErrorView};
use crate::failure::{ConnectionDirection, ConnectionFailure, ConnectionFailureCategory};
use crate::message::{JsonRpcError, MessageView, RawMessage, RequestId, RequestIdView};
use crate::outbound::{
    size_view, Delivery, DeliveryRequirement, InsertOutcome, OutboundQueue, OutboundRegistry,
    OutboundSendError, OutcomeView, PendingOutcome, QueueView, RegistryView, SendErrorView,
    LAST_OUTBOUND_ID,
};
use crate::params::TraceValue;
use crate::progress::{ProgressRegistry, ProgressState};
use crate::message::ProgressTokenView;
use crate::text::decimal_text;

verus! {

/// How far the connection is open to new outbound work.
#[derive(Debug, Clone, Copy, PartialEq, Eq, Structural)]
pub enum Phase {
    /// Work is accepted.
    Open,
    /// The connection has begun to close.
    ConnectionClosed,
    /// The outbound queue is closed.
    OutboundClosed,
}

/// The notification that tells the peer of a cancelled request.
pub open spec fn cancel_text(id: int) -> Seq<char> {
    "{\"id\":"@ + decimal_text(id) + "}"@
}

/// `serde_json::to_vec` of `lsp_types::CancelParams` with a numeric ID: the
/// object with the one entry `id`, in the compact form that the encoder writes.
#[verifier::external_body]
fn encode_cancel(id: i32) -> (params: Vec<u8>)
    ensures
        params@ == encode_utf8(cancel_text(id as int)),
{
    serde_json::to_vec(
        &lsp_types::CancelParams { id: lsp_types::NumberOrString::Number(id) },
    ).expect("an integer is encoded")
}

/// The message that tells the peer of a cancelled request.
pub open spec fn cancel_notice(id: u32) -> MessageView {
    MessageView::Notification {
        method: "$/cancelRequest"@,
        params: encode_utf8(cancel_text(id as int)),
    }
}

/// The message that tells the peer of a cancelled request.
pub fn cancel_message(id: u32) -> (message: RawMessage)
    requires
        id <= LAST_OUTBOUND_ID,
    ensures
        message@ == cancel_notice(id),
{
    RawMessage::Notification {
        method: "$/cancelRequest".to_owned(),
        params: encode_cancel(id as i32),
    }
}

/// Stands for a pending outbound request until it is answered or given up.
///
/// When the guarded request actually reached the wire (was enqueued), giving it
/// up also tells the peer with a single `$/cancelRequest` notification. Requests
/// that failed before enqueue never emit one.
#[derive(Debug)]
pub struct PendingGuard {
    id: u32,
    enqueued: bool,
}

/// What a [`PendingGuard`] stands for.
pub struct GuardView {
    pub id: u32,
    pub enqueued: bool,
}

impl View for PendingGuard {
    type V = GuardView;

    closed spec fn view(&self) -> GuardView {
        GuardView { id: self.id, enqueued: self.enqueued }
    }
}

impl PendingGuard {
    #[verifier::type_invariant]
    closed spec fn type_inv(self) -> bool {
        1 <= self.id <= LAST_OUTBOUND_ID
    }

    /// The ID of the request.
    pub fn id(&self) -> (id: u32)
        ensures
            id == self@.id,
            1 <= id <= LAST_OUTBOUND_ID,
    {
        proof {
            use_type_invariant(self);
        }
        self.id
    }
}

/// A connection-scoped handle for messages sent to the peer. `H` stands for the
/// error hook and `T` for whoever waits for an answer.
pub struct ClientHandle<H, T> {
    outgoing: OutboundQueue<H>,
    outbound: OutboundRegistry<T>,
    outbound_request_timeout: Option<u128>,
    progress: ProgressRegistry,
    phase: Phase,
    /// Set once the outbound queue is closing.
    outbound_closing: bool,
    trace: TraceValue,
}

/// What a [`ClientHandle`] holds.
#[verifier::ext_equal]
pub struct ClientView<T> {
    pub queue: QueueView,
    pub registry: RegistryView<T>,
    pub timeout: Option<u128>,
    pub progress: Map<ProgressTokenView, ProgressState>,
    pub phase: Phase,
    pub closing: bool,
    pub trace: TraceValue,
}

impl<T> ClientView<T> {
    /// An open handle with nothing sent.
    pub open spec fn fresh(queue: QueueView, registry: RegistryView<T>, timeout: Option<u128>) -> Self {
        ClientView {
            queue,
            registry,
            timeout,
            progress: Map::empty(),
            phase: Phase::Open,
            closing: false,
            trace: TraceValue::Off,
        }
    }

    /// The handle after it has looked at its queue: a closed queue closes the
    /// handle.
    pub open spec fn looked(self) -> Self {
        if self.queue.closed {
            ClientView { phase: Phase::OutboundClosed, closing: true, ..self }
        } else {
            self
        }
    }

    /// Why no work is accepted.
    pub open spec fn shut(self) -> Option<ClientErrorView> {
        match self.looked().phase {
            Phase::Open => None,
            Phase::ConnectionClosed => Some(ClientErrorView::ConnectionClosed),
            Phase::OutboundClosed => Some(ClientErrorView::OutboundClosed),
        }
    }

    /// The failure that a refused message is told as.
    pub open spec fn told(refusal: SendErrorView) -> ClientErrorView {
        match refusal {
            SendErrorView::Overloaded => ClientErrorView::OutboundOverloaded,
            SendErrorView::Closed => ClientErrorView::OutboundClosed,
            SendErrorView::Serialize(error) => ClientErrorView::Serialize(error),
        }
    }

    /// Why a notification is not enqueued.
    pub open spec fn notify_failure(
        self,
        params: Result<Seq<u8>, Seq<char>>,
        size: Result<usize, Seq<char>>,
    ) -> Option<ClientErrorView> {
        if self.shut() is Some {
            self.shut()
        } else {
            match params {
                Err(error) => Some(ClientErrorView::Serialize(error)),
                Ok(_) => match self.queue.refusal(size) {
                    Some(refusal) => Some(Self::told(refusal)),
                    None => None,
                },
            }
        }
    }

    /// The handle after a notification is enqueued, or refused.
    pub open spec fn notified(
        self,
        method: Seq<char>,
        params: Result<Seq<u8>, Seq<char>>,
        size: Result<usize, Seq<char>>,
        requirement: DeliveryRequirement,
    ) -> Self {
        if self.shut() is Some || params is Err {
            self.looked()
        } else {
            let message = MessageView::Notification { method, params: params->Ok_0 };
            let queue = match requirement {
                DeliveryRequirement::Ordinary => self.queue.sent(message, size),
                DeliveryRequirement::Required => self.queue.sent_required(message, size),
            };
            ClientView { queue, ..self }
        }
    }

    /// Why a request is given no ID.
    pub open spec fn reserve_failure(self, params: Result<Seq<u8>, Seq<char>>) -> Option<
        ClientErrorView,
    > {
        if self.shut() is Some {
            self.shut()
        } else {
            match params {
                Err(error) => Some(ClientErrorView::Serialize(error)),
                Ok(_) => match self.registry.insert_outcome() {
                    InsertOutcome::Inserted(_) => None,
                    InsertOutcome::Closed => Some(ClientErrorView::ConnectionClosed),
                    InsertOutcome::Exhausted => Some(ClientErrorView::IdExhausted),
                },
            }
        }
    }

    /// The handle after a request is given an ID, or refused.
    pub open spec fn reserved(self, params: Result<Seq<u8>, Seq<char>>, waiter: T) -> Self {
        if self.reserve_failure(params) is Some {
            self.looked()
        } else {
            ClientView { registry: self.registry.inserted(waiter), ..self }
        }
    }

    /// Why a request with an ID is not enqueued.
    pub open spec fn enqueue_failure(self, size: Result<usize, Seq<char>>) -> Option<
        ClientErrorView,
    > {
        if self.shut() is Some {
            self.shut()
        } else {
            match self.queue.refusal(size) {
                Some(refusal) => Some(Self::told(refusal)),
                None => None,
            }
        }
    }

    /// The handle after a request with an ID is enqueued, or refused and its
    /// entry rolled back.
    pub open spec fn enqueued(
        self,
        id: u32,
        message: MessageView,
        size: Result<usize, Seq<char>>,
    ) -> Self {
        if self.shut() is Some {
            ClientView { registry: self.registry.removed(id), ..self.looked() }
        } else if self.queue.refusal(size) is Some {
            ClientView {
                registry: self.registry.removed(id),
                queue: self.queue.sent(message, size),
                ..self
            }
        } else {
            ClientView { queue: self.queue.sent(message, size), ..self }
        }
    }

    /// The handle after an unanswered request is given up: its entry is gone,
    /// and the peer is told where the request had reached the wire.
    pub open spec fn given_up(self, guard: GuardView, size: Result<usize, Seq<char>>) -> Self {
        if !self.registry.pending.dom().contains(guard.id) {
            self
        } else {
            let without = ClientView { registry: self.registry.removed(guard.id), ..self };
            if guard.enqueued {
                without.notified(
                    "$/cancelRequest"@,
                    Ok(encode_utf8(cancel_text(guard.id as int))),
                    size,
                    DeliveryRequirement::Required,
                )
            } else {
                without
            }
        }
    }
}

/// Encoded parameters as their view.
pub open spec fn params_view(params: Result<Vec<u8>, String>) -> Result<Seq<u8>, Seq<char>> {
    match params {
        Ok(bytes) => Ok(bytes@),
        Err(error) => Err(error@),
    }
}

/// An operation failed as expected, or did not.
pub open spec fn fails_as<R>(
    expected: Option<ClientErrorView>,
    result: Result<R, ClientError>,
) -> bool {
    match result {
        Ok(_) => expected is None,
        Err(error) => expected == Some(error@),
    }
}

impl<H, T> View for ClientHandle<H, T> {
    type V = ClientView<T>;

    closed spec fn view(&self) -> ClientView<T> {
        ClientView {
            queue: self.outgoing@,
            registry: self.outbound@,
            timeout: self.outbound_request_timeout,
            progress: self.progress@,
            phase: self.phase,
            closing: self.outbound_closing,
            trace: self.trace,
        }
    }
}

/// The failure that a refused message is told as.
fn send_failure(error: OutboundSendError) -> (failure: ClientError)
    ensures
        failure@ == ClientView::<()>::told(error@),
{
    match error {
        OutboundSendError::Overloaded => ClientError::OutboundOverloaded,
        OutboundSendError::Closed => ClientError::OutboundClosed,
        OutboundSendError::Serialize(error) => ClientError::Serialize(error),
    }
}

/// What a pending outcome gives to a caller: a lost one means that the outbound
/// path is gone.
pub open spec fn answered(outcome: Option<OutcomeView>) -> Result<Seq<u8>, ClientErrorView> {
    match outcome {
        None => Err(ClientErrorView::OutboundClosed),
        Some(OutcomeView::Response(Ok(body))) => Ok(body),
        Some(OutcomeView::Response(Err(error))) => Err(ClientErrorView::Remote(error)),
        Some(OutcomeView::Cancelled) => Err(ClientErrorView::Cancelled),
    }
}

/// The result body that a pending outcome gives to a caller.
pub fn response_body(outcome: Option<PendingOutcome>) -> (result: Result<Vec<u8>, ClientError>)
    ensures
        ({
            let said = match outcome {
                Some(found) => Some(found@),
                None => None,
            };
            match result {
                Ok(body) => answered(said) == Ok::<Seq<u8>, ClientErrorView>(body@),
                Err(error) => answered(said) == Err::<Seq<u8>, ClientErrorView>(error@),
            }
        }),
{
    match outcome {
        None => Err(ClientError::OutboundClosed),
        Some(PendingOutcome::Response(Ok(body))) => Ok(body),
        Some(PendingOutcome::Response(Err(error))) => Err(ClientError::Remote(error)),
        Some(PendingOutcome::Cancelled) => Err(ClientError::Cancelled),
    }
}

impl<H, T> ClientHandle<H, T> {
    /// The queue's accounting is exact and within the budgets.
    pub closed spec fn wf(&self) -> bool {
        self.outgoing.wf()
    }

    /// An open handle over a queue and a registry.
    pub fn new(
        outgoing: OutboundQueue<H>,
        outbound: OutboundRegistry<T>,
        outbound_request_timeout: Option<u128>,
    ) -> (client: Self)
        requires
            outgoing.wf(),
        ensures
            client.wf(),
            client@ == ClientView::<T>::fresh(outgoing@, outbound@, outbound_request_timeout),
    {
        ClientHandle {
            outgoing,
            outbound,
            outbound_request_timeout,
            progress: ProgressRegistry::new(),
            phase: Phase::Open,
            outbound_closing: false,
            trace: TraceValue::Off,
        }
    }

    /// Refuse work unless the connection is open.
    fn ensure_open(&mut self) -> (result: Result<(), ClientError>)
        requires
            old(self).wf(),
        ensures
            final(self).wf(),
            final(self)@ == old(self)@.looked(),
            fails_as(old(self)@.shut(), result),
    {
        if self.outgoing.is_closed() {
            self.phase = Phase::OutboundClosed;
            self.outbound_closing = true;
        }
        match self.phase {
            Phase::Open => Ok(()),
            Phase::ConnectionClosed => Err(ClientError::ConnectionClosed),
            Phase::OutboundClosed => Err(ClientError::OutboundClosed),
        }
    }

    /// Enqueue one notification with encoded parameters, whose envelope has a
    /// size.
    ///
    /// Notifications are fire-and-forget: this allocates no request ID and
    /// creates no pending request entry. If the outbound message or byte budget
    /// is full, it fails without retaining the notification.
    pub fn notify(
        &mut self,
        method: &str,
        params: Result<Vec<u8>, String>,
        size: Result<usize, String>,
    ) -> (result: Result<(), ClientError>)
        requires
            old(self).wf(),
        ensures
            final(self).wf(),
            final(self)@ == old(self)@.notified(
                method@,
                params_view(params),
                size_view(size),
                DeliveryRequirement::Ordinary,
            ),
            fails_as(old(self)@.notify_failure(params_view(params), size_view(size)), result),
    {
        self.notify_with_requirement(method, params, size, DeliveryRequirement::Ordinary)
    }

    /// Enqueue one notification that the connection cannot go on without.
    pub fn notify_required(
        &mut self,
        method: &str,
        params: Result<Vec<u8>, String>,
        size: Result<usize, String>,
    ) -> (result: Result<(), ClientError>)
        requires
            old(self).wf(),
        ensures
            final(self).wf(),
            final(self)@ == old(self)@.notified(
                method@,
                params_view(params),
                size_view(size),
                DeliveryRequirement::Required,
            ),
            fails_as(old(self)@.notify_failure(params_view(params), size_view(size)), result),
    {
        self.notify_with_requirement(method, params, size, DeliveryRequirement::Required)
    }

    fn notify_with_requirement(
        &mut self,
        method: &str,
        params: Result<Vec<u8>, String>,
        size: Result<usize, String>,
        requirement: DeliveryRequirement,
    ) -> (result: Result<(), ClientError>)
        requires
            old(self).wf(),
        ensures
            final(self).wf(),
            final(self)@ == old(self)@.notified(
                method@,
                params_view(params),
                size_view(size),
                requirement,
            ),
            fails_as(old(self)@.notify_failure(params_view(params), size_view(size)), result),
    {
        match self.ensure_open() {
            Ok(()) => {},
            Err(error) => return Err(error),
        }
        let params = match params {
            Ok(params) => params,
            Err(error) => return Err(ClientError::Serialize(error)),
        };
        let message = RawMessage::Notification { method: method.to_owned(), params };
        let sent = match requirement {
            DeliveryRequirement::Ordinary => self.outgoing.send(message, size),
            DeliveryRequirement::Required => self.outgoing.send_required(message, size),
        };
        match sent {
            Ok(_) => Ok(()),
            Err(error) => Err(send_failure(error)),
        }
    }

    /// Send a trace message with `$/logTrace`, gated on the connection's current
    /// trace level.
    ///
    /// With the level off — the initial value until the client sends
    /// `$/setTrace` — nothing is enqueued. With any other level the parameters
    /// are sent exactly as provided; sending never changes the level.
    pub fn log_trace(&mut self, params: Result<Vec<u8>, String>, size: Result<usize, String>) -> (
    result: Result<(), ClientError>)
        requires
            old(self).wf(),
        ensures
            final(self).wf(),
            old(self)@.trace == TraceValue::Off ==> final(self)@ == old(self)@ && result is Ok,
            old(self)@.trace != TraceValue::Off ==> {
                &&& final(self)@ == old(self)@.notified(
                    "$/logTrace"@,
                    params_view(params),
                    size_view(size),
                    DeliveryRequirement::Ordinary,
                )
                &&& fails_as(
                    old(self)@.notify_failure(params_view(params), size_view(size)),
                    result,
                )
            },
    {
        if self.trace == TraceValue::Off {
            return Ok(());
        }
        self.notify("$/logTrace", params, size)
    }

    /// Push diagnostics to the client with `textDocument/publishDiagnostics`,
    /// fire-and-forget. They are sent exactly as provided: not cached,
    /// deduplicated, or rewritten.
    pub fn publish_diagnostics(
        &mut self,
        params: Result<Vec<u8>, String>,
        size: Result<usize, String>,
    ) -> (result: Result<(), ClientError>)
        requires
            old(self).wf(),
        ensures
            final(self).wf(),
            final(self)@ == old(self)@.notified(
                "textDocument/publishDiagnostics"@,
                params_view(params),
                size_view(size),
                DeliveryRequirement::Ordinary,
            ),
            fails_as(old(self)@.notify_failure(params_view(params), size_view(size)), result),
    {
        self.notify("textDocument/publishDiagnostics", params, size)
    }

    /// Ask the client to display a message to the user with
    /// `window/showMessage`, fire-and-forget.
    pub fn show_message(
        &mut self,
        params: Result<Vec<u8>, String>,
        size: Result<usize, String>,
    ) -> (result: Result<(), ClientError>)
        requires
            old(self).wf(),
        ensures
            final(self).wf(),
            final(self)@ == old(self)@.notified(
                "window/showMessage"@,
                params_view(params),
                size_view(size),
                DeliveryRequirement::Ordinary,
            ),
            fails_as(old(self)@.notify_failure(params_view(params), size_view(size)), result),
    {
        self.notify("window/showMessage", params, size)
    }

    /// Log a message to the client's log channel with `window/logMessage`,
    /// fire-and-forget.
    pub fn log_message(
        &mut self,
        params: Result<Vec<u8>, String>,
        size: Result<usize, String>,
    ) -> (result: Result<(), ClientError>)
        requires
            old(self).wf(),
        ensures
            final(self).wf(),
            final(self)@ == old(self)@.notified(
                "window/logMessage"@,
                params_view(params),
                size_view(size),
                DeliveryRequirement::Ordinary,
            ),
            fails_as(old(self)@.notify_failure(params_view(params), size_view(size)), result),
    {
        self.notify("window/logMessage", params, size)
    }

    /// Ask the client to log a telemetry event with `telemetry/event`,
    /// fire-and-forget.
    pub fn telemetry_event(
        &mut self,
        params: Result<Vec<u8>, String>,
        size: Result<usize, String>,
    ) -> (result: Result<(), ClientError>)
        requires
            old(self).wf(),
        ensures
            final(self).wf(),
            final(self)@ == old(self)@.notified(
                "telemetry/event"@,
                params_view(params),
                size_view(size),
                DeliveryRequirement::Ordinary,
            ),
            fails_as(old(self)@.notify_failure(params_view(params), size_view(size)), result),
    {
        self.notify("telemetry/event", params, size)
    }

    /// Report progress to the client with `$/progress`, fire-and-forget.
    pub fn progress(
        &mut self,
        params: Result<Vec<u8>, String>,
        size: Result<usize, String>,
    ) -> (result: Result<(), ClientError>)
        requires
            old(self).wf(),
        ensures
            final(self).wf(),
            final(self)@ == old(self)@.notified(
                "$/progress"@,
                params_view(params),
                size_view(size),
                DeliveryRequirement::Ordinary,
            ),
            fails_as(old(self)@.notify_failure(params_view(params), size_view(size)), result),
    {
        self.notify("$/progress", params, size)
    }

    /// Give one request with encoded parameters a never-reused ID, and store who
    /// waits for it.
    ///
    /// The message is handed back to be measured and
    /// [enqueued](Self::enqueue_request).
    pub fn reserve_request(
        &mut self,
        method: &str,
        params: Result<Vec<u8>, String>,
        waiter: T,
    ) -> (result: Result<(PendingGuard, RawMessage), ClientError>)
        requires
            old(self).wf(),
        ensures
            final(self).wf(),
            final(self)@ == old(self)@.reserved(params_view(params), waiter),
            reserved_as(old(self)@, method@, params_view(params), result),
    {
        match self.ensure_open() {
            Ok(()) => {},
            Err(error) => return Err(error),
        }
        let params = match params {
            Ok(params) => params,
            Err(error) => return Err(ClientError::Serialize(error)),
        };
        match self.outbound.insert(waiter) {
            InsertOutcome::Inserted(id) => {
                let message = RawMessage::Request {
                    id: RequestId::Number(id as i32),
                    method: method.to_owned(),
                    params,
                };
                Ok((PendingGuard { id, enqueued: false }, message))
            },
            InsertOutcome::Closed => Err(ClientError::ConnectionClosed),
            InsertOutcome::Exhausted => Err(ClientError::IdExhausted),
        }
    }

    /// Enqueue a request that has its ID.
    ///
    /// On any failure the pending entry is removed and the request never reached
    /// the wire, so no cancellation notification is sent.
    pub fn enqueue_request(
        &mut self,
        guard: PendingGuard,
        message: RawMessage,
        size: Result<usize, String>,
    ) -> (result: Result<PendingGuard, ClientError>)
        requires
            old(self).wf(),
        ensures
            final(self).wf(),
            final(self)@ == old(self)@.enqueued(guard@.id, message@, size_view(size)),
            fails_as(old(self)@.enqueue_failure(size_view(size)), result),
            result matches Ok(next) ==> next@ == (GuardView { id: guard@.id, enqueued: true }),
    {
        proof {
            use_type_invariant(&guard);
        }
        match self.ensure_open() {
            Ok(()) => {},
            Err(error) => {
                self.outbound.remove(guard.id);
                return Err(error);
            },
        }
        match self.outgoing.send(message, size) {
            Ok(_) => Ok(PendingGuard { id: guard.id, enqueued: true }),
            Err(error) => {
                self.outbound.remove(guard.id);
                Err(send_failure(error))
            },
        }
    }

    /// Claim an unanswered request and notify the peer that it was cancelled;
    /// the envelope of the [notification](cancel_message) has a size.
    ///
    /// The registry removal is the completion race: if it succeeds, the caller
    /// owns expiry or abandonment; if it fails, a response or connection close
    /// already owns completion.
    pub fn cancel_if_pending(&mut self, guard: PendingGuard, size: Result<usize, String>) -> (
    claimed: bool)
        requires
            old(self).wf(),
        ensures
            final(self).wf(),
            claimed == old(self)@.registry.pending.dom().contains(guard@.id),
            final(self)@ == old(self)@.given_up(guard@, size_view(size)),
    {
        proof {
            use_type_invariant(&guard);
        }
        if self.outbound.remove(guard.id).is_none() {
            assert(old(self)@.registry.removed(guard@.id) =~= old(self)@.registry);
            return false;
        }
        if guard.enqueued {
            let _ = self.notify_required(
                "$/cancelRequest",
                Ok(encode_cancel(guard.id as i32)),
                size,
            );
        }
        true
    }

    /// The deadline of a request has expired: it failed, unless a response or
    /// the close of the connection owns its completion already.
    pub fn expire(&mut self, guard: PendingGuard, size: Result<usize, String>) -> (failure: Option<
        ClientError,
    >)
        requires
            old(self).wf(),
        ensures
            final(self).wf(),
            final(self)@ == old(self)@.given_up(guard@, size_view(size)),
            match failure {
                Some(error) => old(self)@.registry.pending.dom().contains(guard@.id) && error@
                    == ClientErrorView::Timeout,
                None => !old(self)@.registry.pending.dom().contains(guard@.id),
            },
    {
        if self.cancel_if_pending(guard, size) {
            Some(ClientError::Timeout)
        } else {
            None
        }
    }

    /// Take the decoding of a success result: one that failed is reported and
    /// told to the caller.
    pub fn decoded_response<R>(
        &mut self,
        method: &str,
        id: u32,
        decoded: Result<R, String>,
    ) -> (result: Result<R, ClientError>)
        requires
            old(self).wf(),
            id <= LAST_OUTBOUND_ID,
        ensures
            final(self).wf(),
            match decoded {
                Ok(value) => result == Ok::<R, ClientError>(value) && final(self)@ == old(self)@,
                Err(text) => {
                    &&& result matches Err(error)
                    &&& error@ == ClientErrorView::Deserialize(text@)
                    &&& final(self)@ == (ClientView {
                        queue: reported_queue(
                            old(self)@.queue,
                            ConnectionFailureCategory::Protocol,
                            Some(ConnectionDirection::Inbound),
                            Some(method@),
                            Some(RequestIdView::Number(id as i32)),
                        ),
                        ..old(self)@
                    })
                },
            },
    {
        match decoded {
            Ok(value) => Ok(value),
            Err(text) => {
                let request_id = RequestId::Number(id as i32);
                let failure = self.outgoing.reporter().report(
                    ConnectionFailureCategory::Protocol,
                    Some(ConnectionDirection::Inbound),
                    Some(method),
                    Some(&request_id),
                );
                self.outgoing.keep_report(failure);
                Err(ClientError::Deserialize(text))
            },
        }
    }

    /// Ask the client to display a document with `window/showDocument`. It
    /// behaves exactly as [`reserve_request`](Self::reserve_request).
    pub fn show_document(&mut self, params: Result<Vec<u8>, String>, waiter: T) -> (result: Result<
        (PendingGuard, RawMessage),
        ClientError,
    >)
        requires
            old(self).wf(),
        ensures
            final(self).wf(),
            final(self)@ == old(self)@.reserved(params_view(params), waiter),
            reserved_as(old(self)@, "window/showDocument"@, params_view(params), result),
    {
        self.reserve_request("window/showDocument", params, waiter)
    }

    /// Ask the user to pick one of several actions with
    /// `window/showMessageRequest`. It
    /// behaves exactly as [`reserve_request`](Self::reserve_request).
    pub fn show_message_request(&mut self, params: Result<Vec<u8>, String>, waiter: T) -> (result: Result<
        (PendingGuard, RawMessage),
        ClientError,
    >)
        requires
            old(self).wf(),
        ensures
            final(self).wf(),
            final(self)@ == old(self)@.reserved(params_view(params), waiter),
            reserved_as(old(self)@, "window/showMessageRequest"@, params_view(params), result),
    {
        self.reserve_request("window/showMessageRequest", params, waiter)
    }

    /// Ask the client to apply an edit with `workspace/applyEdit`. It
    /// behaves exactly as [`reserve_request`](Self::reserve_request).
    pub fn apply_edit(&mut self, params: Result<Vec<u8>, String>, waiter: T) -> (result: Result<
        (PendingGuard, RawMessage),
        ClientError,
    >)
        requires
            old(self).wf(),
        ensures
            final(self).wf(),
            final(self)@ == old(self)@.reserved(params_view(params), waiter),
            reserved_as(old(self)@, "workspace/applyEdit"@, params_view(params), result),
    {
        self.reserve_request("workspace/applyEdit", params, waiter)
    }

    /// Ask the client for configuration with `workspace/configuration`. It
    /// behaves exactly as [`reserve_request`](Self::reserve_request).
    pub fn configuration(&mut self, params: Result<Vec<u8>, String>, waiter: T) -> (result: Result<
        (PendingGuard, RawMessage),
        ClientError,
    >)
        requires
            old(self).wf(),
        ensures
            final(self).wf(),
            final(self)@ == old(self)@.reserved(params_view(params), waiter),
            reserved_as(old(self)@, "workspace/configuration"@, params_view(params), result),
    {
        self.reserve_request("workspace/configuration", params, waiter)
    }

    /// Ask the client for its folders with `workspace/workspaceFolders`. It
    /// behaves exactly as [`reserve_request`](Self::reserve_request).
    pub fn workspace_folders(&mut self, params: Result<Vec<u8>, String>, waiter: T) -> (result: Result<
        (PendingGuard, RawMessage),
        ClientError,
    >)
        requires
            old(self).wf(),
        ensures
            final(self).wf(),
            final(self)@ == old(self)@.reserved(params_view(params), waiter),
            reserved_as(old(self)@, "workspace/workspaceFolders"@, params_view(params), result),
    {
        self.reserve_request("workspace/workspaceFolders", params, waiter)
    }

    /// Register capabilities dynamically with `client/registerCapability`. It
    /// behaves exactly as [`reserve_request`](Self::reserve_request).
    pub fn register_capability(&mut self, params: Result<Vec<u8>, String>, waiter: T) -> (result: Result<
        (PendingGuard, RawMessage),
        ClientError,
    >)
        requires
            old(self).wf(),
        ensures
            final(self).wf(),
            final(self)@ == old(self)@.reserved(params_view(params), waiter),
            reserved_as(old(self)@, "client/registerCapability"@, params_view(params), result),
    {
        self.reserve_request("client/registerCapability", params, waiter)
    }

    /// Take dynamic capabilities back with `client/unregisterCapability`. It
    /// behaves exactly as [`reserve_request`](Self::reserve_request).
    pub fn unregister_capability(&mut self, params: Result<Vec<u8>, String>, waiter: T) -> (result: Result<
        (PendingGuard, RawMessage),
        ClientError,
    >)
        requires
            old(self).wf(),
        ensures
            final(self).wf(),
            final(self)@ == old(self)@.reserved(params_view(params), waiter),
            reserved_as(old(self)@, "client/unregisterCapability"@, params_view(params), result),
    {
        self.reserve_request("client/unregisterCapability", params, waiter)
    }

    /// Ask the client to refresh code lenses. It
    /// behaves exactly as [`reserve_request`](Self::reserve_request).
    pub fn code_lens_refresh(&mut self, params: Result<Vec<u8>, String>, waiter: T) -> (result: Result<
        (PendingGuard, RawMessage),
        ClientError,
    >)
        requires
            old(self).wf(),
        ensures
            final(self).wf(),
            final(self)@ == old(self)@.reserved(params_view(params), waiter),
            reserved_as(old(self)@, "workspace/codeLens/refresh"@, params_view(params), result),
    {
        self.reserve_request("workspace/codeLens/refresh", params, waiter)
    }

    /// Ask the client to refresh diagnostics. It
    /// behaves exactly as [`reserve_request`](Self::reserve_request).
    pub fn diagnostic_refresh(&mut self, params: Result<Vec<u8>, String>, waiter: T) -> (result: Result<
        (PendingGuard, RawMessage),
        ClientError,
    >)
        requires
            old(self).wf(),
        ensures
            final(self).wf(),
            final(self)@ == old(self)@.reserved(params_view(params), waiter),
            reserved_as(old(self)@, "workspace/diagnostic/refresh"@, params_view(params), result),
    {
        self.reserve_request("workspace/diagnostic/refresh", params, waiter)
    }

    /// Ask the client to refresh inlay hints. It
    /// behaves exactly as [`reserve_request`](Self::reserve_request).
    pub fn inlay_hint_refresh(&mut self, params: Result<Vec<u8>, String>, waiter: T) -> (result: Result<
        (PendingGuard, RawMessage),
        ClientError,
    >)
        requires
            old(self).wf(),
        ensures
            final(self).wf(),
            final(self)@ == old(self)@.reserved(params_view(params), waiter),
            reserved_as(old(self)@, "workspace/inlayHint/refresh"@, params_view(params), result),
    {
        self.reserve_request("workspace/inlayHint/refresh", params, waiter)
    }

    /// Ask the client to refresh inline values. It
    /// behaves exactly as [`reserve_request`](Self::reserve_request).
    pub fn inline_value_refresh(&mut self, params: Result<Vec<u8>, String>, waiter: T) -> (result: Result<
        (PendingGuard, RawMessage),
        ClientError,
    >)
        requires
            old(self).wf(),
        ensures
            final(self).wf(),
            final(self)@ == old(self)@.reserved(params_view(params), waiter),
            reserved_as(old(self)@, "workspace/inlineValue/refresh"@, params_view(params), result),
    {
        self.reserve_request("workspace/inlineValue/refresh", params, waiter)
    }

    /// Ask the client to refresh semantic tokens. It
    /// behaves exactly as [`reserve_request`](Self::reserve_request).
    pub fn semantic_tokens_refresh(&mut self, params: Result<Vec<u8>, String>, waiter: T) -> (result: Result<
        (PendingGuard, RawMessage),
        ClientError,
    >)
        requires
            old(self).wf(),
        ensures
            final(self).wf(),
            final(self)@ == old(self)@.reserved(params_view(params), waiter),
            reserved_as(old(self)@, "workspace/semanticTokens/refresh"@, params_view(params), result),
    {
        self.reserve_request("workspace/semanticTokens/refresh", params, waiter)
    }

    /// Ask the client to refresh folding ranges. It
    /// behaves exactly as [`reserve_request`](Self::reserve_request).
    pub fn refresh_folding_ranges(&mut self, params: Result<Vec<u8>, String>, waiter: T) -> (result: Result<
        (PendingGuard, RawMessage),
        ClientError,
    >)
        requires
            old(self).wf(),
        ensures
            final(self).wf(),
            final(self)@ == old(self)@.reserved(params_view(params), waiter),
            reserved_as(old(self)@, "workspace/foldingRange/refresh"@, params_view(params), result),
    {
        self.reserve_request("workspace/foldingRange/refresh", params, waiter)
    }

    /// Ask the client to refresh the content of a text document. It
    /// behaves exactly as [`reserve_request`](Self::reserve_request).
    pub fn refresh_text_document_content(&mut self, params: Result<Vec<u8>, String>, waiter: T) -> (result: Result<
        (PendingGuard, RawMessage),
        ClientError,
    >)
        requires
            old(self).wf(),
        ensures
            final(self).wf(),
            final(self)@ == old(self)@.reserved(params_view(params), waiter),
            reserved_as(old(self)@, "workspace/textDocumentContent/refresh"@, params_view(params), result),
    {
        self.reserve_request("workspace/textDocumentContent/refresh", params, waiter)
    }

    /// The connection begins to close: new work is refused.
    pub fn close_connection(&mut self)
        requires
            old(self).wf(),
        ensures
            final(self).wf(),
            final(self)@ == (ClientView {
                phase: if old(self)@.phase == Phase::Open {
                    Phase::ConnectionClosed
                } else {
                    old(self)@.phase
                },
                ..old(self)@
            }),
    {
        if self.phase == Phase::Open {
            self.phase = Phase::ConnectionClosed;
        }
    }

    /// The outbound queue closes once it is drained.
    pub fn close_outbound(&mut self)
        requires
            old(self).wf(),
        ensures
            final(self).wf(),
            final(self)@ == (ClientView {
                phase: Phase::OutboundClosed,
                closing: true,
                ..old(self)@
            }),
    {
        self.phase = Phase::OutboundClosed;
        self.outbound_closing = true;
    }

    /// Whether the outbound queue closes once it is drained.
    pub fn outbound_closing(&self) -> (closing: bool)
        ensures
            closing == self@.closing,
    {
        self.outbound_closing
    }

    /// The writer has finished one message, whether its transport send succeeded
    /// or failed, so the queue depth counts only what is still to be written.
    pub fn record_done(&mut self)
        requires
            old(self).wf(),
            old(self)@.queue.depth() > 0,
        ensures
            final(self).wf(),
            final(self)@ == (ClientView { queue: old(self)@.queue.done(), ..old(self)@ }),
    {
        self.outgoing.record_done();
    }

    /// The writer has failed: nothing that waits will be written.
    pub fn discard_outbound(&mut self)
        requires
            old(self).wf(),
        ensures
            final(self).wf(),
            final(self)@ == (ClientView { queue: old(self)@.queue.discarded(), ..old(self)@ }),
    {
        self.outgoing.discard_all();
    }

    /// Enqueue a message that the connection cannot go on without.
    pub fn send_required(&mut self, message: RawMessage, size: Result<usize, String>)
        requires
            old(self).wf(),
        ensures
            final(self).wf(),
            final(self)@ == (ClientView {
                queue: old(self)@.queue.sent_required(message@, size_view(size)),
                ..old(self)@
            }),
    {
        let _ = self.outgoing.send_required(message, size);
    }

    /// Take the next message to be written.
    pub fn take_next(&mut self) -> (message: Option<RawMessage>)
        requires
            old(self).wf(),
        ensures
            final(self).wf(),
            match message {
                Some(taken) => {
                    &&& old(self)@.queue.waiting.len() > 0
                    &&& taken@ == old(self)@.queue.waiting[0]
                    &&& final(self)@ == (ClientView {
                        queue: QueueView {
                            waiting: old(self)@.queue.waiting.remove(0),
                            ..old(self)@.queue
                        },
                        ..old(self)@
                    })
                },
                None => old(self)@.queue.waiting.len() == 0 && final(self)@ == old(self)@,
            },
    {
        self.outgoing.take_next()
    }

    /// Take the failures that are kept for the error hook.
    pub fn take_reports(&mut self) -> (reports: Vec<ConnectionFailure>)
        requires
            old(self).wf(),
        ensures
            final(self).wf(),
            reports@.map_values(|failure: ConnectionFailure| failure@) == old(self)@.queue.reports,
            final(self)@ == (ClientView {
                queue: QueueView { reports: Seq::empty(), ..old(self)@.queue },
                ..old(self)@
            }),
    {
        self.outgoing.take_reports()
    }

    /// Whether a required message could not be retained.
    pub fn outbound_failed(&self) -> (failed: bool)
        ensures
            failed == self@.queue.failed,
    {
        self.outgoing.has_failed()
    }

    /// Deliver a response to whoever waits for it.
    pub fn complete(&mut self, id: u32, result: Result<Vec<u8>, JsonRpcError>) -> (delivery: Option<
        Delivery<T>,
    >)
        requires
            old(self).wf(),
        ensures
            final(self).wf(),
            final(self)@ == (ClientView {
                registry: old(self)@.registry.removed(id),
                ..old(self)@
            }),
            match delivery {
                Some(found) => {
                    &&& old(self)@.registry.pending.dom().contains(id)
                    &&& found.waiter == old(self)@.registry.pending[id]
                    &&& found.outcome@ == OutcomeView::Response(
                        crate::message::result_view(result),
                    )
                },
                None => !old(self)@.registry.pending.dom().contains(id),
            },
    {
        self.outbound.complete(id, result)
    }

    /// Resolve every pending request as cancelled, and accept no more.
    pub fn close_all(&mut self) -> (deliveries: Vec<Delivery<T>>)
        requires
            old(self).wf(),
        ensures
            final(self).wf(),
            final(self)@ == (ClientView {
                registry: old(self)@.registry.drained(),
                ..old(self)@
            }),
            crate::outbound::cancels_every(old(self)@.registry.pending, deliveries@),
    {
        self.outbound.close_all()
    }

    /// The registry of pending requests.
    pub fn outbound_registry(&self) -> (registry: &OutboundRegistry<T>)
        ensures
            registry@ == self@.registry,
    {
        &self.outbound
    }

    /// The queue of outgoing messages.
    pub fn outgoing(&self) -> (queue: &OutboundQueue<H>)
        requires
            self.wf(),
        ensures
            queue@ == self@.queue,
            queue.wf(),
    {
        &self.outgoing
    }

    /// The connection's work-done progress.
    pub fn progress_registry(&self) -> (progress: &ProgressRegistry)
        ensures
            progress@ == self@.progress,
    {
        &self.progress
    }

    /// Tell progress to stop.
    pub fn cancel_progress(&mut self, token: &crate::message::ProgressToken) -> (outcome:
        crate::progress::ProgressCancel)
        requires
            old(self).wf(),
        ensures
            final(self).wf(),
            outcome == crate::progress::cancel_outcome(old(self)@.progress, token.deep_view()),
            final(self)@ == (ClientView {
                progress: crate::progress::after_cancel(old(self)@.progress, token.deep_view()),
                ..old(self)@
            }),
    {
        self.progress.cancel(token)
    }

    /// Begin work-done progress under a token.
    pub fn register_progress(&mut self, token: crate::message::ProgressToken, cancellable: bool)
        requires
            old(self).wf(),
        ensures
            final(self).wf(),
            final(self)@ == (ClientView {
                progress: old(self)@.progress.insert(
                    token.deep_view(),
                    ProgressState { cancellable, cancelled: false },
                ),
                ..old(self)@
            }),
    {
        self.progress.register(token, cancellable);
    }

    /// Forget all work-done progress.
    pub fn clear_progress(&mut self)
        requires
            old(self).wf(),
        ensures
            final(self).wf(),
            final(self)@ == (ClientView { progress: Map::empty(), ..old(self)@ }),
    {
        self.progress.clear();
    }

    /// Set the trace level that the client asks for.
    pub fn set_trace(&mut self, value: TraceValue)
        requires
            old(self).wf(),
        ensures
            final(self).wf(),
            final(self)@ == (ClientView { trace: value, ..old(self)@ }),
    {
        self.trace = value;
    }

    /// The connection's trace level.
    pub fn shared_trace(&self) -> (value: TraceValue)
        ensures
            value == self@.trace,
    {
        self.trace
    }

    /// How long a request waits for its answer, in nanoseconds.
    pub fn request_timeout(&self) -> (timeout: Option<u128>)
        ensures
            timeout == self@.timeout,
    {
        self.outbound_request_timeout
    }
}

/// The queue after a failure is kept for the error hook.
pub open spec fn reported_queue(
    queue: QueueView,
    category: ConnectionFailureCategory,
    direction: Option<ConnectionDirection>,
    method: Option<Seq<char>>,
    request_id: Option<RequestIdView>,
) -> QueueView {
    match queue.reporter.report(category, direction, method, request_id) {
        Some(failure) => QueueView { reports: queue.reports.push(failure), ..queue },
        None => queue,
    }
}

/// A request was given an ID as expected, or refused.
pub open spec fn reserved_as<T>(
    before: ClientView<T>,
    method: Seq<char>,
    params: Result<Seq<u8>, Seq<char>>,
    result: Result<(PendingGuard, RawMessage), ClientError>,
) -> bool {
    match result {
        Ok(reserved) => {
            &&& before.reserve_failure(params) is None
            &&& reserved.0@ == (GuardView { id: before.registry.next_id, enqueued: false })
            &&& reserved.1@ == (MessageView::Request {
                id: RequestIdView::Number(before.registry.next_id as i32),
                method,
                params: params->Ok_0,
            })
        },
        Err(error) => before.reserve_failure(params) == Some(error@),
    }
}

/// A request that fails before it reaches the wire leaves no pending entry and
/// tells the peer nothing.
pub proof fn law_a_failed_request_leaves_nothing_behind<T>(
    client: ClientView<T>,
    params: Seq<u8>,
    waiter: T,
    message: MessageView,
    size: Result<usize, Seq<char>>,
)
    requires
        client.registry.allocated(),
        client.queue.accounted(),
        client.queue.threshold > 0,
        client.reserve_failure(Ok(params)) is None,
        client.reserved(Ok(params), waiter).enqueue_failure(size) is Some,
    ensures
        ({
            let id = client.registry.next_id;
            let after = client.reserved(Ok(params), waiter).enqueued(id, message, size);
            &&& after.registry.pending == client.registry.pending
            &&& after.queue.waiting == client.queue.waiting
            &&& after.queue.sizes == client.queue.sizes
        }),
{
    let id = client.registry.next_id;
    let reserved = client.reserved(Ok(params), waiter);
    assert(reserved.queue == client.queue);
    assert(reserved.registry.removed(id).pending =~= client.registry.pending);
    crate::outbound::law_a_refused_message_is_not_counted(client.queue, message, size);
}

/// Giving a request up tells the peer at most once: a second attempt finds no
/// entry and does nothing.
pub proof fn law_a_request_is_given_up_at_most_once<T>(
    client: ClientView<T>,
    guard: GuardView,
    size: Result<usize, Seq<char>>,
    again: Result<usize, Seq<char>>,
)
    ensures
        client.given_up(guard, size).given_up(guard, again) == client.given_up(guard, size),
{
}

/// A closed handle accepts nothing, and stays closed whatever is tried.
pub proof fn law_a_closed_handle_stays_closed<T>(
    client: ClientView<T>,
    method: Seq<char>,
    params: Result<Seq<u8>, Seq<char>>,
    size: Result<usize, Seq<char>>,
    requirement: DeliveryRequirement,
    waiter: T,
)
    requires
        client.shut() is Some,
    ensures
        client.notified(method, params, size, requirement) == client.looked(),
        client.reserved(params, waiter) == client.looked(),
        client.notify_failure(params, size) == client.shut(),
        client.reserve_failure(params) == client.shut(),
        client.looked().shut() == client.shut(),
{
}

} // verus!
