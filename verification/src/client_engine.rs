//! The protocol engine of a client: calls to the server, and the server's
//! reverse calls.
//!
//! Like the server's engine it decides and does not wait: whoever drives the
//! connection does what a [`ClientStep`] says and hands the results back.
use vstd::prelude::*;

use serde_json::Value;

use crate::client::{
    fails_as, params_view, reserved_as, ClientHandle, ClientView, PendingGuard, Phase,
};
use crate::client_endpoint::{
    after_trying, call_failure, token_in, transition_failure, work_done_token, ClientCloseCause,
    ClientLifecycle, ClientPhase, ClientTransition, ClientWork,
};
use crate::client_progress::{
    accepts_move, after_create, after_move, progress_move, ClientProgressRegistry, CreateOutcome,
    ProgressDelivery, ProgressEntry, ProgressMove, ProgressPhase,
};
use crate::codec::{decode_value, omit_null, params_member};
use crate::engine::{
    cancellations, encode_service_result, service_outcome, Input, Outcome, ServiceResult,
};
use crate::error::{ClientError, ClientErrorView, Error, LspError, LspErrorView, TransportError};
use crate::json::{json_model, null_body, parsed_json, JsonModel};
use crate::message::{
    answer, error_answer, error_response, result_view, JsonRpcError, JsonRpcErrorView, MessageView,
    ProgressToken, ProgressTokenView, RawMessage, RequestId, RequestIdView,
};
use crate::outbound::{cancels_every, size_view, Delivery, DeliveryRequirement, OutcomeView};
use crate::params::{checked, decode_cancel, parsed_cancel, present};
use crate::session::{
    claims_every, CloseSignal, InboundRegistry, InboundReserveError, InboundView, Permit,
    Reservation, ReservationView, Reserved, SignalView, INBOUND_CAPACITY_EXHAUSTED,
};
use crate::step::{effects_view, no_effects, push_effect, Effect, EffectView, ReservedView};
use crate::table::Table;
use crate::text::same_text;

verus! {

/// `serde_json::from_value::<gen_lsp_types::WorkDoneProgressCreateParams>`, by
/// the token.
pub uninterp spec fn parsed_create(params: JsonModel) -> Result<ProgressTokenView, Seq<char>>;

/// `serde_json::from_value::<gen_lsp_types::ProgressParams>`, by the token and
/// the value.
pub uninterp spec fn parsed_progress(params: JsonModel) -> Result<
    (ProgressTokenView, JsonModel),
    Seq<char>,
>;

/// `serde_json::from_value::<gen_lsp_types::WorkDoneProgressCreateParams>` of a
/// copy of the parameters: the contract names the result.
#[verifier::external_body]
fn parse_create(params: &Value) -> (result: Result<ProgressToken, String>)
    ensures
        match result {
            Ok(token) => parsed_create(json_model(*params)) == Ok::<ProgressTokenView, Seq<char>>(
                token.deep_view(),
            ),
            Err(error) => parsed_create(json_model(*params)) == Err::<ProgressTokenView, Seq<char>>(
                error@,
            ),
        },
{
    match serde_json::from_value::<gen_lsp_types::WorkDoneProgressCreateParams>(params.clone()) {
        Ok(create) => Ok(match create.token {
            gen_lsp_types::ProgressToken::Int(number) => ProgressToken::Int(number),
            gen_lsp_types::ProgressToken::String(text) => ProgressToken::String(text),
        }),
        Err(error) => Err(error.to_string()),
    }
}

/// `serde_json::from_value::<gen_lsp_types::ProgressParams>` of a copy of the
/// parameters: the contract names the result.
#[verifier::external_body]
fn parse_progress(params: &Value) -> (result: Result<(ProgressToken, Value), String>)
    ensures
        match result {
            Ok(parsed) => parsed_progress(json_model(*params)) == Ok::<
                (ProgressTokenView, JsonModel),
                Seq<char>,
            >((parsed.0.deep_view(), json_model(parsed.1))),
            Err(error) => parsed_progress(json_model(*params)) == Err::<
                (ProgressTokenView, JsonModel),
                Seq<char>,
            >(error@),
        },
{
    match serde_json::from_value::<gen_lsp_types::ProgressParams>(params.clone()) {
        Ok(progress) => Ok((match progress.token {
            gen_lsp_types::ProgressToken::Int(number) => ProgressToken::Int(number),
            gen_lsp_types::ProgressToken::String(text) => ProgressToken::String(text),
        }, progress.value)),
        Err(error) => Err(error.to_string()),
    }
}

/// A typed handle for messages sent to the connected LSP server, with what its
/// connection shares. `H` stands for the error hook, `T` for whoever waits for an
/// answer, and `W` for the end of a delivery.
pub struct ServerHandle<H, T, W> {
    inner: ClientHandle<H, T>,
    lifecycle: ClientLifecycle,
    progress: ClientProgressRegistry<W>,
    close: CloseSignal<ClientCloseCause>,
}

/// What a [`ServerHandle`] holds.
#[verifier::ext_equal]
pub struct HandleView<T, W> {
    pub peer: ClientView<T>,
    pub phase: ClientPhase,
    pub progress: Map<ProgressTokenView, ProgressEntry<W>>,
    pub close: SignalView<ClientCloseCause>,
}

/// A request to the server that waits to be enqueued.
pub struct OutgoingRequest {
    /// Stands for the pending request.
    pub guard: PendingGuard,
    /// The request.
    pub message: RawMessage,
    /// The token that progress on it is reported under, for as long as it is
    /// pending.
    pub token: Option<ProgressToken>,
}

impl<T, W> HandleView<T, W> {
    /// Why a notification is not sent.
    pub open spec fn notify_failure(
        self,
        method: Seq<char>,
        params: Result<Seq<u8>, Seq<char>>,
        size: Result<usize, Seq<char>>,
    ) -> Option<ClientErrorView> {
        if call_failure(method, self.phase) is Some {
            call_failure(method, self.phase)
        } else {
            self.peer.notify_failure(params, size)
        }
    }

    /// Why the parameters of a request are refused.
    pub open spec fn params_failure(self, params: Result<Seq<u8>, Seq<char>>) -> Option<
        ClientErrorView,
    > {
        match params {
            Err(error) => Some(ClientErrorView::Serialize(error)),
            Ok(encoded) => match token_in(params_member(encoded)) {
                Err(error) => Some(error),
                Ok(Some(token)) => if self.progress.dom().contains(token) {
                    Some(
                        ClientErrorView::InvalidHelperParams(
                            "duplicate work-done progress token"@,
                        ),
                    )
                } else {
                    None
                },
                Ok(None) => None,
            },
        }
    }

    /// Why a request is not sent.
    pub open spec fn request_failure(
        self,
        method: Seq<char>,
        params: Result<Seq<u8>, Seq<char>>,
    ) -> Option<ClientErrorView> {
        if call_failure(method, self.phase) is Some {
            call_failure(method, self.phase)
        } else if self.params_failure(params) is Some {
            self.params_failure(params)
        } else {
            self.peer.reserve_failure(Ok(params_member(params->Ok_0)))
        }
    }

    /// The handle after a request is given an ID, or refused.
    pub open spec fn requested(
        self,
        method: Seq<char>,
        params: Result<Seq<u8>, Seq<char>>,
        waiter: T,
    ) -> Self {
        if call_failure(method, self.phase) is Some || self.params_failure(params) is Some {
            self
        } else {
            let member = Ok(params_member(params->Ok_0));
            HandleView {
                peer: self.peer.reserved(member, waiter),
                progress: match token_in(params_member(params->Ok_0)) {
                    Ok(Some(token)) => if self.peer.reserve_failure(member) is None {
                        self.progress.insert(
                            token,
                            ProgressEntry { phase: ProgressPhase::Created, tail: None },
                        )
                    } else {
                        self.progress
                    },
                    _ => self.progress,
                },
                ..self
            }
        }
    }

    /// The handle after a cause asks for closure.
    pub open spec fn asked_to_close(self, cause: ClientCloseCause) -> Self {
        HandleView { close: self.close.after(cause), ..self }
    }
}

impl<H, T, W> View for ServerHandle<H, T, W> {
    type V = HandleView<T, W>;

    closed spec fn view(&self) -> HandleView<T, W> {
        HandleView {
            peer: self.inner@,
            phase: self.lifecycle@,
            progress: self.progress@,
            close: self.close@,
        }
    }
}

/// The bytes of `null`, which parameterless methods of the lifecycle send.
fn null_params() -> (bytes: Vec<u8>)
    ensures
        bytes@ == null_body(),
{
    let bytes: Vec<u8> = vec![110u8, 117u8, 108u8, 108u8];
    assert(bytes@ =~= null_body());
    bytes
}

impl<H, T, W> ServerHandle<H, T, W> {
    /// The queue's accounting is exact and within the budgets.
    pub closed spec fn wf(&self) -> bool {
        self.inner.wf()
    }

    /// A handle of a connection that is being initialized.
    pub fn new(inner: ClientHandle<H, T>) -> (server: Self)
        requires
            inner.wf(),
        ensures
            server.wf(),
            server@ == (HandleView::<T, W> {
                peer: inner@,
                phase: ClientPhase::Initializing,
                progress: Map::empty(),
                close: SignalView { requested: false, cause: None },
            }),
    {
        ServerHandle {
            inner,
            lifecycle: ClientLifecycle::new(),
            progress: ClientProgressRegistry::new(),
            close: CloseSignal::new(),
        }
    }

    /// Enqueue one client-to-server notification with encoded parameters, whose
    /// envelope has a size.
    pub fn notify(
        &mut self,
        method: &'static str,
        params: Result<Vec<u8>, String>,
        size: Result<usize, String>,
    ) -> (result: Result<(), ClientError>)
        requires
            old(self).wf(),
        ensures
            final(self).wf(),
            fails_as(
                old(self)@.notify_failure(method@, params_view(params), size_view(size)),
                result,
            ),
            final(self)@ == if call_failure(method@, old(self)@.phase) is Some {
                old(self)@
            } else {
                HandleView {
                    peer: old(self)@.peer.notified(
                        method@,
                        params_view(params),
                        size_view(size),
                        DeliveryRequirement::Ordinary,
                    ),
                    ..old(self)@
                }
            },
    {
        match self.lifecycle.ensure_running(method) {
            Ok(()) => {},
            Err(error) => return Err(error),
        }
        self.inner.notify(method, params, size)
    }

    /// Give one client-to-server request with encoded parameters an ID.
    ///
    /// A top-level `workDoneToken` in the parameters is registered for this
    /// request's lifetime, so matching `$/progress` notifications use the same
    /// ordered, connection-local lifecycle as server-created progress.
    pub fn request(
        &mut self,
        method: &'static str,
        params: Result<Vec<u8>, String>,
        waiter: T,
    ) -> (result: Result<OutgoingRequest, ClientError>)
        requires
            old(self).wf(),
        ensures
            final(self).wf(),
            fails_as(old(self)@.request_failure(method@, params_view(params)), result),
            final(self)@ == old(self)@.requested(method@, params_view(params), waiter),
            result matches Ok(outgoing) ==> {
                let member = params_member(params->Ok_0@);
                &&& token_in(member) == Ok::<Option<ProgressTokenView>, ClientErrorView>(
                    outgoing.token.deep_view(),
                )
                &&& reserved_as(
                    old(self)@.peer,
                    method@,
                    Ok(member),
                    Ok((outgoing.guard, outgoing.message)),
                )
            },
    {
        match self.lifecycle.ensure_running(method) {
            Ok(()) => {},
            Err(error) => return Err(error),
        }
        let params = match params {
            Ok(encoded) => omit_null(encoded),
            Err(error) => return Err(ClientError::Serialize(error)),
        };
        let token = match work_done_token(&params) {
            Ok(token) => token,
            Err(error) => return Err(error),
        };
        if let Some(token) = &token {
            if !self.progress.try_register_request(token.clone()) {
                return Err(
                    ClientError::InvalidHelperParams(
                        "duplicate work-done progress token".to_owned(),
                    ),
                );
            }
        }
        match self.inner.reserve_request(method, Ok(params), waiter) {
            Ok((guard, message)) => Ok(OutgoingRequest { guard, message, token }),
            Err(error) => {
                if let Some(token) = &token {
                    self.progress.remove(token);
                    assert(self@.progress =~= old(self)@.progress);
                }
                Err(error)
            },
        }
    }

    /// A request to the server is over: its token is forgotten.
    pub fn finish_request(&mut self, token: Option<ProgressToken>)
        requires
            old(self).wf(),
        ensures
            final(self).wf(),
            final(self)@ == (HandleView {
                progress: match token {
                    Some(token) => old(self)@.progress.remove(token.deep_view()),
                    None => old(self)@.progress,
                },
                ..old(self)@
            }),
    {
        if let Some(token) = &token {
            self.progress.remove(token);
        }
    }

    /// Request a graceful LSP shutdown from the connected server.
    ///
    /// Only [`exit`](Self::exit) or [`disconnect`](Self::disconnect) remains
    /// valid after its success.
    pub fn begin_shutdown(&mut self, waiter: T) -> (result: Result<
        (PendingGuard, RawMessage),
        ClientError,
    >)
        requires
            old(self).wf(),
        ensures
            final(self).wf(),
            match transition_failure(
                "shutdown"@,
                old(self)@.phase,
                ClientTransition::BeginShutdown,
            ) {
                Some(failure) => {
                    &&& result matches Err(error)
                    &&& error@ == failure
                    &&& final(self)@ == old(self)@
                },
                None => {
                    &&& reserved_as(old(self)@.peer, "shutdown"@, Ok(null_body()), result)
                    &&& final(self)@ == (HandleView {
                        peer: old(self)@.peer.reserved(Ok(null_body()), waiter),
                        phase: if result is Ok {
                            ClientPhase::ShutdownPending
                        } else {
                            ClientPhase::Running
                        },
                        ..old(self)@
                    })
                },
            },
    {
        match self.lifecycle.begin_shutdown() {
            Ok(()) => {},
            Err(error) => return Err(error),
        }
        let reserved = self.inner.reserve_request("shutdown", Ok(null_params()), waiter);
        if reserved.is_err() {
            self.lifecycle.finish_shutdown(false);
        }
        reserved
    }

    /// Send the required LSP `exit` notification after successful shutdown.
    pub fn exit(&mut self, size: Result<usize, String>) -> (result: Result<(), ClientError>)
        requires
            old(self).wf(),
        ensures
            final(self).wf(),
            match transition_failure("exit"@, old(self)@.phase, ClientTransition::Exit) {
                Some(failure) => {
                    &&& result matches Err(error)
                    &&& error@ == failure
                    &&& final(self)@ == old(self)@
                },
                None => {
                    &&& fails_as(
                        old(self)@.peer.notify_failure(Ok(null_body()), size_view(size)),
                        result,
                    )
                    &&& final(self)@ == (HandleView {
                        peer: old(self)@.peer.notified(
                            "exit"@,
                            Ok(null_body()),
                            size_view(size),
                            DeliveryRequirement::Required,
                        ),
                        phase: ClientPhase::Exited,
                        ..old(self)@
                    }).asked_to_close(ClientCloseCause::Exit)
                },
            },
    {
        match self.lifecycle.begin_exit() {
            Ok(()) => {},
            Err(error) => return Err(error),
        }
        let result = self.inner.notify_required("exit", Ok(null_params()), size);
        self.close.request(ClientCloseCause::Exit);
        result
    }

    /// End the local connection without sending shutdown or exit traffic.
    ///
    /// Disconnect is idempotent and resolves pending work through the shared
    /// session close path.
    pub fn disconnect(&mut self)
        requires
            old(self).wf(),
        ensures
            final(self).wf(),
            final(self)@ == if old(self)@.phase.is_terminal() {
                old(self)@
            } else {
                (HandleView {
                    phase: ClientPhase::Disconnected,
                    ..old(self)@
                }).asked_to_close(ClientCloseCause::Disconnect)
            },
    {
        if self.lifecycle.disconnect() {
            self.close.request(ClientCloseCause::Disconnect);
        }
    }

    /// The handle to the peer.
    pub fn peer(&self) -> (peer: &ClientHandle<H, T>)
        requires
            self.wf(),
        ensures
            peer@ == self@.peer,
            peer.wf(),
    {
        &self.inner
    }

    /// The endpoint-neutral handle underneath, for whoever drives the connection.
    pub fn peer_mut(&mut self) -> (peer: &mut ClientHandle<H, T>)
        requires
            old(self).wf(),
        ensures
            peer.wf(),
            peer@ == old(self)@.peer,
            final(peer).wf() ==> final(self).wf(),
            final(self)@ == (HandleView { peer: final(peer)@, ..old(self)@ }),
    {
        &mut self.inner
    }

    /// The phase of the connection.
    pub fn phase(&self) -> (phase: ClientPhase)
        ensures
            phase == self@.phase,
    {
        self.lifecycle.phase()
    }

    /// Enqueue a request that has its ID.
    pub fn enqueue_request(
        &mut self,
        guard: PendingGuard,
        message: RawMessage,
        size: Result<usize, String>,
    ) -> (result: Result<PendingGuard, ClientError>)
        requires
            old(self).wf(),
        ensures
            final(self).wf(),
            final(self)@ == (HandleView {
                peer: old(self)@.peer.enqueued(guard@.id, message@, size_view(size)),
                ..old(self)@
            }),
            fails_as(old(self)@.peer.enqueue_failure(size_view(size)), result),
            result matches Ok(next) ==> next@ == (crate::client::GuardView {
                id: guard@.id,
                enqueued: true,
            }),
    {
        self.inner.enqueue_request(guard, message, size)
    }
}

/// A reverse request, ready for its handler.
pub struct ReverseCall {
    /// The request.
    pub reserved: Reserved,
    /// The called method.
    pub method: String,
    /// The decoded parameters.
    pub params: Value,
    /// The token that the request creates.
    pub progress_token: Option<ProgressToken>,
}

/// What a [`ReverseCall`] holds.
pub struct ReverseView {
    pub reserved: ReservedView,
    pub method: Seq<char>,
    pub params: JsonModel,
    pub progress_token: Option<ProgressTokenView>,
}

impl View for ReverseCall {
    type V = ReverseView;

    open spec fn view(&self) -> ReverseView {
        ReverseView {
            reserved: self.reserved@,
            method: self.method@,
            params: json_model(self.params),
            progress_token: self.progress_token.deep_view(),
        }
    }
}

/// What is to be run once the effects of a message are done.
pub enum ClientFlow<D, W> {
    /// Nothing: take the next message.
    Continue,
    /// The one close operation, whose cause is recorded.
    Stop,
    /// A task for a reverse request; its result goes to
    /// [`finish_reverse`](ClientEngine::finish_reverse).
    Reverse(ReverseCall),
    /// A task for a notification, behind the delivery it has to wait for.
    Notify {
        /// The called method.
        method: String,
        /// The decoded parameters.
        params: Value,
        /// The place of a progress notification in its queue.
        delivery: Option<ProgressDelivery<D, W>>,
    },
}

/// What a [`ClientFlow`] runs.
#[allow(inconsistent_fields)]
pub enum ClientFlowView<D, W> {
    Continue,
    Stop,
    Reverse(ReverseView),
    Notify {
        method: Seq<char>,
        params: JsonModel,
        delivery: Option<ProgressDelivery<D, W>>,
    },
}

impl<D, W> View for ClientFlow<D, W> {
    type V = ClientFlowView<D, W>;

    open spec fn view(&self) -> ClientFlowView<D, W> {
        match *self {
            ClientFlow::Continue => ClientFlowView::Continue,
            ClientFlow::Stop => ClientFlowView::Stop,
            ClientFlow::Reverse(call) => ClientFlowView::Reverse(call@),
            ClientFlow::Notify { method, params, delivery } => ClientFlowView::Notify {
                method: method@,
                params: json_model(params),
                delivery,
            },
        }
    }
}

/// What a message leads to.
pub struct ClientStep<T, D, W> {
    /// What is to be done, in order.
    pub effects: Vec<Effect<T>>,
    /// What is to be run after that.
    pub flow: ClientFlow<D, W>,
}

/// What a [`ClientStep`] leads to.
#[verifier::ext_equal]
pub struct ClientStepView<T, D, W> {
    pub effects: Seq<EffectView<T>>,
    pub flow: ClientFlowView<D, W>,
}

impl<T, D, W> View for ClientStep<T, D, W> {
    type V = ClientStepView<T, D, W>;

    open spec fn view(&self) -> ClientStepView<T, D, W> {
        ClientStepView { effects: effects_view(self.effects@), flow: self.flow@ }
    }
}

/// The two ends of a fresh signal: one says that a delivery is done, and the next
/// delivery waits for the other.
pub struct DeliverySignal<D, W> {
    pub done: D,
    pub tail: W,
}

/// The protocol engine of a client connection.
pub struct ClientEngine<H, T, W> {
    request_handlers: Table<String, H>,
    notification_handlers: Table<String, H>,
    inbound: InboundRegistry,
    server: ServerHandle<H, T, W>,
}

/// What a [`ClientEngine`] holds.
#[verifier::ext_equal]
pub struct ClientEngineView<H, T, W> {
    pub requests: Map<Seq<char>, H>,
    pub notifications: Map<Seq<char>, H>,
    pub inbound: InboundView,
    pub server: HandleView<T, W>,
}

/// An engine and what a message led to.
#[verifier::ext_equal]
pub struct ClientNext<H, T, D, W> {
    pub engine: ClientEngineView<H, T, W>,
    pub step: ClientStepView<T, D, W>,
}

/// What a request is told when no more can be admitted.
pub open spec fn capacity_failure() -> LspErrorView {
    LspErrorView::ServerError {
        code: (-32802) as i32,
        message: INBOUND_CAPACITY_EXHAUSTED@,
        data: None,
    }
}

impl<H, T, W> ClientEngineView<H, T, W> {
    /// Nothing but effects.
    pub open spec fn only<D>(self, effects: Seq<EffectView<T>>) -> ClientNext<H, T, D, W> {
        ClientNext {
            engine: self,
            step: ClientStepView { effects, flow: ClientFlowView::Continue },
        }
    }

    /// Something to run.
    pub open spec fn then_run<D>(self, flow: ClientFlowView<D, W>) -> ClientNext<H, T, D, W> {
        ClientNext { engine: self, step: ClientStepView { effects: Seq::empty(), flow } }
    }

    /// The engine after an admitted request is answered and its place given
    /// back.
    pub open spec fn settled(self, reserved: ReservedView) -> Self {
        ClientEngineView {
            inbound: self.inbound.completed(reserved.reservation).released(reserved.permit),
            ..self
        }
    }

    /// The response of a reservation, if it still owns it.
    pub open spec fn response(
        self,
        reservation: ReservationView,
        outcome: Result<Seq<u8>, LspErrorView>,
    ) -> Seq<EffectView<T>> {
        if self.inbound.owns(reservation) {
            seq![EffectView::Send(answer(reservation.id, outcome))]
        } else {
            Seq::empty()
        }
    }

    /// An admitted request is refused.
    pub open spec fn refused<D>(self, reserved: ReservedView, error: LspErrorView) -> ClientNext<
        H,
        T,
        D,
        W,
    > {
        self.settled(reserved).only(self.response(reserved.reservation, Err(error)))
    }

    /// What a response leads to.
    pub open spec fn on_response<D>(
        self,
        id: RequestIdView,
        result: Result<Seq<u8>, JsonRpcErrorView>,
    ) -> ClientNext<H, T, D, W> {
        match id {
            RequestIdView::Number(number) => if number > 0
                && self.server.peer.registry.pending.dom().contains(number as u32) {
                ClientEngineView {
                    server: HandleView {
                        peer: ClientView {
                            registry: self.server.peer.registry.removed(number as u32),
                            ..self.server.peer
                        },
                        ..self.server
                    },
                    ..self
                }.only(
                    seq![
                        EffectView::Deliver(
                            self.server.peer.registry.pending[number as u32],
                            OutcomeView::Response(result),
                        ),
                    ],
                )
            } else {
                self.only(Seq::empty())
            },
            RequestIdView::String(_) => self.only(Seq::empty()),
        }
    }

    /// What a message leads to while the connection is being initialized.
    pub open spec fn on_early_message<D>(self, message: MessageView) -> ClientNext<H, T, D, W> {
        match message {
            MessageView::Response { id, result } => self.on_response(id, result),
            MessageView::Request { id, method, params } => self.only(
                seq![
                    EffectView::Send(
                        error_answer(
                            id,
                            if method == "initialize"@ {
                                LspErrorView::InvalidRequest("duplicate initialize"@)
                            } else {
                                LspErrorView::ServerNotInitialized
                            },
                        ),
                    ),
                ],
            ),
            MessageView::Notification { method, params } => self.only(Seq::empty()),
            MessageView::ProtocolError { error } => self.only(
                seq![EffectView::Send(MessageView::ProtocolError { error })],
            ),
        }
    }

    /// What a reverse request leads to.
    pub open spec fn on_request<D>(
        self,
        id: RequestIdView,
        method: Seq<char>,
        params: Seq<u8>,
    ) -> ClientNext<H, T, D, W> {
        match self.inbound.refusal(id) {
            Some(InboundReserveError::DuplicateId) => self.only(
                seq![
                    EffectView::Send(
                        error_answer(id, LspErrorView::InvalidRequest("duplicate request id"@)),
                    ),
                ],
            ),
            Some(InboundReserveError::CapacityExhausted) => self.only(
                seq![EffectView::Send(error_answer(id, capacity_failure()))],
            ),
            None => ClientEngineView {
                inbound: self.inbound.reserved(id, true),
                ..self
            }.on_admitted(
                ReservedView {
                    reservation: ReservationView { id, serial: self.inbound.next_serial },
                    permit: self.inbound.next_serial,
                    cancellable: true,
                },
                method,
                params,
            ),
        }
    }

    /// What an admitted reverse request leads to.
    pub open spec fn on_admitted<D>(
        self,
        reserved: ReservedView,
        method: Seq<char>,
        params: Seq<u8>,
    ) -> ClientNext<H, T, D, W> {
        if !self.server.phase.allows(ClientWork::Reverse) {
            self.refused(
                reserved,
                LspErrorView::InvalidRequest("invalid request after shutdown"@),
            )
        } else if method == "initialize"@ {
            self.refused(reserved, LspErrorView::InvalidRequest("duplicate initialize"@))
        } else if !self.requests.dom().contains(method) {
            self.refused(reserved, LspErrorView::MethodNotFound(method))
        } else {
            match checked(parsed_json(present(params))) {
                Err(error) => self.refused(reserved, error),
                Ok(value) => if method == "window/workDoneProgress/create"@ {
                    match parsed_create(value) {
                        Err(error) => self.refused(reserved, LspErrorView::InvalidParams(error)),
                        Ok(token) => if self.server.progress.dom().contains(token) {
                            self.refused(
                                reserved,
                                LspErrorView::InvalidParams("duplicate work-done progress token"@),
                            )
                        } else {
                            ClientEngineView {
                                server: HandleView {
                                    progress: self.server.progress.insert(
                                        token,
                                        ProgressEntry {
                                            phase: ProgressPhase::Creating,
                                            tail: None,
                                        },
                                    ),
                                    ..self.server
                                },
                                ..self
                            }.then_run(
                                ClientFlowView::Reverse(
                                    ReverseView {
                                        reserved,
                                        method,
                                        params: value,
                                        progress_token: Some(token),
                                    },
                                ),
                            )
                        },
                    }
                } else {
                    self.then_run(
                        ClientFlowView::Reverse(
                            ReverseView { reserved, method, params: value, progress_token: None },
                        ),
                    )
                },
            }
        }
    }

    /// What `$/cancelRequest` leads to.
    pub open spec fn on_cancel<D>(self, params: Seq<u8>) -> ClientNext<H, T, D, W> {
        match parsed_cancel(present(params)) {
            Ok(id) => if self.inbound.is_cancellable(id) {
                ClientEngineView { inbound: self.inbound.cancelled(id), ..self }.only(
                    seq![
                        EffectView::Cancel(self.inbound.entries[id].serial),
                        EffectView::Send(error_answer(id, LspErrorView::RequestCancelled)),
                    ],
                )
            } else {
                self.only(Seq::empty())
            },
            Err(_) => self.only(Seq::empty()),
        }
    }

    /// What a notification leads to.
    pub open spec fn on_notification<D>(
        self,
        method: Seq<char>,
        params: Seq<u8>,
        signal: DeliverySignal<D, W>,
    ) -> ClientNext<H, T, D, W> {
        if !self.server.phase.allows(ClientWork::Reverse) {
            self.only(Seq::empty())
        } else {
            match parsed_json(present(params)) {
                Err(_) => self.only(Seq::empty()),
                Ok(value) => if method == "$/progress"@ {
                    match parsed_progress(value) {
                        Err(_) => self.only(Seq::empty()),
                        Ok(progress) => self.on_progress(method, value, progress, signal),
                    }
                } else if !self.notifications.dom().contains(method) {
                    self.only(Seq::empty())
                } else {
                    self.then_run(
                        ClientFlowView::Notify { method, params: value, delivery: None },
                    )
                },
            }
        }
    }

    /// What a progress notification leads to: an accepted step moves the token
    /// on, and is delivered to its handler, if there is one.
    pub open spec fn on_progress<D>(
        self,
        method: Seq<char>,
        params: JsonModel,
        progress: (ProgressTokenView, JsonModel),
        signal: DeliverySignal<D, W>,
    ) -> ClientNext<H, T, D, W> {
        let token = progress.0;
        let step = progress_move(progress.1);
        if !accepts_move(self.server.progress, token, step) {
            self.only(Seq::empty())
        } else {
            let moved = ClientEngineView {
                server: HandleView {
                    progress: after_move(self.server.progress, token, step, signal.tail),
                    ..self.server
                },
                ..self
            };
            if !self.notifications.dom().contains(method) {
                moved.only(Seq::empty())
            } else {
                moved.then_run(
                    ClientFlowView::Notify {
                        method,
                        params,
                        delivery: Some(
                            ProgressDelivery {
                                previous: self.server.progress[token].tail,
                                done: if step == Some(ProgressMove::End) {
                                    None
                                } else {
                                    Some(signal.done)
                                },
                            },
                        ),
                    },
                )
            }
        }
    }

    /// What a message leads to.
    pub open spec fn dispatched<D>(
        self,
        message: MessageView,
        signal: DeliverySignal<D, W>,
    ) -> ClientNext<H, T, D, W> {
        match message {
            MessageView::Response { id, result } => self.on_response(id, result),
            MessageView::Request { id, method, params } => self.on_request(id, method, params),
            MessageView::Notification { method, params } => if method == "$/cancelRequest"@ {
                self.on_cancel(params)
            } else {
                self.on_notification(method, params, signal)
            },
            MessageView::ProtocolError { error } => self.only(
                seq![EffectView::Send(MessageView::ProtocolError { error })],
            ),
        }
    }

    /// The engine after a cause asks for closure.
    pub open spec fn asked_to_close(self, cause: ClientCloseCause) -> Self {
        ClientEngineView { server: self.server.asked_to_close(cause), ..self }
    }

    /// The engine after the one close operation.
    pub open spec fn after_close(self) -> Self {
        ClientEngineView {
            inbound: self.inbound.emptied(),
            server: HandleView {
                peer: ClientView {
                    registry: self.server.peer.registry.drained(),
                    progress: Map::empty(),
                    phase: Phase::OutboundClosed,
                    closing: true,
                    ..self.server.peer
                },
                phase: after_trying(self.server.phase, ClientTransition::Disconnect),
                ..self.server
            },
            ..self
        }
    }
}

impl<H, T, W> View for ClientEngine<H, T, W> {
    type V = ClientEngineView<H, T, W>;

    closed spec fn view(&self) -> ClientEngineView<H, T, W> {
        ClientEngineView {
            requests: self.request_handlers@,
            notifications: self.notification_handlers@,
            inbound: self.inbound@,
            server: self.server@,
        }
    }
}

impl<H, T, W> ClientEngine<H, T, W> {
    /// The registries and the queue are well-formed.
    pub closed spec fn wf(&self) -> bool {
        &&& self.inbound.wf()
        &&& self.server.wf()
    }

    /// An engine for reverse handlers and the handle to the peer.
    pub fn new(
        request_handlers: Table<String, H>,
        notification_handlers: Table<String, H>,
        max_inbound_requests: usize,
        peer: ClientHandle<H, T>,
    ) -> (engine: Self)
        requires
            peer.wf(),
        ensures
            engine.wf(),
            engine@ == (ClientEngineView::<H, T, W> {
                requests: request_handlers@,
                notifications: notification_handlers@,
                inbound: InboundView::fresh(max_inbound_requests),
                server: HandleView {
                    peer: peer@,
                    phase: ClientPhase::Initializing,
                    progress: Map::empty(),
                    close: SignalView { requested: false, cause: None },
                },
            }),
    {
        ClientEngine {
            request_handlers,
            notification_handlers,
            inbound: InboundRegistry::new(max_inbound_requests),
            server: ServerHandle::new(peer),
        }
    }

    /// Give the `initialize` request with encoded parameters an ID.
    pub fn begin_initialize(&mut self, params: Result<Vec<u8>, String>, waiter: T) -> (result:
        Result<(PendingGuard, RawMessage), ClientError>)
        requires
            old(self).wf(),
        ensures
            final(self).wf(),
            reserved_as(old(self)@.server.peer, "initialize"@, params_view(params), result),
            final(self)@ == (ClientEngineView {
                server: HandleView {
                    peer: old(self)@.server.peer.reserved(params_view(params), waiter),
                    ..old(self)@.server
                },
                ..old(self)@
            }),
    {
        self.server.inner.reserve_request("initialize", params, waiter)
    }

    /// Go on with the connection once `initialize` was answered: enqueue the
    /// required `initialized` notification, whose envelope has a size, and run.
    ///
    /// A failure asks for closure; the connection never runs.
    pub fn finish_initialize(&mut self, answer: Result<(), ClientError>, size: Result<
        usize,
        String,
    >) -> (result: Result<(), Error>)
        requires
            old(self).wf(),
            old(self)@.server.phase == ClientPhase::Initializing,
        ensures
            final(self).wf(),
            match answer {
                Err(error) => {
                    &&& result == Err::<(), Error>(Error::Client(error))
                    &&& final(self)@ == old(self)@.asked_to_close(
                        ClientCloseCause::InitializeFailed,
                    )
                },
                Ok(_) => {
                    let peer = old(self)@.server.peer;
                    let params = Ok::<Seq<u8>, Seq<char>>(seq![123u8, 125u8]);
                    let notified = ClientEngineView {
                        server: HandleView {
                            peer: peer.notified(
                                "initialized"@,
                                params,
                                size_view(size),
                                DeliveryRequirement::Required,
                            ),
                            ..old(self)@.server
                        },
                        ..old(self)@
                    };
                    match peer.notify_failure(params, size_view(size)) {
                        Some(failure) => {
                            &&& result matches Err(Error::Client(error))
                            &&& error@ == failure
                            &&& final(self)@ == notified.asked_to_close(
                                ClientCloseCause::InitializeFailed,
                            )
                        },
                        None => {
                            &&& result is Ok
                            &&& final(self)@ == (ClientEngineView {
                                server: HandleView {
                                    phase: ClientPhase::Running,
                                    ..notified.server
                                },
                                ..notified
                            })
                        },
                    }
                },
            },
    {
        if let Err(error) = answer {
            self.server.close.request(ClientCloseCause::InitializeFailed);
            return Err(Error::Client(error));
        }
        let params: Vec<u8> = vec![123u8, 125u8];
        assert(params@ =~= seq![123u8, 125u8]);
        if let Err(error) = self.server.inner.notify_required("initialized", Ok(params), size) {
            self.server.close.request(ClientCloseCause::InitializeFailed);
            return Err(Error::Client(error));
        }
        self.server.lifecycle.mark_running();
        Ok(())
    }

    /// The Transport failed while the connection was initialized: the connection
    /// never runs.
    pub fn fail_initialize(&mut self, error: TransportError) -> (failure: Error)
        requires
            old(self).wf(),
        ensures
            final(self).wf(),
            failure == Error::Transport(error),
            final(self)@ == old(self)@.asked_to_close(ClientCloseCause::InitializeFailed),
    {
        self.server.close.request(ClientCloseCause::InitializeFailed);
        Error::Transport(error)
    }

    /// Deliver a response to whoever waits for it.
    fn complete_response<D>(&mut self, id: RequestId, result: Result<Vec<u8>, JsonRpcError>) -> (
    step: ClientStep<T, D, W>)
        requires
            old(self).wf(),
        ensures
            final(self).wf(),
            (ClientNext { engine: final(self)@, step: step@ }) == old(self)@.on_response::<D>(
                id.deep_view(),
                result_view(result),
            ),
    {
        let mut effects = no_effects();
        let delivery = match &id {
            RequestId::Number(number) => if *number > 0 {
                self.server.inner.complete(*number as u32, result)
            } else {
                None
            },
            RequestId::String(_) => None,
        };
        match delivery {
            Some(delivery) => {
                push_effect(&mut effects, Effect::Deliver(delivery));
                assert(effects_view(effects@) =~= seq![
                    EffectView::<T>::Deliver(delivery.waiter, delivery.outcome@),
                ]);
            },
            None => {
                if let RequestId::Number(number) = &id {
                    assert(*number > 0 ==> self@.server.peer.registry =~= old(
                        self,
                    )@.server.peer.registry);
                }
            },
        }
        ClientStep { effects, flow: ClientFlow::Continue }
    }

    /// Take one message while the connection is being initialized.
    pub fn dispatch_during_initialize<D>(&mut self, message: RawMessage) -> (step: ClientStep<
        T,
        D,
        W,
    >)
        requires
            old(self).wf(),
        ensures
            final(self).wf(),
            (ClientNext { engine: final(self)@, step: step@ }) == old(
                self,
            )@.on_early_message::<D>(message@),
    {
        let mut effects = no_effects();
        match message {
            RawMessage::Response { id, result } => return self.complete_response(id, result),
            RawMessage::Request { id, method, .. } => {
                let error = if same_text(method.as_str(), "initialize") {
                    LspError::InvalidRequest("duplicate initialize".to_owned())
                } else {
                    LspError::ServerNotInitialized
                };
                let answer = error_response(id, &error);
                push_effect(&mut effects, Effect::Send(answer));
                assert(effects_view(effects@) =~= seq![EffectView::<T>::Send(answer@)]);
            },
            RawMessage::Notification { .. } => {},
            RawMessage::ProtocolError { error } => {
                push_effect(&mut effects, Effect::Send(RawMessage::ProtocolError { error }));
                assert(effects_view(effects@) =~= seq![
                    EffectView::<T>::Send(MessageView::ProtocolError { error: error@ }),
                ]);
            },
        }
        ClientStep { effects, flow: ClientFlow::Continue }
    }

    /// Take one message. `signal` is for the delivery of a progress notification,
    /// should the message be one.
    pub fn dispatch<D>(&mut self, message: RawMessage, signal: DeliverySignal<D, W>) -> (step:
        ClientStep<T, D, W>)
        requires
            old(self).wf(),
        ensures
            final(self).wf(),
            (ClientNext { engine: final(self)@, step: step@ }) == old(self)@.dispatched(
                message@,
                signal,
            ),
    {
        match message {
            RawMessage::Response { id, result } => self.complete_response(id, result),
            RawMessage::Request { id, method, params } => self.dispatch_request(
                id,
                method,
                params,
            ),
            RawMessage::Notification { method, params } => {
                if same_text(method.as_str(), "$/cancelRequest") {
                    self.cancel_request(&params)
                } else {
                    self.dispatch_notification(method, params, signal)
                }
            },
            RawMessage::ProtocolError { error } => {
                let mut effects = no_effects();
                push_effect(&mut effects, Effect::Send(RawMessage::ProtocolError { error }));
                assert(effects_view(effects@) =~= seq![
                    EffectView::<T>::Send(MessageView::ProtocolError { error: error@ }),
                ]);
                ClientStep { effects, flow: ClientFlow::Continue }
            },
        }
    }

    /// Refuse an admitted reverse request.
    fn refuse<D>(&mut self, reserved: Reserved, error: LspError) -> (step: ClientStep<T, D, W>)
        requires
            old(self).wf(),
        ensures
            final(self).wf(),
            (ClientNext { engine: final(self)@, step: step@ }) == old(self)@.refused::<D>(
                reserved@,
                error@,
            ),
    {
        let mut effects = no_effects();
        let answered = self.inbound.complete(reserved.reservation, Err(error));
        self.inbound.release(reserved.permit);
        if let Some(message) = answered {
            push_effect(&mut effects, Effect::Send(message));
            assert(effects_view(effects@) =~= seq![EffectView::<T>::Send(message@)]);
        }
        ClientStep { effects, flow: ClientFlow::Continue }
    }

    /// Take one reverse request: admit it, hold it against the lifecycle, find
    /// its handler, decode it, and reserve the progress token it creates.
    pub fn dispatch_request<D>(&mut self, id: RequestId, method: String, params: Vec<u8>) -> (step:
        ClientStep<T, D, W>)
        requires
            old(self).wf(),
        ensures
            final(self).wf(),
            (ClientNext { engine: final(self)@, step: step@ }) == old(self)@.on_request::<D>(
                id.deep_view(),
                method@,
                params@,
            ),
    {
        let mut effects = no_effects();
        let reserved = match self.inbound.reserve(id.clone(), true) {
            Ok(reserved) => reserved,
            Err(InboundReserveError::DuplicateId) => {
                let answer = error_response(
                    id,
                    &LspError::InvalidRequest("duplicate request id".to_owned()),
                );
                push_effect(&mut effects, Effect::Send(answer));
                assert(effects_view(effects@) =~= seq![EffectView::<T>::Send(answer@)]);
                return ClientStep { effects, flow: ClientFlow::Continue };
            },
            Err(InboundReserveError::CapacityExhausted) => {
                let answer = error_response(
                    id,
                    &LspError::ServerError {
                        code: -32802,
                        message: INBOUND_CAPACITY_EXHAUSTED.to_owned(),
                        data: None,
                    },
                );
                push_effect(&mut effects, Effect::Send(answer));
                assert(effects_view(effects@) =~= seq![EffectView::<T>::Send(answer@)]);
                return ClientStep { effects, flow: ClientFlow::Continue };
            },
        };
        if self.server.lifecycle.rejects_reverse_work() {
            return self.refuse(
                reserved,
                LspError::InvalidRequest("invalid request after shutdown".to_owned()),
            );
        }
        if same_text(method.as_str(), "initialize") {
            return self.refuse(
                reserved,
                LspError::InvalidRequest("duplicate initialize".to_owned()),
            );
        }
        if !self.request_handlers.contains_key(&method) {
            return self.refuse(reserved, LspError::MethodNotFound(method));
        }
        let params = match decode_value(&params) {
            Ok(params) => params,
            Err(error) => return self.refuse(reserved, error),
        };
        let progress_token = if same_text(method.as_str(), "window/workDoneProgress/create") {
            let token = match parse_create(&params) {
                Ok(token) => token,
                Err(error) => return self.refuse(reserved, LspError::InvalidParams(error)),
            };
            if !self.server.progress.try_reserve_create(token.clone()) {
                return self.refuse(
                    reserved,
                    LspError::InvalidParams("duplicate work-done progress token".to_owned()),
                );
            }
            Some(token)
        } else {
            None
        };
        ClientStep {
            effects,
            flow: ClientFlow::Reverse(ReverseCall { reserved, method, params, progress_token }),
        }
    }

    /// Take `$/cancelRequest`.
    fn cancel_request<D>(&mut self, params: &Vec<u8>) -> (step: ClientStep<T, D, W>)
        requires
            old(self).wf(),
        ensures
            final(self).wf(),
            (ClientNext { engine: final(self)@, step: step@ }) == old(self)@.on_cancel::<D>(
                params@,
            ),
    {
        let mut effects = no_effects();
        if let Ok(id) = decode_cancel(params) {
            if let Some(reservation) = self.inbound.claim_cancellation(&id) {
                push_effect(&mut effects, Effect::Cancel(reservation.serial()));
                push_effect(
                    &mut effects,
                    Effect::Send(error_response(id, &LspError::RequestCancelled)),
                );
                assert(effects_view(effects@) =~= seq![
                    EffectView::<T>::Cancel(reservation@.serial),
                    EffectView::<T>::Send(
                        error_answer(id.deep_view(), LspErrorView::RequestCancelled),
                    ),
                ]);
            }
        }
        ClientStep { effects, flow: ClientFlow::Continue }
    }

    /// Take one notification from the server.
    pub fn dispatch_notification<D>(
        &mut self,
        method: String,
        params: Vec<u8>,
        signal: DeliverySignal<D, W>,
    ) -> (step: ClientStep<T, D, W>)
        requires
            old(self).wf(),
        ensures
            final(self).wf(),
            (ClientNext { engine: final(self)@, step: step@ }) == old(self)@.on_notification(
                method@,
                params@,
                signal,
            ),
    {
        let effects = no_effects();
        if self.server.lifecycle.rejects_reverse_work() {
            return ClientStep { effects, flow: ClientFlow::Continue };
        }
        let params = match decode_value(&params) {
            Ok(params) => params,
            Err(_) => return ClientStep { effects, flow: ClientFlow::Continue },
        };
        let delivery = if same_text(method.as_str(), "$/progress") {
            let (token, value) = match parse_progress(&params) {
                Ok(progress) => progress,
                Err(_) => return ClientStep { effects, flow: ClientFlow::Continue },
            };
            match self.server.progress.accept(&token, &value, signal.done, signal.tail) {
                Some(delivery) => Some(delivery),
                None => return ClientStep { effects, flow: ClientFlow::Continue },
            }
        } else {
            None
        };
        if !self.notification_handlers.contains_key(&method) {
            return ClientStep { effects, flow: ClientFlow::Continue };
        }
        ClientStep { effects, flow: ClientFlow::Notify { method, params, delivery } }
    }

    /// Go on with a reverse request once its task has a result: the response to
    /// send, unless another path has claimed it, and the fate of the token it
    /// creates.
    ///
    /// A token is established only where the request completes successfully and
    /// its response is the one that is sent.
    pub fn finish_reverse(
        &mut self,
        reservation: Reservation,
        progress_token: Option<ProgressToken>,
        result: ServiceResult,
    ) -> (effects: Vec<Effect<T>>)
        requires
            old(self).wf(),
        ensures
            final(self).wf(),
            ({
                let outcome = service_outcome(
                    result@,
                    "reverse request returned no response"@,
                );
                &&& effects_view(effects@) == old(self)@.response(reservation@, outcome)
                &&& final(self)@ == (ClientEngineView {
                    inbound: old(self)@.inbound.completed(reservation@),
                    server: HandleView {
                        progress: match progress_token {
                            Some(token) => after_create(
                                old(self)@.server.progress,
                                token.deep_view(),
                                if outcome is Ok && old(self)@.inbound.owns(reservation@) {
                                    CreateOutcome::Succeeded
                                } else {
                                    CreateOutcome::Failed
                                },
                            ),
                            None => old(self)@.server.progress,
                        },
                        ..old(self)@.server
                    },
                    ..old(self)@
                })
            }),
    {
        let mut effects = no_effects();
        let outcome = encode_service_result(result, "reverse request returned no response");
        let succeeded = outcome.is_ok();
        let answered = self.inbound.complete(reservation, outcome);
        if let Some(token) = &progress_token {
            let created = if succeeded && answered.is_some() {
                CreateOutcome::Succeeded
            } else {
                CreateOutcome::Failed
            };
            self.server.progress.finish_create(token, created);
        }
        if let Some(message) = answered {
            push_effect(&mut effects, Effect::Send(message));
            assert(effects_view(effects@) =~= seq![EffectView::<T>::Send(message@)]);
        }
        effects
    }

    /// Give the place of an admitted request back once its task is reaped.
    pub fn release(&mut self, permit: Permit)
        requires
            old(self).wf(),
        ensures
            final(self).wf(),
            final(self)@ == (ClientEngineView {
                inbound: old(self)@.inbound.released(permit@),
                ..old(self)@
            }),
    {
        self.inbound.release(permit);
    }

    /// Go on with the shutdown once it was answered. A success cancels every
    /// other pending request and reverse request.
    pub fn finish_shutdown(&mut self, succeeded: bool) -> (effects: Vec<Effect<T>>)
        requires
            old(self).wf(),
        ensures
            final(self).wf(),
            ({
                let phase = after_trying(
                    old(self)@.server.phase,
                    if succeeded {
                        ClientTransition::ShutdownSucceeded
                    } else {
                        ClientTransition::ShutdownFailed
                    },
                );
                if succeeded && old(self)@.server.phase == ClientPhase::ShutdownPending {
                    &&& final(self)@ == (ClientEngineView {
                        inbound: old(self)@.inbound.emptied(),
                        server: HandleView {
                            phase,
                            peer: ClientView {
                                registry: old(self)@.server.peer.registry.drained(),
                                ..old(self)@.server.peer
                            },
                            ..old(self)@.server
                        },
                        ..old(self)@
                    })
                    &&& cancels_work(old(self)@, effects_view(effects@))
                } else {
                    &&& final(self)@ == (ClientEngineView {
                        server: HandleView { phase, ..old(self)@.server },
                        ..old(self)@
                    })
                    &&& effects_view(effects@) == Seq::<EffectView<T>>::empty()
                }
            }),
    {
        if !self.server.lifecycle.finish_shutdown(succeeded) {
            return no_effects();
        }
        self.cancel_work()
    }

    /// Cancel every reverse request in flight, answering each, and resolve every
    /// pending request as cancelled.
    fn cancel_work(&mut self) -> (effects: Vec<Effect<T>>)
        requires
            old(self).wf(),
        ensures
            final(self).wf(),
            final(self)@ == (ClientEngineView {
                inbound: old(self)@.inbound.emptied(),
                server: HandleView {
                    peer: ClientView {
                        registry: old(self)@.server.peer.registry.drained(),
                        ..old(self)@.server.peer
                    },
                    ..old(self)@.server
                },
                ..old(self)@
            }),
            cancels_work(old(self)@, effects_view(effects@)),
    {
        let mut effects = no_effects();
        let claimed = self.inbound.claim_all();
        let ghost all = claimed@;
        let ghost views = claimed@.map_values(|reservation: Reservation| reservation@);
        assert(views.take(0) =~= Seq::<ReservationView>::empty());
        for reservation in it: claimed
            invariant
                it.seq() == all,
                views == all.map_values(|reservation: Reservation| reservation@),
                effects_view(effects@) == cancellations::<T>(views.take(it.index() as int)),
        {
            let ghost i = it.index() as int;
            let ghost now = effects_view(effects@);
            assert(views[i] == reservation@);
            push_effect(&mut effects, Effect::Cancel(reservation.serial()));
            push_effect(
                &mut effects,
                Effect::Send(
                    error_response(reservation.id().clone(), &LspError::RequestCancelled),
                ),
            );
            assert(views.take(i + 1).drop_last() =~= views.take(i));
            assert(effects_view(effects@) =~= now + seq![
                EffectView::<T>::Cancel(reservation@.serial),
                EffectView::<T>::Send(
                    error_answer(reservation@.id, LspErrorView::RequestCancelled),
                ),
            ]);
        }
        assert(views.take(views.len() as int) =~= views);
        let ghost answered = effects_view(effects@);
        let deliveries = self.server.inner.close_all();
        let ghost resolved = deliveries@;
        let ghost told = deliveries@.map_values(
            |delivery: Delivery<T>| EffectView::Deliver(delivery.waiter, delivery.outcome@),
        );
        assert(effects_view(effects@) =~= answered + told.take(0));
        for delivery in it: deliveries
            invariant
                it.seq() == resolved,
                told == resolved.map_values(
                    |delivery: Delivery<T>| EffectView::Deliver(
                        delivery.waiter,
                        delivery.outcome@,
                    ),
                ),
                effects_view(effects@) =~= answered + told.take(it.index() as int),
        {
            push_effect(&mut effects, Effect::Deliver(delivery));
        }
        proof {
            assert(told.take(told.len() as int) =~= told);
            assert(claims_every(old(self)@.inbound, views));
            assert(cancels_every(old(self)@.server.peer.registry.pending, resolved));
        }
        effects
    }

    /// Take what the reader or the session has. After a
    /// [stop](ClientFlow::Stop) the connection is to be [closed](Self::close).
    pub fn receive<D>(&mut self, input: Input, signal: DeliverySignal<D, W>) -> (step: ClientStep<
        T,
        D,
        W,
    >)
        requires
            old(self).wf(),
        ensures
            final(self).wf(),
            (ClientNext { engine: final(self)@, step: step@ }) == match input {
                Input::CloseRequested => old(self)@.then_run(ClientFlowView::Stop),
                Input::OutboundFailed => old(self)@.asked_to_close(
                    ClientCloseCause::WriterFailed,
                ).then_run(ClientFlowView::Stop),
                Input::Message(message) => old(self)@.dispatched(message@, signal),
                Input::ReadFailed(TransportError::Closed) => old(self)@.asked_to_close(
                    ClientCloseCause::ReaderEof,
                ).then_run(ClientFlowView::Stop),
                Input::ReadFailed(error) => old(self)@.asked_to_close(
                    ClientCloseCause::ReaderFailed(error),
                ).then_run(ClientFlowView::Stop),
            },
    {
        match input {
            Input::CloseRequested => {},
            Input::OutboundFailed => {
                self.server.close.request(ClientCloseCause::WriterFailed);
            },
            Input::Message(message) => return self.dispatch(message, signal),
            Input::ReadFailed(TransportError::Closed) => {
                self.server.close.request(ClientCloseCause::ReaderEof);
            },
            Input::ReadFailed(error) => {
                self.server.close.request(ClientCloseCause::ReaderFailed(error));
            },
        }
        ClientStep { effects: no_effects(), flow: ClientFlow::Stop }
    }

    /// Ask for closure; the first cause asked for is recorded.
    pub fn request_close(&mut self, cause: ClientCloseCause)
        requires
            old(self).wf(),
        ensures
            final(self).wf(),
            final(self)@ == old(self)@.asked_to_close(cause),
    {
        self.server.close.request(cause);
    }

    /// The one close operation of a client connection: it is disconnected, the
    /// token of every reverse request in flight is fired, every pending request is
    /// resolved as cancelled, and the outbound queue is closed to new messages.
    pub fn close(&mut self) -> (effects: Vec<Effect<T>>)
        requires
            old(self).wf(),
        ensures
            final(self).wf(),
            final(self)@ == old(self)@.after_close(),
            abandons_work(old(self)@, effects_view(effects@)),
    {
        let mut effects = no_effects();
        self.server.lifecycle.disconnect();
        self.server.inner.close_connection();
        let claimed = self.inbound.claim_all();
        let ghost reservations = claimed@;
        let ghost views = claimed@.map_values(|reservation: Reservation| reservation@);
        let ghost fired = views.map_values(
            |reservation: ReservationView| EffectView::<T>::Cancel(reservation.serial),
        );
        for reservation in it: claimed
            invariant
                it.seq() == reservations,
                views == reservations.map_values(|reservation: Reservation| reservation@),
                fired == views.map_values(
                    |reservation: ReservationView| EffectView::<T>::Cancel(reservation.serial),
                ),
                effects_view(effects@) =~= fired.take(it.index() as int),
        {
            push_effect(&mut effects, Effect::Cancel(reservation.serial()));
        }
        let deliveries = self.server.inner.close_all();
        let ghost resolved = deliveries@;
        let ghost told = deliveries@.map_values(
            |delivery: Delivery<T>| EffectView::Deliver(delivery.waiter, delivery.outcome@),
        );
        assert(effects_view(effects@) =~= fired + told.take(0));
        for delivery in it: deliveries
            invariant
                it.seq() == resolved,
                told == resolved.map_values(
                    |delivery: Delivery<T>| EffectView::Deliver(
                        delivery.waiter,
                        delivery.outcome@,
                    ),
                ),
                effects_view(effects@) =~= fired + told.take(it.index() as int),
        {
            push_effect(&mut effects, Effect::Deliver(delivery));
        }
        self.server.inner.clear_progress();
        self.server.inner.close_outbound();
        proof {
            assert(told.take(told.len() as int) =~= told);
            assert(effects_view(effects@) =~= fired + told);
            assert(claims_every(old(self)@.inbound, views));
            assert(cancels_every(old(self)@.server.peer.registry.pending, resolved));
            assert(self@ =~= old(self)@.after_close());
        }
        effects
    }

    /// How the connection ended.
    pub fn finish(&mut self) -> (result: Result<Outcome, Error>)
        requires
            old(self).wf(),
            old(self)@.server.close.cause is Some,
            old(self)@.server.close.cause != Some(ClientCloseCause::InitializeFailed),
        ensures
            result == if old(self)@.server.peer.queue.failed {
                Ok::<Outcome, Error>(Outcome::WriterFailed)
            } else {
                old(self)@.server.close.cause->0.result()
            },
    {
        let failed = self.server.inner.outbound_failed();
        match self.server.close.take_cause() {
            Some(cause) => if failed {
                Ok(Outcome::WriterFailed)
            } else {
                cause.into_result()
            },
            None => Ok(Outcome::WriterFailed),
        }
    }

    /// The handler of a reverse request.
    pub fn request_handler(&self, method: &String) -> (handler: Option<&H>)
        ensures
            crate::builder::looked_up(self@.requests, method@, handler),
    {
        self.request_handlers.get(method)
    }

    /// The handler of a notification.
    pub fn notification_handler(&self, method: &String) -> (handler: Option<&H>)
        ensures
            crate::builder::looked_up(self@.notifications, method@, handler),
    {
        self.notification_handlers.get(method)
    }

    /// The handle to the server.
    pub fn server(&self) -> (server: &ServerHandle<H, T, W>)
        requires
            self.wf(),
        ensures
            server@ == self@.server,
            server.wf(),
    {
        &self.server
    }

    /// The handle to the server, to be called.
    pub fn server_mut(&mut self) -> (server: &mut ServerHandle<H, T, W>)
        requires
            old(self).wf(),
        ensures
            server@ == old(self)@.server,
            server.wf(),
            final(self)@ == (ClientEngineView { server: final(server)@, ..old(self)@ }),
            final(server).wf() ==> final(self).wf(),
    {
        &mut self.server
    }
}

/// The effects of cancelling all work: every reverse request in flight is
/// cancelled and answered, each once, and every pending request is resolved as
/// cancelled.
pub open spec fn cancels_work<H, T, W>(
    before: ClientEngineView<H, T, W>,
    effects: Seq<EffectView<T>>,
) -> bool {
    exists|claimed: Seq<ReservationView>, deliveries: Seq<Delivery<T>>|
        {
            &&& #[trigger] claims_every(before.inbound, claimed)
            &&& #[trigger] cancels_every(before.server.peer.registry.pending, deliveries)
            &&& effects == cancellations::<T>(claimed) + deliveries.map_values(
                |delivery: Delivery<T>| EffectView::Deliver(delivery.waiter, delivery.outcome@),
            )
        }
}

/// The effects of the one close operation: the token of every reverse request in
/// flight is fired, and every pending request is resolved as cancelled.
pub open spec fn abandons_work<H, T, W>(
    before: ClientEngineView<H, T, W>,
    effects: Seq<EffectView<T>>,
) -> bool {
    exists|claimed: Seq<ReservationView>, deliveries: Seq<Delivery<T>>|
        {
            &&& #[trigger] claims_every(before.inbound, claimed)
            &&& #[trigger] cancels_every(before.server.peer.registry.pending, deliveries)
            &&& effects == claimed.map_values(
                |reservation: ReservationView| EffectView::<T>::Cancel(reservation.serial),
            ) + deliveries.map_values(
                |delivery: Delivery<T>| EffectView::Deliver(delivery.waiter, delivery.outcome@),
            )
        }
}

/// No reverse request is lost: every one is either answered at once with an
/// error, under its own ID, or its reservation goes on to a handler and still
/// owns the response.
pub proof fn law_no_reverse_request_is_lost<H, T, D, W>(
    engine: ClientEngineView<H, T, W>,
    id: RequestIdView,
    method: Seq<char>,
    params: Seq<u8>,
)
    ensures
        ({
            let next = engine.on_request::<D>(id, method, params);
            match next.step.flow {
                ClientFlowView::Reverse(call) => {
                    &&& call.reserved.reservation.id == id
                    &&& next.engine.inbound.owns(call.reserved.reservation)
                    &&& next.step.effects.len() == 0
                    &&& engine.requests.dom().contains(method)
                    &&& engine.server.phase.allows(ClientWork::Reverse)
                },
                _ => {
                    &&& next.step.effects.len() == 1
                    &&& next.step.effects[0] matches EffectView::Send(
                        MessageView::Response { id: answered, result },
                    )
                    &&& answered == id
                    &&& result is Err
                },
            }
        }),
{
    let reservation = ReservationView { id, serial: engine.inbound.next_serial };
    if engine.inbound.refusal(id) is None {
        assert(engine.inbound.reserved(id, true).owns(reservation));
    }
}

/// Once reverse work is not permitted, nothing of the server's reaches a
/// handler.
pub proof fn law_no_reverse_work_after_shutdown<H, T, D, W>(
    engine: ClientEngineView<H, T, W>,
    message: MessageView,
    signal: DeliverySignal<D, W>,
)
    requires
        !engine.server.phase.allows(ClientWork::Reverse),
    ensures
        ({
            let next = engine.dispatched(message, signal);
            &&& next.step.flow == ClientFlowView::<D, W>::Continue
            &&& next.engine.server.progress == engine.server.progress
        }),
{
}

/// No message of the server moves the client's lifecycle.
pub proof fn law_messages_keep_the_client_phase<H, T, D, W>(
    engine: ClientEngineView<H, T, W>,
    message: MessageView,
    signal: DeliverySignal<D, W>,
)
    ensures
        engine.dispatched(message, signal).engine.server.phase == engine.server.phase,
        engine.on_early_message::<D>(message).engine.server.phase == engine.server.phase,
{
}

/// While the connection is being initialized, every request of the server is
/// refused and no notification reaches a handler.
pub proof fn law_nothing_is_served_during_initialize<H, T, D, W>(
    engine: ClientEngineView<H, T, W>,
    message: MessageView,
)
    ensures
        ({
            let next = engine.on_early_message::<D>(message);
            &&& next.step.flow == ClientFlowView::<D, W>::Continue
            &&& next.engine.inbound == engine.inbound
            &&& message is Request ==> next.step.effects.len() == 1
            &&& message is Notification ==> next.step.effects.len() == 0
        }),
{
}

/// A call to the server goes out in the running phase only, and never under a
/// method of the lifecycle.
pub proof fn law_calls_go_out_only_while_running<T, W>(
    server: HandleView<T, W>,
    method: Seq<char>,
    params: Result<Seq<u8>, Seq<char>>,
    size: Result<usize, Seq<char>>,
    waiter: T,
)
    requires
        server.phase != ClientPhase::Running || crate::builder::is_reserved_method(method),
    ensures
        server.notify_failure(method, params, size) == Some(
            crate::client_endpoint::invalid_in(method, server.phase),
        ),
        server.request_failure(method, params) == Some(
            crate::client_endpoint::invalid_in(method, server.phase),
        ),
        server.requested(method, params, waiter) == server,
{
}

/// The token of an outgoing request is registered for as long as the request is
/// pending: two requests cannot share one, and a refused request registers none.
pub proof fn law_a_request_owns_its_token<T, W>(
    server: HandleView<T, W>,
    method: Seq<char>,
    params: Seq<u8>,
    token: ProgressTokenView,
    waiter: T,
)
    requires
        token_in(params_member(params)) == Ok::<Option<ProgressTokenView>, ClientErrorView>(
            Some(token),
        ),
    ensures
        server.request_failure(method, Ok(params)) is None ==> {
            let after = server.requested(method, Ok(params), waiter);
            &&& after.progress.dom().contains(token)
            &&& after.progress[token].phase == ProgressPhase::Created
            &&& after.request_failure(method, Ok(params)) is Some
            &&& after.progress.remove(token) == server.progress
        },
        server.request_failure(method, Ok(params)) is Some ==> server.requested(
            method,
            Ok(params),
            waiter,
        ).progress == server.progress,
{
    if server.request_failure(method, Ok(params)) is None {
        let after = server.requested(method, Ok(params), waiter);
        assert(after.progress.remove(token) =~= server.progress);
    }
}

} // verus!
