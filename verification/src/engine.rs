//! The connection-owned protocol engine of a server.
//!
//! `initialize` is the one bounded transaction that can conditionally extend the
//! Router, freeze it, generate capabilities, negotiate the position encoding,
//! and run the `on_initialize` lifecycle hook — all without exposing partial
//! state. The later lifecycle notifications carry the remaining hooks: the
//! client's `initialized` runs `on_initialized` once, in the running state only,
//! a successful `on_shutdown` gates the transition into shutting down, and the
//! peer's `exit` runs `on_exit`, which cannot change the exit code the lifecycle
//! implies. Inbound requests reserve their IDs before user work is spawned; the
//! completion gate then arbitrates success, errors, and cancellation.
//!
//! Every way a connection can end requests the same idempotent close. The first
//! requester records the [`CloseCause`]; the engine then performs the cleanup
//! exactly once and reports the recorded cause as an [`Outcome`] or a transport
//! [`Error`].
//!
//! The engine decides and does not wait: each message it takes leads to a
//! [`Step`], which says what is to be sent, delivered and reported, and what is
//! to be run next. Whoever drives the connection does so and hands the result
//! back.
use vstd::prelude::*;

use serde_json::Value;

use crate::builder::{
    InitializeRegistrar, ProtocolNotification, Router, RouterView, Server, TransactionView,
};
use crate::client::{ClientHandle, ClientView, Phase};
use crate::codec::{
    body_of, decode_initialized_params, decode_value, encode_body, field_token, request_token,
    says_nothing,
};
use crate::documents::{
    kind_of, negotiated, ContentChangeView, DocumentMutationError, DocumentMutationErrorView,
    Documents, PositionEncodingKind, StoreView, TextDocumentContentChangeEvent,
};
use crate::error::{Error, LspError, LspErrorView, TransportError};
use crate::failure::{ConnectionDirection, ConnectionFailureCategory};
use crate::json::{json_model, json_null, null_body, parsed_json, JsonModel};
use crate::message::{
    answer, error_answer, error_response, outcome_view, result_view, JsonRpcError,
    JsonRpcErrorView, MessageView, RawMessage, RequestId, RequestIdView,
};
use crate::options::{
    PositionEncodingKindView, Save, ServerCapabilities, ServerCapabilitiesView,
    TextDocumentSyncKind, TextDocumentSyncOptions, WorkspaceFoldersServerCapabilities,
    WorkspaceOptions, WorkspaceOptionsView,
};
use crate::outbound::{cancels_every, Delivery, OutcomeView};
use crate::params::{
    built_in_params, checked, decode_built_in, decode_cancel, decode_initialize, decode_nothing,
    encoding_kind, encoding_named, parsed_cancel, parsed_initialize, parsed_unit, present,
    trace_named, trace_value, BuiltInParams, BuiltInView,
};
use crate::progress::{after_cancel, cancel_outcome, ProgressCancel};
use crate::session::{
    claims_every, CloseSignal, InboundRegistry, InboundReserveError, InboundView, Permit,
    Reservation, ReservationView, Reserved, SignalView, INBOUND_CAPACITY_EXHAUSTED,
};
use crate::step::{
    effects_view, info_view, no_effects, push_effect, push_report, report_effects, Call, CallView,
    Effect, EffectView, Flow, FlowView, Greeting, GreetingView, InitializeResult,
    InitializeResultView, Lifecycle, LifecycleView, ParkedHooks, Pending, PendingView,
    ReservedView, ServerInfo, ServerInfoView, Step, StepView, Transaction, TransactionStateView,
};
use crate::text::same_text;

verus! {

/// Why changes do not fit a synchronization kind.
pub open spec fn sync_change_failure(
    kind: TextDocumentSyncKind,
    changes: Seq<ContentChangeView>,
) -> Option<LspErrorView> {
    if kind == TextDocumentSyncKind::Incremental {
        None
    } else if kind == TextDocumentSyncKind::Full {
        if forall|i: int| 0 <= i < changes.len() ==> #[trigger] changes[i] is WholeDocument {
            None
        } else {
            Some(
                LspErrorView::InvalidRequest(
                    "range changes require incremental document synchronization"@,
                ),
            )
        }
    } else {
        Some(
            LspErrorView::InvalidRequest(
                "document changes are disabled by the configured synchronization kind"@,
            ),
        )
    }
}

/// Reject changes that do not fit the configured synchronization kind.
pub fn validate_sync_changes(
    kind: TextDocumentSyncKind,
    changes: &Vec<TextDocumentContentChangeEvent>,
) -> (result: Result<(), LspError>)
    ensures
        match sync_change_failure(
            kind,
            changes@.map_values(|change: TextDocumentContentChangeEvent| change@),
        ) {
            Some(failure) => result matches Err(error) && error@ == failure,
            None => result is Ok,
        },
{
    if kind == TextDocumentSyncKind::Incremental {
        return Ok(());
    }
    if kind == TextDocumentSyncKind::Full {
        let ghost views = changes@.map_values(|change: TextDocumentContentChangeEvent| change@);
        let mut i: usize = 0;
        while i < changes.len()
            invariant
                kind == TextDocumentSyncKind::Full,
                i <= changes@.len(),
                views == changes@.map_values(|change: TextDocumentContentChangeEvent| change@),
                forall|j: int| 0 <= j < i ==> #[trigger] views[j] is WholeDocument,
            decreases changes@.len() - i,
        {
            assert(views[i as int] == changes@[i as int]@);
            match &changes[i] {
                TextDocumentContentChangeEvent::WholeDocument { .. } => {},
                TextDocumentContentChangeEvent::Partial { .. } => {
                    assert(!(views[i as int] is WholeDocument));
                    return Err(
                        LspError::InvalidRequest(
                            "range changes require incremental document synchronization".to_owned(),
                        ),
                    );
                },
            }
            i = i + 1;
        }
        return Ok(());
    }
    Err(
        LspError::InvalidRequest(
            "document changes are disabled by the configured synchronization kind".to_owned(),
        ),
    )
}

/// How one connection ended.
///
/// Serving a connection resolves to exactly one `Outcome` or to a transport
/// [`Error`]; it never terminates the process. A server binary maps its outcome
/// to a process disposition itself — [`Outcome::code`] reports the exit code the
/// LSP lifecycle implies.
#[derive(Debug, Clone, Copy, PartialEq, Eq, Structural)]
pub enum Outcome {
    /// The endpoint processed `exit`. For a server, `code` is 0 when the peer
    /// sent `shutdown` first and 1 otherwise; a client permits local `exit`
    /// only after its `shutdown` request succeeds and therefore reports 0.
    Exit {
        /// The process exit code prescribed by the LSP lifecycle.
        code: i32,
    },
    /// The transport ended before `exit`, or a client disconnected locally.
    TransportClosed,
    /// The outbound path failed terminally: the writer failed, or required
    /// protocol traffic could not fit within the configured queue budgets.
    WriterFailed,
    /// A failed initialize transaction terminated the connection after its
    /// fixed error response was enqueued.
    InitializeFailed,
}

impl Outcome {
    /// The process exit code this outcome implies for a server binary: the
    /// LSP-defined code after `exit`, and 1 for every ending without one.
    pub fn code(&self) -> (code: i32)
        ensures
            code == match *self {
                Outcome::Exit { code } => code,
                _ => 1,
            },
    {
        match self {
            Outcome::Exit { code } => *code,
            Outcome::TransportClosed | Outcome::WriterFailed | Outcome::InitializeFailed => 1,
        }
    }
}

/// What first requested the engine's one close operation.
///
/// Only the first requester's cause is recorded, so a writer failure racing
/// reader EOF still reports a single deterministic ending.
#[derive(Debug)]
pub enum CloseCause {
    /// An `exit` notification was processed; carries the LSP exit code.
    Exit {
        /// The LSP exit code.
        code: i32,
    },
    /// The reader reached end of input before `exit`.
    ReaderEof,
    /// The reader failed with a transport error.
    ReaderFailed(TransportError),
    /// The writer failed to send or shut down, or required protocol traffic
    /// could not fit within the outbound resource policy.
    WriterFailed,
    /// A failed initialize transaction terminated the connection.
    InitializeFailed,
}

impl CloseCause {
    /// The cause of a failed writer.
    pub fn writer_failed() -> (cause: Self)
        ensures
            cause == CloseCause::WriterFailed,
    {
        CloseCause::WriterFailed
    }

    /// The cause's name.
    pub open spec fn name(self) -> Seq<char> {
        match self {
            CloseCause::Exit { .. } => "exit"@,
            CloseCause::ReaderEof => "reader_eof"@,
            CloseCause::ReaderFailed(_) => "reader_failed"@,
            CloseCause::WriterFailed => "writer_failed"@,
            CloseCause::InitializeFailed => "initialize_failed"@,
        }
    }

    /// The cause's name.
    pub fn as_str(&self) -> (name: &'static str)
        ensures
            name@ == self.name(),
    {
        match self {
            CloseCause::Exit { .. } => "exit",
            CloseCause::ReaderEof => "reader_eof",
            CloseCause::ReaderFailed(_) => "reader_failed",
            CloseCause::WriterFailed => "writer_failed",
            CloseCause::InitializeFailed => "initialize_failed",
        }
    }

    /// Map the recorded cause onto what serving the connection returns.
    pub fn into_result(self) -> (result: Result<Outcome, Error>)
        ensures
            result == match self {
                CloseCause::Exit { code } => Ok::<Outcome, Error>(Outcome::Exit { code }),
                CloseCause::ReaderEof => Ok(Outcome::TransportClosed),
                CloseCause::ReaderFailed(error) => Err(Error::Transport(error)),
                CloseCause::WriterFailed => Ok(Outcome::WriterFailed),
                CloseCause::InitializeFailed => Ok(Outcome::InitializeFailed),
            },
    {
        match self {
            CloseCause::Exit { code } => Ok(Outcome::Exit { code }),
            CloseCause::ReaderEof => Ok(Outcome::TransportClosed),
            CloseCause::ReaderFailed(error) => Err(Error::Transport(error)),
            CloseCause::WriterFailed => Ok(Outcome::WriterFailed),
            CloseCause::InitializeFailed => Ok(Outcome::InitializeFailed),
        }
    }
}

/// Select the reported cause after close has quiesced every task that could
/// fail a required outbound admission.
pub fn final_close_cause(close: &mut CloseSignal<CloseCause>, outbound_failed: bool) -> (cause:
    CloseCause)
    requires
        old(close)@.cause is Some,
    ensures
        cause == if outbound_failed {
            CloseCause::WriterFailed
        } else {
            old(close)@.cause->0
        },
        final(close)@ == (SignalView { cause: None, ..old(close)@ }),
{
    match close.take_cause() {
        Some(recorded) => if outbound_failed {
            CloseCause::WriterFailed
        } else {
            recorded
        },
        None => CloseCause::WriterFailed,
    }
}

/// Whether a protocol built-in's post-validation hook runs.
///
/// Most built-ins gate their hook on the result of their processing; the
/// work-done progress cancel built-in signals malformed parameters through the
/// gate directly instead.
#[derive(Debug, Clone, Copy, PartialEq, Eq, Structural)]
pub enum BuiltInGate {
    /// Decode — and any mutation — succeeded: dispatch the registered hook.
    RunHook,
    /// Parameters violated the protocol contract: report and skip the hook.
    ProtocolFailure,
}

/// Why a protocol built-in was not processed.
#[derive(Debug)]
pub enum BuiltInError {
    /// The notification violated the protocol contract.
    Protocol(LspError),
    /// A resource budget rejected the mutation.
    Overload(LspError),
}

/// What a [`BuiltInError`] says.
pub enum BuiltInErrorView {
    Protocol(LspErrorView),
    Overload(LspErrorView),
}

impl View for BuiltInError {
    type V = BuiltInErrorView;

    open spec fn view(&self) -> BuiltInErrorView {
        match *self {
            BuiltInError::Protocol(error) => BuiltInErrorView::Protocol(error@),
            BuiltInError::Overload(error) => BuiltInErrorView::Overload(error@),
        }
    }
}

impl BuiltInErrorView {
    /// A refused mutation as the failure of its built-in.
    pub open spec fn of_mutation(error: DocumentMutationErrorView) -> Self {
        match error {
            DocumentMutationErrorView::Capacity(error) => BuiltInErrorView::Overload(error),
            DocumentMutationErrorView::Protocol(error) => BuiltInErrorView::Protocol(error),
        }
    }

    /// The category a failed built-in is reported under.
    pub open spec fn category(self) -> ConnectionFailureCategory {
        match self {
            BuiltInErrorView::Protocol(_) => ConnectionFailureCategory::Protocol,
            BuiltInErrorView::Overload(_) => ConnectionFailureCategory::Overload,
        }
    }
}

/// A refused mutation as the failure of its built-in.
fn mutation_failure(error: DocumentMutationError) -> (failure: BuiltInError)
    ensures
        failure@ == BuiltInErrorView::of_mutation(error@),
{
    match error {
        DocumentMutationError::Capacity(error) => BuiltInError::Overload(error),
        DocumentMutationError::Protocol(error) => BuiltInError::Protocol(error),
    }
}

/// The single owner of mutable protocol coordination for one connection. `H`
/// stands for handlers and hooks, and `T` for whoever waits for an answer.
///
/// Transport code only feeds envelopes in and drains envelopes out. Lifecycle
/// selection, request registration, cancellation, terminal response arbitration,
/// and session close all remain behind this boundary.
pub struct ProtocolEngine<H, T> {
    documents: Documents,
    document_sync: TextDocumentSyncOptions,
    lifecycle: Lifecycle<H>,
    /// The hooks for the running state. `on_initialized` awaits the client's
    /// `initialized` notification and is taken by the first one. `on_shutdown` is
    /// reusable after an error, because a failed attempt leaves the connection
    /// running. `on_exit` awaits the peer's `exit`.
    parked: ParkedHooks<H>,
    inbound: InboundRegistry,
    client: ClientHandle<H, T>,
    close: CloseSignal<CloseCause>,
}

/// What a [`ProtocolEngine`] holds.
#[verifier::ext_equal]
pub struct EngineView<H, T> {
    pub store: StoreView,
    pub sync: TextDocumentSyncOptions,
    pub lifecycle: LifecycleView<H>,
    pub parked: ParkedHooks<H>,
    pub inbound: InboundView,
    pub client: ClientView<T>,
    pub close: SignalView<CloseCause>,
}

/// An engine and what a message led to.
#[verifier::ext_equal]
pub struct Next<H, T> {
    pub engine: EngineView<H, T>,
    pub step: StepView<H, T>,
}

/// What processing a built-in leads to.
#[verifier::ext_equal]
pub struct Processed<H, T> {
    pub engine: EngineView<H, T>,
    pub effects: Seq<EffectView<T>>,
    pub result: Result<BuiltInGate, BuiltInErrorView>,
}

/// What a synchronization that was not configured processes changes as.
pub open spec fn effective_change_kind(sync: TextDocumentSyncOptions) -> TextDocumentSyncKind {
    match sync.change {
        Some(kind) => kind,
        None => TextDocumentSyncKind::Incremental,
    }
}

/// Whether saved text is required.
pub open spec fn requires_saved_text(sync: TextDocumentSyncOptions) -> bool {
    match sync.save {
        Some(Save::SaveOptions(options)) => options.include_text == Some(true),
        _ => false,
    }
}

/// Whether a built-in is switched on.
pub open spec fn accepts(sync: TextDocumentSyncOptions, built_in: ProtocolNotification) -> bool {
    let unsynced = sync.change == Some(TextDocumentSyncKind::Unsynced);
    match built_in {
        ProtocolNotification::WorkspaceFolders => true,
        ProtocolNotification::Configuration => true,
        ProtocolNotification::Trace => true,
        ProtocolNotification::ProgressCancel => true,
        ProtocolNotification::Open => !unsynced && sync.open_close == Some(true),
        ProtocolNotification::Close => !unsynced && sync.open_close == Some(true),
        ProtocolNotification::Change => sync.change == Some(TextDocumentSyncKind::Full)
            || sync.change == Some(TextDocumentSyncKind::Incremental),
        ProtocolNotification::WillSave => !unsynced && sync.will_save == Some(true),
        ProtocolNotification::Save => !unsynced && (sync.save == Some(Save::Bool(true))
            || sync.save matches Some(Save::SaveOptions(_))),
    }
}

/// The capabilities of a frozen Router with the protocol-owned fields layered
/// on.
pub open spec fn advertised<H>(
    router: RouterView<H>,
    encoding: PositionEncodingKindView,
) -> ServerCapabilitiesView {
    let workspace = match router.capabilities.workspace {
        Some(workspace) => workspace,
        None => WorkspaceOptionsView::empty(),
    };
    ServerCapabilitiesView {
        position_encoding: Some(encoding),
        text_document_sync: Some(router.document_sync.capability),
        workspace: Some(
            WorkspaceOptionsView {
                workspace_folders: Some(
                    WorkspaceFoldersServerCapabilities {
                        supported: Some(true),
                        change_notifications: Some(true),
                    },
                ),
                ..workspace
            },
        ),
        ..router.capabilities
    }
}

/// The position encodings that wire names stand for.
pub open spec fn encodings_named(names: Option<Seq<Seq<char>>>) -> Option<
    Seq<PositionEncodingKindView>,
> {
    match names {
        Some(names) => Some(names.map_values(|name: Seq<char>| encoding_named(name))),
        None => None,
    }
}

impl<H, T> EngineView<H, T> {
    /// The report of an inbound failure.
    pub open spec fn report(
        self,
        category: ConnectionFailureCategory,
        method: Option<Seq<char>>,
        id: Option<RequestIdView>,
    ) -> Seq<EffectView<T>> {
        report_effects(
            self.client.queue.reporter.report(
                category,
                Some(ConnectionDirection::Inbound),
                method,
                id,
            ),
        )
    }

    /// The response of a reservation, if it still owns it.
    pub open spec fn response(
        self,
        reservation: ReservationView,
        outcome: Result<Seq<u8>, LspErrorView>,
    ) -> Seq<EffectView<T>> {
        if self.inbound.owns(reservation) {
            seq![EffectView::Send(answer(reservation.id, outcome))]
        } else {
            Seq::empty()
        }
    }

    /// The response of the `initialize` reservation with its result, if it still
    /// owns it.
    pub open spec fn greeting(
        self,
        reservation: ReservationView,
        result: InitializeResultView,
    ) -> Seq<EffectView<T>> {
        if self.inbound.owns(reservation) {
            seq![EffectView::Greet { id: reservation.id, result }]
        } else {
            Seq::empty()
        }
    }

    /// The engine after an admitted request is answered and its place given
    /// back.
    pub open spec fn settled(self, reserved: ReservedView) -> Self {
        EngineView {
            inbound: self.inbound.completed(reserved.reservation).released(reserved.permit),
            ..self
        }
    }

    /// Nothing but effects.
    pub open spec fn only(self, effects: Seq<EffectView<T>>) -> Next<H, T> {
        Next { engine: self, step: StepView { effects, flow: FlowView::Continue } }
    }

    /// Effects, and something to run after them.
    pub open spec fn then_run(self, effects: Seq<EffectView<T>>, flow: FlowView<H>) -> Next<H, T> {
        Next { engine: self, step: StepView { effects, flow } }
    }

    /// An admitted request is refused, after what is reported of it.
    pub open spec fn refused(
        self,
        reported: Seq<EffectView<T>>,
        reserved: ReservedView,
        error: LspErrorView,
    ) -> Next<H, T> {
        self.settled(reserved).only(
            reported + self.response(reserved.reservation, Err(error)),
        )
    }

    /// Whether no `initialize` has completed.
    pub open spec fn is_early(self) -> bool {
        self.lifecycle is Uninitialized || self.lifecycle is Initializing
    }

    /// Whether `shutdown` has succeeded or the connection is closed.
    pub open spec fn is_late(self) -> bool {
        self.lifecycle is ShuttingDown || self.lifecycle is Exited
    }

    /// What an inbound request leads to.
    pub open spec fn on_request(
        self,
        id: RequestIdView,
        method: Seq<char>,
        params: Seq<u8>,
        partial_results: bool,
    ) -> Next<H, T> {
        match self.inbound.refusal(id) {
            Some(InboundReserveError::DuplicateId) => self.only(
                self.report(ConnectionFailureCategory::Protocol, None, Some(id)) + seq![
                    EffectView::Send(
                        error_answer(
                            id,
                            LspErrorView::InvalidRequest("duplicate request id"@),
                        ),
                    ),
                ],
            ),
            Some(InboundReserveError::CapacityExhausted) => self.only(
                seq![
                    EffectView::Send(
                        error_answer(
                            id,
                            LspErrorView::ServerCancelled(INBOUND_CAPACITY_EXHAUSTED@),
                        ),
                    ),
                ],
            ),
            None => {
                let cancellable = method != "initialize"@;
                EngineView {
                    inbound: self.inbound.reserved(id, cancellable),
                    ..self
                }.on_admitted(
                    ReservedView {
                        reservation: ReservationView { id, serial: self.inbound.next_serial },
                        permit: self.inbound.next_serial,
                        cancellable,
                    },
                    method,
                    params,
                    partial_results,
                )
            },
        }
    }

    /// What an admitted request leads to.
    pub open spec fn on_admitted(
        self,
        reserved: ReservedView,
        method: Seq<char>,
        params: Seq<u8>,
        partial_results: bool,
    ) -> Next<H, T> {
        let id = Some(reserved.reservation.id);
        if method != "initialize"@ && self.is_early() {
            self.refused(
                self.report(ConnectionFailureCategory::Protocol, None, id),
                reserved,
                LspErrorView::ServerNotInitialized,
            )
        } else if self.is_late() {
            self.refused(
                self.report(ConnectionFailureCategory::Protocol, None, id),
                reserved,
                LspErrorView::InvalidRequest("invalid request"@),
            )
        } else if method == "initialize"@ {
            self.on_initialize(reserved, params)
        } else if method == "shutdown"@ {
            if params.len() > 0 && parsed_unit(params) is Err {
                self.refused(
                    self.report(ConnectionFailureCategory::Protocol, Some("shutdown"@), id),
                    reserved,
                    LspErrorView::InvalidParams(parsed_unit(params)->Err_0),
                )
            } else {
                self.then_run(Seq::empty(), FlowView::Shutdown(reserved))
            }
        } else {
            self.on_call(reserved, method, params, partial_results)
        }
    }

    /// What a user request leads to.
    pub open spec fn on_call(
        self,
        reserved: ReservedView,
        method: Seq<char>,
        params: Seq<u8>,
        partial_results: bool,
    ) -> Next<H, T> {
        let id = Some(reserved.reservation.id);
        match checked(parsed_json(present(params))) {
            Err(error) => self.refused(
                self.report(ConnectionFailureCategory::Protocol, None, id),
                reserved,
                error,
            ),
            Ok(value) => match field_token(value, "workDoneToken"@) {
                Err(error) => self.refused(
                    Seq::empty(),
                    reserved,
                    LspErrorView::InvalidParams(error),
                ),
                Ok(work_done_token) => {
                    let partial_result_token = if partial_results {
                        field_token(value, "partialResultToken"@)
                    } else {
                        Ok(None)
                    };
                    match partial_result_token {
                        Err(error) => self.refused(
                            Seq::empty(),
                            reserved,
                            LspErrorView::InvalidParams(error),
                        ),
                        Ok(partial_result_token) => self.then_run(
                            Seq::empty(),
                            FlowView::Spawn(
                                CallView {
                                    reserved,
                                    method,
                                    params: value,
                                    work_done_token,
                                    partial_result_token,
                                },
                            ),
                        ),
                    }
                },
            },
        }
    }

    /// What `initialize` leads to.
    pub open spec fn on_initialize(self, reserved: ReservedView, params: Seq<u8>) -> Next<H, T> {
        let reported = self.report(
            ConnectionFailureCategory::Protocol,
            Some("initialize"@),
            Some(reserved.reservation.id),
        );
        match self.lifecycle {
            LifecycleView::Uninitialized(pending) => match checked(
                parsed_initialize(present(params)),
            ) {
                Err(error) => self.refused(reported, reserved, error),
                Ok(facts) => EngineView {
                    lifecycle: LifecycleView::Initializing,
                    ..self
                }.then_run(
                    Seq::empty(),
                    FlowView::Configure(
                        TransactionStateView {
                            reserved,
                            params,
                            facts,
                            callback: pending.configure_initialize,
                            registrar: TransactionView {
                                registrations: pending.registrations,
                                error: None,
                            },
                            on_initialize: pending.on_initialize,
                            parked: ParkedHooks {
                                on_initialized: pending.on_initialized,
                                on_shutdown: pending.on_shutdown,
                                on_exit: pending.on_exit,
                            },
                            layers: pending.layers,
                            file_provider: pending.file_provider,
                        },
                    ),
                ),
            },
            _ => self.refused(
                reported,
                reserved,
                LspErrorView::ServerError {
                    code: (-32600) as i32,
                    message: "server already initialized"@,
                    data: None,
                },
            ),
        }
    }

    /// What the end of the registration callback leads to: a frozen Router and
    /// generated capabilities, or the fixed error and the close.
    pub open spec fn on_configured(
        self,
        transaction: TransactionStateView<H>,
        succeeded: bool,
    ) -> Next<H, T> {
        if !succeeded || transaction.registrar.failure() is Some {
            self.settled(transaction.reserved).then_run(
                self.response(
                    transaction.reserved.reservation,
                    Err(LspErrorView::Internal("initialization failed"@)),
                ),
                FlowView::Close(CloseCause::InitializeFailed),
            )
        } else {
            let router = transaction.registrar.registrations.frozen();
            let encoding = negotiated(encodings_named(transaction.facts.encodings));
            EngineView {
                store: StoreView { encoding, ..self.store },
                sync: router.document_sync.options,
                parked: transaction.parked,
                ..self
            }.then_run(
                Seq::empty(),
                FlowView::Greet(
                    GreetingView {
                        reserved: transaction.reserved,
                        params: transaction.params,
                        work_done_token: transaction.facts.work_done_token,
                        hook: transaction.on_initialize,
                        capabilities: advertised(router, kind_of(encoding).deep_view()),
                        router,
                        layers: transaction.layers,
                        file_provider: transaction.file_provider,
                    },
                ),
            )
        }
    }

    /// What the end of the `on_initialize` hook leads to: the running state, or
    /// its error and the close.
    pub open spec fn on_greeted(
        self,
        greeting: GreetingView<H>,
        hook: Result<Option<ServerInfoView>, LspErrorView>,
    ) -> Next<H, T> {
        match hook {
            Err(error) => self.settled(greeting.reserved).then_run(
                self.response(greeting.reserved.reservation, Err(error)),
                FlowView::Close(CloseCause::InitializeFailed),
            ),
            Ok(server_info) => EngineView {
                lifecycle: LifecycleView::Running(greeting.router),
                ..self.settled(greeting.reserved)
            }.only(
                self.greeting(
                    greeting.reserved.reservation,
                    InitializeResultView { capabilities: greeting.capabilities, server_info },
                ),
            ),
        }
    }

    /// What an inbound notification leads to.
    pub open spec fn on_notification(self, method: Seq<char>, params: Seq<u8>) -> Next<H, T> {
        if method == "exit"@ {
            self.on_exit_notification()
        } else if method == "$/cancelRequest"@ {
            self.on_cancel(params)
        } else if method == "initialized"@ {
            self.on_initialized_notification(params)
        } else if !(self.lifecycle is Running) {
            self.only(self.report(ConnectionFailureCategory::Protocol, None, None))
        } else {
            match ProtocolNotification::of_method(method) {
                Some(built_in) => self.on_built_in(built_in, method, params),
                None => self.on_routed(Seq::empty(), method, params),
            }
        }
    }

    /// What `exit` leads to: its hook where a session was established, and an
    /// exit code of 0 only after a successful `shutdown`.
    pub open spec fn on_exit_notification(self) -> Next<H, T> {
        let code: i32 = if self.lifecycle is ShuttingDown {
            0
        } else {
            1
        };
        if self.lifecycle is Running || self.lifecycle is ShuttingDown {
            EngineView {
                parked: ParkedHooks { on_exit: None, ..self.parked },
                ..self
            }.then_run(Seq::empty(), FlowView::Exit { hook: self.parked.on_exit, code })
        } else {
            self.then_run(
                self.report(ConnectionFailureCategory::Protocol, Some("exit"@), None),
                FlowView::Exit { hook: None, code },
            )
        }
    }

    /// What `$/cancelRequest` leads to.
    pub open spec fn on_cancel(self, params: Seq<u8>) -> Next<H, T> {
        match parsed_cancel(present(params)) {
            Ok(id) => if self.inbound.is_cancellable(id) {
                EngineView { inbound: self.inbound.cancelled(id), ..self }.only(
                    seq![
                        EffectView::Cancel(self.inbound.entries[id].serial),
                        EffectView::Send(error_answer(id, LspErrorView::RequestCancelled)),
                    ],
                )
            } else {
                self.only(Seq::empty())
            },
            Err(_) => self.only(
                self.report(
                    ConnectionFailureCategory::Protocol,
                    Some("$/cancelRequest"@),
                    None,
                ),
            ),
        }
    }

    /// What `initialized` leads to: its hook, once, in the running state.
    pub open spec fn on_initialized_notification(self, params: Seq<u8>) -> Next<H, T> {
        if !(self.lifecycle is Running) || !says_nothing(params) {
            self.only(
                self.report(ConnectionFailureCategory::Protocol, Some("initialized"@), None),
            )
        } else {
            match self.parked.on_initialized {
                None => self.only(Seq::empty()),
                Some(hook) => EngineView {
                    parked: ParkedHooks { on_initialized: None, ..self.parked },
                    ..self
                }.then_run(Seq::empty(), FlowView::Initialized(hook)),
            }
        }
    }

    /// What a protocol-owned notification leads to.
    pub open spec fn on_built_in(
        self,
        built_in: ProtocolNotification,
        method: Seq<char>,
        params: Seq<u8>,
    ) -> Next<H, T> {
        if !accepts(self.sync, built_in) {
            self.only(Seq::empty())
        } else {
            let processed = self.processed(built_in, params);
            match processed.result {
                Ok(BuiltInGate::RunHook) => processed.engine.on_routed(
                    processed.effects,
                    method,
                    params,
                ),
                Ok(BuiltInGate::ProtocolFailure) => processed.engine.only(
                    processed.effects + self.report(
                        ConnectionFailureCategory::Protocol,
                        Some(method),
                        None,
                    ),
                ),
                Err(error) => processed.engine.only(
                    processed.effects + self.report(error.category(), Some(method), None),
                ),
            }
        }
    }

    /// What a notification for the Service stack leads to, after the effects of
    /// its built-in.
    pub open spec fn on_routed(
        self,
        effects: Seq<EffectView<T>>,
        method: Seq<char>,
        params: Seq<u8>,
    ) -> Next<H, T> {
        match parsed_json(present(params)) {
            Ok(value) => self.then_run(effects, FlowView::Notify { method, params: value }),
            Err(_) => self.only(
                effects + self.report(ConnectionFailureCategory::Protocol, None, None),
            ),
        }
    }

    /// A built-in is decoded and applied.
    pub open spec fn processed(self, built_in: ProtocolNotification, params: Seq<u8>) -> Processed<
        H,
        T,
    > {
        match checked(built_in_params(built_in, present(params))) {
            Ok(decoded) => self.applied(decoded),
            Err(error) => Processed {
                engine: self,
                effects: Seq::empty(),
                result: if built_in == ProtocolNotification::ProgressCancel {
                    Ok(BuiltInGate::ProtocolFailure)
                } else {
                    Err(BuiltInErrorView::Protocol(error))
                },
            },
        }
    }

    /// The engine with its documents changed.
    pub open spec fn with_store(
        self,
        store: StoreView,
        failure: Option<DocumentMutationErrorView>,
    ) -> Processed<H, T> {
        Processed {
            engine: EngineView { store, ..self },
            effects: Seq::empty(),
            result: match failure {
                None => Ok(BuiltInGate::RunHook),
                Some(error) => Err(BuiltInErrorView::of_mutation(error)),
            },
        }
    }

    /// A built-in that only has effects.
    pub open spec fn with_effects(self, effects: Seq<EffectView<T>>) -> Processed<H, T> {
        Processed { engine: self, effects, result: Ok(BuiltInGate::RunHook) }
    }

    /// A built-in that violates the protocol contract.
    pub open spec fn violated(self, error: LspErrorView) -> Processed<H, T> {
        Processed {
            engine: self,
            effects: Seq::empty(),
            result: Err(BuiltInErrorView::Protocol(error)),
        }
    }

    /// A decoded built-in is applied.
    pub open spec fn applied(self, decoded: BuiltInView) -> Processed<H, T> {
        match decoded {
            BuiltInView::Open(item) => self.with_store(
                self.store.opened(item),
                self.store.open_refusal(item),
            ),
            BuiltInView::Change(change) => match sync_change_failure(
                effective_change_kind(self.sync),
                change.changes,
            ) {
                Some(error) => self.violated(error),
                None => self.with_store(
                    self.store.changed(change.uri, change.version, change.changes),
                    match self.store.change_result(change.uri, change.changes) {
                        Ok(_) => None,
                        Err(error) => Some(error),
                    },
                ),
            },
            BuiltInView::Close(uri) => self.with_store(self.store.closed(uri), None),
            BuiltInView::WillSave => self.with_effects(Seq::empty()),
            BuiltInView::Save(text) => if requires_saved_text(self.sync) && text is None {
                self.violated(
                    LspErrorView::InvalidRequest(
                        "didSave text is required by textDocumentSync.save.includeText"@,
                    ),
                )
            } else {
                self.with_effects(Seq::empty())
            },
            BuiltInView::WorkspaceFolders(change) => self.with_effects(
                seq![EffectView::ChangeFolders(change)],
            ),
            BuiltInView::Configuration(settings) => self.with_effects(
                seq![EffectView::SetConfiguration(settings)],
            ),
            BuiltInView::Trace(name) => match trace_named(name) {
                Some(value) => EngineView {
                    client: ClientView { trace: value, ..self.client },
                    ..self
                }.with_effects(Seq::empty()),
                None => self.violated(
                    LspErrorView::InvalidParams(
                        "setTrace value must be off, messages, or verbose"@,
                    ),
                ),
            },
            BuiltInView::ProgressCancel(token) => EngineView {
                client: ClientView {
                    progress: after_cancel(self.client.progress, token),
                    ..self.client
                },
                ..self
            }.with_effects(
                if cancel_outcome(self.client.progress, token) == ProgressCancel::Cancelled {
                    seq![EffectView::CancelProgress(token)]
                } else {
                    Seq::empty()
                },
            ),
        }
    }

    /// What a response leads to: its delivery to whoever waits, if the ID is one
    /// that was allocated and is pending.
    pub open spec fn on_response(
        self,
        id: RequestIdView,
        result: Result<Seq<u8>, JsonRpcErrorView>,
    ) -> Next<H, T> {
        match id {
            RequestIdView::Number(number) => if number > 0
                && self.client.registry.pending.dom().contains(number as u32) {
                EngineView {
                    client: ClientView {
                        registry: self.client.registry.removed(number as u32),
                        ..self.client
                    },
                    ..self
                }.only(
                    seq![
                        EffectView::Deliver(
                            self.client.registry.pending[number as u32],
                            OutcomeView::Response(result),
                        ),
                    ],
                )
            } else {
                self.only(self.report(ConnectionFailureCategory::Protocol, None, Some(id)))
            },
            RequestIdView::String(_) => self.only(
                self.report(ConnectionFailureCategory::Protocol, None, Some(id)),
            ),
        }
    }

    /// What a message leads to.
    pub open spec fn dispatched(self, message: MessageView, partial_results: bool) -> Next<H, T> {
        match message {
            MessageView::Request { id, method, params } => self.on_request(
                id,
                method,
                params,
                partial_results,
            ),
            MessageView::Notification { method, params } => self.on_notification(method, params),
            MessageView::Response { id, result } => self.on_response(id, result),
            MessageView::ProtocolError { error } => self.only(
                self.report(ConnectionFailureCategory::Protocol, None, None) + seq![
                    EffectView::Send(MessageView::ProtocolError { error }),
                ],
            ),
        }
    }
}

impl<H, T> View for ProtocolEngine<H, T> {
    type V = EngineView<H, T>;

    closed spec fn view(&self) -> EngineView<H, T> {
        EngineView {
            store: self.documents@,
            sync: self.document_sync,
            lifecycle: self.lifecycle@,
            parked: self.parked,
            inbound: self.inbound@,
            client: self.client@,
            close: self.close@,
        }
    }
}

/// The class of a failed read.
pub open spec fn read_failure_category(error: TransportError) -> ConnectionFailureCategory {
    match error {
        TransportError::Malformed(_) => ConnectionFailureCategory::Framing,
        TransportError::OversizedMessage { .. } => ConnectionFailureCategory::Framing,
        _ => ConnectionFailureCategory::Transport,
    }
}

impl<H, T> ProtocolEngine<H, T> {
    /// The documents and the registries are well-formed.
    pub closed spec fn wf(&self) -> bool {
        &&& self.documents.wf()
        &&& self.inbound.wf()
        &&& self.client.wf()
    }

    /// An engine for a server and the handle to its peer.
    pub fn new<S>(server: Server<S, H>, client: ClientHandle<H, T>) -> (result: (Self, S))
        requires
            client.wf(),
        ensures
            result.0.wf(),
            result.1 == server@.state,
            result.0@ == (EngineView {
                store: StoreView::empty(server@.resource_policy),
                sync: TextDocumentSyncOptions {
                    open_close: None,
                    change: None,
                    will_save: None,
                    will_save_wait_until: None,
                    save: None,
                },
                lifecycle: LifecycleView::Uninitialized(
                    PendingView {
                        registrations: server@.registrations,
                        file_provider: server@.file_provider,
                        configure_initialize: server@.configure_initialize,
                        on_initialize: server@.on_initialize,
                        on_initialized: server@.on_initialized,
                        on_shutdown: server@.on_shutdown,
                        on_exit: server@.on_exit,
                        layers: server@.layers,
                    },
                ),
                parked: ParkedHooks { on_initialized: None, on_shutdown: None, on_exit: None },
                inbound: InboundView::fresh(server@.resource_policy.max_inbound_requests),
                client: client@,
                close: SignalView { requested: false, cause: None },
            }),
    {
        let engine = ProtocolEngine {
            documents: Documents::with_resource_policy(server.resource_policy),
            document_sync: TextDocumentSyncOptions::default(),
            lifecycle: Lifecycle::Uninitialized(
                Pending {
                    registrations: server.registrations,
                    file_provider: server.file_provider,
                    configure_initialize: server.configure_initialize,
                    on_initialize: server.on_initialize,
                    on_initialized: server.on_initialized,
                    on_shutdown: server.on_shutdown,
                    on_exit: server.on_exit,
                    layers: server.layers,
                },
            ),
            parked: ParkedHooks { on_initialized: None, on_shutdown: None, on_exit: None },
            inbound: InboundRegistry::new(server.resource_policy.max_inbound_requests),
            client,
            close: CloseSignal::new(),
        };
        (engine, server.state)
    }

    /// The report of an inbound failure.
    fn report(
        &self,
        effects: &mut Vec<Effect<T>>,
        category: ConnectionFailureCategory,
        method: Option<&str>,
        id: Option<&RequestId>,
    )
        requires
            self.wf(),
        ensures
            effects_view(final(effects)@) == effects_view(old(effects)@) + self@.report(
                category,
                crate::failure::text_view(method),
                crate::failure::id_view(id),
            ),
    {
        let failure = self.client.outgoing().reporter().report(
            category,
            Some(ConnectionDirection::Inbound),
            method,
            id,
        );
        push_report(effects, failure);
    }

    /// Answer an admitted request, unless another path has, and give its place
    /// back.
    fn settle(
        &mut self,
        effects: &mut Vec<Effect<T>>,
        reserved: Reserved,
        outcome: Result<Vec<u8>, LspError>,
    )
        requires
            old(self).wf(),
        ensures
            final(self).wf(),
            final(self)@ == old(self)@.settled(reserved@),
            effects_view(final(effects)@) == effects_view(old(effects)@) + old(self)@.response(
                reserved@.reservation,
                outcome_view(outcome),
            ),
    {
        let answered = self.inbound.complete(reserved.reservation, outcome);
        self.inbound.release(reserved.permit);
        match answered {
            Some(message) => {
                push_effect(effects, Effect::Send(message));
                assert(effects_view(effects@) =~= effects_view(old(effects)@) + seq![
                    EffectView::<T>::Send(message@),
                ]);
            },
            None => {
                assert(effects_view(effects@) =~= effects_view(old(effects)@) + Seq::<
                    EffectView<T>,
                >::empty());
            },
        }
    }

    /// Refuse an admitted request.
    fn refuse(&mut self, effects: Vec<Effect<T>>, reserved: Reserved, error: LspError) -> (step:
        Step<H, T>)
        requires
            old(self).wf(),
        ensures
            final(self).wf(),
            (Next { engine: final(self)@, step: step@ }) == old(self)@.refused(
                effects_view(effects@),
                reserved@,
                error@,
            ),
    {
        let mut effects = effects;
        self.settle(&mut effects, reserved, Err(error));
        Step { effects, flow: Flow::Continue }
    }

    /// Take one message.
    ///
    /// `partial_results` says whether the protocol defines partial results for
    /// the method of the message.
    #[verifier::spinoff_prover]
    #[verifier::rlimit(40)]
    pub fn dispatch(&mut self, message: RawMessage, partial_results: bool) -> (step: Step<H, T>)
        requires
            old(self).wf(),
        ensures
            final(self).wf(),
            (Next { engine: final(self)@, step: step@ }) == old(self)@.dispatched(
                message@,
                partial_results,
            ),
    {
        match message {
            RawMessage::Request { id, method, params } => self.dispatch_request(
                id,
                method,
                params,
                partial_results,
            ),
            RawMessage::Notification { method, params } => self.dispatch_notification(
                method,
                params,
            ),
            RawMessage::Response { id, result } => self.dispatch_response(id, result),
            RawMessage::ProtocolError { error } => {
                let mut effects = no_effects();
                self.report(&mut effects, ConnectionFailureCategory::Protocol, None, None);
                push_effect(&mut effects, Effect::Send(RawMessage::ProtocolError { error }));
                let step = Step { effects, flow: Flow::Continue };
                assert(step@.effects =~= self@.report(
                    ConnectionFailureCategory::Protocol,
                    None,
                    None,
                ) + seq![EffectView::<T>::Send(MessageView::ProtocolError { error: error@ })]);
                step
            },
        }
    }

    /// Take one request: admit it, hold it against the lifecycle, and hand it to
    /// the lifecycle, to `shutdown` or to the user.
    ///
    /// Admission happens before request-scoped cancellation state, parameter
    /// decoding, and task creation. The place of an admitted request is given
    /// back when it is answered here, or when its task is reaped.
    pub fn dispatch_request(
        &mut self,
        id: RequestId,
        method: String,
        params: Vec<u8>,
        partial_results: bool,
    ) -> (step: Step<H, T>)
        requires
            old(self).wf(),
        ensures
            final(self).wf(),
            (Next { engine: final(self)@, step: step@ }) == old(self)@.on_request(
                id.deep_view(),
                method@,
                params@,
                partial_results,
            ),
    {
        let mut effects = no_effects();
        let initialize = same_text(method.as_str(), "initialize");
        match self.inbound.reserve(id.clone(), !initialize) {
            Ok(reserved) => self.dispatch_admitted(
                reserved,
                method,
                params,
                partial_results,
            ),
            Err(InboundReserveError::DuplicateId) => {
                self.report(&mut effects, ConnectionFailureCategory::Protocol, None, Some(&id));
                let ghost reported = effects_view(effects@);
                let answer = error_response(
                    id,
                    &LspError::InvalidRequest("duplicate request id".to_owned()),
                );
                push_effect(&mut effects, Effect::Send(answer));
                let step = Step { effects, flow: Flow::Continue };
                assert(step@.effects =~= reported + seq![EffectView::<T>::Send(answer@)]);
                assert(reported =~= old(self)@.report(
                    ConnectionFailureCategory::Protocol,
                    None,
                    Some(id.deep_view()),
                ));
                step
            },
            Err(InboundReserveError::CapacityExhausted) => {
                let answer = error_response(
                    id,
                    &LspError::ServerCancelled(INBOUND_CAPACITY_EXHAUSTED.to_owned()),
                );
                push_effect(&mut effects, Effect::Send(answer));
                let step = Step { effects, flow: Flow::Continue };
                assert(step@.effects =~= seq![EffectView::<T>::Send(answer@)]);
                step
            },
        }
    }

    /// Take an admitted request.
    fn dispatch_admitted(
        &mut self,
        reserved: Reserved,
        method: String,
        params: Vec<u8>,
        partial_results: bool,
    ) -> (step: Step<H, T>)
        requires
            old(self).wf(),
        ensures
            final(self).wf(),
            (Next { engine: final(self)@, step: step@ }) == old(self)@.on_admitted(
                reserved@,
                method@,
                params@,
                partial_results,
            ),
    {
        let mut effects = no_effects();
        let initialize = same_text(method.as_str(), "initialize");
        let early = match &self.lifecycle {
            Lifecycle::Uninitialized(_) | Lifecycle::Initializing => true,
            _ => false,
        };
        let late = match &self.lifecycle {
            Lifecycle::ShuttingDown | Lifecycle::Exited => true,
            _ => false,
        };
        // Initialize precedence: until `initialize` completes, refuse every
        // other request.
        if !initialize && early {
            self.report(
                &mut effects,
                ConnectionFailureCategory::Protocol,
                None,
                Some(reserved.reservation.id()),
            );
            assert(effects_view(effects@) =~= self@.report(
                ConnectionFailureCategory::Protocol,
                None,
                Some(reserved@.reservation.id),
            ));
            return self.refuse(effects, reserved, LspError::ServerNotInitialized);
        }
        // After `shutdown`, every request is invalid until `exit`.
        if late {
            self.report(
                &mut effects,
                ConnectionFailureCategory::Protocol,
                None,
                Some(reserved.reservation.id()),
            );
            assert(effects_view(effects@) =~= self@.report(
                ConnectionFailureCategory::Protocol,
                None,
                Some(reserved@.reservation.id),
            ));
            return self.refuse(
                effects,
                reserved,
                LspError::InvalidRequest("invalid request".to_owned()),
            );
        }
        if initialize {
            return self.initialize(reserved, params);
        }
        if same_text(method.as_str(), "shutdown") {
            return match decode_nothing(&params) {
                Ok(()) => Step { effects, flow: Flow::Shutdown(reserved) },
                Err(error) => {
                    self.report(
                        &mut effects,
                        ConnectionFailureCategory::Protocol,
                        Some("shutdown"),
                        Some(reserved.reservation.id()),
                    );
                    assert(effects_view(effects@) =~= self@.report(
                        ConnectionFailureCategory::Protocol,
                        Some("shutdown"@),
                        Some(reserved@.reservation.id),
                    ));
                    self.refuse(effects, reserved, error)
                },
            };
        }
        self.dispatch_call(reserved, method, params, partial_results)
    }

    /// Take an admitted user request.
    fn dispatch_call(
        &mut self,
        reserved: Reserved,
        method: String,
        params: Vec<u8>,
        partial_results: bool,
    ) -> (step: Step<H, T>)
        requires
            old(self).wf(),
        ensures
            final(self).wf(),
            (Next { engine: final(self)@, step: step@ }) == old(self)@.on_call(
                reserved@,
                method@,
                params@,
                partial_results,
            ),
    {
        let mut effects = no_effects();
        let params = match decode_value(&params) {
            Ok(params) => params,
            Err(error) => {
                self.report(
                    &mut effects,
                    ConnectionFailureCategory::Protocol,
                    None,
                    Some(reserved.reservation.id()),
                );
                assert(effects_view(effects@) =~= self@.report(
                    ConnectionFailureCategory::Protocol,
                    None,
                    Some(reserved@.reservation.id),
                ));
                return self.refuse(effects, reserved, error);
            },
        };
        let work_done_token = match request_token(&params, "workDoneToken") {
            Ok(token) => token,
            Err(error) => return self.refuse(effects, reserved, LspError::InvalidParams(error)),
        };
        let partial_result_token = if partial_results {
            match request_token(&params, "partialResultToken") {
                Ok(token) => token,
                Err(error) => {
                    return self.refuse(effects, reserved, LspError::InvalidParams(error));
                },
            }
        } else {
            None
        };
        Step {
            effects,
            flow: Flow::Spawn(
                Call { reserved, method, params, work_done_token, partial_result_token },
            ),
        }
    }

    /// Take the `initialize` request.
    ///
    /// A second `initialize` after the transaction has run is invalid. Malformed
    /// parameters leave the transaction unspent: the client may retry with a
    /// valid request. Otherwise the transaction takes the pending registrations
    /// and callbacks, exactly once, and waits for its registration callback.
    fn initialize(&mut self, reserved: Reserved, params: Vec<u8>) -> (step: Step<H, T>)
        requires
            old(self).wf(),
        ensures
            final(self).wf(),
            (Next { engine: final(self)@, step: step@ }) == old(self)@.on_initialize(
                reserved@,
                params@,
            ),
    {
        let mut effects = no_effects();
        let uninitialized = match &self.lifecycle {
            Lifecycle::Uninitialized(_) => true,
            _ => false,
        };
        if !uninitialized {
            self.report(
                &mut effects,
                ConnectionFailureCategory::Protocol,
                Some("initialize"),
                Some(reserved.reservation.id()),
            );
            assert(effects_view(effects@) =~= self@.report(
                ConnectionFailureCategory::Protocol,
                Some("initialize"@),
                Some(reserved@.reservation.id),
            ));
            return self.refuse(
                effects,
                reserved,
                LspError::ServerError {
                    code: -32600,
                    message: "server already initialized".to_owned(),
                    data: None,
                },
            );
        }
        let facts = match decode_initialize(&params) {
            Ok(facts) => facts,
            Err(error) => {
                self.report(
                    &mut effects,
                    ConnectionFailureCategory::Protocol,
                    Some("initialize"),
                    Some(reserved.reservation.id()),
                );
                assert(effects_view(effects@) =~= self@.report(
                    ConnectionFailureCategory::Protocol,
                    Some("initialize"@),
                    Some(reserved@.reservation.id),
                ));
                return self.refuse(effects, reserved, error);
            },
        };
        let mut lifecycle = Lifecycle::Initializing;
        core::mem::swap(&mut lifecycle, &mut self.lifecycle);
        match lifecycle {
            Lifecycle::Uninitialized(pending) => Step {
                effects,
                flow: Flow::Configure(
                    Transaction {
                        reserved,
                        params,
                        facts,
                        callback: pending.configure_initialize,
                        registrar: InitializeRegistrar::new(pending.registrations),
                        on_initialize: pending.on_initialize,
                        parked: ParkedHooks {
                            on_initialized: pending.on_initialized,
                            on_shutdown: pending.on_shutdown,
                            on_exit: pending.on_exit,
                        },
                        layers: pending.layers,
                        file_provider: pending.file_provider,
                    },
                ),
            },
            _ => Step { effects, flow: Flow::Continue },
        }
    }

    /// Go on with the initialize transaction once its registration callback has
    /// ended; without a callback it has succeeded.
    ///
    /// A callback error or any combined-validation conflict discards the whole
    /// transaction, so nothing partial leaks: the fixed error is enqueued and the
    /// terminal close requested. Otherwise the Router is permanently frozen, the
    /// hooks of the running state are parked, the position encoding is
    /// negotiated, and the capabilities are generated, with the protocol-owned
    /// fields layered on.
    pub fn configured(&mut self, transaction: Transaction<H>, callback: Result<(), LspError>) -> (
    step: Step<H, T>)
        requires
            old(self).wf(),
        ensures
            final(self).wf(),
            (Next { engine: final(self)@, step: step@ }) == old(self)@.on_configured(
                transaction@,
                callback is Ok,
            ),
    {
        let mut effects = no_effects();
        let Transaction {
            reserved,
            params,
            facts,
            callback: _,
            registrar,
            on_initialize,
            parked,
            layers,
            file_provider,
        } = transaction;
        let committed = match callback {
            Ok(()) => match registrar.commit() {
                Ok(registrations) => Some(registrations),
                Err(_) => None,
            },
            Err(_) => None,
        };
        let registrations = match committed {
            Some(registrations) => registrations,
            None => {
                self.settle(
                    &mut effects,
                    reserved,
                    Err(LspError::Internal("initialization failed".to_owned())),
                );
                return Step { effects, flow: Flow::Close(CloseCause::InitializeFailed) };
            },
        };
        let router = registrations.freeze();
        self.parked = parked;
        let offered = encoding_kinds(facts.encodings);
        let position_encoding = self.documents.negotiate_position_encoding(&offered);
        let document_sync = router.document_sync();
        self.document_sync = document_sync.options;
        let capabilities = advertise(&router, position_encoding);
        Step {
            effects,
            flow: Flow::Greet(
                Greeting {
                    reserved,
                    params,
                    work_done_token: facts.work_done_token,
                    hook: on_initialize,
                    capabilities,
                    router,
                    layers,
                    file_provider,
                },
            ),
        }
    }

    /// Go on with the initialize transaction once its `on_initialize` hook has
    /// ended, with what the server says of itself; without a hook it has succeeded
    /// and says nothing.
    ///
    /// A failed hook sends its error and enters the close path; the frozen Router
    /// is never exposed to later dispatch. Otherwise the request is answered with
    /// the generated capabilities and the server information, and the connection
    /// runs.
    pub fn greeted(
        &mut self,
        greeting: Greeting<H>,
        hook: Result<Option<ServerInfo>, LspError>,
    ) -> (step: Step<H, T>)
        requires
            old(self).wf(),
        ensures
            final(self).wf(),
            (Next { engine: final(self)@, step: step@ }) == old(self)@.on_greeted(
                greeting@,
                match hook {
                    Ok(info) => Ok(info_view(info)),
                    Err(error) => Err(error@),
                },
            ),
    {
        let mut effects = no_effects();
        match hook {
            Err(error) => {
                self.settle(&mut effects, greeting.reserved, Err(error));
                Step { effects, flow: Flow::Close(CloseCause::InitializeFailed) }
            },
            Ok(server_info) => {
                let Reserved { reservation, permit, cancellable: _ } = greeting.reserved;
                if self.inbound.claim(&reservation) {
                    let id = reservation.id().clone();
                    let result = InitializeResult {
                        capabilities: greeting.capabilities,
                        server_info,
                    };
                    push_effect(&mut effects, Effect::Greet { id, result });
                    assert(effects_view(effects@) =~= seq![
                        EffectView::<T>::Greet { id: reservation@.id, result: result@ },
                    ]);
                }
                self.inbound.release(permit);
                self.lifecycle = Lifecycle::Running(greeting.router);
                Step { effects, flow: Flow::Continue }
            },
        }
    }
}

/// The position encodings that wire names stand for.
fn encoding_kinds(names: Option<Vec<String>>) -> (kinds: Option<Vec<PositionEncodingKind>>)
    ensures
        kinds.deep_view() == encodings_named(names.deep_view()),
{
    let names = match names {
        Some(names) => names,
        None => return None,
    };
    let ghost all = names@;
    let mut kinds: Vec<PositionEncodingKind> = Vec::new();
    for name in it: names
        invariant
            it.seq() == all,
            kinds@.len() == it.index(),
            forall|i: int|
                0 <= i < kinds@.len() ==> (#[trigger] kinds@[i]).deep_view() == encoding_named(
                    all[i]@,
                ),
    {
        kinds.push(encoding_kind(name));
    }
    let kinds = Some(kinds);
    assert(kinds.deep_view()->0 =~= encodings_named(Some(names.deep_view()))->0);
    kinds
}

/// The capabilities of a frozen Router with the protocol-owned fields layered
/// on: the negotiated position encoding, the document synchronization that the
/// built-ins implement, and the support of workspace folders. Registration
/// contributions are preserved beside them.
fn advertise<H>(router: &Router<H>, position_encoding: PositionEncodingKind) -> (capabilities:
    ServerCapabilities)
    ensures
        capabilities.deep_view() == advertised(router@, position_encoding.deep_view()),
{
    let mut capabilities = router.generated_capabilities();
    capabilities.position_encoding = Some(position_encoding);
    capabilities.text_document_sync = Some(router.document_sync().capability);
    let mut workspace = match capabilities.workspace {
        Some(workspace) => workspace,
        None => WorkspaceOptions::default(),
    };
    workspace.workspace_folders = Some(
        WorkspaceFoldersServerCapabilities {
            supported: Some(true),
            change_notifications: Some(true),
        },
    );
    capabilities.workspace = Some(workspace);
    capabilities
}

impl<H, T> ProtocolEngine<H, T> {
    /// Take one notification.
    pub fn dispatch_notification(&mut self, method: String, params: Vec<u8>) -> (step: Step<H, T>)
        requires
            old(self).wf(),
        ensures
            final(self).wf(),
            (Next { engine: final(self)@, step: step@ }) == old(self)@.on_notification(
                method@,
                params@,
            ),
    {
        if same_text(method.as_str(), "exit") {
            return self.exit();
        }
        if same_text(method.as_str(), "$/cancelRequest") {
            return self.cancel_request(&params);
        }
        if same_text(method.as_str(), "initialized") {
            return self.initialized(&params);
        }
        let mut effects = no_effects();
        // Outside the running state only the lifecycle and completion
        // notifications handled above are processed: before `initialize` there is
        // no Router, and after `shutdown` the connection accepts no further user
        // work.
        if !self.is_running() {
            self.report(&mut effects, ConnectionFailureCategory::Protocol, None, None);
            let step = Step { effects, flow: Flow::Continue };
            assert(step@.effects =~= self@.report(
                ConnectionFailureCategory::Protocol,
                None,
                None,
            ));
            return step;
        }
        match ProtocolNotification::from_method(method.as_str()) {
            Some(built_in) => self.dispatch_built_in(built_in, method, params),
            None => self.route_notification(effects, method, params),
        }
    }

    fn is_running(&self) -> (running: bool)
        ensures
            running == (self@.lifecycle is Running),
    {
        match &self.lifecycle {
            Lifecycle::Running(_) => true,
            _ => false,
        }
    }

    /// Take `exit`.
    ///
    /// The exit hook observes the ending first, after a successful initialize
    /// transaction. It cannot change the outcome: the exit code derives from
    /// protocol-owned lifecycle state alone.
    fn exit(&mut self) -> (step: Step<H, T>)
        requires
            old(self).wf(),
        ensures
            final(self).wf(),
            (Next { engine: final(self)@, step: step@ }) == old(self)@.on_exit_notification(),
    {
        let mut effects = no_effects();
        let shutting_down = match &self.lifecycle {
            Lifecycle::ShuttingDown => true,
            _ => false,
        };
        let established = shutting_down || self.is_running();
        let hook = if established {
            self.parked.on_exit.take()
        } else {
            self.report(&mut effects, ConnectionFailureCategory::Protocol, Some("exit"), None);
            assert(effects_view(effects@) =~= self@.report(
                ConnectionFailureCategory::Protocol,
                Some("exit"@),
                None,
            ));
            None
        };
        let code: i32 = if shutting_down {
            0
        } else {
            1
        };
        Step { effects, flow: Flow::Exit { hook, code } }
    }

    /// Take `$/cancelRequest`: claim the response of the named request, fire its
    /// token and answer it as cancelled. Its place stays taken until its task is
    /// reaped.
    fn cancel_request(&mut self, params: &Vec<u8>) -> (step: Step<H, T>)
        requires
            old(self).wf(),
        ensures
            final(self).wf(),
            (Next { engine: final(self)@, step: step@ }) == old(self)@.on_cancel(params@),
    {
        let mut effects = no_effects();
        match decode_cancel(params) {
            Ok(id) => {
                if let Some(reservation) = self.inbound.claim_cancellation(&id) {
                    push_effect(&mut effects, Effect::Cancel(reservation.serial()));
                    push_effect(
                        &mut effects,
                        Effect::Send(error_response(id, &LspError::RequestCancelled)),
                    );
                    assert(effects_view(effects@) =~= seq![
                        EffectView::<T>::Cancel(reservation@.serial),
                        EffectView::<T>::Send(
                            error_answer(id.deep_view(), LspErrorView::RequestCancelled),
                        ),
                    ]);
                }
            },
            Err(_) => {
                self.report(
                    &mut effects,
                    ConnectionFailureCategory::Protocol,
                    Some("$/cancelRequest"),
                    None,
                );
                assert(effects_view(effects@) =~= self@.report(
                    ConnectionFailureCategory::Protocol,
                    Some("$/cancelRequest"@),
                    None,
                ));
            },
        }
        Step { effects, flow: Flow::Continue }
    }

    /// Take `initialized`.
    ///
    /// The hook runs at most once, and only in the running state: elsewhere the
    /// notification is ignored without consuming the hook, so a later, valid one
    /// still runs it. The params are decoded before the hook is taken, so a
    /// malformed notification leaves it in place too.
    fn initialized(&mut self, params: &Vec<u8>) -> (step: Step<H, T>)
        requires
            old(self).wf(),
        ensures
            final(self).wf(),
            (Next { engine: final(self)@, step: step@ }) == old(
                self,
            )@.on_initialized_notification(params@),
    {
        let mut effects = no_effects();
        let accepted = self.is_running() && decode_initialized_params(params).is_ok();
        if !accepted {
            self.report(
                &mut effects,
                ConnectionFailureCategory::Protocol,
                Some("initialized"),
                None,
            );
            assert(effects_view(effects@) =~= self@.report(
                ConnectionFailureCategory::Protocol,
                Some("initialized"@),
                None,
            ));
            return Step { effects, flow: Flow::Continue };
        }
        match self.parked.on_initialized.take() {
            Some(hook) => Step { effects, flow: Flow::Initialized(hook) },
            None => Step { effects, flow: Flow::Continue },
        }
    }

    /// Take a protocol-owned notification.
    ///
    /// Its validation and any mutation run here, before anything user-registered
    /// is reached, so the hook — and every later message — observes the mutated
    /// state. A failure is reported and skips the hook.
    fn dispatch_built_in(
        &mut self,
        built_in: ProtocolNotification,
        method: String,
        params: Vec<u8>,
    ) -> (step: Step<H, T>)
        requires
            old(self).wf(),
        ensures
            final(self).wf(),
            (Next { engine: final(self)@, step: step@ }) == old(self)@.on_built_in(
                built_in,
                method@,
                params@,
            ),
    {
        let mut effects = no_effects();
        if !self.accepts_protocol_notification(built_in) {
            return Step { effects, flow: Flow::Continue };
        }
        let category = match self.process_protocol_notification(
            &mut effects,
            built_in,
            &params,
        ) {
            Ok(BuiltInGate::RunHook) => return self.route_notification(effects, method, params),
            Ok(BuiltInGate::ProtocolFailure) => ConnectionFailureCategory::Protocol,
            Err(BuiltInError::Protocol(_)) => ConnectionFailureCategory::Protocol,
            Err(BuiltInError::Overload(_)) => ConnectionFailureCategory::Overload,
        };
        assert(self@.client.queue == old(self)@.client.queue);
        self.report(&mut effects, category, Some(method.as_str()), None);
        Step { effects, flow: Flow::Continue }
    }

    /// Hand a notification to the Service stack: a custom route or a built-in's
    /// post-validation hook.
    fn route_notification(&self, effects: Vec<Effect<T>>, method: String, params: Vec<u8>) -> (step:
        Step<H, T>)
        requires
            self.wf(),
        ensures
            (Next { engine: self@, step: step@ }) == self@.on_routed(
                effects_view(effects@),
                method@,
                params@,
            ),
    {
        match decode_value(&params) {
            Ok(params) => Step { effects, flow: Flow::Notify { method, params } },
            Err(_) => {
                let mut effects = effects;
                self.report(&mut effects, ConnectionFailureCategory::Protocol, None, None);
                Step { effects, flow: Flow::Continue }
            },
        }
    }

    /// Whether a built-in is switched on.
    pub fn accepts_protocol_notification(&self, built_in: ProtocolNotification) -> (accepted: bool)
        ensures
            accepted == accepts(self@.sync, built_in),
    {
        let sync = self.document_sync;
        let unsynced = sync.change == Some(TextDocumentSyncKind::Unsynced);
        match built_in {
            ProtocolNotification::WorkspaceFolders
            | ProtocolNotification::Configuration
            | ProtocolNotification::Trace
            | ProtocolNotification::ProgressCancel => true,
            ProtocolNotification::Open | ProtocolNotification::Close => !unsynced
                && sync.open_close == Some(true),
            ProtocolNotification::Change => sync.change == Some(TextDocumentSyncKind::Full)
                || sync.change == Some(TextDocumentSyncKind::Incremental),
            ProtocolNotification::WillSave => !unsynced && sync.will_save == Some(true),
            ProtocolNotification::Save => !unsynced && match sync.save {
                Some(Save::Bool(reported)) => reported,
                Some(Save::SaveOptions(_)) => true,
                None => false,
            },
        }
    }

    /// Validate and, where applicable, mutate for a protocol-owned notification.
    ///
    /// Built-in validation is what the documents themselves can establish: a
    /// change names a document that must already be open, and each of its ranges
    /// must be applicable under the negotiated encoding. A failure skips the
    /// notification's hook, so nothing partial is left for a hook to observe. The
    /// returned gate says whether the hook runs — the work-done progress cancel
    /// built-in skips it for malformed params without an error.
    pub fn process_protocol_notification(
        &mut self,
        effects: &mut Vec<Effect<T>>,
        built_in: ProtocolNotification,
        params: &Vec<u8>,
    ) -> (result: Result<BuiltInGate, BuiltInError>)
        requires
            old(self).wf(),
        ensures
            final(self).wf(),
            processed_as(
                old(self)@.processed(built_in, params@),
                effects_view(old(effects)@),
                final(self)@,
                effects_view(final(effects)@),
                result,
            ),
            final(self)@.client.queue == old(self)@.client.queue,
    {
        match decode_built_in(built_in, params) {
            Ok(decoded) => self.apply_built_in(effects, decoded),
            Err(error) => {
                assert(effects_view(effects@) =~= effects_view(effects@) + Seq::empty());
                if built_in == ProtocolNotification::ProgressCancel {
                    Ok(BuiltInGate::ProtocolFailure)
                } else {
                    Err(BuiltInError::Protocol(error))
                }
            },
        }
    }

    /// Apply the decoded parameters of a protocol-owned notification.
    #[verifier::rlimit(60)]
    pub fn apply_built_in(&mut self, effects: &mut Vec<Effect<T>>, decoded: BuiltInParams) -> (
    result: Result<BuiltInGate, BuiltInError>)
        requires
            old(self).wf(),
        ensures
            final(self).wf(),
            processed_as(
                old(self)@.applied(decoded@),
                effects_view(old(effects)@),
                final(self)@,
                effects_view(final(effects)@),
                result,
            ),
            final(self)@.client.queue == old(self)@.client.queue,
    {
        let ghost before = effects_view(effects@);
        assert(before =~= before + Seq::<EffectView<T>>::empty());
        match decoded {
            BuiltInParams::Open(item) => match self.documents.open(item) {
                Ok(()) => Ok(BuiltInGate::RunHook),
                Err(error) => Err(mutation_failure(error)),
            },
            BuiltInParams::Change(change) => {
                let kind = match self.document_sync.change {
                    Some(kind) => kind,
                    None => TextDocumentSyncKind::Incremental,
                };
                match validate_sync_changes(kind, &change.changes) {
                    Ok(()) => {},
                    Err(error) => return Err(BuiltInError::Protocol(error)),
                }
                match self.documents.apply_changes(
                    change.uri.as_str(),
                    change.version,
                    change.changes,
                ) {
                    Ok(()) => Ok(BuiltInGate::RunHook),
                    Err(error) => Err(mutation_failure(error)),
                }
            },
            BuiltInParams::Close(uri) => {
                // Closing a document that was never opened breaks the ordering,
                // but there is nothing to roll back and no response to carry a
                // complaint. The hook still runs: it observes the same absence a
                // real close would have left behind.
                let _ = self.documents.close(uri.as_str());
                Ok(BuiltInGate::RunHook)
            },
            BuiltInParams::WillSave => Ok(BuiltInGate::RunHook),
            BuiltInParams::Save(text) => {
                let required = match self.document_sync.save {
                    Some(Save::SaveOptions(options)) => options.include_text == Some(true),
                    _ => false,
                };
                if required && text.is_none() {
                    return Err(
                        BuiltInError::Protocol(
                            LspError::InvalidRequest(
                                "didSave text is required by textDocumentSync.save.includeText".to_owned(),
                            ),
                        ),
                    );
                }
                Ok(BuiltInGate::RunHook)
            },
            BuiltInParams::WorkspaceFolders(change) => {
                push_effect(effects, Effect::ChangeFolders(change));
                assert(effects_view(effects@) =~= before + seq![
                    EffectView::<T>::ChangeFolders(change@),
                ]);
                Ok(BuiltInGate::RunHook)
            },
            BuiltInParams::Configuration(settings) => {
                push_effect(effects, Effect::SetConfiguration(settings));
                assert(effects_view(effects@) =~= before + seq![
                    EffectView::<T>::SetConfiguration(json_model(settings)),
                ]);
                Ok(BuiltInGate::RunHook)
            },
            BuiltInParams::Trace(name) => match trace_value(name.as_str()) {
                Some(value) => {
                    self.client.set_trace(value);
                    Ok(BuiltInGate::RunHook)
                },
                None => Err(
                    BuiltInError::Protocol(
                        LspError::InvalidParams(
                            "setTrace value must be off, messages, or verbose".to_owned(),
                        ),
                    ),
                ),
            },
            BuiltInParams::ProgressCancel(token) => {
                match self.client.cancel_progress(&token) {
                    ProgressCancel::Cancelled => {
                        push_effect(effects, Effect::CancelProgress(token));
                        assert(effects_view(effects@) =~= before + seq![
                            EffectView::<T>::CancelProgress(token.deep_view()),
                        ]);
                    },
                    ProgressCancel::NotCancellable => {},
                    ProgressCancel::NotActive => {},
                }
                Ok(BuiltInGate::RunHook)
            },
        }
    }

    /// Take a response. Only positive numeric IDs are allocated for outbound
    /// requests.
    pub fn dispatch_response(&mut self, id: RequestId, result: Result<Vec<u8>, JsonRpcError>) -> (
    step: Step<H, T>)
        requires
            old(self).wf(),
        ensures
            final(self).wf(),
            (Next { engine: final(self)@, step: step@ }) == old(self)@.on_response(
                id.deep_view(),
                result_view(result),
            ),
    {
        let mut effects = no_effects();
        let delivery = match &id {
            RequestId::Number(number) => if *number > 0 {
                self.client.complete(*number as u32, result)
            } else {
                None
            },
            RequestId::String(_) => None,
        };
        match delivery {
            Some(delivery) => {
                push_effect(&mut effects, Effect::Deliver(delivery));
                assert(effects_view(effects@) =~= seq![
                    EffectView::<T>::Deliver(delivery.waiter, delivery.outcome@),
                ]);
            },
            None => {
                self.report(&mut effects, ConnectionFailureCategory::Protocol, None, Some(&id));
                assert(effects_view(effects@) =~= self@.report(
                    ConnectionFailureCategory::Protocol,
                    None,
                    Some(id.deep_view()),
                ));
                if let RequestId::Number(number) = &id {
                    assert(*number > 0 ==> self@.client.registry =~= old(self)@.client.registry);
                }
            },
        }
        Step { effects, flow: Flow::Continue }
    }
}

/// Processing a built-in came out as expected.
pub open spec fn processed_as<H, T>(
    expected: Processed<H, T>,
    before: Seq<EffectView<T>>,
    engine: EngineView<H, T>,
    effects: Seq<EffectView<T>>,
    result: Result<BuiltInGate, BuiltInError>,
) -> bool {
    &&& engine == expected.engine
    &&& effects == before + expected.effects
    &&& match result {
        Ok(gate) => expected.result == Ok::<BuiltInGate, BuiltInErrorView>(gate),
        Err(error) => expected.result == Err::<BuiltInGate, BuiltInErrorView>(error@),
    }
}

/// What came of user dispatch.
#[derive(Debug)]
pub enum ServiceResult {
    /// The handler's result.
    Response(Value),
    /// The handler's error.
    Error(LspError),
    /// Nothing, as a notification gives.
    NoResponse,
}

/// What a [`ServiceResult`] says.
pub enum ServiceView {
    Response(JsonModel),
    Error(LspErrorView),
    NoResponse,
}

impl View for ServiceResult {
    type V = ServiceView;

    open spec fn view(&self) -> ServiceView {
        match *self {
            ServiceResult::Response(value) => ServiceView::Response(json_model(value)),
            ServiceResult::Error(error) => ServiceView::Error(error@),
            ServiceResult::NoResponse => ServiceView::NoResponse,
        }
    }
}

/// The outcome of a request that user dispatch served.
pub open spec fn service_outcome(result: ServiceView, missing: Seq<char>) -> Result<
    Seq<u8>,
    LspErrorView,
> {
    match result {
        ServiceView::Response(value) => body_of(value),
        ServiceView::Error(error) => Err(error),
        ServiceView::NoResponse => Err(LspErrorView::Internal(missing)),
    }
}

/// The outcome of a request that user dispatch served; a handler without a
/// response is an internal error.
pub fn encode_service_result(result: ServiceResult, missing: &str) -> (outcome: Result<
    Vec<u8>,
    LspError,
>)
    ensures
        outcome_view(outcome) == service_outcome(result@, missing@),
{
    match result {
        ServiceResult::Response(value) => encode_body(&value),
        ServiceResult::Error(error) => Err(error),
        ServiceResult::NoResponse => Err(LspError::Internal(missing.to_owned())),
    }
}

/// What the reader or the session has for the engine.
#[derive(Debug)]
pub enum Input {
    /// Closure was asked for.
    CloseRequested,
    /// A required message could not be retained.
    OutboundFailed,
    /// A message was read.
    Message(RawMessage),
    /// Reading failed, or reached the end.
    ReadFailed(TransportError),
}

/// The cancellations of claimed requests: each token is fired and each request
/// answered as cancelled.
pub open spec fn cancellations<T>(claimed: Seq<ReservationView>) -> Seq<EffectView<T>>
    decreases claimed.len(),
{
    if claimed.len() == 0 {
        Seq::empty()
    } else {
        cancellations(claimed.drop_last()) + seq![
            EffectView::Cancel(claimed.last().serial),
            EffectView::Send(error_answer(claimed.last().id, LspErrorView::RequestCancelled)),
        ]
    }
}

/// The effects of the one close operation: the token of every request in flight
/// is fired, and every pending outbound request resolved as cancelled.
pub open spec fn closes_all<H, T>(before: EngineView<H, T>, effects: Seq<EffectView<T>>) -> bool {
    exists|claimed: Seq<ReservationView>, deliveries: Seq<Delivery<T>>|
        {
            &&& #[trigger] claims_every(before.inbound, claimed)
            &&& #[trigger] cancels_every(before.client.registry.pending, deliveries)
            &&& effects == claimed.map_values(
                |reservation: ReservationView| EffectView::<T>::Cancel(reservation.serial),
            ) + deliveries.map_values(
                |delivery: Delivery<T>| EffectView::Deliver(delivery.waiter, delivery.outcome@),
            )
        }
}

impl<H, T> EngineView<H, T> {
    /// The engine after a cause asks for closure.
    pub open spec fn asked_to_close(self, cause: CloseCause) -> Self {
        EngineView { close: self.close.after(cause), ..self }
    }

    /// What an input leads to.
    pub open spec fn received(self, input: Input, partial_results: bool) -> Next<H, T> {
        match input {
            Input::CloseRequested => self.then_run(Seq::empty(), FlowView::Stop),
            Input::OutboundFailed => self.asked_to_close(CloseCause::WriterFailed).then_run(
                Seq::empty(),
                FlowView::Stop,
            ),
            Input::Message(message) => {
                let next = self.dispatched(message@, partial_results);
                match next.step.flow {
                    FlowView::Close(cause) => next.engine.asked_to_close(cause).then_run(
                        next.step.effects,
                        FlowView::Stop,
                    ),
                    _ => next,
                }
            },
            Input::ReadFailed(TransportError::Closed) => self.asked_to_close(
                CloseCause::ReaderEof,
            ).then_run(Seq::empty(), FlowView::Stop),
            Input::ReadFailed(error) => self.asked_to_close(
                CloseCause::ReaderFailed(error),
            ).then_run(
                self.report(read_failure_category(error), None, None),
                FlowView::Stop,
            ),
        }
    }

    /// The engine after a successful `shutdown`.
    pub open spec fn shut_down(self, reserved: ReservedView) -> Self {
        EngineView {
            inbound: self.settled(reserved).inbound.emptied(),
            lifecycle: LifecycleView::ShuttingDown,
            ..self
        }
    }

    /// The engine after the one close operation.
    pub open spec fn after_close(self) -> Self {
        EngineView {
            lifecycle: LifecycleView::Exited,
            store: StoreView { docs: Map::empty(), bytes: 0, ..self.store },
            inbound: self.inbound.emptied(),
            client: ClientView {
                registry: self.client.registry.drained(),
                progress: Map::empty(),
                phase: Phase::OutboundClosed,
                closing: true,
                ..self.client
            },
            ..self
        }
    }
}

impl<H, T> ProtocolEngine<H, T> {
    /// Take what the reader or the session has. After a [stop](Flow::Stop) the
    /// connection is to be [closed](Self::close).
    #[verifier::spinoff_prover]
    #[verifier::rlimit(40)]
    pub fn receive(&mut self, input: Input, partial_results: bool) -> (step: Step<H, T>)
        requires
            old(self).wf(),
        ensures
            final(self).wf(),
            (Next { engine: final(self)@, step: step@ }) == old(self)@.received(
                input,
                partial_results,
            ),
    {
        let mut effects = no_effects();
        match input {
            Input::CloseRequested => Step { effects, flow: Flow::Stop },
            Input::OutboundFailed => {
                self.request_close(CloseCause::WriterFailed);
                Step { effects, flow: Flow::Stop }
            },
            Input::Message(message) => {
                let step = self.dispatch(message, partial_results);
                match step.flow {
                    Flow::Close(cause) => {
                        self.request_close(cause);
                        Step { effects: step.effects, flow: Flow::Stop }
                    },
                    flow => Step { effects: step.effects, flow },
                }
            },
            Input::ReadFailed(TransportError::Closed) => {
                self.request_close(CloseCause::ReaderEof);
                Step { effects, flow: Flow::Stop }
            },
            Input::ReadFailed(error) => {
                let category = match &error {
                    TransportError::Malformed(_) | TransportError::OversizedMessage { .. } =>
                        ConnectionFailureCategory::Framing,
                    _ => ConnectionFailureCategory::Transport,
                };
                self.report(&mut effects, category, None, None);
                assert(effects_view(effects@) =~= self@.report(category, None, None));
                self.request_close(CloseCause::ReaderFailed(error));
                Step { effects, flow: Flow::Stop }
            },
        }
    }

    /// Ask for closure; the first cause asked for is recorded.
    pub fn request_close(&mut self, cause: CloseCause)
        requires
            old(self).wf(),
        ensures
            final(self).wf(),
            final(self)@ == old(self)@.asked_to_close(cause),
    {
        self.close.request(cause);
    }

    /// Whether closure was asked for.
    pub fn close_requested(&self) -> (requested: bool)
        ensures
            requested == self@.close.requested,
    {
        self.close.is_requested()
    }

    /// The `on_shutdown` hook.
    pub fn shutdown_hook(&self) -> (hook: Option<&H>)
        ensures
            match hook {
                Some(found) => self@.parked.on_shutdown == Some(*found),
                None => self@.parked.on_shutdown is None,
            },
    {
        match &self.parked.on_shutdown {
            Some(hook) => Some(hook),
            None => None,
        }
    }

    /// Go on with `shutdown` once its hook has ended; without a hook it has
    /// succeeded.
    ///
    /// A failure is sent as the response and leaves the connection running, so
    /// that the client may retry. The successful request answers itself first, so
    /// its own entry is gone before the rest of the in-flight work is cancelled;
    /// only then the connection enters its shutting-down state.
    pub fn finish_shutdown(&mut self, reserved: Reserved, hook: Result<(), LspError>) -> (step:
        Step<H, T>)
        requires
            old(self).wf(),
        ensures
            final(self).wf(),
            match hook {
                Err(error) => (Next { engine: final(self)@, step: step@ }) == old(self)@.refused(
                    Seq::empty(),
                    reserved@,
                    error@,
                ),
                Ok(_) => {
                    &&& shut_down_by(
                        old(self)@.settled(reserved@).inbound,
                        old(self)@.response(reserved@.reservation, Ok(null_body())),
                        step@.effects,
                    )
                    &&& step@.flow == FlowView::<H>::Continue
                    &&& final(self)@ == old(self)@.shut_down(reserved@)
                },
            },
    {
        let mut effects = no_effects();
        match hook {
            Err(error) => {
                let step = self.refuse(effects, reserved, error);
                step
            },
            Ok(()) => {
                self.settle(&mut effects, reserved, encode_body(&json_null()));
                let ghost answered = effects_view(effects@);
                assert(answered =~= old(self)@.response(reserved@.reservation, Ok(null_body())));
                let ghost before = self@.inbound;
                let claimed = self.inbound.claim_all();
                let ghost all = claimed@;
                let ghost views = claimed@.map_values(|reservation: Reservation| reservation@);
                assert(views.take(0) =~= Seq::<ReservationView>::empty());
                assert(answered + cancellations::<T>(views.take(0)) =~= answered);
                for reservation in it: claimed
                    invariant
                        it.seq() == all,
                        views == all.map_values(|reservation: Reservation| reservation@),
                        effects_view(effects@) == answered + cancellations::<T>(
                            views.take(it.index() as int),
                        ),
                {
                    let ghost i = it.index() as int;
                    let ghost now = effects_view(effects@);
                    assert(views[i] == reservation@);
                    push_effect(&mut effects, Effect::Cancel(reservation.serial()));
                    push_effect(
                        &mut effects,
                        Effect::Send(
                            error_response(reservation.id().clone(), &LspError::RequestCancelled),
                        ),
                    );
                    assert(views.take(i + 1).drop_last() =~= views.take(i));
                    assert(effects_view(effects@) =~= now + seq![
                        EffectView::<T>::Cancel(reservation@.serial),
                        EffectView::<T>::Send(
                            error_answer(reservation@.id, LspErrorView::RequestCancelled),
                        ),
                    ]);
                    assert(effects_view(effects@) =~= answered + cancellations::<T>(
                        views.take(i + 1),
                    ));
                }
                assert(views.take(views.len() as int) =~= views);
                assert(claims_every(before, views));
                self.lifecycle = Lifecycle::ShuttingDown;
                Step { effects, flow: Flow::Continue }
            },
        }
    }

    /// Go on with a user request once its task has a result: the response to
    /// send, unless another path has claimed it. Its place stays taken until it
    /// is [released](Self::release).
    pub fn finish_call(&mut self, reservation: Reservation, result: ServiceResult) -> (effects: Vec<
        Effect<T>,
    >)
        requires
            old(self).wf(),
        ensures
            final(self).wf(),
            final(self)@ == (EngineView {
                inbound: old(self)@.inbound.completed(reservation@),
                ..old(self)@
            }),
            effects_view(effects@) == old(self)@.response(
                reservation@,
                service_outcome(result@, "request service returned no response"@),
            ),
    {
        let mut effects = no_effects();
        let outcome = encode_service_result(result, "request service returned no response");
        if let Some(message) = self.inbound.complete(reservation, outcome) {
            push_effect(&mut effects, Effect::Send(message));
            assert(effects_view(effects@) =~= seq![EffectView::<T>::Send(message@)]);
        }
        effects
    }

    /// Give the place of an admitted request back once its task is reaped.
    pub fn release(&mut self, permit: Permit)
        requires
            old(self).wf(),
        ensures
            final(self).wf(),
            final(self)@ == (EngineView {
                inbound: old(self)@.inbound.released(permit@),
                ..old(self)@
            }),
    {
        self.inbound.release(permit);
    }

    /// The engine's one close operation.
    ///
    /// Every close cause runs exactly these steps, and a second call is a no-op:
    /// new outbound work is rejected, the session is cancelled, every pending
    /// request to the peer is resolved, the inbound, outbound, and progress
    /// registries are emptied, the outbound queue is closed to new messages, and
    /// the documents are released.
    pub fn close(&mut self) -> (effects: Vec<Effect<T>>)
        requires
            old(self).wf(),
        ensures
            final(self).wf(),
            old(self)@.lifecycle is Exited ==> final(self)@ == old(self)@ && effects_view(
                effects@,
            ) == Seq::<EffectView<T>>::empty(),
            !(old(self)@.lifecycle is Exited) ==> final(self)@ == old(self)@.after_close()
                && closes_all(old(self)@, effects_view(effects@)),
    {
        let mut effects = no_effects();
        if let Lifecycle::Exited = &self.lifecycle {
            return effects;
        }
        self.lifecycle = Lifecycle::Exited;
        self.client.close_connection();
        let claimed = self.inbound.claim_all();
        let ghost reservations = claimed@;
        let ghost views = claimed@.map_values(|reservation: Reservation| reservation@);
        let ghost fired = views.map_values(
            |reservation: ReservationView| EffectView::<T>::Cancel(reservation.serial),
        );
        for reservation in it: claimed
            invariant
                it.seq() == reservations,
                views == reservations.map_values(|reservation: Reservation| reservation@),
                fired == views.map_values(
                    |reservation: ReservationView| EffectView::<T>::Cancel(reservation.serial),
                ),
                effects_view(effects@) =~= fired.take(it.index() as int),
        {
            push_effect(&mut effects, Effect::Cancel(reservation.serial()));
        }
        let deliveries = self.client.close_all();
        let ghost resolved = deliveries@;
        let ghost told = deliveries@.map_values(
            |delivery: Delivery<T>| EffectView::Deliver(delivery.waiter, delivery.outcome@),
        );
        assert(effects_view(effects@) =~= fired + told.take(0));
        for delivery in it: deliveries
            invariant
                it.seq() == resolved,
                told == resolved.map_values(
                    |delivery: Delivery<T>| EffectView::Deliver(
                        delivery.waiter,
                        delivery.outcome@,
                    ),
                ),
                effects_view(effects@) =~= fired + told.take(it.index() as int),
        {
            push_effect(&mut effects, Effect::Deliver(delivery));
        }
        self.client.clear_progress();
        self.client.close_outbound();
        self.documents.clear();
        proof {
            assert(told.take(told.len() as int) =~= told);
            assert(effects_view(effects@) =~= fired + told);
            assert(claims_every(old(self)@.inbound, views));
            assert(cancels_every(old(self)@.client.registry.pending, resolved));
            assert(self@ =~= old(self)@.after_close());
        }
        effects
    }

    /// How the connection ended: what the recorded cause maps to, or a failed
    /// writer where a required message could not be retained.
    pub fn finish(&mut self) -> (result: Result<Outcome, Error>)
        requires
            old(self).wf(),
            old(self)@.close.cause is Some,
        ensures
            final(self).wf(),
            result == if old(self)@.client.queue.failed {
                Ok::<Outcome, Error>(Outcome::WriterFailed)
            } else {
                match old(self)@.close.cause->0 {
                    CloseCause::Exit { code } => Ok(Outcome::Exit { code }),
                    CloseCause::ReaderEof => Ok(Outcome::TransportClosed),
                    CloseCause::ReaderFailed(error) => Err(Error::Transport(error)),
                    CloseCause::WriterFailed => Ok(Outcome::WriterFailed),
                    CloseCause::InitializeFailed => Ok(Outcome::InitializeFailed),
                }
            },
    {
        let failed = self.client.outbound_failed();
        final_close_cause(&mut self.close, failed).into_result()
    }

    /// The frozen Router of the running state.
    pub fn router(&self) -> (router: Option<&Router<H>>)
        ensures
            match router {
                Some(found) => self@.lifecycle == LifecycleView::Running(found@),
                None => !(self@.lifecycle is Running),
            },
    {
        match &self.lifecycle {
            Lifecycle::Running(router) => Some(router),
            _ => None,
        }
    }

    /// The connection's documents.
    pub fn documents(&self) -> (documents: &Documents)
        requires
            self.wf(),
        ensures
            documents@ == self@.store,
            documents.wf(),
    {
        &self.documents
    }

    /// The handle to the peer.
    pub fn client(&self) -> (client: &ClientHandle<H, T>)
        requires
            self.wf(),
        ensures
            client@ == self@.client,
            client.wf(),
    {
        &self.client
    }

    /// The handle to the peer, to be used.
    pub fn client_mut(&mut self) -> (client: &mut ClientHandle<H, T>)
        requires
            old(self).wf(),
        ensures
            client.wf(),
            client@ == old(self)@.client,
            final(client).wf() ==> final(self).wf(),
            final(self)@ == (EngineView { client: final(client)@, ..old(self)@ }),
    {
        &mut self.client
    }

    /// Enqueue a message that the connection cannot go on without, whose envelope
    /// has a size.
    pub fn enqueue(&mut self, message: RawMessage, size: Result<usize, String>)
        requires
            old(self).wf(),
        ensures
            final(self).wf(),
            final(self)@ == (EngineView {
                client: ClientView {
                    queue: old(self)@.client.queue.sent_required(
                        message@,
                        crate::outbound::size_view(size),
                    ),
                    ..old(self)@.client
                },
                ..old(self)@
            }),
    {
        self.client.send_required(message, size);
    }
}

/// The effects of a successful shutdown: its own answer, and then the
/// cancellation of every other request in flight, each once.
pub open spec fn shut_down_by<T>(
    inbound: InboundView,
    answered: Seq<EffectView<T>>,
    effects: Seq<EffectView<T>>,
) -> bool {
    exists|claimed: Seq<ReservationView>|
        #[trigger] claims_every(inbound, claimed) && effects == answered + cancellations::<T>(
            claimed,
        )
}

} // verus!
