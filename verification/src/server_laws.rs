//! What the server's engine does with each message, in terms of the message and
//! of the state it finds.
use vstd::prelude::*;

use crate::builder::{is_reserved_method, ProtocolNotification, RouterView};
use crate::codec::{field_token, says_nothing};
use crate::documents::{negotiated, PositionEncoding};
use crate::engine::{accepts, advertised, encodings_named, EngineView, Next};
use crate::error::LspErrorView;
use crate::failure::{
    ConnectionDirection, ConnectionFailureCategory, ConnectionRequestId, FailureView,
};
use crate::json::{json_entry, parsed_json, token_error, token_of, JsonModel};
use crate::message::{error_answer, JsonRpcErrorView, MessageView, ProgressTokenView, RequestIdView};
use crate::options::{
    PositionEncodingKindView, Save, ServerCapabilitiesView, TextDocumentSyncKind,
    TextDocumentSyncOptions,
};
use crate::outbound::OutcomeView;
use crate::params::{built_in_params, encoding_named, parsed_cancel, parsed_initialize, present};
use crate::session::{InboundEntry, InboundView, ReservationView};
use crate::step::{
    EffectView, FlowView, LifecycleView, ReservedView, ServerInfoView, StepView,
    TransactionStateView,
};

verus! {

/// Two catalogs say the same of everything but the position encoding, the document
/// synchronization and the workspace folders.
pub open spec fn same_features(one: ServerCapabilitiesView, other: ServerCapabilitiesView) -> bool {
    &&& one.completion_provider == other.completion_provider
    &&& one.hover_provider == other.hover_provider
    &&& one.signature_help_provider == other.signature_help_provider
    &&& one.declaration_provider == other.declaration_provider
    &&& one.definition_provider == other.definition_provider
    &&& one.type_definition_provider == other.type_definition_provider
    &&& one.implementation_provider == other.implementation_provider
    &&& one.references_provider == other.references_provider
    &&& one.document_highlight_provider == other.document_highlight_provider
    &&& one.document_symbol_provider == other.document_symbol_provider
    &&& one.code_action_provider == other.code_action_provider
    &&& one.code_lens_provider == other.code_lens_provider
    &&& one.document_link_provider == other.document_link_provider
    &&& one.color_provider == other.color_provider
    &&& one.workspace_symbol_provider == other.workspace_symbol_provider
    &&& one.document_formatting_provider == other.document_formatting_provider
    &&& one.document_range_formatting_provider == other.document_range_formatting_provider
    &&& one.document_on_type_formatting_provider == other.document_on_type_formatting_provider
    &&& one.rename_provider == other.rename_provider
    &&& one.folding_range_provider == other.folding_range_provider
    &&& one.selection_range_provider == other.selection_range_provider
    &&& one.execute_command_provider == other.execute_command_provider
    &&& one.call_hierarchy_provider == other.call_hierarchy_provider
    &&& one.linked_editing_range_provider == other.linked_editing_range_provider
    &&& one.semantic_tokens_provider == other.semantic_tokens_provider
    &&& one.moniker_provider == other.moniker_provider
    &&& one.type_hierarchy_provider == other.type_hierarchy_provider
    &&& one.inline_value_provider == other.inline_value_provider
    &&& one.inlay_hint_provider == other.inlay_hint_provider
    &&& one.diagnostic_provider == other.diagnostic_provider
    &&& (one.workspace is Some && one.workspace->0.file_operations is Some) == (
    other.workspace is Some && other.workspace->0.file_operations is Some)
    &&& one.workspace is Some && one.workspace->0.file_operations is Some
        ==> one.workspace->0.file_operations == other.workspace->0.file_operations
}

/// Everything that was contributed is advertised as it was contributed, and what
/// the protocol owns is laid over it: the encoding, the effective synchronization,
/// and workspace folders with their changes.
pub proof fn law_what_is_contributed_is_advertised<H>(
    router: RouterView<H>,
    encoding: PositionEncodingKindView,
)
    ensures
        ({
            let told = advertised(router, encoding);
            &&& same_features(told, router.capabilities)
            &&& told.position_encoding == Some(encoding)
            &&& told.text_document_sync == Some(router.document_sync.capability)
            &&& told.workspace is Some
            &&& told.workspace->0.workspace_folders matches Some(folders)
            &&& folders.supported == Some(true)
            &&& folders.change_notifications == Some(true)
        }),
{
}

/// Whether a client offers UTF-8 by its wire name.
pub open spec fn offers_utf8(names: Option<Seq<Seq<char>>>) -> bool {
    names is Some && exists|i: int|
        0 <= i < names->0.len() && #[trigger] names->0[i] == "utf-8"@
}

/// UTF-8 is chosen exactly if the client offers it by name.
proof fn lemma_utf8_is_chosen_if_offered(names: Option<Seq<Seq<char>>>)
    ensures
        negotiated(encodings_named(names)) == if offers_utf8(names) {
            PositionEncoding::Utf8
        } else {
            PositionEncoding::Utf16
        },
{
    reveal_strlit("utf-8");
    reveal_strlit("utf-16");
    reveal_strlit("utf-32");
    if let Some(list) = names {
        let kinds = encodings_named(names)->0;
        assert(kinds.len() == list.len());
        assert forall|i: int| 0 <= i < list.len() implies (#[trigger] list[i] == "utf-8"@) == (kinds[i]
            == PositionEncodingKindView::UTF8) by {
            assert(kinds[i] == encoding_named(list[i]));
        }
        if offers_utf8(names) {
            let i = choose|i: int| 0 <= i < list.len() && #[trigger] list[i] == "utf-8"@;
            assert(kinds[i] == PositionEncodingKindView::UTF8);
        }
    }
}

/// The position encoding that is advertised is the one that documents are read in,
/// and it is UTF-8 exactly if the client offered it, UTF-16 otherwise. The frozen
/// Router's catalog, synchronization and handlers are those of the registrations,
/// the hooks are parked, and everything else stays.
pub proof fn law_a_configuration_agrees_with_what_it_advertises<H, T>(
    engine: EngineView<H, T>,
    transaction: TransactionStateView<H>,
)
    requires
        transaction.registrar.failure() is None,
    ensures
        ({
            let next = engine.on_configured(transaction, true);
            let utf8 = offers_utf8(transaction.facts.encodings);
            let registrations = transaction.registrar.registrations;
            &&& next.step.effects.len() == 0
            &&& next.step.flow matches FlowView::Greet(greeting)
            &&& (next.engine.store.encoding == PositionEncoding::Utf8) == utf8
            &&& (next.engine.store.encoding == PositionEncoding::Utf16) == !utf8
            &&& greeting.capabilities.position_encoding == Some(
                if utf8 {
                    PositionEncodingKindView::UTF8
                } else {
                    PositionEncodingKindView::UTF16
                },
            )
            &&& same_features(greeting.capabilities, registrations.catalog.finish())
            &&& greeting.capabilities.text_document_sync == Some(
                greeting.router.document_sync.capability,
            )
            &&& next.engine.sync == greeting.router.document_sync.options
            &&& greeting.router == registrations.frozen()
            &&& greeting.router.requests == registrations.requests
            &&& greeting.router.notifications == registrations.notifications
            &&& greeting.router.built_in_hooks == registrations.built_in_hooks
            &&& greeting.router.commands == registrations.commands
            &&& greeting.reserved == transaction.reserved
            &&& greeting.params == transaction.params
            &&& greeting.work_done_token == transaction.facts.work_done_token
            &&& greeting.hook == transaction.on_initialize
            &&& greeting.layers == transaction.layers
            &&& greeting.file_provider == transaction.file_provider
            &&& next.engine.parked == transaction.parked
            &&& next.engine.store.docs == engine.store.docs
            &&& next.engine.store.bytes == engine.store.bytes
            &&& next.engine.store.max_documents == engine.store.max_documents
            &&& next.engine.store.max_document_bytes == engine.store.max_document_bytes
            &&& next.engine.lifecycle == engine.lifecycle
            &&& next.engine.inbound == engine.inbound
            &&& next.engine.client == engine.client
            &&& next.engine.close == engine.close
        }),
{
    lemma_utf8_is_chosen_if_offered(transaction.facts.encodings);
    law_what_is_contributed_is_advertised(
        transaction.registrar.registrations.frozen(),
        crate::documents::kind_of(
            negotiated(encodings_named(transaction.facts.encodings)),
        ).deep_view(),
    );
}

/// The result that answers `initialize` holds every capability that was
/// contributed: a registered hover handler, say, makes the hover provider true in
/// what is sent.
pub proof fn law_what_is_contributed_is_sent<H, T>(
    engine: EngineView<H, T>,
    transaction: TransactionStateView<H>,
    info: Option<ServerInfoView>,
)
    requires
        transaction.registrar.failure() is None,
        engine.inbound.entries.dom().contains(transaction.reserved.reservation.id),
        engine.inbound.entries[transaction.reserved.reservation.id].serial
            == transaction.reserved.reservation.serial,
    ensures
        engine.on_configured(transaction, true).step.flow matches FlowView::Greet(greeting) && {
            let next = engine.on_configured(transaction, true).engine.on_greeted(
                greeting,
                Ok(info),
            );
            &&& next.step.flow == FlowView::<H>::Continue
            &&& next.step.effects.len() == 1
            &&& next.step.effects[0] matches EffectView::Greet { id, result }
            &&& id == transaction.reserved.reservation.id
            &&& same_features(
                result.capabilities,
                transaction.registrar.registrations.catalog.finish(),
            )
            &&& transaction.registrar.registrations.catalog.caps.hover_provider == Some(
                true,
            ) ==> result.capabilities.hover_provider == Some(true)
            &&& result.capabilities.position_encoding == Some(
                if next.engine.store.encoding == PositionEncoding::Utf8 {
                    PositionEncodingKindView::UTF8
                } else {
                    PositionEncodingKindView::UTF16
                },
            )
            &&& result.server_info == info
            &&& next.engine.lifecycle == LifecycleView::Running(
                transaction.registrar.registrations.frozen(),
            )
            &&& !next.engine.inbound.entries.dom().contains(id)
        },
{
    law_a_configuration_agrees_with_what_it_advertises(engine, transaction);
}

/// The bytes that parameters are decoded from: those given, or an empty object
/// where none are.
pub open spec fn given(params: Seq<u8>) -> Seq<u8> {
    if params.len() == 0 {
        seq![123u8, 125u8]
    } else {
        params
    }
}

/// The notifications whose effect the engine owns, by their wire names.
pub open spec fn is_owned(method: Seq<char>) -> bool {
    ||| method == "textDocument/didOpen"@
    ||| method == "textDocument/didChange"@
    ||| method == "textDocument/didClose"@
    ||| method == "textDocument/willSave"@
    ||| method == "textDocument/didSave"@
    ||| method == "workspace/didChangeWorkspaceFolders"@
    ||| method == "workspace/didChangeConfiguration"@
    ||| method == "$/setTrace"@
    ||| method == "window/workDoneProgress/cancel"@
}

/// The notifications of the lifecycle.
pub open spec fn is_lifecycle(method: Seq<char>) -> bool {
    method == "exit"@ || method == "initialized"@ || method == "$/cancelRequest"@
}

/// The methods of the lifecycle cannot be registered, and no others.
pub proof fn law_the_lifecycle_is_reserved(method: Seq<char>)
    ensures
        is_reserved_method(method) <==> is_lifecycle(method) || method == "initialize"@ || method
            == "shutdown"@,
{
}

/// A wire name stands for the built-in it names, and any other for none.
pub proof fn law_built_ins_are_known_by_their_names(method: Seq<char>)
    ensures
        ProtocolNotification::of_method("textDocument/didOpen"@) == Some(
            ProtocolNotification::Open,
        ),
        ProtocolNotification::of_method("textDocument/didChange"@) == Some(
            ProtocolNotification::Change,
        ),
        ProtocolNotification::of_method("textDocument/didClose"@) == Some(
            ProtocolNotification::Close,
        ),
        ProtocolNotification::of_method("textDocument/willSave"@) == Some(
            ProtocolNotification::WillSave,
        ),
        ProtocolNotification::of_method("textDocument/didSave"@) == Some(
            ProtocolNotification::Save,
        ),
        ProtocolNotification::of_method("workspace/didChangeWorkspaceFolders"@) == Some(
            ProtocolNotification::WorkspaceFolders,
        ),
        ProtocolNotification::of_method("workspace/didChangeConfiguration"@) == Some(
            ProtocolNotification::Configuration,
        ),
        ProtocolNotification::of_method("$/setTrace"@) == Some(ProtocolNotification::Trace),
        ProtocolNotification::of_method("window/workDoneProgress/cancel"@) == Some(
            ProtocolNotification::ProgressCancel,
        ),
        is_owned(method) == (ProtocolNotification::of_method(method) is Some),
{
    lemma_named(ProtocolNotification::Open);
    lemma_named(ProtocolNotification::Change);
    lemma_named(ProtocolNotification::Close);
    lemma_named(ProtocolNotification::WillSave);
    lemma_named(ProtocolNotification::Save);
    lemma_named(ProtocolNotification::WorkspaceFolders);
    lemma_named(ProtocolNotification::Configuration);
    lemma_named(ProtocolNotification::Trace);
    lemma_named(ProtocolNotification::ProgressCancel);
    if exists|b: ProtocolNotification| #[trigger] b.method() == method {
        let b = choose|b: ProtocolNotification| #[trigger] b.method() == method;
        match b {
            ProtocolNotification::Open => {},
            ProtocolNotification::Change => {},
            ProtocolNotification::Close => {},
            ProtocolNotification::WillSave => {},
            ProtocolNotification::Save => {},
            ProtocolNotification::WorkspaceFolders => {},
            ProtocolNotification::Configuration => {},
            ProtocolNotification::Trace => {},
            ProtocolNotification::ProgressCancel => {},
        }
    }
}

proof fn lemma_named(built_in: ProtocolNotification)
    ensures
        ProtocolNotification::of_method(built_in.method()) == Some(built_in),
{
    let chosen = choose|b: ProtocolNotification| #[trigger] b.method() == built_in.method();
    ProtocolNotification::lemma_methods_differ(chosen, built_in);
}

/// What the error hook is told of an inbound failure: nothing without a hook, and
/// else the class, the connection, the method where it is known, and the request,
/// of a textual one no more than that it is textual.
pub open spec fn told<H, T>(
    engine: EngineView<H, T>,
    category: ConnectionFailureCategory,
    method: Option<Seq<char>>,
    id: Option<RequestIdView>,
) -> Seq<EffectView<T>> {
    if engine.client.queue.reporter.hooked {
        seq![
            EffectView::Report(
                FailureView {
                    category,
                    connection_id: engine.client.queue.reporter.connection_id,
                    direction: Some(ConnectionDirection::Inbound),
                    method,
                    request_id: match id {
                        None => None,
                        Some(RequestIdView::Number(number)) => Some(
                            ConnectionRequestId::Number(number),
                        ),
                        Some(RequestIdView::String(_)) => Some(ConnectionRequestId::String),
                    },
                },
            ),
        ]
    } else {
        Seq::empty()
    }
}

/// A report tells the hook what it is to be told, if there is a hook.
pub proof fn law_a_report_tells_the_hook<H, T>(
    engine: EngineView<H, T>,
    category: ConnectionFailureCategory,
    method: Option<Seq<char>>,
    id: Option<RequestIdView>,
)
    ensures
        engine.report(category, method, id) == told(engine, category, method, id),
{
}

/// Nothing happens but effects.
pub open spec fn just<H, T>(engine: EngineView<H, T>, effects: Seq<EffectView<T>>) -> Next<H, T> {
    Next { engine, step: StepView { effects, flow: FlowView::Continue } }
}

/// Something is run after effects.
pub open spec fn run<H, T>(
    engine: EngineView<H, T>,
    effects: Seq<EffectView<T>>,
    flow: FlowView<H>,
) -> Next<H, T> {
    Next { engine, step: StepView { effects, flow } }
}

/// In the running state, a notification that neither the lifecycle nor the engine
/// owns is handed to its handler with its method and its decoded parameters, and
/// changes nothing itself; one that does not decode is reported without its method
/// and runs nothing. In any other state it is reported and runs nothing.
#[verifier::spinoff_prover]
pub proof fn law_other_notifications_reach_their_handler<H, T>(
    engine: EngineView<H, T>,
    method: Seq<char>,
    params: Seq<u8>,
    partial_results: bool,
)
    requires
        !is_lifecycle(method),
        !is_owned(method),
    ensures
        ({
            let message = MessageView::Notification { method, params };
            let next = engine.dispatched(message, partial_results);
            &&& engine.lifecycle is Running ==> match parsed_json(given(params)) {
                Ok(value) => next == run(
                    engine,
                    Seq::empty(),
                    FlowView::Notify { method, params: value },
                ),
                Err(_) => next == just(
                    engine,
                    told(engine, ConnectionFailureCategory::Protocol, None, None),
                ),
            }
            &&& !(engine.lifecycle is Running) ==> next == just(
                engine,
                told(engine, ConnectionFailureCategory::Protocol, None, None),
            )
        }),
{
    law_built_ins_are_known_by_their_names(method);
    assert(Seq::<EffectView<T>>::empty() + engine.report(
        ConnectionFailureCategory::Protocol,
        None,
        None,
    ) =~= told(engine, ConnectionFailureCategory::Protocol, None, None));
}

/// The token that parameters hold in a field: a missing or a null field is none,
/// and a value that is no token is an error.
pub open spec fn token_in(value: JsonModel, field: Seq<char>) -> Result<
    Option<ProgressTokenView>,
    Seq<char>,
> {
    match json_entry(value, field) {
        None => Ok(None),
        Some(entry) => if entry is Null {
            Ok(None)
        } else {
            match token_of(entry) {
                Some(token) => Ok(Some(token)),
                None => Err(token_error()),
            }
        },
    }
}

/// The error response to a request.
pub open spec fn failed(id: RequestIdView, code: int, message: Seq<char>) -> MessageView {
    MessageView::Response { id, result: Err(JsonRpcErrorView { code, message, data: None }) }
}

/// There is room for a request under an ID.
pub open spec fn has_room(inbound: InboundView, id: RequestIdView) -> bool {
    &&& !inbound.entries.dom().contains(id)
    &&& inbound.permits.len() < inbound.limit
    &&& inbound.next_serial < u64::MAX
}

/// The registry with a request in flight.
pub open spec fn holding(
    inbound: InboundView,
    id: RequestIdView,
    cancellable: bool,
) -> InboundView {
    InboundView {
        limit: inbound.limit,
        entries: inbound.entries.insert(
            id,
            InboundEntry { serial: inbound.next_serial, cancellable },
        ),
        permits: inbound.permits.insert(inbound.next_serial),
        next_serial: (inbound.next_serial + 1) as u64,
    }
}

/// The request that was admitted last.
pub open spec fn admission(
    inbound: InboundView,
    id: RequestIdView,
    cancellable: bool,
) -> ReservedView {
    ReservedView {
        reservation: ReservationView { id, serial: inbound.next_serial },
        permit: inbound.next_serial,
        cancellable,
    }
}

/// The engine after a request was admitted and answered at once: its place and its
/// ID are free again, and its number is spent.
pub open spec fn after_refusal<H, T>(engine: EngineView<H, T>) -> EngineView<H, T> {
    EngineView {
        inbound: InboundView {
            next_serial: (engine.inbound.next_serial + 1) as u64,
            ..engine.inbound
        },
        ..engine
    }
}

/// Admitting a request and taking it back leaves nothing but a spent number.
proof fn lemma_refusals_leave_nothing<H, T>(
    engine: EngineView<H, T>,
    id: RequestIdView,
    cancellable: bool,
    reported: Seq<EffectView<T>>,
    error: LspErrorView,
)
    requires
        has_room(engine.inbound, id),
        !engine.inbound.permits.contains(engine.inbound.next_serial),
    ensures
        engine.inbound.refusal(id) is None,
        engine.inbound.reserved(id, cancellable) == holding(engine.inbound, id, cancellable),
        ({
            let held = EngineView { inbound: holding(engine.inbound, id, cancellable), ..engine };
            held.refused(reported, admission(engine.inbound, id, cancellable), error) == just(
                after_refusal(engine),
                reported + seq![EffectView::Send(error_answer(id, error))],
            )
        }),
{
    let inbound = holding(engine.inbound, id, cancellable);
    let held = EngineView { inbound, ..engine };
    let reserved = admission(engine.inbound, id, cancellable);
    assert(inbound.owns(reserved.reservation));
    assert(inbound.entries.remove(id) =~= engine.inbound.entries);
    assert(inbound.permits.remove(reserved.permit) =~= engine.inbound.permits);
    assert(held.settled(reserved) =~= after_refusal(engine));
}

/// In the running state, a request that is neither `initialize` nor `shutdown` is
/// handed to the Service stack with its method, its decoded parameters and the
/// tokens in them, and is in flight from then on. Parameters that do not decode,
/// and tokens that are none, are answered as invalid parameters.
#[verifier::spinoff_prover]
pub proof fn law_user_requests_reach_the_service_stack<H, T>(
    engine: EngineView<H, T>,
    id: RequestIdView,
    method: Seq<char>,
    params: Seq<u8>,
    partial_results: bool,
)
    requires
        engine.lifecycle is Running,
        method != "initialize"@,
        method != "shutdown"@,
        has_room(engine.inbound, id),
        !engine.inbound.permits.contains(engine.inbound.next_serial),
    ensures
        ({
            let next = engine.dispatched(
                MessageView::Request { id, method, params },
                partial_results,
            );
            match parsed_json(given(params)) {
                Err(error) => next == just(
                    after_refusal(engine),
                    told(engine, ConnectionFailureCategory::Protocol, None, Some(id)) + seq![
                        EffectView::Send(failed(id, -32602, error)),
                    ],
                ),
                Ok(value) => {
                    let partial = if partial_results {
                        token_in(value, "partialResultToken"@)
                    } else {
                        Ok(None)
                    };
                    match (token_in(value, "workDoneToken"@), partial) {
                        (Err(error), _) => next == just(
                            after_refusal(engine),
                            seq![EffectView::Send(failed(id, -32602, error))],
                        ),
                        (_, Err(error)) => next == just(
                            after_refusal(engine),
                            seq![EffectView::Send(failed(id, -32602, error))],
                        ),
                        (Ok(work_done), Ok(partial_result)) => {
                            &&& next.engine == (EngineView {
                                inbound: holding(engine.inbound, id, true),
                                ..engine
                            })
                            &&& next.step.effects == Seq::<EffectView<T>>::empty()
                            &&& next.step.flow matches FlowView::Spawn(call)
                            &&& call.method == method
                            &&& call.params == value
                            &&& call.work_done_token == work_done
                            &&& call.partial_result_token == partial_result
                            &&& call.reserved == admission(engine.inbound, id, true)
                        },
                    }
                },
            }
        }),
{
    let none = Seq::<EffectView<T>>::empty();
    match parsed_json(given(params)) {
        Err(error) => {
            let reported = engine.report(ConnectionFailureCategory::Protocol, None, Some(id));
            let error = LspErrorView::InvalidParams(error);
            lemma_refusals_leave_nothing(engine, id, true, reported, error);
        },
        Ok(value) => {
            assert(token_in(value, "workDoneToken"@) == field_token(value, "workDoneToken"@));
            assert(token_in(value, "partialResultToken"@) == field_token(
                value,
                "partialResultToken"@,
            ));
            match token_in(value, "workDoneToken"@) {
                Err(error) => {
                    let error = LspErrorView::InvalidParams(error);
                    lemma_refusals_leave_nothing(engine, id, true, none, error);
                    assert(none + seq![EffectView::<T>::Send(error_answer(id, error))] =~= seq![
                        EffectView::<T>::Send(error_answer(id, error)),
                    ]);
                },
                Ok(_) => {
                    let error = LspErrorView::InvalidParams(
                        token_in(value, "partialResultToken"@)->Err_0,
                    );
                    lemma_refusals_leave_nothing(engine, id, true, none, error);
                    assert(none + seq![EffectView::<T>::Send(error_answer(id, error))] =~= seq![
                        EffectView::<T>::Send(error_answer(id, error)),
                    ]);
                },
            }
        },
    }
}

/// A request under an ID that is in flight is answered as a duplicate, and one
/// that there is no room for is answered as cancelled by the server; neither
/// changes anything.
#[verifier::spinoff_prover]
pub proof fn law_requests_without_room_are_answered<H, T>(
    engine: EngineView<H, T>,
    id: RequestIdView,
    method: Seq<char>,
    params: Seq<u8>,
    partial_results: bool,
)
    ensures
        ({
            let next = engine.dispatched(
                MessageView::Request { id, method, params },
                partial_results,
            );
            let duplicate = engine.inbound.entries.dom().contains(id);
            &&& duplicate ==> next == just(
                engine,
                told(engine, ConnectionFailureCategory::Protocol, None, Some(id)) + seq![
                    EffectView::Send(failed(id, -32600, "duplicate request id"@)),
                ],
            )
            &&& !duplicate && !has_room(engine.inbound, id) ==> next == just(
                engine,
                seq![
                    EffectView::Send(
                        failed(id, -32802, "inbound request capacity exhausted"@),
                    ),
                ],
            )
        }),
{
}

/// Before `initialize` has completed every other request is answered as too early,
/// and after `shutdown` every request as invalid.
#[verifier::spinoff_prover]
pub proof fn law_requests_out_of_phase_are_refused<H, T>(
    engine: EngineView<H, T>,
    id: RequestIdView,
    method: Seq<char>,
    params: Seq<u8>,
    partial_results: bool,
)
    requires
        has_room(engine.inbound, id),
        !engine.inbound.permits.contains(engine.inbound.next_serial),
    ensures
        ({
            let next = engine.dispatched(
                MessageView::Request { id, method, params },
                partial_results,
            );
            let reported = told(engine, ConnectionFailureCategory::Protocol, None, Some(id));
            &&& (engine.lifecycle is Uninitialized || engine.lifecycle is Initializing) && method
                != "initialize"@ ==> next == just(
                after_refusal(engine),
                reported + seq![EffectView::Send(failed(id, -32002, "server not initialized"@))],
            )
            &&& engine.lifecycle is ShuttingDown || engine.lifecycle is Exited ==> next == just(
                after_refusal(engine),
                reported + seq![EffectView::Send(failed(id, -32600, "invalid request"@))],
            )
        }),
{
    let reported = engine.report(ConnectionFailureCategory::Protocol, None, Some(id));
    let cancellable = method != "initialize"@;
    lemma_refusals_leave_nothing(
        engine,
        id,
        cancellable,
        reported,
        LspErrorView::ServerNotInitialized,
    );
    lemma_refusals_leave_nothing(
        engine,
        id,
        cancellable,
        reported,
        LspErrorView::InvalidRequest("invalid request"@),
    );
}

/// The first valid `initialize` starts the transaction with everything that was
/// pending, and cannot be cancelled; a malformed one is answered as such and
/// leaves everything pending; a later one is refused.
#[verifier::spinoff_prover]
pub proof fn law_initialize_starts_the_transaction<H, T>(
    engine: EngineView<H, T>,
    id: RequestIdView,
    params: Seq<u8>,
    partial_results: bool,
)
    requires
        has_room(engine.inbound, id),
        !engine.inbound.permits.contains(engine.inbound.next_serial),
    ensures
        ({
            let next = engine.dispatched(
                MessageView::Request { id, method: "initialize"@, params },
                partial_results,
            );
            let reported = told(
                engine,
                ConnectionFailureCategory::Protocol,
                Some("initialize"@),
                Some(id),
            );
            match engine.lifecycle {
                LifecycleView::Uninitialized(pending) => match parsed_initialize(given(params)) {
                    Ok(facts) => {
                        &&& next.engine == (EngineView {
                            lifecycle: LifecycleView::Initializing,
                            inbound: holding(engine.inbound, id, false),
                            ..engine
                        })
                        &&& next.step.effects == Seq::<EffectView<T>>::empty()
                        &&& next.step.flow matches FlowView::Configure(transaction)
                        &&& transaction.reserved == admission(engine.inbound, id, false)
                        &&& transaction.params == params
                        &&& transaction.facts == facts
                        &&& transaction.callback == pending.configure_initialize
                        &&& transaction.registrar.registrations == pending.registrations
                        &&& transaction.registrar.error is None
                        &&& transaction.on_initialize == pending.on_initialize
                        &&& transaction.parked.on_initialized == pending.on_initialized
                        &&& transaction.parked.on_shutdown == pending.on_shutdown
                        &&& transaction.parked.on_exit == pending.on_exit
                        &&& transaction.layers == pending.layers
                        &&& transaction.file_provider == pending.file_provider
                    },
                    Err(error) => next == just(
                        after_refusal(engine),
                        reported + seq![EffectView::Send(failed(id, -32602, error))],
                    ),
                },
                LifecycleView::Initializing => next == just(
                    after_refusal(engine),
                    reported + seq![
                        EffectView::Send(failed(id, -32600, "server already initialized"@)),
                    ],
                ),
                LifecycleView::Running(_) => next == just(
                    after_refusal(engine),
                    reported + seq![
                        EffectView::Send(failed(id, -32600, "server already initialized"@)),
                    ],
                ),
                _ => true,
            }
        }),
{
    let reported = engine.report(
        ConnectionFailureCategory::Protocol,
        Some("initialize"@),
        Some(id),
    );
    lemma_refusals_leave_nothing(
        engine,
        id,
        false,
        reported,
        LspErrorView::InvalidParams(parsed_initialize(given(params))->Err_0),
    );
    lemma_refusals_leave_nothing(
        engine,
        id,
        false,
        reported,
        LspErrorView::ServerError {
            code: (-32600) as i32,
            message: "server already initialized"@,
            data: None,
        },
    );
}

/// In the running state, `shutdown` without parameters, or with `null`, asks for
/// the shutdown hook and is in flight until it has run; with any other parameters
/// it is answered as invalid.
#[verifier::spinoff_prover]
pub proof fn law_shutdown_asks_for_its_hook<H, T>(
    engine: EngineView<H, T>,
    id: RequestIdView,
    params: Seq<u8>,
    partial_results: bool,
)
    requires
        engine.lifecycle is Running,
        has_room(engine.inbound, id),
        !engine.inbound.permits.contains(engine.inbound.next_serial),
    ensures
        ({
            let next = engine.dispatched(
                MessageView::Request { id, method: "shutdown"@, params },
                partial_results,
            );
            let says_nothing = params.len() == 0 || parsed_json(params) == Ok::<
                JsonModel,
                Seq<char>,
            >(JsonModel::Null);
            &&& says_nothing ==> next == run(
                EngineView { inbound: holding(engine.inbound, id, true), ..engine },
                Seq::empty(),
                FlowView::Shutdown(admission(engine.inbound, id, true)),
            )
            &&& !says_nothing ==> next == just(
                after_refusal(engine),
                told(
                    engine,
                    ConnectionFailureCategory::Protocol,
                    Some("shutdown"@),
                    Some(id),
                ) + seq![
                    EffectView::Send(failed(id, -32602, crate::params::unit_error(params))),
                ],
            )
        }),
{
    reveal_strlit("shutdown");
    reveal_strlit("initialize");
    assert("shutdown"@.len() != "initialize"@.len());
    let reported = engine.report(
        ConnectionFailureCategory::Protocol,
        Some("shutdown"@),
        Some(id),
    );
    lemma_refusals_leave_nothing(
        engine,
        id,
        true,
        reported,
        LspErrorView::InvalidParams(crate::params::unit_error(params)),
    );
}

/// A peer that cancels a request in flight has it answered as cancelled and its
/// token fired, once: the request no longer owns its response, and a second
/// cancellation, or one of a request that is not in flight or cannot be cancelled,
/// does nothing. What is not a cancellation is reported.
#[verifier::spinoff_prover]
pub proof fn law_a_cancelled_request_is_answered_once<H, T>(
    engine: EngineView<H, T>,
    params: Seq<u8>,
    partial_results: bool,
)
    ensures
        ({
            let message = MessageView::Notification { method: "$/cancelRequest"@, params };
            let next = engine.dispatched(message, partial_results);
            match parsed_cancel(given(params)) {
                Err(_) => next == just(
                    engine,
                    told(
                        engine,
                        ConnectionFailureCategory::Protocol,
                        Some("$/cancelRequest"@),
                        None,
                    ),
                ),
                Ok(id) => if engine.inbound.entries.dom().contains(id)
                    && engine.inbound.entries[id].cancellable {
                    let serial = engine.inbound.entries[id].serial;
                    &&& next == just(
                        EngineView {
                            inbound: InboundView {
                                entries: engine.inbound.entries.remove(id),
                                ..engine.inbound
                            },
                            ..engine
                        },
                        seq![
                            EffectView::Cancel(serial),
                            EffectView::Send(failed(id, -32800, "request cancelled"@)),
                        ],
                    )
                    &&& !next.engine.inbound.owns(ReservationView { id, serial })
                    &&& next.engine.dispatched(message, partial_results) == just(
                        next.engine,
                        Seq::<EffectView<T>>::empty(),
                    )
                } else {
                    next == just(engine, Seq::<EffectView<T>>::empty())
                },
            }
        }),
{
    lemma_cancel_is_dispatched(engine, params, partial_results);
    let next = engine.on_cancel(params);
    lemma_cancel_is_dispatched(next.engine, params, partial_results);
}

/// A cancellation is dispatched as one.
#[verifier::spinoff_prover]
proof fn lemma_cancel_is_dispatched<H, T>(
    engine: EngineView<H, T>,
    params: Seq<u8>,
    partial_results: bool,
)
    ensures
        engine.dispatched(
            MessageView::Notification { method: "$/cancelRequest"@, params },
            partial_results,
        ) == engine.on_cancel(params),
{
    reveal_strlit("$/cancelRequest");
    reveal_strlit("exit");
    assert("$/cancelRequest"@.len() != "exit"@.len());
}

/// `exit` runs the exit hook where a session was established, and takes it; its
/// code is 0 exactly after `shutdown`. Without a session it is reported.
#[verifier::spinoff_prover]
pub proof fn law_exit_runs_its_hook<H, T>(
    engine: EngineView<H, T>,
    params: Seq<u8>,
    partial_results: bool,
)
    ensures
        ({
            let message = MessageView::Notification { method: "exit"@, params };
            let next = engine.dispatched(message, partial_results);
            &&& engine.lifecycle is Running || engine.lifecycle is ShuttingDown ==> {
                &&& next.step.effects == Seq::<EffectView<T>>::empty()
                &&& next.step.flow == FlowView::Exit {
                    hook: engine.parked.on_exit,
                    code: if engine.lifecycle is ShuttingDown {
                        0
                    } else {
                        1
                    },
                }
                &&& next.engine.parked.on_exit is None
                &&& next.engine.parked.on_initialized == engine.parked.on_initialized
                &&& next.engine.parked.on_shutdown == engine.parked.on_shutdown
                &&& next.engine == (EngineView { parked: next.engine.parked, ..engine })
            }
            &&& !(engine.lifecycle is Running || engine.lifecycle is ShuttingDown) ==> next == run(
                engine,
                told(engine, ConnectionFailureCategory::Protocol, Some("exit"@), None),
                FlowView::Exit { hook: None, code: 1 },
            )
        }),
{
}

/// `initialized` in the running state runs the hook that waits for it, once, and
/// nothing where none waits; its parameters are `null` or an empty object. In any
/// other state, and with any other parameters, it is reported.
#[verifier::spinoff_prover]
pub proof fn law_initialized_runs_its_hook<H, T>(
    engine: EngineView<H, T>,
    params: Seq<u8>,
    partial_results: bool,
)
    ensures
        ({
            let message = MessageView::Notification { method: "initialized"@, params };
            let next = engine.dispatched(message, partial_results);
            let nothing = parsed_json(params) matches Ok(value) && (value is Null || (
            value matches JsonModel::Object(entries) && entries.dom().finite()
                && entries.dom().len() == 0));
            &&& engine.lifecycle is Running && nothing ==> match engine.parked.on_initialized {
                None => next == just(engine, Seq::<EffectView<T>>::empty()),
                Some(hook) => {
                    &&& next.step.effects == Seq::<EffectView<T>>::empty()
                    &&& next.step.flow == FlowView::Initialized(hook)
                    &&& next.engine.parked.on_initialized is None
                    &&& next.engine.parked.on_exit == engine.parked.on_exit
                    &&& next.engine.parked.on_shutdown == engine.parked.on_shutdown
                    &&& next.engine == (EngineView { parked: next.engine.parked, ..engine })
                },
            }
            &&& !(engine.lifecycle is Running) || !nothing ==> next == just(
                engine,
                told(engine, ConnectionFailureCategory::Protocol, Some("initialized"@), None),
            )
        }),
{
    reveal_strlit("$/cancelRequest");
    reveal_strlit("exit");
    reveal_strlit("initialized");
    assert("initialized"@.len() != "exit"@.len());
    assert("initialized"@.len() != "$/cancelRequest"@.len());
}

/// A response to a pending request goes to whoever waits for it, and the request
/// is pending no longer; any other is reported. A protocol error is reported and
/// sent back.
#[verifier::spinoff_prover]
pub proof fn law_responses_reach_their_waiter<H, T>(
    engine: EngineView<H, T>,
    id: RequestIdView,
    result: Result<Seq<u8>, JsonRpcErrorView>,
    error: JsonRpcErrorView,
    partial_results: bool,
)
    ensures
        ({
            let next = engine.dispatched(MessageView::Response { id, result }, partial_results);
            let pending = engine.client.registry.pending;
            let waits = id matches RequestIdView::Number(number) && number > 0
                && pending.dom().contains(number as u32);
            &&& waits ==> {
                let number = id->Number_0 as u32;
                &&& next.step.effects == seq![
                    EffectView::Deliver(pending[number], OutcomeView::Response(result)),
                ]
                &&& next.step.flow == FlowView::<H>::Continue
                &&& next.engine.client.registry.pending == pending.remove(number)
                &&& next.engine.client.queue == engine.client.queue
                &&& next.engine.client.progress == engine.client.progress
                &&& next.engine == (EngineView { client: next.engine.client, ..engine })
            }
            &&& !waits ==> next == just(
                engine,
                told(engine, ConnectionFailureCategory::Protocol, None, Some(id)),
            )
            &&& engine.dispatched(MessageView::ProtocolError { error }, partial_results) == just(
                engine,
                told(engine, ConnectionFailureCategory::Protocol, None, None) + seq![
                    EffectView::Send(MessageView::ProtocolError { error }),
                ],
            )
        }),
{
}

/// Whether a synchronization switches an owned notification on: those on documents
/// follow their options, and are off where nothing is synchronized; the others are
/// always on.
pub open spec fn switched_on(sync: TextDocumentSyncOptions, built_in: ProtocolNotification) -> bool {
    let off = sync.change == Some(TextDocumentSyncKind::Unsynced);
    match built_in {
        ProtocolNotification::Open | ProtocolNotification::Close => !off && sync.open_close == Some(
            true,
        ),
        ProtocolNotification::Change => match sync.change {
            Some(TextDocumentSyncKind::Full) | Some(TextDocumentSyncKind::Incremental) => true,
            _ => false,
        },
        ProtocolNotification::WillSave => !off && sync.will_save == Some(true),
        ProtocolNotification::Save => !off && sync.save is Some && sync.save != Some(
            Save::Bool(false),
        ),
        _ => true,
    }
}

/// What is accepted is what is switched on.
proof fn lemma_switched_on(sync: TextDocumentSyncOptions, built_in: ProtocolNotification)
    ensures
        accepts(sync, built_in) == switched_on(sync, built_in),
{
    match built_in {
        ProtocolNotification::Change => match sync.change {
            Some(TextDocumentSyncKind::Full) => {},
            Some(TextDocumentSyncKind::Incremental) => {},
            _ => {},
        },
        ProtocolNotification::Save => match sync.save {
            Some(Save::Bool(value)) => {},
            _ => {},
        },
        _ => {},
    }
}

/// A notification that is switched off does nothing. One that is on is decoded; if
/// it does not decode it is reported under its method and does nothing more.
#[verifier::spinoff_prover]
pub proof fn law_owned_notifications_are_switched_and_decoded<H, T>(
    engine: EngineView<H, T>,
    method: Seq<char>,
    params: Seq<u8>,
    partial_results: bool,
)
    requires
        engine.lifecycle is Running,
        ProtocolNotification::of_method(method) is Some,
    ensures
        ({
            let built_in = ProtocolNotification::of_method(method)->0;
            let message = MessageView::Notification { method, params };
            let next = engine.dispatched(message, partial_results);
            &&& !switched_on(engine.sync, built_in) ==> next == just(
                engine,
                Seq::<EffectView<T>>::empty(),
            )
            &&& switched_on(engine.sync, built_in) && built_in_params(built_in, given(params)) is Err
                ==> next == just(
                engine,
                told(engine, ConnectionFailureCategory::Protocol, Some(method), None),
            )
        }),
{
    law_built_ins_are_known_by_their_names(method);
    lemma_lifecycle_is_not_owned(method);
    lemma_switched_on(engine.sync, ProtocolNotification::of_method(method)->0);
    assert(Seq::<EffectView<T>>::empty() + engine.report(
        ConnectionFailureCategory::Protocol,
        Some(method),
        None,
    ) =~= told(engine, ConnectionFailureCategory::Protocol, Some(method), None));
}

/// No notification of the lifecycle is an owned one.
proof fn lemma_lifecycle_is_not_owned(method: Seq<char>)
    requires
        is_owned(method),
    ensures
        !is_lifecycle(method),
{
    reveal_strlit("textDocument/didOpen");
    reveal_strlit("textDocument/didChange");
    reveal_strlit("textDocument/didClose");
    reveal_strlit("textDocument/willSave");
    reveal_strlit("textDocument/didSave");
    reveal_strlit("workspace/didChangeWorkspaceFolders");
    reveal_strlit("workspace/didChangeConfiguration");
    reveal_strlit("$/setTrace");
    reveal_strlit("window/workDoneProgress/cancel");
    reveal_strlit("exit");
    reveal_strlit("initialized");
    reveal_strlit("$/cancelRequest");
    assert(method.len() != 4 && method.len() != 11 && method.len() != 15);
}

/// A handler of an owned notification is run behind its effects, on what the
/// notification left, if the parameters are JSON at all.
pub open spec fn with_hook<H, T>(
    engine: EngineView<H, T>,
    effects: Seq<EffectView<T>>,
    method: Seq<char>,
    params: Seq<u8>,
) -> Next<H, T> {
    match parsed_json(given(params)) {
        Ok(value) => run(engine, effects, FlowView::Notify { method, params: value }),
        Err(_) => just(
            engine,
            effects + told(engine, ConnectionFailureCategory::Protocol, None, None),
        ),
    }
}

/// What an owned notification leads to.
#[verifier::opaque]
pub open spec fn owned_next<H, T>(
    engine: EngineView<H, T>,
    method: Seq<char>,
    params: Seq<u8>,
) -> Next<H, T> {
    engine.dispatched(MessageView::Notification { method, params }, false)
}

#[verifier::spinoff_prover]
proof fn lemma_owned<H, T>(
    engine: EngineView<H, T>,
    built_in: ProtocolNotification,
    params: Seq<u8>,
)
    requires
        engine.lifecycle is Running,
        switched_on(engine.sync, built_in),
        built_in_params(built_in, given(params)) is Ok,
    ensures
        ({
            let decoded = built_in_params(built_in, given(params))->Ok_0;
            let applied = engine.applied(decoded);
            let method = built_in.method();
            owned_next(engine, method, params) == match applied.result {
                Ok(gate) => if gate is RunHook {
                    with_hook(applied.engine, applied.effects, method, params)
                } else {
                    just(
                        applied.engine,
                        applied.effects + told(
                            engine,
                            ConnectionFailureCategory::Protocol,
                            Some(method),
                            None,
                        ),
                    )
                },
                Err(error) => just(
                    applied.engine,
                    applied.effects + told(engine, error.category(), Some(method), None),
                ),
            }
        }),
{
    reveal(owned_next);
    let method = built_in.method();
    law_built_ins_are_known_by_their_names(method);
    lemma_named(built_in);
    lemma_lifecycle_is_not_owned(method);
    lemma_switched_on(engine.sync, built_in);
    let processed = engine.processed(built_in, params);
    assert(present(params) == given(params));
    assert(processed == engine.applied(built_in_params(built_in, given(params))->Ok_0));
    assert(owned_next(engine, method, params) == engine.on_built_in(built_in, method, params));
}

/// `didOpen` keeps the document, `didClose` forgets it, and each then runs its
/// handler; an open that does not fit is reported as an overload and changes
/// nothing.
#[verifier::spinoff_prover]
pub proof fn law_documents_are_opened_and_closed<H, T>(
    engine: EngineView<H, T>,
    params: Seq<u8>,
)
    requires
        engine.lifecycle is Running,
        engine.sync.change != Some(TextDocumentSyncKind::Unsynced),
        engine.sync.open_close == Some(true),
    ensures
        crate::params::parsed_did_open(given(params)) matches Ok(item) ==> {
            let next = owned_next(engine, "textDocument/didOpen"@, params);
            &&& engine.store.open_refusal(item) is None ==> next == with_hook(
                EngineView { store: engine.store.opened(item), ..engine },
                Seq::empty(),
                "textDocument/didOpen"@,
                params,
            )
            &&& engine.store.open_refusal(item) is Some ==> next == just(
                engine,
                told(
                    engine,
                    ConnectionFailureCategory::Overload,
                    Some("textDocument/didOpen"@),
                    None,
                ),
            )
        },
        crate::params::parsed_did_close(given(params)) matches Ok(uri) ==> owned_next(
            engine,
            "textDocument/didClose"@,
            params,
        ) == with_hook(
            EngineView { store: engine.store.closed(uri), ..engine },
            Seq::empty(),
            "textDocument/didClose"@,
            params,
        ),
{
    if let Ok(item) = crate::params::parsed_did_open(given(params)) {
        lemma_owned(engine, ProtocolNotification::Open, params);
        if engine.store.open_refusal(item) is Some {
            assert(engine.store.opened(item) == engine.store);
            assert(EngineView { store: engine.store.opened(item), ..engine } == engine);
            assert(Seq::<EffectView<T>>::empty() + told(
                engine,
                ConnectionFailureCategory::Overload,
                Some("textDocument/didOpen"@),
                None,
            ) =~= told(
                engine,
                ConnectionFailureCategory::Overload,
                Some("textDocument/didOpen"@),
                None,
            ));
        }
    }
    if let Ok(uri) = crate::params::parsed_did_close(given(params)) {
        lemma_owned(engine, ProtocolNotification::Close, params);
    }
}

/// `didChange` applies its changes and runs its handler. Changes that fail are
/// reported, as an overload where they do not fit, and change nothing; so are
/// changes of a range where whole documents are synchronized.
#[verifier::spinoff_prover]
pub proof fn law_documents_are_changed<H, T>(engine: EngineView<H, T>, params: Seq<u8>)
    requires
        engine.lifecycle is Running,
        engine.sync.change == Some(TextDocumentSyncKind::Full) || engine.sync.change == Some(
            TextDocumentSyncKind::Incremental,
        ),
        crate::params::parsed_did_change(given(params)) is Ok,
    ensures
        ({
            let change = crate::params::parsed_did_change(given(params))->Ok_0;
            let method = "textDocument/didChange"@;
            let next = owned_next(engine, method, params);
            let partial = exists|i: int|
                0 <= i < change.changes.len() && #[trigger] change.changes[i] is Partial;
            if engine.sync.change == Some(TextDocumentSyncKind::Full) && partial {
                next == just(
                    engine,
                    told(engine, ConnectionFailureCategory::Protocol, Some(method), None),
                )
            } else {
                match engine.store.change_result(change.uri, change.changes) {
                    Ok(_) => next == with_hook(
                        EngineView {
                            store: engine.store.changed(
                                change.uri,
                                change.version,
                                change.changes,
                            ),
                            ..engine
                        },
                        Seq::empty(),
                        method,
                        params,
                    ),
                    Err(error) => next == just(
                        engine,
                        told(
                            engine,
                            if error is Capacity {
                                ConnectionFailureCategory::Overload
                            } else {
                                ConnectionFailureCategory::Protocol
                            },
                            Some(method),
                            None,
                        ),
                    ),
                }
            }
        }),
{
    let change = crate::params::parsed_did_change(given(params))->Ok_0;
    let method = "textDocument/didChange"@;
    lemma_owned(engine, ProtocolNotification::Change, params);
    let none = Seq::<EffectView<T>>::empty();
    let protocol = told(engine, ConnectionFailureCategory::Protocol, Some(method), None);
    let overload = told(engine, ConnectionFailureCategory::Overload, Some(method), None);
    assert(none + protocol =~= protocol);
    assert(none + overload =~= overload);
    if exists|i: int| 0 <= i < change.changes.len() && #[trigger] change.changes[i] is Partial {
        let i = choose|i: int|
            0 <= i < change.changes.len() && #[trigger] change.changes[i] is Partial;
        assert(!(change.changes[i] is WholeDocument));
    } else {
        assert forall|i: int| 0 <= i < change.changes.len() implies #[trigger] change.changes[i]
            is WholeDocument by {
            assert(!(change.changes[i] is Partial));
        }
    }
    if engine.store.change_result(change.uri, change.changes) is Err {
        assert(engine.store.changed(change.uri, change.version, change.changes) == engine.store);
        assert(EngineView { store: engine.store, ..engine } == engine);
    }
}

/// `willSave` changes nothing and runs its handler.
#[verifier::spinoff_prover]
pub proof fn law_will_save_runs_its_handler<H, T>(engine: EngineView<H, T>, params: Seq<u8>)
    requires
        engine.lifecycle is Running,
        engine.sync.change != Some(TextDocumentSyncKind::Unsynced),
        engine.sync.will_save == Some(true),
        crate::params::parsed_will_save(given(params)) is Ok,
    ensures
        owned_next(engine, "textDocument/willSave"@, params) == with_hook(
            engine,
            Seq::empty(),
            "textDocument/willSave"@,
            params,
        ),
{
    lemma_owned(engine, ProtocolNotification::WillSave, params);
}

/// `didSave` changes nothing and runs its handler; without the text that was asked
/// for it is reported instead.
#[verifier::spinoff_prover]
pub proof fn law_did_save_runs_its_handler<H, T>(engine: EngineView<H, T>, params: Seq<u8>)
    requires
        engine.lifecycle is Running,
        engine.sync.change != Some(TextDocumentSyncKind::Unsynced),
        engine.sync.save is Some,
        engine.sync.save != Some(Save::Bool(false)),
        crate::params::parsed_did_save(given(params)) is Ok,
    ensures
        ({
            let text = crate::params::parsed_did_save(given(params))->Ok_0;
            let wanted = match engine.sync.save {
                Some(Save::SaveOptions(options)) => options.include_text == Some(true),
                _ => false,
            };
            let method = "textDocument/didSave"@;
            owned_next(engine, method, params) == if wanted && text is None {
                just(
                    engine,
                    told(engine, ConnectionFailureCategory::Protocol, Some(method), None),
                )
            } else {
                with_hook(engine, Seq::empty(), method, params)
            }
        }),
{
    lemma_owned(engine, ProtocolNotification::Save, params);
    let method = "textDocument/didSave"@;
    assert(Seq::<EffectView<T>>::empty() + told(
        engine,
        ConnectionFailureCategory::Protocol,
        Some(method),
        None,
    ) =~= told(engine, ConnectionFailureCategory::Protocol, Some(method), None));
}

/// Changes of the workspace folders and of the configuration are applied as they
/// came, and each then runs its handler.
#[verifier::spinoff_prover]
pub proof fn law_the_workspace_follows_its_notifications<H, T>(
    engine: EngineView<H, T>,
    params: Seq<u8>,
)
    requires
        engine.lifecycle is Running,
    ensures
        crate::params::parsed_folder_change(given(params)) matches Ok(change) ==> owned_next(
            engine,
            "workspace/didChangeWorkspaceFolders"@,
            params,
        ) == with_hook(
            engine,
            seq![EffectView::ChangeFolders(change)],
            "workspace/didChangeWorkspaceFolders"@,
            params,
        ),
        crate::params::parsed_configuration(given(params)) matches Ok(settings) ==> owned_next(
            engine,
            "workspace/didChangeConfiguration"@,
            params,
        ) == with_hook(
            engine,
            seq![EffectView::SetConfiguration(settings)],
            "workspace/didChangeConfiguration"@,
            params,
        ),
{
    if crate::params::parsed_folder_change(given(params)) is Ok {
        lemma_owned(engine, ProtocolNotification::WorkspaceFolders, params);
    }
    if crate::params::parsed_configuration(given(params)) is Ok {
        lemma_owned(engine, ProtocolNotification::Configuration, params);
    }
}

/// `$/setTrace` sets the trace to what its name says and runs its handler; a value
/// of another name is reported and changes nothing.
#[verifier::spinoff_prover]
pub proof fn law_the_trace_is_set_by_name<H, T>(engine: EngineView<H, T>, params: Seq<u8>)
    requires
        engine.lifecycle is Running,
        crate::params::parsed_set_trace(given(params)) is Ok,
    ensures
        ({
            let name = crate::params::parsed_set_trace(given(params))->Ok_0;
            let method = "$/setTrace"@;
            let next = owned_next(engine, method, params);
            let tracing = |value: crate::params::TraceValue| with_hook(
                EngineView {
                    client: crate::client::ClientView { trace: value, ..engine.client },
                    ..engine
                },
                Seq::empty(),
                method,
                params,
            );
            &&& name == "off"@ ==> next == tracing(crate::params::TraceValue::Off)
            &&& name == "messages"@ ==> next == tracing(crate::params::TraceValue::Messages)
            &&& name == "verbose"@ ==> next == tracing(crate::params::TraceValue::Verbose)
            &&& name != "off"@ && name != "messages"@ && name != "verbose"@ ==> next == just(
                engine,
                told(engine, ConnectionFailureCategory::Protocol, Some(method), None),
            )
        }),
{
    reveal_strlit("off");
    reveal_strlit("messages");
    reveal_strlit("verbose");
    assert("off"@.len() != "messages"@.len());
    assert("off"@.len() != "verbose"@.len());
    assert("verbose"@.len() != "messages"@.len());
    lemma_owned(engine, ProtocolNotification::Trace, params);
    let method = "$/setTrace"@;
    assert(Seq::<EffectView<T>>::empty() + told(
        engine,
        ConnectionFailureCategory::Protocol,
        Some(method),
        None,
    ) =~= told(engine, ConnectionFailureCategory::Protocol, Some(method), None));
}

/// Cancelling progress fires its token and marks it, if it is active and may be
/// cancelled, and does nothing to any other; the handler runs either way.
#[verifier::spinoff_prover]
pub proof fn law_progress_is_cancelled_if_it_may_be<H, T>(
    engine: EngineView<H, T>,
    params: Seq<u8>,
)
    requires
        engine.lifecycle is Running,
        crate::params::parsed_progress_cancel(given(params)) is Ok,
    ensures
        ({
            let token = crate::params::parsed_progress_cancel(given(params))->Ok_0;
            let method = "window/workDoneProgress/cancel"@;
            let next = owned_next(engine, method, params);
            let active = engine.client.progress;
            if active.dom().contains(token) && active[token].cancellable {
                next == with_hook(
                    EngineView {
                        client: crate::client::ClientView {
                            progress: active.insert(
                                token,
                                crate::progress::ProgressState { cancelled: true, ..active[token] },
                            ),
                            ..engine.client
                        },
                        ..engine
                    },
                    seq![EffectView::CancelProgress(token)],
                    method,
                    params,
                )
            } else {
                next == with_hook(engine, Seq::empty(), method, params)
            }
        }),
{
    lemma_owned(engine, ProtocolNotification::ProgressCancel, params);
}

} // verus!
