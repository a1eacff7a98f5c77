//! What the client's endpoint does with each message and each call, in terms of
//! the message and of the state it finds.
use vstd::prelude::*;

use crate::client_endpoint::{
    call_failure, handler_refusal, phase_after, transition_failure, transition_of, with_handler,
    ClientBuilderView, ClientCloseCause, ClientPhase, ClientTransition, ClientWork,
};
use crate::client_engine::{
    parsed_create, parsed_progress, ClientEngineView, ClientFlowView, ClientNext, ClientStepView,
    DeliverySignal, HandleView, ReverseView,
};
use crate::client_progress::{
    accepts_move, after_create, after_move, delivered_as, inserted_as, progress_move, CreateOutcome,
    ProgressDelivery, ProgressEntry, ProgressMove, ProgressPhase,
};
use crate::engine::Outcome;
use crate::error::{BuildErrorView, ClientErrorView, Error, LspErrorView, TransportError};
use crate::json::{json_entry, parsed_json, JsonModel};
use crate::message::{error_answer, JsonRpcErrorView, MessageView, ProgressTokenView, RequestIdView};
use crate::outbound::OutcomeView;
use crate::params::parsed_cancel;
use crate::server_laws::{
    admission, failed, given, has_room, holding, is_lifecycle, law_the_lifecycle_is_reserved,
    token_in,
};
use crate::session::InboundView;
use crate::step::EffectView;

verus! {

/// The lifecycle of a client: it runs once initialized, shuts down in two steps or
/// falls back to running, exits from there, and can be disconnected from anywhere
/// but an end.
pub proof fn law_the_client_lifecycle(phase: ClientPhase)
    ensures
        phase.after(ClientTransition::Initialized) == if phase is Initializing {
            Some(ClientPhase::Running)
        } else {
            None
        },
        phase.after(ClientTransition::BeginShutdown) == if phase is Running {
            Some(ClientPhase::ShutdownPending)
        } else {
            None
        },
        phase.after(ClientTransition::ShutdownSucceeded) == if phase is ShutdownPending {
            Some(ClientPhase::ShuttingDown)
        } else {
            None
        },
        phase.after(ClientTransition::ShutdownFailed) == if phase is ShutdownPending {
            Some(ClientPhase::Running)
        } else {
            None
        },
        phase.after(ClientTransition::Exit) == if phase is ShuttingDown {
            Some(ClientPhase::Exited)
        } else {
            None
        },
        phase.after(ClientTransition::Disconnect) == if phase is Exited || phase is Disconnected {
            None
        } else {
            Some(ClientPhase::Disconnected)
        },
        phase.allows(ClientWork::Outbound) <==> phase is Running,
        phase.allows(ClientWork::Reverse) <==> phase is Running || phase is ShutdownPending,
        phase.name() == match phase {
            ClientPhase::Initializing => "initializing"@,
            ClientPhase::Running => "running"@,
            ClientPhase::ShutdownPending => "shutdown is pending"@,
            ClientPhase::ShuttingDown => "shut down"@,
            ClientPhase::Exited => "exited"@,
            ClientPhase::Disconnected => "disconnected"@,
        },
{
}

/// Transitions are tried one after the other, from the initialization on, and one
/// that is not valid changes nothing.
pub proof fn law_transitions_are_tried_in_order(data: Seq<u8>, byte: u8)
    ensures
        phase_after(Seq::empty()) == ClientPhase::Initializing,
        ({
            let before = phase_after(data);
            let after = phase_after(data.push(byte));
            match before.after(transition_of(byte)) {
                Some(next) => after == next,
                None => after == before,
            }
        }),
        byte % 6 == 0 ==> transition_of(byte) is Initialized,
        byte % 6 == 1 ==> transition_of(byte) is BeginShutdown,
        byte % 6 == 2 ==> transition_of(byte) is ShutdownSucceeded,
        byte % 6 == 3 ==> transition_of(byte) is ShutdownFailed,
        byte % 6 == 4 ==> transition_of(byte) is Exit,
        byte % 6 == 5 ==> transition_of(byte) is Disconnect,
{
    assert(data.push(byte).drop_last() =~= data);
    assert(data.push(byte).last() == byte);
}

/// A call to the server is valid exactly while the connection runs, and for methods
/// that the lifecycle does not own; a transition exactly where the lifecycle has
/// it. What is not valid says what was tried and in which phase.
pub proof fn law_calls_are_valid_while_running(
    method: Seq<char>,
    phase: ClientPhase,
    transition: ClientTransition,
)
    ensures
        call_failure(method, phase) == if phase is Running && !is_lifecycle(method) && method
            != "initialize"@ && method != "shutdown"@ {
            None
        } else {
            Some(ClientErrorView::InvalidLifecycle { operation: method, state: phase.name() })
        },
        transition_failure(method, phase, transition) == if phase.after(transition) is Some {
            None
        } else {
            Some(ClientErrorView::InvalidLifecycle { operation: method, state: phase.name() })
        },
{
    law_the_lifecycle_is_reserved(method);
}

/// What serving a client connection returns for the cause that closed it.
pub proof fn law_a_cause_becomes_an_outcome(error: TransportError)
    ensures
        ClientCloseCause::Exit.result() == Ok::<Outcome, Error>(Outcome::Exit { code: 0 }),
        ClientCloseCause::Disconnect.result() == Ok::<Outcome, Error>(Outcome::TransportClosed),
        ClientCloseCause::ReaderEof.result() == Ok::<Outcome, Error>(Outcome::TransportClosed),
        ClientCloseCause::WriterFailed.result() == Ok::<Outcome, Error>(Outcome::WriterFailed),
        ClientCloseCause::ReaderFailed(error).result() == Err::<Outcome, Error>(
            Error::Transport(error),
        ),
{
}

/// The token that encoded parameters of a call hold: none where there are none, and
/// an error where they cannot be read.
pub open spec fn call_token(member: Seq<u8>) -> Result<Option<ProgressTokenView>, Seq<char>> {
    if member.len() == 0 {
        Ok(None)
    } else {
        match parsed_json(member) {
            Err(error) => Err(error),
            Ok(value) => token_in(value, "workDoneToken"@),
        }
    }
}

/// The parameters of a call go without a `null`.
pub open spec fn member_of(encoded: Seq<u8>) -> Seq<u8> {
    if encoded == seq![110u8, 117u8, 108u8, 108u8] {
        Seq::empty()
    } else {
        encoded
    }
}

/// A request to the server is sent exactly if the call is valid, its parameters are
/// encoded, their token, if any, is not in use, and the peer takes it. Its token is
/// then open for progress; a refused request changes no token.
#[verifier::spinoff_prover]
pub proof fn law_a_request_opens_its_token<T, W>(
    handle: HandleView<T, W>,
    method: Seq<char>,
    params: Result<Seq<u8>, Seq<char>>,
    waiter: T,
)
    ensures
        ({
            let failure = handle.request_failure(method, params);
            let after = handle.requested(method, params, waiter);
            if call_failure(method, handle.phase) is Some {
                failure == call_failure(method, handle.phase) && after == handle
            } else {
                match params {
                    Err(error) => failure == Some(ClientErrorView::Serialize(error)) && after
                        == handle,
                    Ok(encoded) => {
                        let member = member_of(encoded);
                        match call_token(member) {
                            Err(error) => failure == Some(ClientErrorView::Serialize(error))
                                && after == handle,
                            Ok(token) => if token is Some && handle.progress.dom().contains(
                                token->0,
                            ) {
                                failure == Some(
                                    ClientErrorView::InvalidHelperParams(
                                        "duplicate work-done progress token"@,
                                    ),
                                ) && after == handle
                            } else {
                                &&& failure == handle.peer.reserve_failure(Ok(member))
                                &&& after.peer == handle.peer.reserved(Ok(member), waiter)
                                &&& after.phase == handle.phase
                                &&& after.close == handle.close
                                &&& after.progress == if failure is None && token is Some {
                                    handle.progress.insert(
                                        token->0,
                                        ProgressEntry { phase: ProgressPhase::Created, tail: None },
                                    )
                                } else {
                                    handle.progress
                                }
                            },
                        }
                    },
                }
            }
        }),
{
    if let Ok(encoded) = params {
        assert(crate::codec::params_member(encoded) == member_of(encoded));
        let member = member_of(encoded);
        if member.len() > 0 {
            if let Ok(value) = parsed_json(member) {
                assert(token_in(value, "workDoneToken"@) == crate::codec::field_token(
                    value,
                    "workDoneToken"@,
                ));
            }
        }
    }
}

/// A notification to the server is offered exactly while the call is valid.
pub proof fn law_a_client_notification_is_offered<T, W>(
    handle: HandleView<T, W>,
    method: Seq<char>,
    params: Result<Seq<u8>, Seq<char>>,
    size: Result<usize, Seq<char>>,
    cause: ClientCloseCause,
)
    ensures
        handle.notify_failure(method, params, size) == if call_failure(method, handle.phase)
            is Some {
            call_failure(method, handle.phase)
        } else {
            handle.peer.notify_failure(params, size)
        },
        handle.asked_to_close(cause) == (HandleView {
            close: handle.asked_to_close(cause).close,
            ..handle
        }),
        handle.asked_to_close(cause).close.requested,
        !handle.close.requested ==> handle.asked_to_close(cause).close.cause == Some(cause),
        handle.close.requested ==> handle.asked_to_close(cause).close == handle.close,
{
}

/// Nothing happens but effects.
pub open spec fn just<H, T, D, W>(
    engine: ClientEngineView<H, T, W>,
    effects: Seq<EffectView<T>>,
) -> ClientNext<H, T, D, W> {
    ClientNext { engine, step: ClientStepView { effects, flow: ClientFlowView::Continue } }
}

/// Something is run.
pub open spec fn run<H, T, D, W>(
    engine: ClientEngineView<H, T, W>,
    flow: ClientFlowView<D, W>,
) -> ClientNext<H, T, D, W> {
    ClientNext { engine, step: ClientStepView { effects: Seq::empty(), flow } }
}

/// The engine after a request was admitted and answered at once.
pub open spec fn after_refusal<H, T, W>(engine: ClientEngineView<H, T, W>) -> ClientEngineView<
    H,
    T,
    W,
> {
    ClientEngineView {
        inbound: InboundView {
            next_serial: (engine.inbound.next_serial + 1) as u64,
            ..engine.inbound
        },
        ..engine
    }
}

proof fn lemma_refusals_leave_nothing<H, T, D, W>(
    engine: ClientEngineView<H, T, W>,
    id: RequestIdView,
    error: LspErrorView,
)
    requires
        has_room(engine.inbound, id),
        !engine.inbound.permits.contains(engine.inbound.next_serial),
    ensures
        engine.inbound.refusal(id) is None,
        engine.inbound.reserved(id, true) == holding(engine.inbound, id, true),
        ({
            let held = ClientEngineView { inbound: holding(engine.inbound, id, true), ..engine };
            held.refused::<D>(admission(engine.inbound, id, true), error) == just::<H, T, D, W>(
                after_refusal(engine),
                seq![EffectView::Send(error_answer(id, error))],
            )
        }),
{
    let inbound = holding(engine.inbound, id, true);
    let held = ClientEngineView { inbound, ..engine };
    let reserved = admission(engine.inbound, id, true);
    assert(inbound.owns(reserved.reservation));
    assert(inbound.entries.remove(id) =~= engine.inbound.entries);
    assert(inbound.permits.remove(reserved.permit) =~= engine.inbound.permits);
    assert(held.settled(reserved) =~= after_refusal(engine));
}

/// A request of the server is handed to its handler with its method and its decoded
/// parameters while the connection serves it, and is in flight from then on. One
/// that cannot be served is answered with why: it came after the shutdown, is a
/// second `initialize`, has no handler, or does not decode.
#[verifier::spinoff_prover]
pub proof fn law_reverse_requests_reach_their_handler<H, T, D, W>(
    engine: ClientEngineView<H, T, W>,
    id: RequestIdView,
    method: Seq<char>,
    params: Seq<u8>,
    signal: DeliverySignal<D, W>,
)
    requires
        has_room(engine.inbound, id),
        !engine.inbound.permits.contains(engine.inbound.next_serial),
        method != "window/workDoneProgress/create"@,
    ensures
        ({
            let next = engine.dispatched(MessageView::Request { id, method, params }, signal);
            let refused = |code: int, message: Seq<char>| just::<H, T, D, W>(
                after_refusal(engine),
                seq![EffectView::Send(failed(id, code, message))],
            );
            if !(engine.server.phase is Running || engine.server.phase is ShutdownPending) {
                next == refused(-32600, "invalid request after shutdown"@)
            } else if method == "initialize"@ {
                next == refused(-32600, "duplicate initialize"@)
            } else if !engine.requests.dom().contains(method) {
                next == refused(-32601, method)
            } else {
                match parsed_json(given(params)) {
                    Err(error) => next == refused(-32602, error),
                    Ok(value) => next == run::<H, T, D, W>(
                        ClientEngineView { inbound: holding(engine.inbound, id, true), ..engine },
                        ClientFlowView::Reverse(
                            ReverseView {
                                reserved: admission(engine.inbound, id, true),
                                method,
                                params: value,
                                progress_token: None,
                            },
                        ),
                    ),
                }
            }
        }),
{
    lemma_refusals_leave_nothing::<H, T, D, W>(
        engine,
        id,
        LspErrorView::InvalidRequest("invalid request after shutdown"@),
    );
    lemma_refusals_leave_nothing::<H, T, D, W>(
        engine,
        id,
        LspErrorView::InvalidRequest("duplicate initialize"@),
    );
    lemma_refusals_leave_nothing::<H, T, D, W>(engine, id, LspErrorView::MethodNotFound(method));
    lemma_refusals_leave_nothing::<H, T, D, W>(
        engine,
        id,
        LspErrorView::InvalidParams(parsed_json(given(params))->Err_0),
    );
}

/// A creation of progress that is served reserves its token until its handler has
/// run; a token that is in use, or none, is answered as invalid parameters.
#[verifier::spinoff_prover]
pub proof fn law_created_progress_reserves_its_token<H, T, D, W>(
    engine: ClientEngineView<H, T, W>,
    id: RequestIdView,
    params: Seq<u8>,
    signal: DeliverySignal<D, W>,
)
    requires
        has_room(engine.inbound, id),
        !engine.inbound.permits.contains(engine.inbound.next_serial),
        engine.server.phase is Running || engine.server.phase is ShutdownPending,
        engine.requests.dom().contains("window/workDoneProgress/create"@),
        parsed_json(given(params)) is Ok,
    ensures
        ({
            let method = "window/workDoneProgress/create"@;
            let value = parsed_json(given(params))->Ok_0;
            let next = engine.dispatched(MessageView::Request { id, method, params }, signal);
            match parsed_create(value) {
                Err(error) => next == just::<H, T, D, W>(
                    after_refusal(engine),
                    seq![EffectView::Send(failed(id, -32602, error))],
                ),
                Ok(token) => if engine.server.progress.dom().contains(token) {
                    next == just::<H, T, D, W>(
                        after_refusal(engine),
                        seq![
                            EffectView::Send(
                                failed(id, -32602, "duplicate work-done progress token"@),
                            ),
                        ],
                    )
                } else {
                    next == run::<H, T, D, W>(
                        ClientEngineView {
                            inbound: holding(engine.inbound, id, true),
                            server: HandleView {
                                progress: engine.server.progress.insert(
                                    token,
                                    ProgressEntry { phase: ProgressPhase::Creating, tail: None },
                                ),
                                ..engine.server
                            },
                            ..engine
                        },
                        ClientFlowView::Reverse(
                            ReverseView {
                                reserved: admission(engine.inbound, id, true),
                                method,
                                params: value,
                                progress_token: Some(token),
                            },
                        ),
                    )
                },
            }
        }),
{
    reveal_strlit("window/workDoneProgress/create");
    reveal_strlit("initialize");
    assert("window/workDoneProgress/create"@.len() != "initialize"@.len());
    let value = parsed_json(given(params))->Ok_0;
    lemma_refusals_leave_nothing::<H, T, D, W>(
        engine,
        id,
        LspErrorView::InvalidParams(parsed_create(value)->Err_0),
    );
    lemma_refusals_leave_nothing::<H, T, D, W>(
        engine,
        id,
        LspErrorView::InvalidParams("duplicate work-done progress token"@),
    );
}

/// A request without room is answered as the server's is.
pub proof fn law_reverse_requests_without_room_are_answered<H, T, D, W>(
    engine: ClientEngineView<H, T, W>,
    id: RequestIdView,
    method: Seq<char>,
    params: Seq<u8>,
    signal: DeliverySignal<D, W>,
)
    ensures
        ({
            let next = engine.dispatched(MessageView::Request { id, method, params }, signal);
            let duplicate = engine.inbound.entries.dom().contains(id);
            &&& duplicate ==> next == just::<H, T, D, W>(
                engine,
                seq![EffectView::Send(failed(id, -32600, "duplicate request id"@))],
            )
            &&& !duplicate && !has_room(engine.inbound, id) ==> next == just::<H, T, D, W>(
                engine,
                seq![
                    EffectView::Send(
                        failed(id, -32802, "inbound request capacity exhausted"@),
                    ),
                ],
            )
        }),
{
}

/// A notification of the server is handed to its handler with its method and its
/// decoded parameters while the connection serves it, and changes nothing; without
/// a handler, after the shutdown, or where it does not decode, it is dropped.
#[verifier::spinoff_prover]
pub proof fn law_reverse_notifications_reach_their_handler<H, T, D, W>(
    engine: ClientEngineView<H, T, W>,
    method: Seq<char>,
    params: Seq<u8>,
    signal: DeliverySignal<D, W>,
)
    requires
        method != "$/cancelRequest"@,
        method != "$/progress"@,
    ensures
        ({
            let next = engine.dispatched(MessageView::Notification { method, params }, signal);
            let served = engine.server.phase is Running || engine.server.phase is ShutdownPending;
            &&& served && engine.notifications.dom().contains(method)
                ==> match parsed_json(given(params)) {
                Ok(value) => next == run::<H, T, D, W>(
                    engine,
                    ClientFlowView::Notify { method, params: value, delivery: None },
                ),
                Err(_) => next == just::<H, T, D, W>(engine, Seq::empty()),
            }
            &&& !served || !engine.notifications.dom().contains(method) ==> next == just::<
                H,
                T,
                D,
                W,
            >(engine, Seq::empty())
        }),
{
}

/// The step a progress value names.
pub open spec fn step_named(value: JsonModel) -> Option<ProgressMove> {
    match json_entry(value, "kind"@) {
        Some(JsonModel::Text(kind)) => if kind == "begin"@ {
            Some(ProgressMove::Begin)
        } else if kind == "report"@ {
            Some(ProgressMove::Report)
        } else if kind == "end"@ {
            Some(ProgressMove::End)
        } else {
            None
        },
        _ => None,
    }
}

/// A step of progress is accepted exactly under a token that is known: a beginning
/// once it was created, a report and an end once it has begun. A beginning and a
/// report keep the token with their own delivery as the last, an end takes it away,
/// and no other token is touched.
pub proof fn law_progress_moves_in_order<W>(
    entries: Map<ProgressTokenView, ProgressEntry<W>>,
    token: ProgressTokenView,
    value: JsonModel,
    tail: W,
    other: ProgressTokenView,
)
    ensures
        progress_move(value) == step_named(value),
        ({
            let step = progress_move(value);
            let after = after_move(entries, token, step, tail);
            let known = entries.dom().contains(token);
            let accepted = accepts_move(entries, token, step);
            &&& step is None ==> !accepted
            &&& step == Some(ProgressMove::Begin) ==> accepted == (known && entries[token].phase
                is Created)
            &&& step == Some(ProgressMove::Report) || step == Some(ProgressMove::End) ==> accepted
                == (known && entries[token].phase is Begun)
            &&& !accepted ==> after == entries
            &&& accepted && step == Some(ProgressMove::End) ==> after == entries.remove(token)
            &&& accepted && step != Some(ProgressMove::End) ==> {
                &&& after.dom().contains(token)
                &&& after[token].phase is Begun
                &&& after[token].tail == Some(tail)
            }
            &&& other != token ==> after.dom().contains(other) == entries.dom().contains(other)
            &&& other != token && entries.dom().contains(other) ==> after[other] == entries[other]
        }),
{
}

/// A creation that succeeds opens its token, one that fails gives it up, and either
/// leaves a token that is not being created.
pub proof fn law_a_creation_opens_its_token<W>(
    entries: Map<ProgressTokenView, ProgressEntry<W>>,
    token: ProgressTokenView,
)
    ensures
        ({
            let creating = entries.dom().contains(token) && entries[token].phase is Creating;
            let opened = after_create(entries, token, CreateOutcome::Succeeded);
            let given_up = after_create(entries, token, CreateOutcome::Failed);
            &&& !creating ==> opened == entries && given_up == entries
            &&& creating ==> opened == entries.insert(
                token,
                ProgressEntry { phase: ProgressPhase::Created, tail: entries[token].tail },
            )
            &&& creating ==> given_up == entries.remove(token)
        }),
{
}

/// A token is inserted exactly if it was not there, and a delivery waits for the one
/// before it and signals its own end, unless it is the last.
pub proof fn law_deliveries_are_chained<D, W>(
    before: Map<ProgressTokenView, ProgressEntry<W>>,
    after: Map<ProgressTokenView, ProgressEntry<W>>,
    token: ProgressTokenView,
    phase: ProgressPhase,
    inserted: bool,
    step: Option<ProgressMove>,
    done: D,
    delivery: Option<ProgressDelivery<D, W>>,
)
    ensures
        inserted_as(before, after, token, phase, inserted) ==> {
            &&& inserted <==> !before.dom().contains(token)
            &&& inserted ==> after == before.insert(token, ProgressEntry { phase, tail: None })
            &&& !inserted ==> after == before
        },
        delivered_as(before, token, step, done, delivery) ==> {
            &&& delivery is Some <==> accepts_move(before, token, step)
            &&& delivery matches Some(link) ==> {
                &&& link.previous == before[token].tail
                &&& step == Some(ProgressMove::End) ==> link.done is None
                &&& step != Some(ProgressMove::End) ==> link.done == Some(done)
            }
        },
{
}

/// Progress that is served moves its token, and is handed to its handler behind the
/// delivery before it; what is not accepted is dropped.
#[verifier::spinoff_prover]
pub proof fn law_progress_reaches_its_handler<H, T, D, W>(
    engine: ClientEngineView<H, T, W>,
    params: Seq<u8>,
    signal: DeliverySignal<D, W>,
)
    requires
        engine.server.phase is Running || engine.server.phase is ShutdownPending,
        parsed_json(given(params)) is Ok,
        parsed_progress(parsed_json(given(params))->Ok_0) is Ok,
    ensures
        ({
            let method = "$/progress"@;
            let value = parsed_json(given(params))->Ok_0;
            let (token, said) = parsed_progress(value)->Ok_0;
            let step = step_named(said);
            let next = engine.dispatched(MessageView::Notification { method, params }, signal);
            let moved = ClientEngineView {
                server: HandleView {
                    progress: after_move(engine.server.progress, token, step, signal.tail),
                    ..engine.server
                },
                ..engine
            };
            let accepted = accepts_move(engine.server.progress, token, step);
            &&& !accepted ==> next == just::<H, T, D, W>(engine, Seq::empty())
            &&& accepted && !engine.notifications.dom().contains(method) ==> next == just::<
                H,
                T,
                D,
                W,
            >(moved, Seq::empty())
            &&& accepted && engine.notifications.dom().contains(method) ==> next == run::<H, T, D, W>(
                moved,
                ClientFlowView::Notify {
                    method,
                    params: value,
                    delivery: Some(
                        ProgressDelivery {
                            previous: engine.server.progress[token].tail,
                            done: if step == Some(ProgressMove::End) {
                                None
                            } else {
                                Some(signal.done)
                            },
                        },
                    ),
                },
            )
        }),
{
    reveal_strlit("$/progress");
    reveal_strlit("$/cancelRequest");
    assert("$/progress"@.len() != "$/cancelRequest"@.len());
    let (token, said) = parsed_progress(parsed_json(given(params))->Ok_0)->Ok_0;
    assert(progress_move(said) == step_named(said));
}

/// The server cancels a reverse request in flight by its ID: its token is fired and
/// it is answered as cancelled, once.
#[verifier::spinoff_prover]
pub proof fn law_a_cancelled_reverse_request_is_answered_once<H, T, D, W>(
    engine: ClientEngineView<H, T, W>,
    params: Seq<u8>,
    signal: DeliverySignal<D, W>,
)
    ensures
        ({
            let message = MessageView::Notification { method: "$/cancelRequest"@, params };
            let next = engine.dispatched(message, signal);
            match parsed_cancel(given(params)) {
                Err(_) => next == just::<H, T, D, W>(engine, Seq::empty()),
                Ok(id) => if engine.inbound.entries.dom().contains(id)
                    && engine.inbound.entries[id].cancellable {
                    next == just::<H, T, D, W>(
                        ClientEngineView {
                            inbound: InboundView {
                                entries: engine.inbound.entries.remove(id),
                                ..engine.inbound
                            },
                            ..engine
                        },
                        seq![
                            EffectView::Cancel(engine.inbound.entries[id].serial),
                            EffectView::Send(failed(id, -32800, "request cancelled"@)),
                        ],
                    )
                } else {
                    next == just::<H, T, D, W>(engine, Seq::empty())
                },
            }
        }),
{
}

/// A response of the server to a pending request goes to whoever waits for it, and
/// any other is dropped; a protocol error is sent back. While the connection is
/// being initialized, requests are refused and notifications dropped.
#[verifier::spinoff_prover]
pub proof fn law_responses_reach_the_caller<H, T, D, W>(
    engine: ClientEngineView<H, T, W>,
    id: RequestIdView,
    method: Seq<char>,
    params: Seq<u8>,
    result: Result<Seq<u8>, JsonRpcErrorView>,
    error: JsonRpcErrorView,
    signal: DeliverySignal<D, W>,
)
    ensures
        ({
            let response = MessageView::Response { id, result };
            let next = engine.dispatched(response, signal);
            let pending = engine.server.peer.registry.pending;
            let waits = id matches RequestIdView::Number(number) && number > 0
                && pending.dom().contains(number as u32);
            &&& waits ==> {
                let number = id->Number_0 as u32;
                &&& next.step.effects == seq![
                    EffectView::Deliver(pending[number], OutcomeView::Response(result)),
                ]
                &&& next.step.flow == ClientFlowView::<D, W>::Continue
                &&& next.engine.server.peer.registry.pending == pending.remove(number)
                &&& next.engine.server.progress == engine.server.progress
                &&& next.engine.server.phase == engine.server.phase
                &&& next.engine.inbound == engine.inbound
            }
            &&& !waits ==> next == just::<H, T, D, W>(engine, Seq::empty())
            &&& engine.on_early_message::<D>(response) == next
            &&& engine.dispatched(MessageView::ProtocolError { error }, signal) == just::<
                H,
                T,
                D,
                W,
            >(engine, seq![EffectView::Send(MessageView::ProtocolError { error })])
            &&& engine.on_early_message::<D>(MessageView::ProtocolError { error }) == just::<
                H,
                T,
                D,
                W,
            >(engine, seq![EffectView::Send(MessageView::ProtocolError { error })])
            &&& engine.on_early_message::<D>(MessageView::Notification { method, params })
                == just::<H, T, D, W>(engine, Seq::empty())
            &&& engine.on_early_message::<D>(MessageView::Request { id, method, params }) == just::<
                H,
                T,
                D,
                W,
            >(
                engine,
                seq![
                    EffectView::Send(
                        if method == "initialize"@ {
                            failed(id, -32600, "duplicate initialize"@)
                        } else {
                            failed(id, -32002, "server not initialized"@)
                        },
                    ),
                ],
            )
        }),
{
}

/// The close of a client connection leaves no request in flight or pending and no
/// way to begin, and is a disconnection unless the connection had ended.
pub proof fn law_the_client_close_leaves_nothing<H, T, W>(
    engine: ClientEngineView<H, T, W>,
    cause: ClientCloseCause,
    id: RequestIdView,
    number: u32,
)
    ensures
        ({
            let after = engine.after_close();
            &&& !after.inbound.entries.dom().contains(id)
            &&& !after.server.peer.registry.pending.dom().contains(number)
            &&& after.server.peer.registry.closed
            &&& after.server.peer.closing
            &&& after.server.peer.shut() is Some
            &&& after.server.phase == if engine.server.phase is Exited {
                ClientPhase::Exited
            } else {
                ClientPhase::Disconnected
            }
            &&& after.requests == engine.requests
            &&& after.notifications == engine.notifications
        }),
        engine.asked_to_close(cause) == (ClientEngineView {
            server: engine.server.asked_to_close(cause),
            ..engine
        }),
{
}

/// A handler stands under a method that the lifecycle does not own and that has
/// none yet; anything else is refused and leaves the handlers as they are. A new
/// builder has none.
pub proof fn law_reverse_handlers_stand_under_their_method<C, I, H>(
    handlers: Map<Seq<char>, H>,
    method: Seq<char>,
    handler: H,
    capabilities: C,
)
    ensures
        ({
            let reserved = is_lifecycle(method) || method == "initialize"@ || method
                == "shutdown"@;
            &&& reserved ==> handler_refusal(handlers, method) == Some(
                BuildErrorView::ReservedMethod(method),
            )
            &&& !reserved && handlers.dom().contains(method) ==> handler_refusal(handlers, method)
                == Some(BuildErrorView::DuplicateMethod(method))
            &&& !reserved && !handlers.dom().contains(method) ==> handler_refusal(handlers, method)
                is None && with_handler(handlers, method, handler) == handlers.insert(
                method,
                handler,
            )
            &&& handler_refusal(handlers, method) is Some ==> with_handler(
                handlers,
                method,
                handler,
            ) == handlers
        }),
        ({
            let builder = ClientBuilderView::<C, I, H>::fresh(capabilities);
            &&& builder.capabilities == capabilities
            &&& builder.client_info is None && builder.initialization_options is None
            &&& builder.request_handlers =~= Map::empty()
            &&& builder.notification_handlers =~= Map::empty()
            &&& builder.error is None
        }),
{
    law_the_lifecycle_is_reserved(method);
}

} // verus!
