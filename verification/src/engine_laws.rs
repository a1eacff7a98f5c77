//! What holds of the protocol engine over every message and every state.
use vstd::prelude::*;

use crate::builder::ProtocolNotification;
use crate::engine::{accepts, BuiltInGate, CloseCause, EngineView};
use crate::error::LspErrorView;
use crate::message::{answer, error_answer, MessageView, RequestIdView};
use crate::params::BuiltInView;
use crate::session::ReservationView;
use crate::step::{
    EffectView, FlowView, GreetingView, InitializeResultView, LifecycleView, ReservedView,
    ServerInfoView, TransactionStateView,
};

verus! {

/// Whether the last effect sends a message.
pub open spec fn ends_by_sending<T>(effects: Seq<EffectView<T>>, message: MessageView) -> bool {
    effects.len() > 0 && effects.last() == EffectView::<T>::Send(message)
}

/// Until `initialize` completes, every other admitted request is answered with
/// `ServerNotInitialized`, nothing is run for it, and the lifecycle stays.
pub proof fn law_requests_before_initialize_are_refused<H, T>(
    engine: EngineView<H, T>,
    id: RequestIdView,
    method: Seq<char>,
    params: Seq<u8>,
    partial_results: bool,
)
    requires
        engine.is_early(),
        method != "initialize"@,
        engine.inbound.refusal(id) is None,
    ensures
        ({
            let next = engine.on_request(id, method, params, partial_results);
            &&& ends_by_sending(
                next.step.effects,
                error_answer(id, LspErrorView::ServerNotInitialized),
            )
            &&& next.step.flow == FlowView::<H>::Continue
            &&& next.engine.lifecycle == engine.lifecycle
        }),
{
}

/// After `shutdown`, every admitted request is answered as invalid, whatever its
/// method, and nothing is run for it.
pub proof fn law_requests_after_shutdown_are_invalid<H, T>(
    engine: EngineView<H, T>,
    id: RequestIdView,
    method: Seq<char>,
    params: Seq<u8>,
    partial_results: bool,
)
    requires
        engine.is_late(),
        engine.inbound.refusal(id) is None,
    ensures
        ({
            let next = engine.on_request(id, method, params, partial_results);
            &&& ends_by_sending(
                next.step.effects,
                error_answer(id, LspErrorView::InvalidRequest("invalid request"@)),
            )
            &&& next.step.flow == FlowView::<H>::Continue
            &&& next.engine.lifecycle == engine.lifecycle
        }),
{
}

/// The request that a step goes on with.
pub open spec fn carried<H>(flow: FlowView<H>) -> Option<ReservedView> {
    match flow {
        FlowView::Configure(transaction) => Some(transaction.reserved),
        FlowView::Greet(greeting) => Some(greeting.reserved),
        FlowView::Shutdown(reserved) => Some(reserved),
        FlowView::Spawn(call) => Some(call.reserved),
        _ => None,
    }
}

/// No request is lost: every request is either answered at once, under its own
/// ID, or its reservation goes on with the step and still owns the response.
pub proof fn law_no_request_is_lost<H, T>(
    engine: EngineView<H, T>,
    id: RequestIdView,
    method: Seq<char>,
    params: Seq<u8>,
    partial_results: bool,
)
    ensures
        ({
            let next = engine.on_request(id, method, params, partial_results);
            match carried(next.step.flow) {
                Some(reserved) => {
                    &&& reserved.reservation.id == id
                    &&& next.engine.inbound.owns(reserved.reservation)
                    &&& next.step.effects.len() == 0
                },
                None => {
                    &&& next.step.effects.len() > 0
                    &&& next.step.effects.last() matches EffectView::Send(
                        MessageView::Response { id: answered, result },
                    )
                    &&& answered == id
                    &&& result is Err
                    &&& !(engine.inbound.entries.dom().contains(id))
                        ==> !(next.engine.inbound.entries.dom().contains(id))
                },
            }
        }),
{
    let reserved = EngineView {
        inbound: engine.inbound.reserved(id, method != "initialize"@),
        ..engine
    };
    let reservation = ReservationView { id, serial: engine.inbound.next_serial };
    if engine.inbound.refusal(id) is None {
        assert(reserved.inbound.owns(reservation));
        assert(!reserved.inbound.completed(reservation).entries.dom().contains(id));
    }
}

/// No message changes the lifecycle, but for a valid `initialize`, which starts
/// the transaction.
pub proof fn law_messages_keep_the_lifecycle<H, T>(
    engine: EngineView<H, T>,
    message: MessageView,
    partial_results: bool,
)
    ensures
        ({
            let next = engine.dispatched(message, partial_results);
            &&& next.engine.lifecycle != engine.lifecycle ==> {
                &&& engine.lifecycle is Uninitialized
                &&& next.engine.lifecycle is Initializing
                &&& next.step.flow is Configure
            }
            &&& next.step.flow is Configure ==> engine.lifecycle is Uninitialized
                && next.engine.lifecycle is Initializing
        }),
{
}

/// The initialize transaction is spent at most once: once it has started, no
/// later message starts it again, and a later `initialize` is refused.
pub proof fn law_initialize_is_spent_once<H, T>(
    engine: EngineView<H, T>,
    message: MessageView,
    partial_results: bool,
)
    requires
        !(engine.lifecycle is Uninitialized),
    ensures
        ({
            let next = engine.dispatched(message, partial_results);
            &&& !(next.engine.lifecycle is Uninitialized)
            &&& !(next.step.flow is Configure)
        }),
{
    law_messages_keep_the_lifecycle(engine, message, partial_results);
}

/// Malformed `initialize` parameters leave the transaction unspent: everything
/// that is pending is still pending.
pub proof fn law_malformed_initialize_can_be_retried<H, T>(
    engine: EngineView<H, T>,
    id: RequestIdView,
    params: Seq<u8>,
    partial_results: bool,
)
    requires
        engine.lifecycle is Uninitialized,
        engine.inbound.refusal(id) is None,
        crate::params::parsed_initialize(crate::params::present(params)) is Err,
    ensures
        ({
            let next = engine.on_request(id, "initialize"@, params, partial_results);
            &&& next.engine.lifecycle == engine.lifecycle
            &&& next.engine.sync == engine.sync
            &&& next.engine.store == engine.store
            &&& next.engine.parked == engine.parked
            &&& !next.engine.inbound.entries.dom().contains(id)
        }),
{
    let reservation = ReservationView { id, serial: engine.inbound.next_serial };
    assert(engine.inbound.reserved(id, false).owns(reservation));
}

/// A failed registration transaction leaks nothing: neither the synchronization
/// nor the encoding nor a hook nor the lifecycle changes, and the connection
/// closes.
pub proof fn law_a_failed_configuration_leaks_nothing<H, T>(
    engine: EngineView<H, T>,
    transaction: TransactionStateView<H>,
    succeeded: bool,
)
    requires
        !succeeded || transaction.registrar.failure() is Some,
    ensures
        ({
            let next = engine.on_configured(transaction, succeeded);
            &&& next.step.flow == FlowView::<H>::Close(CloseCause::InitializeFailed)
            &&& next.engine.store == engine.store
            &&& next.engine.sync == engine.sync
            &&& next.engine.parked == engine.parked
            &&& next.engine.lifecycle == engine.lifecycle
            &&& engine.inbound.owns(transaction.reserved.reservation) ==> next.step.effects
                == seq![
                EffectView::<T>::Send(
                    error_answer(
                        transaction.reserved.reservation.id,
                        LspErrorView::Internal("initialization failed"@),
                    ),
                ),
            ]
        }),
{
}

/// Only a successful initialize transaction leads to the running state, and its
/// answer holds the generated capabilities and what the hook said of the server: a
/// failed `on_initialize` hook sends its own error and closes the connection.
pub proof fn law_only_a_successful_greeting_runs<H, T>(
    engine: EngineView<H, T>,
    greeting: GreetingView<H>,
    hook: Result<Option<ServerInfoView>, LspErrorView>,
)
    ensures
        ({
            let next = engine.on_greeted(greeting, hook);
            let id = greeting.reserved.reservation.id;
            &&& hook is Ok ==> next.engine.lifecycle == LifecycleView::Running(greeting.router)
                && next.step.flow == FlowView::<H>::Continue
            &&& hook is Err ==> next.engine.lifecycle == engine.lifecycle && next.step.flow
                == FlowView::<H>::Close(CloseCause::InitializeFailed)
            &&& engine.inbound.owns(greeting.reserved.reservation) ==> next.step.effects == seq![
                match hook {
                    Err(error) => EffectView::<T>::Send(answer(id, Err(error))),
                    Ok(server_info) => EffectView::<T>::Greet {
                        id,
                        result: InitializeResultView {
                            capabilities: greeting.capabilities,
                            server_info,
                        },
                    },
                },
            ]
        }),
{
}

/// The exit code is 0 exactly when `shutdown` succeeded first.
pub proof fn law_exit_is_clean_only_after_shutdown<H, T>(
    engine: EngineView<H, T>,
    params: Seq<u8>,
)
    ensures
        engine.on_notification("exit"@, params).step.flow matches FlowView::Exit { hook, code } && {
            &&& code == 0 || code == 1
            &&& (code == 0) == (engine.lifecycle is ShuttingDown)
            &&& hook is Some ==> engine.lifecycle is Running || engine.lifecycle is ShuttingDown
        },
{
}

/// A request leaves the parked hooks alone, and runs neither of those that
/// notifications run.
proof fn lemma_requests_keep_hooks<H, T>(
    engine: EngineView<H, T>,
    id: RequestIdView,
    method: Seq<char>,
    params: Seq<u8>,
    partial_results: bool,
)
    ensures
        ({
            let next = engine.on_request(id, method, params, partial_results);
            &&& next.engine.parked == engine.parked
            &&& !(next.step.flow is Initialized)
            &&& !(next.step.flow is Exit)
        }),
{
}

/// A built-in leaves the parked hooks alone, and runs neither of those that
/// lifecycle notifications run.
proof fn lemma_built_ins_keep_hooks<H, T>(
    engine: EngineView<H, T>,
    built_in: ProtocolNotification,
    method: Seq<char>,
    params: Seq<u8>,
)
    ensures
        ({
            let next = engine.on_built_in(built_in, method, params);
            &&& next.engine.parked == engine.parked
            &&& !(next.step.flow is Initialized)
            &&& !(next.step.flow is Exit)
        }),
{
    let processed = engine.processed(built_in, params);
    assert(processed.engine.parked == engine.parked);
}

/// What a message does to the parked hooks, and which of them it runs.
proof fn lemma_messages_and_hooks<H, T>(
    engine: EngineView<H, T>,
    message: MessageView,
    partial_results: bool,
)
    ensures
        ({
            let next = engine.dispatched(message, partial_results);
            ||| {
                &&& next.engine.parked == engine.parked
                &&& !(next.step.flow is Initialized)
                &&& next.step.flow matches FlowView::Exit { hook, code } ==> hook is None
            }
            ||| next == engine.on_exit_notification()
            ||| message matches MessageView::Notification { method, params } && next
                == engine.on_initialized_notification(params)
        }),
{
    match message {
        MessageView::Request { id, method, params } => {
            lemma_requests_keep_hooks(engine, id, method, params, partial_results);
        },
        MessageView::Notification { method, params } => {
            match ProtocolNotification::of_method(method) {
                Some(built_in) => {
                    lemma_built_ins_keep_hooks(engine, built_in, method, params);
                },
                None => {},
            }
        },
        _ => {},
    }
}

/// The `initialized` hook runs at most once: a step that runs it takes it, only
/// the running state runs it, and no message puts one in its place.
pub proof fn law_the_initialized_hook_runs_at_most_once<H, T>(
    engine: EngineView<H, T>,
    message: MessageView,
    partial_results: bool,
)
    ensures
        ({
            let next = engine.dispatched(message, partial_results);
            &&& next.step.flow is Initialized ==> engine.lifecycle is Running
                && engine.parked.on_initialized is Some && next.engine.parked.on_initialized is None
            &&& engine.parked.on_initialized is None
                ==> next.engine.parked.on_initialized is None
            &&& next.step.flow is Initialized || next.engine.parked.on_initialized
                == engine.parked.on_initialized
        }),
{
    lemma_messages_and_hooks(engine, message, partial_results);
}

/// The `exit` hook runs at most once.
pub proof fn law_the_exit_hook_runs_at_most_once<H, T>(
    engine: EngineView<H, T>,
    message: MessageView,
    partial_results: bool,
)
    ensures
        ({
            let next = engine.dispatched(message, partial_results);
            &&& next.step.flow matches FlowView::Exit { hook, code } ==> hook is Some
                ==> engine.parked.on_exit == hook && next.engine.parked.on_exit is None
            &&& engine.parked.on_exit is None ==> next.engine.parked.on_exit is None
        }),
{
    lemma_messages_and_hooks(engine, message, partial_results);
}

/// User work is dispatched in the running state only.
pub proof fn law_user_work_only_while_running<H, T>(
    engine: EngineView<H, T>,
    message: MessageView,
    partial_results: bool,
)
    ensures
        ({
            let flow = engine.dispatched(message, partial_results).step.flow;
            flow is Spawn || flow is Notify || flow is Initialized ==> engine.lifecycle is Running
        }),
{
}

/// Nothing partial is left by a built-in that is refused: the engine is exactly
/// what it was, and nothing is done.
pub proof fn law_a_refused_built_in_changes_nothing<H, T>(
    engine: EngineView<H, T>,
    built_in: ProtocolNotification,
    params: Seq<u8>,
)
    requires
        engine.processed(built_in, params).result is Err,
    ensures
        engine.processed(built_in, params).engine == engine,
        engine.processed(built_in, params).effects == Seq::<EffectView<T>>::empty(),
{
}

/// A hook runs only after its built-in was switched on, decoded and applied
/// without a failure, and observes the state that the built-in left.
pub proof fn law_a_hook_observes_its_built_in<H, T>(
    engine: EngineView<H, T>,
    built_in: ProtocolNotification,
    params: Seq<u8>,
)
    requires
        engine.on_built_in(built_in, built_in.method(), params).step.flow is Notify,
    ensures
        accepts(engine.sync, built_in),
        engine.processed(built_in, params).result == Ok::<
            BuiltInGate,
            crate::engine::BuiltInErrorView,
        >(BuiltInGate::RunHook),
        engine.on_built_in(built_in, built_in.method(), params).engine == engine.processed(
            built_in,
            params,
        ).engine,
{
}

/// What is opened can be read by every later message, and what is closed can
/// not.
pub proof fn law_documents_follow_their_notifications<H, T>(
    engine: EngineView<H, T>,
    item: crate::documents::ItemView,
    uri: Seq<char>,
)
    ensures
        engine.applied(BuiltInView::Open(item)).result is Ok ==> {
            let store = engine.applied(BuiltInView::Open(item)).engine.store;
            let key = crate::uri_key::key_of(item.uri);
            &&& store.docs.dom().contains(key)
            &&& store.docs[key].text == item.text
            &&& store.docs[key].version == Some(item.version)
        },
        !engine.applied(BuiltInView::Close(uri)).engine.store.docs.dom().contains(
            crate::uri_key::key_of(uri),
        ),
{
}

/// The one close operation is idempotent, and leaves nothing behind: no document,
/// no request in flight, no pending request, no progress, and no way to begin.
pub proof fn law_close_leaves_nothing_behind<H, T>(engine: EngineView<H, T>)
    ensures
        ({
            let closed = engine.after_close();
            &&& closed.after_close() == closed
            &&& closed.lifecycle is Exited
            &&& closed.store.docs.dom() =~= Set::<Seq<u8>>::empty()
            &&& closed.inbound.entries.dom() =~= Set::<RequestIdView>::empty()
            &&& closed.client.registry.pending.dom() =~= Set::<u32>::empty()
            &&& closed.client.registry.closed
            &&& closed.client.shut() is Some
        }),
{
    assert(engine.after_close().after_close() =~= engine.after_close());
}

} // verus!
