//! What a message leads to: effects to be done in order, and what is to be run
//! after them.
use vstd::prelude::*;

use serde_json::Value;

use crate::builder::{
    InitializeRegistrar, Registrations, RegistrationsView, Router, RouterView, TransactionView,
};
use crate::codec::{encoding_failure, serialization_failed};
use crate::engine::CloseCause;
use crate::failure::{ConnectionFailure, FailureView};
use crate::json::{json_model, JsonModel};
use crate::message::{
    answer, response, MessageView, ProgressToken, ProgressTokenView, RawMessage, RequestId,
    RequestIdView,
};
use crate::options::{ServerCapabilities, ServerCapabilitiesView};
use crate::outbound::{Delivery, OutcomeView};
use crate::params::{FolderChange, FolderChangeView, InitializeFacts, InitializeView};
use crate::session::{ReservationView, Reserved};

verus! {

/// What is to be done for a message, in order.
#[derive(Debug)]
pub enum Effect<T> {
    /// Hand a failure to the error hook.
    Report(ConnectionFailure),
    /// Enqueue a message that must not be lost.
    Send(RawMessage),
    /// Encode the result of `initialize`, and enqueue the
    /// [response](initialize_response) with it.
    Greet {
        /// The `initialize` request.
        id: RequestId,
        /// Its result.
        result: InitializeResult,
    },
    /// Hand the outcome of an outbound request to whoever waits for it.
    Deliver(Delivery<T>),
    /// Fire the cancellation token of an admitted request.
    Cancel(u64),
    /// Fire the cancellation token of work-done progress.
    CancelProgress(ProgressToken),
    /// Apply a change of the workspace folders.
    ChangeFolders(FolderChange),
    /// Replace the workspace configuration.
    SetConfiguration(Value),
}

/// What an [`Effect`] does.
#[allow(inconsistent_fields)]
pub enum EffectView<T> {
    Report(FailureView),
    Send(MessageView),
    Greet { id: RequestIdView, result: InitializeResultView },
    Deliver(T, OutcomeView),
    Cancel(u64),
    CancelProgress(ProgressTokenView),
    ChangeFolders(FolderChangeView),
    SetConfiguration(JsonModel),
}

impl<T> View for Effect<T> {
    type V = EffectView<T>;

    open spec fn view(&self) -> EffectView<T> {
        match *self {
            Effect::Report(failure) => EffectView::Report(failure@),
            Effect::Send(message) => EffectView::Send(message@),
            Effect::Greet { id, result } => EffectView::Greet {
                id: id.deep_view(),
                result: result@,
            },
            Effect::Deliver(delivery) => EffectView::Deliver(delivery.waiter, delivery.outcome@),
            Effect::Cancel(serial) => EffectView::Cancel(serial),
            Effect::CancelProgress(token) => EffectView::CancelProgress(token.deep_view()),
            Effect::ChangeFolders(change) => EffectView::ChangeFolders(change@),
            Effect::SetConfiguration(settings) => EffectView::SetConfiguration(
                json_model(settings),
            ),
        }
    }
}

/// What a server says of itself.
#[derive(Debug)]
pub struct ServerInfo {
    /// Its name.
    pub name: String,
    /// Its version.
    pub version: Option<String>,
}

/// What [`ServerInfo`] says.
pub struct ServerInfoView {
    pub name: Seq<char>,
    pub version: Option<Seq<char>>,
}

impl View for ServerInfo {
    type V = ServerInfoView;

    open spec fn view(&self) -> ServerInfoView {
        ServerInfoView { name: self.name@, version: self.version.deep_view() }
    }
}

/// What a server says of itself, if anything.
pub open spec fn info_view(info: Option<ServerInfo>) -> Option<ServerInfoView> {
    match info {
        Some(info) => Some(info@),
        None => None,
    }
}

/// The result of `initialize`.
#[derive(Debug)]
pub struct InitializeResult {
    /// What the server can do.
    pub capabilities: ServerCapabilities,
    /// What it says of itself.
    pub server_info: Option<ServerInfo>,
}

/// What an [`InitializeResult`] says.
pub struct InitializeResultView {
    pub capabilities: ServerCapabilitiesView,
    pub server_info: Option<ServerInfoView>,
}

impl View for InitializeResult {
    type V = InitializeResultView;

    open spec fn view(&self) -> InitializeResultView {
        InitializeResultView {
            capabilities: self.capabilities.deep_view(),
            server_info: info_view(self.server_info),
        }
    }
}

/// The response to `initialize` with its encoded result; a failed encoding is an
/// internal error.
pub fn initialize_response(id: RequestId, body: Result<Vec<u8>, String>) -> (message: RawMessage)
    ensures
        message@ == answer(
            id.deep_view(),
            match body {
                Ok(body) => Ok(body@),
                Err(error) => Err(encoding_failure(error@)),
            },
        ),
{
    match body {
        Ok(body) => response(id, Ok(body)),
        Err(error) => response(id, Err(serialization_failed(error.as_str()))),
    }
}

/// What effects do, in order.
pub open spec fn effects_view<T>(effects: Seq<Effect<T>>) -> Seq<EffectView<T>> {
    effects.map_values(|effect: Effect<T>| effect@)
}

/// The effect of a report, if there is one.
pub open spec fn report_effects<T>(report: Option<FailureView>) -> Seq<EffectView<T>> {
    match report {
        Some(failure) => seq![EffectView::Report(failure)],
        None => Seq::empty(),
    }
}

/// Add an effect.
pub fn push_effect<T>(effects: &mut Vec<Effect<T>>, effect: Effect<T>)
    ensures
        effects_view(final(effects)@) == effects_view(old(effects)@).push(effect@),
{
    effects.push(effect);
    assert(effects_view(effects@) =~= effects_view(old(effects)@).push(effect@));
}

/// Add the effect of a report, if there is one.
pub fn push_report<T>(effects: &mut Vec<Effect<T>>, failure: Option<ConnectionFailure>)
    ensures
        effects_view(final(effects)@) == effects_view(old(effects)@) + report_effects::<T>(
            match failure {
                Some(told) => Some(told@),
                None => None,
            },
        ),
{
    match failure {
        Some(told) => {
            push_effect(effects, Effect::Report(told));
            assert(effects_view(effects@) =~= effects_view(old(effects)@) + seq![
                EffectView::<T>::Report(told@),
            ]);
        },
        None => {
            assert(effects_view(effects@) =~= effects_view(old(effects)@) + Seq::<
                EffectView<T>,
            >::empty());
        },
    }
}

/// No effects.
pub fn no_effects<T>() -> (effects: Vec<Effect<T>>)
    ensures
        effects_view(effects@) == Seq::<EffectView<T>>::empty(),
{
    let effects: Vec<Effect<T>> = Vec::new();
    assert(effects_view(effects@) =~= Seq::<EffectView<T>>::empty());
    effects
}

/// The static registrations and lifecycle callbacks awaiting the initialize
/// transaction, which consumes them once.
pub struct Pending<H> {
    pub registrations: Registrations<H>,
    pub file_provider: Option<H>,
    pub configure_initialize: Option<H>,
    pub on_initialize: Option<H>,
    pub on_initialized: Option<H>,
    pub on_shutdown: Option<H>,
    pub on_exit: Option<H>,
    pub layers: Vec<H>,
}

/// What [`Pending`] holds.
pub struct PendingView<H> {
    pub registrations: RegistrationsView<H>,
    pub file_provider: Option<H>,
    pub configure_initialize: Option<H>,
    pub on_initialize: Option<H>,
    pub on_initialized: Option<H>,
    pub on_shutdown: Option<H>,
    pub on_exit: Option<H>,
    pub layers: Seq<H>,
}

impl<H> View for Pending<H> {
    type V = PendingView<H>;

    open spec fn view(&self) -> PendingView<H> {
        PendingView {
            registrations: self.registrations@,
            file_provider: self.file_provider,
            configure_initialize: self.configure_initialize,
            on_initialize: self.on_initialize,
            on_initialized: self.on_initialized,
            on_shutdown: self.on_shutdown,
            on_exit: self.on_exit,
            layers: self.layers@,
        }
    }
}

/// The connection's lifecycle phase. The frozen [`Router`] exists only after a
/// successful initialize transaction, so it lives inside the running phase.
pub enum Lifecycle<H> {
    /// No `initialize` has been accepted.
    Uninitialized(Pending<H>),
    /// The initialize transaction runs.
    Initializing,
    /// User work is dispatched.
    Running(Router<H>),
    /// `shutdown` succeeded.
    ShuttingDown,
    /// The connection is closed.
    Exited,
}

/// What a [`Lifecycle`] phase holds.
#[allow(inconsistent_fields)]
pub enum LifecycleView<H> {
    Uninitialized(PendingView<H>),
    Initializing,
    Running(RouterView<H>),
    ShuttingDown,
    Exited,
}

impl<H> View for Lifecycle<H> {
    type V = LifecycleView<H>;

    open spec fn view(&self) -> LifecycleView<H> {
        match *self {
            Lifecycle::Uninitialized(pending) => LifecycleView::Uninitialized(pending@),
            Lifecycle::Initializing => LifecycleView::Initializing,
            Lifecycle::Running(router) => LifecycleView::Running(router@),
            Lifecycle::ShuttingDown => LifecycleView::ShuttingDown,
            Lifecycle::Exited => LifecycleView::Exited,
        }
    }
}

/// What an admitted request is.
pub struct ReservedView {
    pub reservation: ReservationView,
    pub permit: u64,
    pub cancellable: bool,
}

impl View for Reserved {
    type V = ReservedView;

    open spec fn view(&self) -> ReservedView {
        ReservedView {
            reservation: self.reservation@,
            permit: self.permit@,
            cancellable: self.cancellable,
        }
    }
}

/// The initialize transaction, waiting for its registration callback.
pub struct Transaction<H> {
    /// The `initialize` request.
    pub reserved: Reserved,
    /// Its encoded parameters.
    pub params: Vec<u8>,
    /// What the transaction reads of them.
    pub facts: InitializeFacts,
    /// The callback, to be run against the registrar; without one there is
    /// nothing to run.
    pub callback: Option<H>,
    /// The registrar, seeded with all static registrations.
    pub registrar: InitializeRegistrar<H>,
    /// The `on_initialize` hook.
    pub on_initialize: Option<H>,
    /// The hooks that are parked for the running state.
    pub parked: ParkedHooks<H>,
    /// The user Layers.
    pub layers: Vec<H>,
    /// The provider of resources that are not open.
    pub file_provider: Option<H>,
}

/// Hooks for the running state.
pub struct ParkedHooks<H> {
    pub on_initialized: Option<H>,
    pub on_shutdown: Option<H>,
    pub on_exit: Option<H>,
}

/// What a [`Transaction`] holds.
pub struct TransactionStateView<H> {
    pub reserved: ReservedView,
    pub params: Seq<u8>,
    pub facts: InitializeView,
    pub callback: Option<H>,
    pub registrar: TransactionView<H>,
    pub on_initialize: Option<H>,
    pub parked: ParkedHooks<H>,
    pub layers: Seq<H>,
    pub file_provider: Option<H>,
}

impl<H> View for Transaction<H> {
    type V = TransactionStateView<H>;

    open spec fn view(&self) -> TransactionStateView<H> {
        TransactionStateView {
            reserved: self.reserved@,
            params: self.params@,
            facts: self.facts@,
            callback: self.callback,
            registrar: self.registrar@,
            on_initialize: self.on_initialize,
            parked: self.parked,
            layers: self.layers@,
            file_provider: self.file_provider,
        }
    }
}

/// The committed initialize transaction, waiting for its `on_initialize` hook.
pub struct Greeting<H> {
    /// The `initialize` request.
    pub reserved: Reserved,
    /// Its encoded parameters.
    pub params: Vec<u8>,
    /// The token for progress on the initialization.
    pub work_done_token: Option<ProgressToken>,
    /// The hook, to be run for optional server information.
    pub hook: Option<H>,
    /// The generated capabilities.
    pub capabilities: ServerCapabilities,
    /// The frozen Router.
    pub router: Router<H>,
    /// The user Layers.
    pub layers: Vec<H>,
    /// The provider of resources that are not open.
    pub file_provider: Option<H>,
}

/// What a [`Greeting`] holds.
pub struct GreetingView<H> {
    pub reserved: ReservedView,
    pub params: Seq<u8>,
    pub work_done_token: Option<ProgressTokenView>,
    pub hook: Option<H>,
    pub capabilities: ServerCapabilitiesView,
    pub router: RouterView<H>,
    pub layers: Seq<H>,
    pub file_provider: Option<H>,
}

impl<H> View for Greeting<H> {
    type V = GreetingView<H>;

    open spec fn view(&self) -> GreetingView<H> {
        GreetingView {
            reserved: self.reserved@,
            params: self.params@,
            work_done_token: self.work_done_token.deep_view(),
            hook: self.hook,
            capabilities: self.capabilities.deep_view(),
            router: self.router@,
            layers: self.layers@,
            file_provider: self.file_provider,
        }
    }
}

/// A user request, ready for the Service stack.
pub struct Call {
    /// The request.
    pub reserved: Reserved,
    /// The called method.
    pub method: String,
    /// The decoded parameters.
    pub params: Value,
    /// The token for progress on the request.
    pub work_done_token: Option<ProgressToken>,
    /// The token for partial results.
    pub partial_result_token: Option<ProgressToken>,
}

/// What a [`Call`] holds.
pub struct CallView {
    pub reserved: ReservedView,
    pub method: Seq<char>,
    pub params: JsonModel,
    pub work_done_token: Option<ProgressTokenView>,
    pub partial_result_token: Option<ProgressTokenView>,
}

impl View for Call {
    type V = CallView;

    open spec fn view(&self) -> CallView {
        CallView {
            reserved: self.reserved@,
            method: self.method@,
            params: json_model(self.params),
            work_done_token: self.work_done_token.deep_view(),
            partial_result_token: self.partial_result_token.deep_view(),
        }
    }
}

/// What is to be run once the effects of a message are done.
pub enum Flow<H> {
    /// Nothing: take the next message.
    Continue,
    /// The one close operation, with the cause that reached it.
    Close(CloseCause),
    /// The one close operation, whose cause is recorded.
    Stop,
    /// The registration callback of the initialize transaction; its result goes
    /// to [`configured`](crate::engine::ProtocolEngine::configured).
    Configure(Transaction<H>),
    /// The `on_initialize` hook; its result goes to
    /// [`greeted`](crate::engine::ProtocolEngine::greeted).
    Greet(Greeting<H>),
    /// The `on_shutdown` hook, if there is one; its result goes to
    /// [`finish_shutdown`](crate::engine::ProtocolEngine::finish_shutdown).
    Shutdown(Reserved),
    /// The `on_exit` hook, if there is one; then the close with an exit code.
    Exit {
        /// The hook.
        hook: Option<H>,
        /// The LSP exit code.
        code: i32,
    },
    /// The `on_initialized` hook.
    Initialized(H),
    /// A notification through the Service stack.
    Notify {
        /// The called method.
        method: String,
        /// The decoded parameters.
        params: Value,
    },
    /// A task for a user request; its result goes to
    /// [`finish_call`](crate::engine::ProtocolEngine::finish_call).
    Spawn(Call),
}

/// What a [`Flow`] runs.
#[allow(inconsistent_fields)]
pub enum FlowView<H> {
    Continue,
    Close(CloseCause),
    Stop,
    Configure(TransactionStateView<H>),
    Greet(GreetingView<H>),
    Shutdown(ReservedView),
    Exit { hook: Option<H>, code: i32 },
    Initialized(H),
    Notify { method: Seq<char>, params: JsonModel },
    Spawn(CallView),
}

impl<H> View for Flow<H> {
    type V = FlowView<H>;

    open spec fn view(&self) -> FlowView<H> {
        match *self {
            Flow::Continue => FlowView::Continue,
            Flow::Close(cause) => FlowView::Close(cause),
            Flow::Stop => FlowView::Stop,
            Flow::Configure(transaction) => FlowView::Configure(transaction@),
            Flow::Greet(greeting) => FlowView::Greet(greeting@),
            Flow::Shutdown(reserved) => FlowView::Shutdown(reserved@),
            Flow::Exit { hook, code } => FlowView::Exit { hook, code },
            Flow::Initialized(hook) => FlowView::Initialized(hook),
            Flow::Notify { method, params } => FlowView::Notify {
                method: method@,
                params: json_model(params),
            },
            Flow::Spawn(call) => FlowView::Spawn(call@),
        }
    }
}

/// What a message leads to.
pub struct Step<H, T> {
    /// What is to be done, in order.
    pub effects: Vec<Effect<T>>,
    /// What is to be run after that.
    pub flow: Flow<H>,
}

/// What a [`Step`] leads to.
#[verifier::ext_equal]
pub struct StepView<H, T> {
    pub effects: Seq<EffectView<T>>,
    pub flow: FlowView<H>,
}

impl<H, T> View for Step<H, T> {
    type V = StepView<H, T>;

    open spec fn view(&self) -> StepView<H, T> {
        StepView { effects: effects_view(self.effects@), flow: self.flow@ }
    }
}

} // verus!
