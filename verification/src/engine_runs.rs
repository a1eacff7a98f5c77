//! What holds of the protocol engine over a whole connection, from its first
//! message to its last.
use vstd::prelude::*;

use crate::builder::TransactionView;
use crate::client::ClientView;
use crate::codec::says_nothing;
use crate::engine::{CloseCause, EngineView, Next};
use crate::engine_laws::{
    law_messages_keep_the_lifecycle, law_the_exit_hook_runs_at_most_once,
    law_the_initialized_hook_runs_at_most_once,
};
use crate::error::LspErrorView;
use crate::message::MessageView;
use crate::session::{InboundView, SignalView};
use crate::step::{
    FlowView, GreetingView, LifecycleView, ParkedHooks, ReservedView, ServerInfoView,
    TransactionStateView,
};

verus! {

/// What happens to the engine of a connection.
#[allow(inconsistent_fields)]
pub enum EventView<H, T> {
    /// A message is dispatched.
    Message { message: MessageView, partial_results: bool },
    /// The registration callback has ended and left its registrations.
    Configured { registrar: TransactionView<H>, succeeded: bool },
    /// The `on_initialize` hook has ended.
    Greeted { hook: Result<Option<ServerInfoView>, LspErrorView> },
    /// The `on_shutdown` hook has ended.
    ShutDown { reserved: ReservedView, hook: Result<(), LspErrorView> },
    /// A call ends, a place is given back, the handle to the client is used, or
    /// closure is asked for.
    Worked { inbound: InboundView, client: ClientView<T>, close: SignalView<CloseCause> },
    /// The connection is closed.
    Closed,
}

/// A connection so far: its engine, what its driver holds, and how often hooks
/// were run.
pub struct RunView<H, T> {
    pub engine: EngineView<H, T>,
    /// The initialize transaction whose registration callback runs.
    pub transaction: Option<TransactionStateView<H>>,
    /// The initialize transaction whose `on_initialize` hook runs.
    pub greeting: Option<GreetingView<H>>,
    /// How often the initialize transaction has started.
    pub configured: nat,
    /// How often the `on_initialized` hook was run.
    pub initialized: nat,
    /// How often the `on_exit` hook was run.
    pub exited: nat,
}

impl<H, T> EngineView<H, T> {
    /// Whether nothing has happened to the engine yet.
    pub open spec fn is_fresh(self) -> bool {
        &&& self.lifecycle is Uninitialized
        &&& self.parked == (ParkedHooks::<H> {
            on_initialized: None,
            on_shutdown: None,
            on_exit: None,
        })
    }
}

impl<H, T> RunView<H, T> {
    /// A connection to which nothing has happened.
    pub open spec fn begin(engine: EngineView<H, T>) -> Self {
        RunView {
            engine,
            transaction: None,
            greeting: None,
            configured: 0,
            initialized: 0,
            exited: 0,
        }
    }

    /// The connection after a step of its engine: the driver takes what is
    /// handed to it and runs the hook that is to be run.
    pub open spec fn took(self, next: Next<H, T>) -> Self {
        let entered = RunView { engine: next.engine, ..self };
        match next.step.flow {
            FlowView::Configure(transaction) => RunView {
                transaction: Some(transaction),
                configured: self.configured + 1,
                ..entered
            },
            FlowView::Greet(greeting) => RunView { greeting: Some(greeting), ..entered },
            FlowView::Initialized(_) => RunView { initialized: self.initialized + 1, ..entered },
            FlowView::Exit { hook: Some(_), code: _ } => RunView {
                exited: self.exited + 1,
                ..entered
            },
            _ => entered,
        }
    }

    /// The connection once the driver has handed its transaction back.
    pub open spec fn without_transaction(self) -> Self {
        RunView { transaction: None, ..self }
    }

    /// The connection once the driver has handed its greeting back.
    pub open spec fn without_greeting(self) -> Self {
        RunView { greeting: None, ..self }
    }

    /// The connection after an event. The driver hands a transaction back once:
    /// without one, the end of a callback or of a greeting means nothing.
    #[verifier::opaque]
    pub open spec fn after(self, event: EventView<H, T>) -> Self {
        match event {
            EventView::Message { message, partial_results } => self.took(
                self.engine.dispatched(message, partial_results),
            ),
            EventView::Configured { registrar, succeeded } => match self.transaction {
                Some(transaction) => self.without_transaction().took(
                    self.engine.on_configured(
                        TransactionStateView { registrar, ..transaction },
                        succeeded,
                    ),
                ),
                None => self,
            },
            EventView::Greeted { hook } => match self.greeting {
                Some(greeting) => self.without_greeting().took(
                    self.engine.on_greeted(greeting, hook),
                ),
                None => self,
            },
            EventView::ShutDown { reserved, hook } => RunView {
                engine: match hook {
                    Ok(_) => self.engine.shut_down(reserved),
                    Err(error) => self.engine.refused(Seq::empty(), reserved, error).engine,
                },
                ..self
            },
            EventView::Worked { inbound, client, close } => RunView {
                engine: EngineView { inbound, client, close, ..self.engine },
                ..self
            },
            EventView::Closed => RunView {
                engine: if self.engine.lifecycle is Exited {
                    self.engine
                } else {
                    self.engine.after_close()
                },
                ..self
            },
        }
    }

    /// The connection after events in order.
    pub open spec fn after_all(self, events: Seq<EventView<H, T>>) -> Self
        decreases events.len(),
    {
        if events.len() == 0 {
            self
        } else {
            self.after_all(events.drop_last()).after(events.last())
        }
    }

    /// Where the hooks of a connection are: pending in the engine, in the hands
    /// of the driver, parked in the engine, or spent.
    #[verifier::opaque]
    spec fn hooks_are_in_one_place(self, initialized: Option<H>) -> bool {
        let parked = self.engine.parked;
        &&& self.engine.lifecycle matches LifecycleView::Uninitialized(pending) ==> {
            &&& self.configured == 0
            &&& self.transaction is None
            &&& self.greeting is None
            &&& pending.on_initialized == initialized
        }
        &&& self.configured <= 1
        &&& self.engine.lifecycle is Uninitialized || self.transaction is Some ==> {
            &&& parked.on_initialized is None
            &&& parked.on_exit is None
            &&& self.greeting is None
            &&& self.initialized == 0
            &&& self.exited == 0
        }
        &&& self.transaction matches Some(transaction) ==> {
            &&& transaction.parked.on_initialized == initialized
            &&& !(self.engine.lifecycle is Running)
        }
        &&& self.greeting is Some ==> {
            &&& parked.on_initialized == initialized
            &&& self.initialized == 0
            &&& !(self.engine.lifecycle is Running)
        }
        &&& self.engine.lifecycle is Running && self.initialized == 0 ==> parked.on_initialized
            == initialized
        &&& self.initialized <= 1
        &&& self.initialized == 1 ==> initialized is Some && parked.on_initialized is None
            && self.greeting is None
        &&& self.exited <= 1
        &&& self.exited == 1 ==> parked.on_exit is None
    }
}

/// What a message does to the hooks: it starts the transaction with those that
/// were pending, runs a parked one and takes it, or leaves them alone.
spec fn moves_hooks<H, T>(engine: EngineView<H, T>, next: Next<H, T>) -> bool {
    &&& !(next.step.flow is Greet)
    &&& next.step.flow matches FlowView::Configure(transaction) ==> {
        &&& engine.lifecycle matches LifecycleView::Uninitialized(pending)
        &&& transaction.parked.on_initialized == pending.on_initialized
    }
    &&& (next.step.flow is Configure) == (next.engine.lifecycle != engine.lifecycle)
    &&& next.step.flow is Configure ==> next.engine.lifecycle is Initializing
    &&& next.step.flow is Initialized ==> engine.lifecycle is Running
        && engine.parked.on_initialized is Some && next.engine.parked.on_initialized is None
    &&& next.step.flow is Initialized || next.engine.parked.on_initialized
        == engine.parked.on_initialized
    &&& next.step.flow matches FlowView::Exit { hook: Some(hook), code } ==> engine.parked.on_exit
        == Some(hook) && next.engine.parked.on_exit is None
    &&& engine.parked.on_exit is None ==> next.engine.parked.on_exit is None
}

/// A transaction starts with the hooks that were pending, and no message leads
/// to a greeting.
#[verifier::spinoff_prover]
proof fn lemma_a_transaction_takes_the_pending_hooks<H, T>(
    engine: EngineView<H, T>,
    message: MessageView,
    partial_results: bool,
)
    ensures
        ({
            let flow = engine.dispatched(message, partial_results).step.flow;
            &&& !(flow is Greet)
            &&& flow matches FlowView::Configure(transaction) ==> {
                &&& engine.lifecycle matches LifecycleView::Uninitialized(pending)
                &&& transaction.parked.on_initialized == pending.on_initialized
            }
        }),
{
    match message {
        MessageView::Notification { method, params } => {
            lemma_notifications_start_nothing(engine, method, params);
        },
        _ => {},
    }
}

/// No notification starts the initialize transaction or greets.
#[verifier::spinoff_prover]
proof fn lemma_notifications_start_nothing<H, T>(
    engine: EngineView<H, T>,
    method: Seq<char>,
    params: Seq<u8>,
)
    ensures
        ({
            let flow = engine.on_notification(method, params).step.flow;
            !(flow is Greet) && !(flow is Configure)
        }),
{
}

/// Every message moves hooks in this way.
proof fn lemma_messages_move_hooks<H, T>(
    engine: EngineView<H, T>,
    message: MessageView,
    partial_results: bool,
)
    ensures
        moves_hooks(engine, engine.dispatched(message, partial_results)),
{
    law_messages_keep_the_lifecycle(engine, message, partial_results);
    law_the_initialized_hook_runs_at_most_once(engine, message, partial_results);
    law_the_exit_hook_runs_at_most_once(engine, message, partial_results);
    lemma_a_transaction_takes_the_pending_hooks(engine, message, partial_results);
}

/// The hooks stay in one place when a message moves them.
proof fn lemma_a_step_keeps_hooks_in_one_place<H, T>(
    run: RunView<H, T>,
    next: Next<H, T>,
    initialized: Option<H>,
)
    requires
        run.hooks_are_in_one_place(initialized),
        moves_hooks(run.engine, next),
    ensures
        run.took(next).hooks_are_in_one_place(initialized),
{
    reveal(RunView::hooks_are_in_one_place);
}

/// What the end of the registration callback does to the hooks: it parks those of
/// the transaction, or leaves them alone and closes.
spec fn parks_hooks<H, T>(
    engine: EngineView<H, T>,
    parked: ParkedHooks<H>,
    next: Next<H, T>,
) -> bool {
    &&& next.engine.lifecycle == engine.lifecycle
    &&& next.step.flow is Greet && next.engine.parked == parked || next.step.flow is Close
        && next.engine.parked == engine.parked
}

/// A registration callback that has ended parks hooks in this way.
proof fn lemma_configuring_parks_hooks<H, T>(
    engine: EngineView<H, T>,
    transaction: TransactionStateView<H>,
    succeeded: bool,
)
    ensures
        parks_hooks(engine, transaction.parked, engine.on_configured(transaction, succeeded)),
{
}

/// The hooks stay in one place when those of the transaction are parked.
proof fn lemma_parking_keeps_hooks_in_one_place<H, T>(
    run: RunView<H, T>,
    next: Next<H, T>,
    initialized: Option<H>,
)
    requires
        run.hooks_are_in_one_place(initialized),
        run.transaction is Some,
        parks_hooks(run.engine, run.transaction->0.parked, next),
    ensures
        run.without_transaction().took(next).hooks_are_in_one_place(initialized),
{
    reveal(RunView::hooks_are_in_one_place);
}

/// The end of a registration callback is a step of the engine, where the driver
/// holds its transaction.
proof fn lemma_configuring_is_a_step<H, T>(
    run: RunView<H, T>,
    registrar: TransactionView<H>,
    succeeded: bool,
)
    ensures
        run.after((EventView::Configured { registrar, succeeded })) == match run.transaction {
            Some(transaction) => run.without_transaction().took(
                run.engine.on_configured(
                    (TransactionStateView { registrar, ..transaction }),
                    succeeded,
                ),
            ),
            None => run,
        },
{
    reveal(RunView::after);
}

/// What the end of a greeting does to the hooks: it leaves them alone, and the
/// connection runs or its lifecycle stays.
spec fn greets<H, T>(engine: EngineView<H, T>, next: Next<H, T>) -> bool {
    &&& next.engine.parked == engine.parked
    &&& next.step.flow is Continue || next.step.flow is Close
    &&& next.engine.lifecycle is Running || next.engine.lifecycle == engine.lifecycle
}

/// A greeting that has ended greets in this way.
proof fn lemma_greeting_greets<H, T>(
    engine: EngineView<H, T>,
    greeting: GreetingView<H>,
    hook: Result<Option<ServerInfoView>, LspErrorView>,
)
    ensures
        greets(engine, engine.on_greeted(greeting, hook)),
{
}

/// The hooks stay in one place when a greeting ends.
proof fn lemma_greeting_keeps_hooks_in_one_place<H, T>(
    run: RunView<H, T>,
    next: Next<H, T>,
    initialized: Option<H>,
)
    requires
        run.hooks_are_in_one_place(initialized),
        run.greeting is Some,
        greets(run.engine, next),
    ensures
        run.without_greeting().took(next).hooks_are_in_one_place(initialized),
{
    reveal(RunView::hooks_are_in_one_place);
}

/// The end of a greeting is a step of the engine, where the driver holds it.
proof fn lemma_greeting_is_a_step<H, T>(
    run: RunView<H, T>,
    hook: Result<Option<ServerInfoView>, LspErrorView>,
)
    ensures
        run.after((EventView::Greeted { hook })) == match run.greeting {
            Some(greeting) => run.without_greeting().took(
                run.engine.on_greeted(greeting, hook),
            ),
            None => run,
        },
{
    reveal(RunView::after);
}

/// Nothing is done with the hooks, and the connection does not come to run.
spec fn leaves_hooks_alone<H, T>(run: RunView<H, T>, later: RunView<H, T>) -> bool {
    &&& later == (RunView { engine: later.engine, ..run })
    &&& later.engine.parked == run.engine.parked
    &&& later.engine.lifecycle == run.engine.lifecycle || later.engine.lifecycle is ShuttingDown
        || later.engine.lifecycle is Exited
}

/// The hooks stay in one place where nothing is done with them.
proof fn lemma_hooks_left_alone_stay<H, T>(
    run: RunView<H, T>,
    later: RunView<H, T>,
    initialized: Option<H>,
)
    requires
        run.hooks_are_in_one_place(initialized),
        leaves_hooks_alone(run, later),
    ensures
        later.hooks_are_in_one_place(initialized),
{
    reveal(RunView::hooks_are_in_one_place);
}

/// The end of `shutdown`, other work and the close leave the hooks alone.
proof fn lemma_other_events_leave_hooks_alone<H, T>(run: RunView<H, T>, event: EventView<H, T>)
    requires
        event is ShutDown || event is Worked || event is Closed,
    ensures
        leaves_hooks_alone(run, run.after(event)),
{
    reveal(RunView::after);
}

/// A message leads to a step of the engine.
proof fn lemma_a_message_is_a_step<H, T>(
    run: RunView<H, T>,
    message: MessageView,
    partial_results: bool,
)
    ensures
        run.after((EventView::Message { message, partial_results })) == run.took(
            run.engine.dispatched(message, partial_results),
        ),
{
    reveal(RunView::after);
}

/// The hooks stay in one place, whatever happens.
#[verifier::spinoff_prover]
proof fn lemma_hooks_stay_in_one_place<H, T>(
    run: RunView<H, T>,
    event: EventView<H, T>,
    initialized: Option<H>,
)
    requires
        run.hooks_are_in_one_place(initialized),
    ensures
        run.after(event).hooks_are_in_one_place(initialized),
{
    match event {
        EventView::Message { message, partial_results } => {
            let next = run.engine.dispatched(message, partial_results);
            lemma_messages_move_hooks(run.engine, message, partial_results);
            lemma_a_step_keeps_hooks_in_one_place(run, next, initialized);
            lemma_a_message_is_a_step(run, message, partial_results);
        },
        EventView::Configured { registrar, succeeded } => {
            lemma_configuring_is_a_step(run, registrar, succeeded);
            if let Some(transaction) = run.transaction {
                let transaction = TransactionStateView { registrar, ..transaction };
                lemma_configuring_parks_hooks(run.engine, transaction, succeeded);
                lemma_parking_keeps_hooks_in_one_place(
                    run,
                    run.engine.on_configured(transaction, succeeded),
                    initialized,
                );
            }
        },
        EventView::Greeted { hook } => {
            lemma_greeting_is_a_step(run, hook);
            if let Some(greeting) = run.greeting {
                lemma_greeting_greets(run.engine, greeting, hook);
                lemma_greeting_keeps_hooks_in_one_place(
                    run,
                    run.engine.on_greeted(greeting, hook),
                    initialized,
                );
            }
        },
        _ => {
            lemma_other_events_leave_hooks_alone(run, event);
            lemma_hooks_left_alone_stay(run, run.after(event), initialized);
        },
    }
}

/// The hooks are in one place after whatever has happened.
proof fn lemma_hooks_are_in_one_place<H, T>(engine: EngineView<H, T>, events: Seq<EventView<H, T>>)
    requires
        engine.is_fresh(),
    ensures
        RunView::begin(engine).after_all(events).hooks_are_in_one_place(
            engine.lifecycle->Uninitialized_0.on_initialized,
        ),
    decreases events.len(),
{
    if events.len() == 0 {
        reveal(RunView::hooks_are_in_one_place);
    } else {
        lemma_hooks_are_in_one_place(engine, events.drop_last());
        lemma_hooks_stay_in_one_place(
            RunView::begin(engine).after_all(events.drop_last()),
            events.last(),
            engine.lifecycle->Uninitialized_0.on_initialized,
        );
    }
}

/// Over a whole connection, whatever happens to it, the initialize transaction
/// starts at most once, and the `on_initialized` and the `on_exit` hook run at
/// most once each.
pub proof fn law_hooks_run_at_most_once_in_a_connection<H, T>(
    engine: EngineView<H, T>,
    events: Seq<EventView<H, T>>,
)
    requires
        engine.is_fresh(),
    ensures
        RunView::begin(engine).after_all(events).configured <= 1,
        RunView::begin(engine).after_all(events).initialized <= 1,
        RunView::begin(engine).after_all(events).exited <= 1,
{
    reveal(RunView::hooks_are_in_one_place);
    lemma_hooks_are_in_one_place(engine, events);
}

/// At any point of a connection, an `initialized` notification runs the hook
/// that was registered exactly if the connection is running, the parameters say
/// nothing, and the hook was not run before. Any other is ignored without
/// consuming the hook.
pub proof fn law_the_first_valid_initialized_runs_the_hook<H, T>(
    engine: EngineView<H, T>,
    events: Seq<EventView<H, T>>,
    params: Seq<u8>,
    partial_results: bool,
)
    requires
        engine.is_fresh(),
    ensures
        ({
            let registered = engine.lifecycle->Uninitialized_0.on_initialized;
            let run = RunView::begin(engine).after_all(events);
            let message = MessageView::Notification { method: "initialized"@, params };
            let next = run.engine.dispatched(message, partial_results);
            if run.engine.lifecycle is Running && says_nothing(params) && registered is Some
                && run.initialized == 0 {
                next.step.flow == FlowView::Initialized(registered->0)
            } else {
                &&& next.step.flow == FlowView::<H>::Continue
                &&& next.engine == run.engine
            }
        }),
{
    reveal(RunView::hooks_are_in_one_place);
    reveal_strlit("initialized");
    reveal_strlit("exit");
    reveal_strlit("$/cancelRequest");
    assert("initialized"@.len() != "exit"@.len());
    assert("initialized"@.len() != "$/cancelRequest"@.len());
    lemma_hooks_are_in_one_place(engine, events);
}

} // verus!
