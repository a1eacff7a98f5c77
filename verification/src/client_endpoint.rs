//! Client endpoint construction and connection driving.
//!
//! This module owns client-side initialization and reverse-handler policy. What
//! both endpoints share — correlation, admission, completion and close — comes
//! from [`session`](crate::session) and [`client`](crate::client).
use vstd::prelude::*;

use serde_json::Value;

use crate::builder::{error_view, first_error, is_reserved_method, reserved_method};
use crate::client::fails_as;
use crate::codec::{field_token, request_token};
use crate::engine::Outcome;
use crate::error::{
    BuildError, BuildErrorView, ClientError, ClientErrorView, Error, TransportError,
};
use crate::json::{parse_json, parsed_json};
use crate::message::{ProgressToken, ProgressTokenView, RequestId, RequestIdView};
use crate::params::TraceValue;
use crate::resource_policy::ResourcePolicy;
use crate::table::Table;

verus! {

/// Whether a method belongs to the lifecycle, so that a client neither serves it
/// nor calls it by name.
pub fn is_reserved_reverse_method(method: &str) -> (reserved: bool)
    ensures
        reserved == is_reserved_method(method@),
{
    reserved_method(method)
}

/// How far the lifecycle of a client connection has come.
#[derive(Debug, Clone, Copy, PartialEq, Eq, Structural)]
pub enum ClientPhase {
    Initializing,
    Running,
    ShutdownPending,
    ShuttingDown,
    Exited,
    Disconnected,
}

/// What moves the lifecycle of a client connection.
#[derive(Debug, Clone, Copy, PartialEq, Eq, Structural)]
pub enum ClientTransition {
    Initialized,
    BeginShutdown,
    ShutdownSucceeded,
    ShutdownFailed,
    Exit,
    Disconnect,
}

/// Work that the lifecycle of a client connection permits or not.
#[derive(Debug, Clone, Copy, PartialEq, Eq, Structural)]
pub enum ClientWork {
    /// Calls to the server.
    Outbound,
    /// Calls from the server.
    Reverse,
}

impl ClientPhase {
    /// The phase's name.
    pub open spec fn name(self) -> Seq<char> {
        match self {
            ClientPhase::Initializing => "initializing"@,
            ClientPhase::Running => "running"@,
            ClientPhase::ShutdownPending => "shutdown is pending"@,
            ClientPhase::ShuttingDown => "shut down"@,
            ClientPhase::Exited => "exited"@,
            ClientPhase::Disconnected => "disconnected"@,
        }
    }

    /// The phase's name.
    pub fn as_str(self) -> (name: &'static str)
        ensures
            name@ == self.name(),
    {
        match self {
            ClientPhase::Initializing => "initializing",
            ClientPhase::Running => "running",
            ClientPhase::ShutdownPending => "shutdown is pending",
            ClientPhase::ShuttingDown => "shut down",
            ClientPhase::Exited => "exited",
            ClientPhase::Disconnected => "disconnected",
        }
    }

    /// Whether no transition leads out of the phase.
    pub open spec fn is_terminal(self) -> bool {
        self == ClientPhase::Exited || self == ClientPhase::Disconnected
    }

    /// The phase that a transition leads to; none where it is not valid.
    pub open spec fn after(self, transition: ClientTransition) -> Option<ClientPhase> {
        match transition {
            ClientTransition::Initialized => if self == ClientPhase::Initializing {
                Some(ClientPhase::Running)
            } else {
                None
            },
            ClientTransition::BeginShutdown => if self == ClientPhase::Running {
                Some(ClientPhase::ShutdownPending)
            } else {
                None
            },
            ClientTransition::ShutdownSucceeded => if self == ClientPhase::ShutdownPending {
                Some(ClientPhase::ShuttingDown)
            } else {
                None
            },
            ClientTransition::ShutdownFailed => if self == ClientPhase::ShutdownPending {
                Some(ClientPhase::Running)
            } else {
                None
            },
            ClientTransition::Exit => if self == ClientPhase::ShuttingDown {
                Some(ClientPhase::Exited)
            } else {
                None
            },
            ClientTransition::Disconnect => if self.is_terminal() {
                None
            } else {
                Some(ClientPhase::Disconnected)
            },
        }
    }

    /// The phase that a transition leads to; none where it is not valid.
    pub fn transition(self, transition: ClientTransition) -> (next: Option<ClientPhase>)
        ensures
            next == self.after(transition),
    {
        match (self, transition) {
            (ClientPhase::Initializing, ClientTransition::Initialized) => Some(
                ClientPhase::Running,
            ),
            (ClientPhase::Running, ClientTransition::BeginShutdown) => Some(
                ClientPhase::ShutdownPending,
            ),
            (ClientPhase::ShutdownPending, ClientTransition::ShutdownSucceeded) => Some(
                ClientPhase::ShuttingDown,
            ),
            (ClientPhase::ShutdownPending, ClientTransition::ShutdownFailed) => Some(
                ClientPhase::Running,
            ),
            (ClientPhase::ShuttingDown, ClientTransition::Exit) => Some(ClientPhase::Exited),
            (
                ClientPhase::Exited | ClientPhase::Disconnected,
                ClientTransition::Disconnect,
            ) => None,
            (_, ClientTransition::Disconnect) => Some(ClientPhase::Disconnected),
            _ => None,
        }
    }

    /// Whether the phase permits work: calls to the server while it runs, and
    /// calls from it until a shutdown has succeeded.
    pub open spec fn allows(self, work: ClientWork) -> bool {
        match work {
            ClientWork::Outbound => self == ClientPhase::Running,
            ClientWork::Reverse => self == ClientPhase::Running || self
                == ClientPhase::ShutdownPending,
        }
    }

    /// Whether the phase permits work.
    pub fn permits(self, work: ClientWork) -> (permitted: bool)
        ensures
            permitted == self.allows(work),
    {
        match work {
            ClientWork::Outbound => self == ClientPhase::Running,
            ClientWork::Reverse => match self {
                ClientPhase::Running | ClientPhase::ShutdownPending => true,
                _ => false,
            },
        }
    }
}

/// The transition that a byte stands for.
pub open spec fn transition_of(byte: u8) -> ClientTransition {
    match byte % 6 {
        0 => ClientTransition::Initialized,
        1 => ClientTransition::BeginShutdown,
        2 => ClientTransition::ShutdownSucceeded,
        3 => ClientTransition::ShutdownFailed,
        4 => ClientTransition::Exit,
        _ => ClientTransition::Disconnect,
    }
}

/// The phase after a transition is tried.
pub open spec fn after_trying(phase: ClientPhase, transition: ClientTransition) -> ClientPhase {
    match phase.after(transition) {
        Some(next) => next,
        None => phase,
    }
}

/// The phase that a sequence of transitions, each tried in turn, leads to.
pub open spec fn phase_after(data: Seq<u8>) -> ClientPhase
    decreases data.len(),
{
    if data.len() == 0 {
        ClientPhase::Initializing
    } else {
        after_trying(phase_after(data.drop_last()), transition_of(data.last()))
    }
}

/// Drive the lifecycle through an arbitrary sequence of transitions, and say
/// where it ends. Work admission is part of the lifecycle contract and a total
/// operation in every state reached.
pub fn fuzz_lifecycle_sequence(data: &[u8]) -> (phase: ClientPhase)
    ensures
        phase == phase_after(data@),
{
    let mut phase = ClientPhase::Initializing;
    let mut i: usize = 0;
    assert(data@.take(0) =~= Seq::<u8>::empty());
    while i < data.len()
        invariant
            i <= data@.len(),
            phase == phase_after(data@.take(i as int)),
        decreases data@.len() - i,
    {
        let before = phase;
        let byte: u8 = data[i] % 6;
        let transition = if byte == 0 {
            ClientTransition::Initialized
        } else if byte == 1 {
            ClientTransition::BeginShutdown
        } else if byte == 2 {
            ClientTransition::ShutdownSucceeded
        } else if byte == 3 {
            ClientTransition::ShutdownFailed
        } else if byte == 4 {
            ClientTransition::Exit
        } else {
            ClientTransition::Disconnect
        };
        if let Some(next) = phase.transition(transition) {
            phase = next;
        }
        let _ = phase.permits(ClientWork::Outbound);
        let _ = phase.permits(ClientWork::Reverse);
        assert(before.is_terminal() ==> phase == before);
        assert(data@.take(i + 1).drop_last() =~= data@.take(i as int));
        assert(data@.take(i + 1).last() == data@[i as int]);
        i = i + 1;
    }
    assert(data@.take(data@.len() as int) =~= data@);
    phase
}

/// The call that a reverse handler serves.
pub struct ClientContext {
    request_id: Option<RequestId>,
}

impl View for ClientContext {
    type V = Option<RequestIdView>;

    closed spec fn view(&self) -> Option<RequestIdView> {
        self.request_id.deep_view()
    }
}

impl ClientContext {
    /// The context of a request.
    pub fn for_request(request_id: RequestId) -> (context: Self)
        ensures
            context@ == Some(request_id.deep_view()),
    {
        ClientContext { request_id: Some(request_id) }
    }

    /// The context of a notification.
    pub fn for_notification() -> (context: Self)
        ensures
            context@ is None,
    {
        ClientContext { request_id: None }
    }

    /// The JSON-RPC request ID, or `None` while handling a notification.
    pub fn request_id(&self) -> (id: Option<&RequestId>)
        ensures
            match id {
                Some(id) => self@ == Some(id.deep_view()),
                None => self@ is None,
            },
    {
        self.request_id.as_ref()
    }
}

/// A terminal phase never changes, and permits no work.
pub proof fn law_terminal_phases_never_change(phase: ClientPhase, transition: ClientTransition)
    requires
        phase.is_terminal(),
    ensures
        phase.after(transition) is None,
        after_trying(phase, transition) == phase,
        !phase.allows(ClientWork::Outbound),
        !phase.allows(ClientWork::Reverse),
{
}

/// Whatever is tried after a terminal phase, it stays.
pub proof fn law_a_terminal_sequence_stays_terminal(data: Seq<u8>, more: Seq<u8>)
    requires
        phase_after(data).is_terminal(),
    ensures
        phase_after(data + more) == phase_after(data),
    decreases more.len(),
{
    if more.len() == 0 {
        assert(data + more =~= data);
    } else {
        assert((data + more).drop_last() =~= data + more.drop_last());
        assert((data + more).last() == more.last());
        law_a_terminal_sequence_stays_terminal(data, more.drop_last());
    }
}

/// Exit is reached only from a shutdown that succeeded, and a shutdown only
/// succeeds where one was begun from the running phase.
pub proof fn law_exit_follows_a_successful_shutdown(phase: ClientPhase, transition: ClientTransition)
    ensures
        phase.after(transition) == Some(ClientPhase::Exited) ==> phase == ClientPhase::ShuttingDown
            && transition == ClientTransition::Exit,
        phase.after(transition) == Some(ClientPhase::ShuttingDown) ==> phase
            == ClientPhase::ShutdownPending && transition == ClientTransition::ShutdownSucceeded,
        phase.after(transition) == Some(ClientPhase::ShutdownPending) ==> phase
            == ClientPhase::Running && transition == ClientTransition::BeginShutdown,
{
}

/// The lifecycle of a client connection.
pub struct ClientLifecycle {
    phase: ClientPhase,
}

impl View for ClientLifecycle {
    type V = ClientPhase;

    closed spec fn view(&self) -> ClientPhase {
        self.phase
    }
}

/// Why an operation is not valid in a phase.
pub open spec fn invalid_in(operation: Seq<char>, phase: ClientPhase) -> ClientErrorView {
    ClientErrorView::InvalidLifecycle { operation, state: phase.name() }
}

/// Why a transition is not valid in a phase.
pub open spec fn transition_failure(
    operation: Seq<char>,
    phase: ClientPhase,
    transition: ClientTransition,
) -> Option<ClientErrorView> {
    if phase.after(transition) is Some {
        None
    } else {
        Some(invalid_in(operation, phase))
    }
}

/// Why a call to the server is not valid in a phase.
pub open spec fn call_failure(method: Seq<char>, phase: ClientPhase) -> Option<ClientErrorView> {
    if phase.allows(ClientWork::Outbound) && !is_reserved_method(method) {
        None
    } else {
        Some(invalid_in(method, phase))
    }
}

impl ClientLifecycle {
    /// A connection that is being initialized.
    pub fn new() -> (lifecycle: Self)
        ensures
            lifecycle@ == ClientPhase::Initializing,
    {
        ClientLifecycle { phase: ClientPhase::Initializing }
    }

    /// The phase.
    pub fn phase(&self) -> (phase: ClientPhase)
        ensures
            phase == self@,
    {
        self.phase
    }

    /// Initialization has completed.
    pub fn mark_running(&mut self)
        requires
            old(self)@ == ClientPhase::Initializing,
        ensures
            final(self)@ == ClientPhase::Running,
    {
        let _ = self.transition("initialize", ClientTransition::Initialized);
    }

    /// Refuse a call unless the connection runs and the method is not the
    /// lifecycle's own.
    pub fn ensure_running(&self, operation: &'static str) -> (result: Result<(), ClientError>)
        ensures
            fails_as(call_failure(operation@, self@), result),
    {
        if self.phase.permits(ClientWork::Outbound) && !is_reserved_reverse_method(operation) {
            Ok(())
        } else {
            Err(Self::invalid(operation, self.phase))
        }
    }

    /// A shutdown is asked for.
    pub fn begin_shutdown(&mut self) -> (result: Result<(), ClientError>)
        ensures
            fails_as(
                transition_failure("shutdown"@, old(self)@, ClientTransition::BeginShutdown),
                result,
            ),
            final(self)@ == after_trying(old(self)@, ClientTransition::BeginShutdown),
    {
        self.transition("shutdown", ClientTransition::BeginShutdown)
    }

    /// A shutdown was answered; says whether it has just succeeded.
    pub fn finish_shutdown(&mut self, succeeded: bool) -> (shut_down: bool)
        ensures
            shut_down == (succeeded && old(self)@ == ClientPhase::ShutdownPending),
            final(self)@ == after_trying(
                old(self)@,
                if succeeded {
                    ClientTransition::ShutdownSucceeded
                } else {
                    ClientTransition::ShutdownFailed
                },
            ),
    {
        let transition = if succeeded {
            ClientTransition::ShutdownSucceeded
        } else {
            ClientTransition::ShutdownFailed
        };
        self.transition("shutdown", transition).is_ok() && succeeded
    }

    /// The exit is asked for.
    pub fn begin_exit(&mut self) -> (result: Result<(), ClientError>)
        ensures
            fails_as(transition_failure("exit"@, old(self)@, ClientTransition::Exit), result),
            final(self)@ == after_trying(old(self)@, ClientTransition::Exit),
    {
        self.transition("exit", ClientTransition::Exit)
    }

    /// The connection ends locally; says whether it had not ended before.
    pub fn disconnect(&mut self) -> (disconnected: bool)
        ensures
            disconnected == !old(self)@.is_terminal(),
            final(self)@ == after_trying(old(self)@, ClientTransition::Disconnect),
    {
        self.transition("disconnect", ClientTransition::Disconnect).is_ok()
    }

    /// Whether calls from the server are refused.
    pub fn rejects_reverse_work(&self) -> (rejects: bool)
        ensures
            rejects == !self@.allows(ClientWork::Reverse),
    {
        !self.phase.permits(ClientWork::Reverse)
    }

    fn transition(&mut self, operation: &'static str, transition: ClientTransition) -> (result:
        Result<(), ClientError>)
        ensures
            fails_as(transition_failure(operation@, old(self)@, transition), result),
            final(self)@ == after_trying(old(self)@, transition),
    {
        match self.phase.transition(transition) {
            Some(next) => {
                self.phase = next;
                Ok(())
            },
            None => Err(Self::invalid(operation, self.phase)),
        }
    }

    fn invalid(operation: &'static str, phase: ClientPhase) -> (error: ClientError)
        ensures
            error@ == invalid_in(operation@, phase),
    {
        ClientError::InvalidLifecycle { operation, state: phase.as_str() }
    }
}

/// What first requested the close of a client connection.
#[derive(Debug)]
pub enum ClientCloseCause {
    Exit,
    Disconnect,
    ReaderEof,
    ReaderFailed(TransportError),
    WriterFailed,
    InitializeFailed,
}

impl ClientCloseCause {
    /// The cause of a failed writer.
    pub fn writer_failed() -> (cause: Self)
        ensures
            cause == ClientCloseCause::WriterFailed,
    {
        ClientCloseCause::WriterFailed
    }

    /// The cause's name.
    pub open spec fn name(self) -> Seq<char> {
        match self {
            ClientCloseCause::Exit => "exit"@,
            ClientCloseCause::Disconnect => "disconnect"@,
            ClientCloseCause::ReaderEof => "reader_eof"@,
            ClientCloseCause::ReaderFailed(_) => "reader_failed"@,
            ClientCloseCause::WriterFailed => "writer_failed"@,
            ClientCloseCause::InitializeFailed => "initialize_failed"@,
        }
    }

    /// The cause's name.
    pub fn as_str(&self) -> (name: &'static str)
        ensures
            name@ == self.name(),
    {
        match self {
            ClientCloseCause::Exit => "exit",
            ClientCloseCause::Disconnect => "disconnect",
            ClientCloseCause::ReaderEof => "reader_eof",
            ClientCloseCause::ReaderFailed(_) => "reader_failed",
            ClientCloseCause::WriterFailed => "writer_failed",
            ClientCloseCause::InitializeFailed => "initialize_failed",
        }
    }

    /// What serving the connection returns for a cause. A failed initialization
    /// never gets to serving.
    pub open spec fn result(self) -> Result<Outcome, Error> {
        match self {
            ClientCloseCause::Exit => Ok(Outcome::Exit { code: 0 }),
            ClientCloseCause::ReaderFailed(error) => Err(Error::Transport(error)),
            ClientCloseCause::WriterFailed => Ok(Outcome::WriterFailed),
            _ => Ok(Outcome::TransportClosed),
        }
    }

    /// Map the recorded cause onto what serving the connection returns.
    pub fn into_result(self) -> (result: Result<Outcome, Error>)
        requires
            self != ClientCloseCause::InitializeFailed,
        ensures
            result == self.result(),
    {
        match self {
            ClientCloseCause::Exit => Ok(Outcome::Exit { code: 0 }),
            ClientCloseCause::Disconnect => Ok(Outcome::TransportClosed),
            ClientCloseCause::ReaderEof => Ok(Outcome::TransportClosed),
            ClientCloseCause::ReaderFailed(error) => Err(Error::Transport(error)),
            ClientCloseCause::WriterFailed => Ok(Outcome::WriterFailed),
            ClientCloseCause::InitializeFailed => Ok(Outcome::TransportClosed),
        }
    }
}

/// The top-level work-done token of encoded parameters, or why there is no
/// telling.
pub open spec fn token_in(params: Seq<u8>) -> Result<Option<ProgressTokenView>, ClientErrorView> {
    if params.len() == 0 {
        Ok(None)
    } else {
        match parsed_json(params) {
            Err(error) => Err(ClientErrorView::Serialize(error)),
            Ok(value) => match field_token(value, "workDoneToken"@) {
                Err(error) => Err(ClientErrorView::Serialize(error)),
                Ok(token) => Ok(token),
            },
        }
    }
}

/// The top-level work-done token of encoded parameters.
pub fn work_done_token(params: &Vec<u8>) -> (result: Result<Option<ProgressToken>, ClientError>)
    ensures
        match result {
            Ok(token) => token_in(params@) == Ok::<Option<ProgressTokenView>, ClientErrorView>(
                token.deep_view(),
            ),
            Err(error) => token_in(params@) == Err::<Option<ProgressTokenView>, ClientErrorView>(
                error@,
            ),
        },
{
    if params.len() == 0 {
        return Ok(None);
    }
    let value = match parse_json(params.as_slice()) {
        Ok(value) => value,
        Err(error) => return Err(ClientError::Serialize(error)),
    };
    match request_token(&value, "workDoneToken") {
        Ok(token) => Ok(token),
        Err(error) => Err(ClientError::Serialize(error)),
    }
}

/// The parameters of the `initialize` request. `C` stands for the capabilities
/// and `I` for what the client says of itself.
pub struct InitializeRequestParams<C, I> {
    pub process_id: Option<i32>,
    pub root_path: Option<String>,
    pub root_uri: Option<String>,
    pub initialization_options: Option<Value>,
    pub capabilities: C,
    pub trace: Option<TraceValue>,
    pub client_info: Option<I>,
    pub locale: Option<String>,
    pub work_done_token: Option<ProgressToken>,
}

/// The parameters of the `initialize` request: what the client was configured
/// with, and nothing else.
pub fn initialize_params<C, I>(
    capabilities: C,
    client_info: Option<I>,
    initialization_options: Option<Value>,
) -> (params: InitializeRequestParams<C, I>)
    ensures
        params == (InitializeRequestParams {
            process_id: None,
            root_path: None,
            root_uri: None,
            initialization_options,
            capabilities,
            trace: None,
            client_info,
            locale: None,
            work_done_token: None,
        }),
{
    InitializeRequestParams {
        process_id: None,
        root_path: None,
        root_uri: None,
        initialization_options,
        capabilities,
        trace: None,
        client_info,
        locale: None,
        work_done_token: None,
    }
}

/// Builder for one [`Client`] connection. `C` stands for the capabilities, `I`
/// for what the client says of itself, and `H` for handlers.
pub struct ClientBuilder<C, I, H> {
    capabilities: C,
    client_info: Option<I>,
    initialization_options: Option<Value>,
    request_handlers: Table<String, H>,
    notification_handlers: Table<String, H>,
    resource_policy: ResourcePolicy,
    error: Option<BuildError>,
}

/// What a [`ClientBuilder`] has collected.
#[verifier::ext_equal]
pub struct ClientBuilderView<C, I, H> {
    pub capabilities: C,
    pub client_info: Option<I>,
    pub initialization_options: Option<Value>,
    pub request_handlers: Map<Seq<char>, H>,
    pub notification_handlers: Map<Seq<char>, H>,
    pub resource_policy: ResourcePolicy,
    pub error: Option<BuildErrorView>,
}

/// Why a handler cannot stand under a method.
pub open spec fn handler_refusal<H>(handlers: Map<Seq<char>, H>, method: Seq<char>) -> Option<
    BuildErrorView,
> {
    if is_reserved_method(method) {
        Some(BuildErrorView::ReservedMethod(method))
    } else if handlers.dom().contains(method) {
        Some(BuildErrorView::DuplicateMethod(method))
    } else {
        None
    }
}

/// The handlers with one more, unless it is refused.
pub open spec fn with_handler<H>(
    handlers: Map<Seq<char>, H>,
    method: Seq<char>,
    handler: H,
) -> Map<Seq<char>, H> {
    if handler_refusal(handlers, method) is Some {
        handlers
    } else {
        handlers.insert(method, handler)
    }
}

impl<C, I, H> ClientBuilderView<C, I, H> {
    /// A fresh builder.
    pub open spec fn fresh(capabilities: C) -> Self {
        ClientBuilderView {
            capabilities,
            client_info: None,
            initialization_options: None,
            request_handlers: Map::empty(),
            notification_handlers: Map::empty(),
            resource_policy: ResourcePolicy::standard(),
            error: None,
        }
    }

    /// Why the builder yields no client: the first error that was recorded, or an
    /// invalid resource policy.
    pub open spec fn failure(self) -> Option<BuildErrorView> {
        first_error(
            self.error,
            match self.resource_policy.invalid_field() {
                Some(field) => Some(BuildErrorView::InvalidResourcePolicy { field }),
                None => None,
            },
        )
    }
}

impl<C, I, H> View for ClientBuilder<C, I, H> {
    type V = ClientBuilderView<C, I, H>;

    closed spec fn view(&self) -> ClientBuilderView<C, I, H> {
        ClientBuilderView {
            capabilities: self.capabilities,
            client_info: self.client_info,
            initialization_options: self.initialization_options,
            request_handlers: self.request_handlers@,
            notification_handlers: self.notification_handlers@,
            resource_policy: self.resource_policy,
            error: error_view(self.error),
        }
    }
}

impl<C, I, H> ClientBuilder<C, I, H> {
    /// A builder with nothing registered and the default resource policy.
    pub fn new(capabilities: C) -> (builder: Self)
        ensures
            builder@ == ClientBuilderView::<C, I, H>::fresh(capabilities),
    {
        ClientBuilder {
            capabilities,
            client_info: None,
            initialization_options: None,
            request_handlers: Table::new(),
            notification_handlers: Table::new(),
            resource_policy: ResourcePolicy::default(),
            error: None,
        }
    }

    /// Set the client name and optional version sent in `initialize`.
    pub fn client_info(self, client_info: I) -> (next: Self)
        ensures
            next@ == (ClientBuilderView { client_info: Some(client_info), ..self@ }),
    {
        let mut next = self;
        next.client_info = Some(client_info);
        next
    }

    /// Set the caller-owned initialization options sent verbatim in `initialize`.
    pub fn initialization_options(self, options: Value) -> (next: Self)
        ensures
            next@ == (ClientBuilderView { initialization_options: Some(options), ..self@ }),
    {
        let mut next = self;
        next.initialization_options = Some(options);
        next
    }

    /// Replace the finite budgets and deadlines owned by this connection.
    pub fn resource_policy(self, policy: ResourcePolicy) -> (next: Self)
        ensures
            next@ == (ClientBuilderView { resource_policy: policy, ..self@ }),
    {
        let mut next = self;
        next.resource_policy = policy;
        next
    }

    /// Register one server-to-client request handler under its method.
    pub fn request(self, method: String, handler: H) -> (next: Self)
        ensures
            next@ == (ClientBuilderView {
                request_handlers: with_handler(self@.request_handlers, method@, handler),
                error: first_error(
                    self@.error,
                    handler_refusal(self@.request_handlers, method@),
                ),
                ..self@
            }),
    {
        let mut next = self;
        if is_reserved_reverse_method(method.as_str()) {
            next.record(BuildError::ReservedMethod(method));
            return next;
        }
        if next.request_handlers.contains_key(&method) {
            next.record(BuildError::DuplicateMethod(method));
            return next;
        }
        next.request_handlers.insert(method, handler);
        next
    }

    /// Register one server-to-client notification handler under its method.
    pub fn notification(self, method: String, handler: H) -> (next: Self)
        ensures
            next@ == (ClientBuilderView {
                notification_handlers: with_handler(
                    self@.notification_handlers,
                    method@,
                    handler,
                ),
                error: first_error(
                    self@.error,
                    handler_refusal(self@.notification_handlers, method@),
                ),
                ..self@
            }),
    {
        let mut next = self;
        if is_reserved_reverse_method(method.as_str()) {
            next.record(BuildError::ReservedMethod(method));
            return next;
        }
        if next.notification_handlers.contains_key(&method) {
            next.record(BuildError::DuplicateMethod(method));
            return next;
        }
        next.notification_handlers.insert(method, handler);
        next
    }

    /// Validate the configuration without performing I/O.
    pub fn validate(self) -> (result: Result<Self, BuildError>)
        ensures
            match self@.failure() {
                Some(error) => result matches Err(e) && e@ == error,
                None => result matches Ok(valid) && valid@ == self@,
            },
    {
        let mut valid = self;
        if let Err(error) = valid.resource_policy.validate() {
            valid.record(error);
        }
        match valid.error.take() {
            Some(error) => Err(error),
            None => Ok(valid),
        }
    }

    /// Validate the configuration and build a client over `transport` without
    /// performing I/O.
    pub fn build<N>(self, transport: N) -> (result: Result<Client<N, C, I, H>, BuildError>)
        ensures
            match self@.failure() {
                Some(error) => result matches Err(e) && e@ == error,
                None => result matches Ok(client) && client.transport == transport
                    && client.configuration() == self@,
            },
    {
        match self.validate() {
            Err(error) => Err(error),
            Ok(valid) => Ok(
                Client {
                    transport,
                    capabilities: valid.capabilities,
                    client_info: valid.client_info,
                    initialization_options: valid.initialization_options,
                    request_handlers: valid.request_handlers,
                    notification_handlers: valid.notification_handlers,
                    resource_policy: valid.resource_policy,
                },
            ),
        }
    }

    fn record(&mut self, error: BuildError)
        ensures
            final(self)@ == (ClientBuilderView {
                error: first_error(old(self)@.error, Some(error@)),
                ..old(self)@
            }),
    {
        if self.error.is_none() {
            self.error = Some(error);
        }
    }
}

/// An LSP client endpoint configured for one connection.
pub struct Client<N, C, I, H> {
    pub transport: N,
    pub capabilities: C,
    pub client_info: Option<I>,
    pub initialization_options: Option<Value>,
    pub request_handlers: Table<String, H>,
    pub notification_handlers: Table<String, H>,
    pub resource_policy: ResourcePolicy,
}

impl<N, C, I, H> Client<N, C, I, H> {
    /// What the client was configured with.
    pub open spec fn configuration(&self) -> ClientBuilderView<C, I, H> {
        ClientBuilderView {
            capabilities: self.capabilities,
            client_info: self.client_info,
            initialization_options: self.initialization_options,
            request_handlers: self.request_handlers@,
            notification_handlers: self.notification_handlers@,
            resource_policy: self.resource_policy,
            error: None,
        }
    }

    /// Begin configuring a client with the capabilities sent in `initialize`.
    pub fn builder(capabilities: C) -> (builder: ClientBuilder<C, I, H>)
        ensures
            builder@ == ClientBuilderView::<C, I, H>::fresh(capabilities),
    {
        ClientBuilder::new(capabilities)
    }
}

} // verus!
