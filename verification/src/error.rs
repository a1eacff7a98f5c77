//! The failures of the framework.
use vstd::prelude::*;
use vstd::string::to_string_from_display_ensures;

use serde_json::Value;

use crate::message::{JsonRpcError, JsonRpcErrorView};
use crate::resource_policy::ResourcePolicyField;
use crate::text::{between, decimal, decimal_text};

verus! {

/// A JSON-RPC/LSP error suitable for returning from a handler.
#[derive(Debug)]
pub enum LspError {
    /// An unexpected server failure (`-32603`).
    Internal(String),
    /// Invalid method parameters (`-32602`).
    InvalidParams(String),
    /// No handler exists for the method (`-32601`).
    MethodNotFound(String),
    /// The peer cancelled the request (`-32800`).
    RequestCancelled,
    /// The requested content changed before completion (`-32801`).
    ContentModified,
    /// The server gave the request up before it ran (`-32802`).
    ServerCancelled(String),
    /// A request arrived before initialization completed (`-32002`).
    ServerNotInitialized,
    /// The incoming JSON-RPC request is invalid (`-32600`).
    InvalidRequest(String),
    /// An application-defined server error.
    ServerError {
        /// Application-defined JSON-RPC error code.
        code: i32,
        /// Human-readable error message.
        message: String,
        /// Optional structured error data.
        data: Option<Value>,
    },
}

/// What an [`LspError`] says, with its text as characters.
pub enum LspErrorView {
    Internal(Seq<char>),
    InvalidParams(Seq<char>),
    MethodNotFound(Seq<char>),
    RequestCancelled,
    ContentModified,
    ServerCancelled(Seq<char>),
    ServerNotInitialized,
    InvalidRequest(Seq<char>),
    ServerError { code: i32, message: Seq<char>, data: Option<Value> },
}

impl View for LspError {
    type V = LspErrorView;

    open spec fn view(&self) -> LspErrorView {
        match *self {
            LspError::Internal(m) => LspErrorView::Internal(m@),
            LspError::InvalidParams(m) => LspErrorView::InvalidParams(m@),
            LspError::MethodNotFound(m) => LspErrorView::MethodNotFound(m@),
            LspError::RequestCancelled => LspErrorView::RequestCancelled,
            LspError::ContentModified => LspErrorView::ContentModified,
            LspError::ServerCancelled(m) => LspErrorView::ServerCancelled(m@),
            LspError::ServerNotInitialized => LspErrorView::ServerNotInitialized,
            LspError::InvalidRequest(m) => LspErrorView::InvalidRequest(m@),
            LspError::ServerError { code, message, data } => LspErrorView::ServerError {
                code,
                message: message@,
                data,
            },
        }
    }
}

impl LspErrorView {
    /// The JSON-RPC/LSP numeric error code.
    pub open spec fn code(self) -> int {
        match self {
            LspErrorView::Internal(_) => -32603,
            LspErrorView::InvalidParams(_) => -32602,
            LspErrorView::MethodNotFound(_) => -32601,
            LspErrorView::RequestCancelled => -32800,
            LspErrorView::ContentModified => -32801,
            LspErrorView::ServerCancelled(_) => -32802,
            LspErrorView::ServerNotInitialized => -32002,
            LspErrorView::InvalidRequest(_) => -32600,
            LspErrorView::ServerError { code, .. } => code as int,
        }
    }

    /// The human-readable error message.
    pub open spec fn message(self) -> Seq<char> {
        match self {
            LspErrorView::Internal(m) => m,
            LspErrorView::InvalidParams(m) => m,
            LspErrorView::MethodNotFound(m) => m,
            LspErrorView::RequestCancelled => "request cancelled"@,
            LspErrorView::ContentModified => "content modified"@,
            LspErrorView::ServerCancelled(m) => m,
            LspErrorView::ServerNotInitialized => "server not initialized"@,
            LspErrorView::InvalidRequest(m) => m,
            LspErrorView::ServerError { message, .. } => message,
        }
    }

    /// The error as it is displayed: its class and what it says.
    pub open spec fn text(self) -> Seq<char> {
        match self {
            LspErrorView::Internal(m) => "internal error: "@ + m,
            LspErrorView::InvalidParams(m) => "invalid params: "@ + m,
            LspErrorView::MethodNotFound(m) => "method not found: "@ + m,
            LspErrorView::ServerCancelled(m) => "server cancelled: "@ + m,
            LspErrorView::InvalidRequest(m) => "invalid request: "@ + m,
            _ => self.message(),
        }
    }

    /// The structured data of an application-defined error.
    pub open spec fn data(self) -> Option<Value> {
        match self {
            LspErrorView::ServerError { data, .. } => data,
            _ => None,
        }
    }
}

impl LspError {
    /// Construct an internal-error response from a displayable value.
    pub fn internal<T: core::fmt::Display + ?Sized>(e: &T) -> (error: Self)
        ensures
            error matches LspError::Internal(m) && to_string_from_display_ensures::<T>(e, m),
    {
        LspError::Internal(e.to_string())
    }

    /// Construct an invalid-params response from a displayable value.
    pub fn invalid_params<T: core::fmt::Display + ?Sized>(e: &T) -> (error: Self)
        ensures
            error matches LspError::InvalidParams(m) && to_string_from_display_ensures::<T>(e, m),
    {
        LspError::InvalidParams(e.to_string())
    }

    /// Construct an invalid-request response from a displayable value.
    pub fn invalid_request<T: core::fmt::Display + ?Sized>(e: &T) -> (error: Self)
        ensures
            error matches LspError::InvalidRequest(m) && to_string_from_display_ensures::<T>(e, m),
    {
        LspError::InvalidRequest(e.to_string())
    }

    /// The JSON-RPC/LSP numeric error code.
    pub fn code(&self) -> (code: i32)
        ensures
            code == self@.code(),
    {
        match self {
            LspError::Internal(_) => -32603,
            LspError::InvalidParams(_) => -32602,
            LspError::MethodNotFound(_) => -32601,
            LspError::RequestCancelled => -32800,
            LspError::ContentModified => -32801,
            LspError::ServerCancelled(_) => -32802,
            LspError::ServerNotInitialized => -32002,
            LspError::InvalidRequest(_) => -32600,
            LspError::ServerError { code, .. } => *code,
        }
    }

    /// The human-readable error message.
    pub fn message(&self) -> (message: String)
        ensures
            message@ == self@.message(),
    {
        match self {
            LspError::Internal(m) => m.clone(),
            LspError::InvalidParams(m) => m.clone(),
            LspError::MethodNotFound(m) => m.clone(),
            LspError::RequestCancelled => "request cancelled".to_owned(),
            LspError::ContentModified => "content modified".to_owned(),
            LspError::ServerCancelled(m) => m.clone(),
            LspError::ServerNotInitialized => "server not initialized".to_owned(),
            LspError::InvalidRequest(m) => m.clone(),
            LspError::ServerError { message, .. } => message.clone(),
        }
    }

    /// The error as it is displayed: its class and what it says.
    pub fn displayed(&self) -> (text: String)
        ensures
            text@ == self@.text(),
    {
        match self {
            LspError::Internal(m) => prefixed("internal error: ", m.as_str()),
            LspError::InvalidParams(m) => prefixed("invalid params: ", m.as_str()),
            LspError::MethodNotFound(m) => prefixed("method not found: ", m.as_str()),
            LspError::ServerCancelled(m) => prefixed("server cancelled: ", m.as_str()),
            LspError::InvalidRequest(m) => prefixed("invalid request: ", m.as_str()),
            _ => self.message(),
        }
    }

    /// Optional structured error data for an application-defined server error.
    pub fn data(&self) -> (data: Option<&Value>)
        ensures
            match data {
                Some(v) => self@.data() == Some(*v),
                None => self@.data() is None,
            },
    {
        match self {
            LspError::ServerError { data, .. } => data.as_ref(),
            _ => None,
        }
    }
}

/// A failure of the connection-scoped work-done progress lifecycle.
///
/// These failures describe the handle's own state, not transport or remote
/// failures: enqueue and response failures surface as the other
/// [`ClientError`] variants.
#[derive(Debug, Clone, Copy, PartialEq, Eq, Structural)]
pub enum ProgressError {
    /// The handle's progress was already ended; an ended handle reports and
    /// ends nothing further.
    AlreadyEnded,
    /// The handle's cancellation token was cancelled; a cancelled handle
    /// sends no further report notifications.
    Cancelled,
    /// The handle's token is not active on this connection anymore (for
    /// example because the handle was dropped or the registry entry was
    /// removed by another path).
    UnknownToken,
    /// A report percentage outside the inclusive range 0 through 100.
    InvalidPercentage(u32),
}

impl ProgressError {
    /// The characters of the failure's message.
    pub open spec fn text(self) -> Seq<char> {
        match self {
            ProgressError::AlreadyEnded => "progress handle has already ended"@,
            ProgressError::Cancelled => "progress was cancelled"@,
            ProgressError::UnknownToken => "progress token is not active on this connection"@,
            ProgressError::InvalidPercentage(n) => "progress percentage "@ + decimal_text(n as int)
                + " is outside the range 0..=100"@,
        }
    }

    /// What went wrong, for a reader.
    pub fn message(&self) -> (message: String)
        ensures
            message@ == self.text(),
    {
        match self {
            ProgressError::AlreadyEnded => "progress handle has already ended".to_owned(),
            ProgressError::Cancelled => "progress was cancelled".to_owned(),
            ProgressError::UnknownToken =>
                "progress token is not active on this connection".to_owned(),
            ProgressError::InvalidPercentage(n) => between(
                "progress percentage ",
                decimal(*n as i64).as_str(),
                " is outside the range 0..=100",
            ),
        }
    }
}

/// A configuration error surfaced when a server or client is built.
///
/// `BuildError` is deliberately distinct from [`LspError`]: it names a static
/// registration mistake the developer must fix before the server ever runs,
/// never a value that goes on the wire. Building performs no I/O and returns
/// this before any transport is touched.
#[derive(Debug, PartialEq, Eq)]
#[allow(inconsistent_fields)]
pub enum BuildError {
    /// Two handlers were registered for the same request method.
    DuplicateMethod(String),
    /// A custom request or notification was registered under a method the
    /// framework owns (`initialize`, `shutdown`, `exit`, `initialized`,
    /// `$/cancelRequest`).
    ReservedMethod(String),
    /// Two handlers were registered for the same command name.
    DuplicateCommand(String),
    /// A command was registered with an empty name; a command name is the key
    /// the editor sends on `workspace/executeCommand`, so it cannot be empty.
    EmptyCommandName,
    /// One or more commands were registered alongside an explicit
    /// `workspace/executeCommand` request handler. Commands already dispatch
    /// beneath that method, so a user handler for it would shadow them.
    ExecuteCommandConflict,
    /// Two contributions disagreed on a capability field that must be singular
    /// within its family, or a dependent feature was registered without the
    /// base its family requires. Capability construction never resolves such a
    /// clash by last-write-wins; it fails the build instead.
    ConflictingCapability {
        /// The singular `ServerCapabilities` field with conflicting inputs.
        field: &'static str,
    },
    /// `configure_initialize` was supplied more than once. There is exactly one
    /// initialization-dependent registration transaction.
    DuplicateConfigureInitialize,
    /// A lifecycle hook (`on_initialize`, …) was supplied more than once. Each
    /// hook has at most one registration.
    DuplicateLifecycleHook(&'static str),
    /// The connection-level error hook was supplied more than once.
    DuplicateErrorHook,
    /// A zero concurrency limit could never admit a user call.
    InvalidConcurrencyLimit,
    /// A zero outbound warning threshold could never be crossed from below.
    InvalidOutboundWarningThreshold,
    /// A connection resource budget or enabled deadline was zero.
    InvalidResourcePolicy {
        /// The invalid [`ResourcePolicy`](crate::resource_policy::ResourcePolicy)
        /// field.
        field: ResourcePolicyField,
    },
}

/// What a [`BuildError`] says, with its names as characters.
#[allow(inconsistent_fields)]
pub enum BuildErrorView {
    DuplicateMethod(Seq<char>),
    ReservedMethod(Seq<char>),
    DuplicateCommand(Seq<char>),
    EmptyCommandName,
    ExecuteCommandConflict,
    ConflictingCapability { field: Seq<char> },
    DuplicateConfigureInitialize,
    DuplicateLifecycleHook(Seq<char>),
    DuplicateErrorHook,
    InvalidConcurrencyLimit,
    InvalidOutboundWarningThreshold,
    InvalidResourcePolicy { field: ResourcePolicyField },
}

impl View for BuildError {
    type V = BuildErrorView;

    open spec fn view(&self) -> BuildErrorView {
        match *self {
            BuildError::DuplicateMethod(name) => BuildErrorView::DuplicateMethod(name@),
            BuildError::ReservedMethod(name) => BuildErrorView::ReservedMethod(name@),
            BuildError::DuplicateCommand(name) => BuildErrorView::DuplicateCommand(name@),
            BuildError::EmptyCommandName => BuildErrorView::EmptyCommandName,
            BuildError::ExecuteCommandConflict => BuildErrorView::ExecuteCommandConflict,
            BuildError::ConflictingCapability { field } => BuildErrorView::ConflictingCapability {
                field: field@,
            },
            BuildError::DuplicateConfigureInitialize =>
                BuildErrorView::DuplicateConfigureInitialize,
            BuildError::DuplicateLifecycleHook(name) => BuildErrorView::DuplicateLifecycleHook(
                name@,
            ),
            BuildError::DuplicateErrorHook => BuildErrorView::DuplicateErrorHook,
            BuildError::InvalidConcurrencyLimit => BuildErrorView::InvalidConcurrencyLimit,
            BuildError::InvalidOutboundWarningThreshold =>
                BuildErrorView::InvalidOutboundWarningThreshold,
            BuildError::InvalidResourcePolicy { field } => BuildErrorView::InvalidResourcePolicy {
                field,
            },
        }
    }
}

impl BuildErrorView {
    /// The characters of the failure's message.
    pub open spec fn text(self) -> Seq<char> {
        match self {
            BuildErrorView::DuplicateMethod(name) => "duplicate handler registered for method `"@
                + name + "`"@,
            BuildErrorView::ReservedMethod(name) => "method `"@ + name
                + "` is reserved by the framework and cannot be overridden"@,
            BuildErrorView::DuplicateCommand(name) => "duplicate handler registered for command `"@
                + name + "`"@,
            BuildErrorView::EmptyCommandName => "a command name cannot be empty"@,
            BuildErrorView::ExecuteCommandConflict =>
                "commands conflict with an explicit `workspace/executeCommand` handler; register either commands or the raw method, not both"@,
            BuildErrorView::ConflictingCapability { field } =>
                "conflicting contributions for capability field `"@ + field + "`"@,
            BuildErrorView::DuplicateConfigureInitialize =>
                "`configure_initialize` may only be supplied once"@,
            BuildErrorView::DuplicateLifecycleHook(name) => "lifecycle hook `"@ + name
                + "` may only be supplied once"@,
            BuildErrorView::DuplicateErrorHook => "`on_error` may only be supplied once"@,
            BuildErrorView::InvalidConcurrencyLimit =>
                "concurrency limit must be greater than zero"@,
            BuildErrorView::InvalidOutboundWarningThreshold =>
                "outbound warning threshold must be greater than zero"@,
            BuildErrorView::InvalidResourcePolicy { field } => "resource policy `"@ + field.name()
                + "` must be greater than zero when enabled"@,
        }
    }
}

impl BuildError {
    /// What went wrong, for a reader.
    pub fn message(&self) -> (message: String)
        ensures
            message@ == self@.text(),
    {
        match self {
            BuildError::DuplicateMethod(name) => between(
                "duplicate handler registered for method `",
                name.as_str(),
                "`",
            ),
            BuildError::ReservedMethod(name) => between(
                "method `",
                name.as_str(),
                "` is reserved by the framework and cannot be overridden",
            ),
            BuildError::DuplicateCommand(name) => between(
                "duplicate handler registered for command `",
                name.as_str(),
                "`",
            ),
            BuildError::EmptyCommandName => "a command name cannot be empty".to_owned(),
            BuildError::ExecuteCommandConflict =>
                "commands conflict with an explicit `workspace/executeCommand` handler; register either commands or the raw method, not both".to_owned(),
            BuildError::ConflictingCapability { field } => between(
                "conflicting contributions for capability field `",
                field,
                "`",
            ),
            BuildError::DuplicateConfigureInitialize =>
                "`configure_initialize` may only be supplied once".to_owned(),
            BuildError::DuplicateLifecycleHook(name) => between(
                "lifecycle hook `",
                name,
                "` may only be supplied once",
            ),
            BuildError::DuplicateErrorHook => "`on_error` may only be supplied once".to_owned(),
            BuildError::InvalidConcurrencyLimit =>
                "concurrency limit must be greater than zero".to_owned(),
            BuildError::InvalidOutboundWarningThreshold =>
                "outbound warning threshold must be greater than zero".to_owned(),
            BuildError::InvalidResourcePolicy { field } => between(
                "resource policy `",
                field.as_str(),
                "` must be greater than zero when enabled",
            ),
        }
    }
}

/// A failure of the Transport.
#[derive(Debug)]
pub enum TransportError {
    /// The peer closed the Transport.
    Closed,
    /// A frame could not be recovered.
    Malformed(String),
    /// A frame announced more bytes than are accepted.
    OversizedMessage {
        /// The announced bytes.
        bytes: u64,
    },
    /// Reading or writing failed.
    Io(String),
    /// An envelope could not be encoded or decoded.
    Serde(String),
}

/// A terminal framework or Transport failure while serving a connection.
#[derive(Debug)]
pub enum Error {
    /// A protocol error produced while handling an incoming call.
    Lsp(LspError),
    /// The underlying Transport failed.
    Transport(TransportError),
    /// A client operation failed while the connection was made.
    Client(ClientError),
    /// Native serving was attempted without a running runtime. The framework
    /// never starts a runtime implicitly: start one before serving the
    /// connection.
    RuntimeRequired,
}

/// A failure to enqueue a typed server-to-client operation.
#[derive(Debug)]
pub enum ClientError {
    /// The typed parameters could not be encoded as JSON.
    Serialize(String),
    /// The connection began closing before the operation could be enqueued.
    ConnectionClosed,
    /// The engine-owned outbound queue is closed.
    OutboundClosed,
    /// The operation would exceed the connection's queued-message or
    /// encoded-byte budget.
    OutboundOverloaded,
    /// The session was cancelled before the peer answered the request.
    Cancelled,
    /// The configured outbound-request deadline expired before the peer
    /// answered.
    Timeout,
    /// The connection exhausted the positive outbound request-ID or
    /// progress-token space; no further server-to-client requests or progress
    /// tokens can be allocated on this connection.
    IdExhausted,
    /// The remote peer returned a JSON-RPC error response. The original
    /// error's code, message, and optional data are preserved.
    Remote(JsonRpcError),
    /// The remote peer returned a success result that could not be decoded
    /// into the expected type.
    Deserialize(String),
    /// A named helper rejected its own parameters before anything was
    /// encoded or enqueued: no request or notification was sent.
    InvalidHelperParams(String),
    /// A work-done progress lifecycle failure.
    Progress(ProgressError),
    /// The lifecycle of the connection does not permit the operation.
    InvalidLifecycle {
        /// The operation.
        operation: &'static str,
        /// The state it was attempted in.
        state: &'static str,
    },
}

/// What a [`ClientError`] says, with its texts as characters.
#[allow(inconsistent_fields)]
pub enum ClientErrorView {
    Serialize(Seq<char>),
    ConnectionClosed,
    OutboundClosed,
    OutboundOverloaded,
    Cancelled,
    Timeout,
    IdExhausted,
    Remote(JsonRpcErrorView),
    Deserialize(Seq<char>),
    InvalidHelperParams(Seq<char>),
    Progress(ProgressError),
    InvalidLifecycle { operation: Seq<char>, state: Seq<char> },
}

impl View for ClientError {
    type V = ClientErrorView;

    open spec fn view(&self) -> ClientErrorView {
        match *self {
            ClientError::Serialize(text) => ClientErrorView::Serialize(text@),
            ClientError::ConnectionClosed => ClientErrorView::ConnectionClosed,
            ClientError::OutboundClosed => ClientErrorView::OutboundClosed,
            ClientError::OutboundOverloaded => ClientErrorView::OutboundOverloaded,
            ClientError::Cancelled => ClientErrorView::Cancelled,
            ClientError::Timeout => ClientErrorView::Timeout,
            ClientError::IdExhausted => ClientErrorView::IdExhausted,
            ClientError::Remote(error) => ClientErrorView::Remote(error@),
            ClientError::Deserialize(text) => ClientErrorView::Deserialize(text@),
            ClientError::InvalidHelperParams(text) => ClientErrorView::InvalidHelperParams(text@),
            ClientError::Progress(error) => ClientErrorView::Progress(error),
            ClientError::InvalidLifecycle { operation, state } =>
                ClientErrorView::InvalidLifecycle { operation: operation@, state: state@ },
        }
    }
}

impl ClientErrorView {
    /// The characters of the failure's message.
    pub open spec fn text(self) -> Seq<char> {
        match self {
            ClientErrorView::Serialize(error) => "failed to serialize client parameters: "@ + error,
            ClientErrorView::ConnectionClosed => "client connection is closed"@,
            ClientErrorView::OutboundClosed => "client outbound queue is closed"@,
            ClientErrorView::OutboundOverloaded => "client outbound queue is overloaded"@,
            ClientErrorView::Cancelled => "client request was cancelled"@,
            ClientErrorView::Timeout => "client request timed out"@,
            ClientErrorView::IdExhausted => "outbound request ID space exhausted"@,
            ClientErrorView::Remote(error) => "remote error (code "@ + decimal_text(error.code)
                + "): "@ + error.message,
            ClientErrorView::Deserialize(error) => "failed to deserialize client response: "@
                + error,
            ClientErrorView::InvalidHelperParams(text) => "invalid helper parameters: "@ + text,
            ClientErrorView::Progress(error) => error.text(),
            ClientErrorView::InvalidLifecycle { operation, state } => "cannot perform "@
                + operation + " while the connection is "@ + state,
        }
    }
}

/// A text behind a prefix.
fn prefixed(prefix: &str, rest: &str) -> (text: String)
    ensures
        text@ == prefix@ + rest@,
{
    let mut text = prefix.to_owned();
    text.append(rest);
    text
}

impl ClientError {
    /// What went wrong, for a reader.
    pub fn message(&self) -> (message: String)
        ensures
            message@ == self@.text(),
    {
        match self {
            ClientError::Serialize(error) => prefixed(
                "failed to serialize client parameters: ",
                error.as_str(),
            ),
            ClientError::ConnectionClosed => "client connection is closed".to_owned(),
            ClientError::OutboundClosed => "client outbound queue is closed".to_owned(),
            ClientError::OutboundOverloaded => "client outbound queue is overloaded".to_owned(),
            ClientError::Cancelled => "client request was cancelled".to_owned(),
            ClientError::Timeout => "client request timed out".to_owned(),
            ClientError::IdExhausted => "outbound request ID space exhausted".to_owned(),
            ClientError::Remote(error) => {
                let mut text = between(
                    "remote error (code ",
                    decimal(error.code as i64).as_str(),
                    "): ",
                );
                text.append(error.message.as_str());
                text
            },
            ClientError::Deserialize(error) => prefixed(
                "failed to deserialize client response: ",
                error.as_str(),
            ),
            ClientError::InvalidHelperParams(text) => prefixed(
                "invalid helper parameters: ",
                text.as_str(),
            ),
            ClientError::Progress(error) => error.message(),
            ClientError::InvalidLifecycle { operation, state } => {
                let mut text = between(
                    "cannot perform ",
                    operation,
                    " while the connection is ",
                );
                text.append(state);
                text
            },
        }
    }
}

} // verus!
