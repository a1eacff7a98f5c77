//! The JSON-RPC messages of a connection and the identities in them.
use vstd::prelude::*;

use serde_json::Value;

use crate::error::{LspError, LspErrorView};
use crate::json::{json_clone, json_model, JsonModel};
use crate::options::Content;

verus! {

/// The identity of a JSON-RPC request.
#[derive(Debug, PartialEq, Eq)]
pub enum RequestId {
    /// A numeric identity.
    Number(i32),
    /// A textual identity.
    String(String),
}

/// What a [`RequestId`] is.
#[allow(inconsistent_fields)]
pub enum RequestIdView {
    Number(i32),
    String(Seq<char>),
}

impl DeepView for RequestId {
    type V = RequestIdView;

    open spec fn deep_view(&self) -> RequestIdView {
        match *self {
            RequestId::Number(number) => RequestIdView::Number(number),
            RequestId::String(text) => RequestIdView::String(text@),
        }
    }
}

impl Content for RequestId {
    fn same_content(&self, other: &Self) -> (same: bool) {
        match (self, other) {
            (RequestId::Number(left), RequestId::Number(right)) => *left == *right,
            (RequestId::String(left), RequestId::String(right)) => *left == *right,
            _ => false,
        }
    }

    fn copy_content(&self) -> (copy: Self) {
        match self {
            RequestId::Number(number) => RequestId::Number(*number),
            RequestId::String(text) => RequestId::String(text.clone()),
        }
    }
}

impl Clone for RequestId {
    fn clone(&self) -> (copy: Self)
        ensures
            copy.deep_view() == self.deep_view(),
    {
        self.copy_content()
    }
}

/// The token that progress is reported under.
#[derive(Debug, PartialEq, Eq)]
pub enum ProgressToken {
    /// A numeric token.
    Int(i32),
    /// A textual token.
    String(String),
}

/// What a [`ProgressToken`] is.
#[allow(inconsistent_fields)]
pub enum ProgressTokenView {
    Int(i32),
    String(Seq<char>),
}

impl DeepView for ProgressToken {
    type V = ProgressTokenView;

    open spec fn deep_view(&self) -> ProgressTokenView {
        match *self {
            ProgressToken::Int(number) => ProgressTokenView::Int(number),
            ProgressToken::String(text) => ProgressTokenView::String(text@),
        }
    }
}

impl Content for ProgressToken {
    fn same_content(&self, other: &Self) -> (same: bool) {
        match (self, other) {
            (ProgressToken::Int(left), ProgressToken::Int(right)) => *left == *right,
            (ProgressToken::String(left), ProgressToken::String(right)) => *left == *right,
            _ => false,
        }
    }

    fn copy_content(&self) -> (copy: Self) {
        match self {
            ProgressToken::Int(number) => ProgressToken::Int(*number),
            ProgressToken::String(text) => ProgressToken::String(text.clone()),
        }
    }
}

impl Clone for ProgressToken {
    fn clone(&self) -> (copy: Self)
        ensures
            copy.deep_view() == self.deep_view(),
    {
        self.copy_content()
    }
}

/// The error of a JSON-RPC response.
#[derive(Debug)]
pub struct JsonRpcError {
    /// The numeric error code.
    pub code: i32,
    /// The human-readable message.
    pub message: String,
    /// Optional structured data.
    pub data: Option<Value>,
}

/// What a [`JsonRpcError`] says.
pub struct JsonRpcErrorView {
    pub code: int,
    pub message: Seq<char>,
    pub data: Option<JsonModel>,
}

/// What optional data holds.
pub open spec fn data_model(data: Option<Value>) -> Option<JsonModel> {
    match data {
        Some(value) => Some(json_model(value)),
        None => None,
    }
}

impl View for JsonRpcError {
    type V = JsonRpcErrorView;

    open spec fn view(&self) -> JsonRpcErrorView {
        JsonRpcErrorView {
            code: self.code as int,
            message: self.message@,
            data: data_model(self.data),
        }
    }
}

/// How an error goes over the wire.
pub open spec fn wire_error(error: LspErrorView) -> JsonRpcErrorView {
    JsonRpcErrorView {
        code: error.code(),
        message: error.message(),
        data: data_model(error.data()),
    }
}

/// One JSON-RPC message, with its parameters or its result as encoded JSON.
#[derive(Debug)]
pub enum RawMessage {
    /// A call that is answered.
    Request {
        /// The call's identity.
        id: RequestId,
        /// The called method.
        method: String,
        /// The encoded parameters; empty where there are none.
        params: Vec<u8>,
    },
    /// A call that is not answered.
    Notification {
        /// The called method.
        method: String,
        /// The encoded parameters; empty where there are none.
        params: Vec<u8>,
    },
    /// The answer to a request.
    Response {
        /// The answered request.
        id: RequestId,
        /// The encoded result, or the error.
        result: Result<Vec<u8>, JsonRpcError>,
    },
    /// An error that belongs to no request.
    ProtocolError {
        /// The error.
        error: JsonRpcError,
    },
}

/// What a [`RawMessage`] says.
#[allow(inconsistent_fields)]
pub enum MessageView {
    Request { id: RequestIdView, method: Seq<char>, params: Seq<u8> },
    Notification { method: Seq<char>, params: Seq<u8> },
    Response { id: RequestIdView, result: Result<Seq<u8>, JsonRpcErrorView> },
    ProtocolError { error: JsonRpcErrorView },
}

/// What a result says.
pub open spec fn result_view(result: Result<Vec<u8>, JsonRpcError>) -> Result<
    Seq<u8>,
    JsonRpcErrorView,
> {
    match result {
        Ok(body) => Ok(body@),
        Err(error) => Err(error@),
    }
}

impl View for RawMessage {
    type V = MessageView;

    open spec fn view(&self) -> MessageView {
        match *self {
            RawMessage::Request { id, method, params } => MessageView::Request {
                id: id.deep_view(),
                method: method@,
                params: params@,
            },
            RawMessage::Notification { method, params } => MessageView::Notification {
                method: method@,
                params: params@,
            },
            RawMessage::Response { id, result } => MessageView::Response {
                id: id.deep_view(),
                result: result_view(result),
            },
            RawMessage::ProtocolError { error } => MessageView::ProtocolError { error: error@ },
        }
    }
}

impl MessageView {
    /// The method of a call.
    pub open spec fn method(self) -> Option<Seq<char>> {
        match self {
            MessageView::Request { method, .. } => Some(method),
            MessageView::Notification { method, .. } => Some(method),
            _ => None,
        }
    }

    /// The request a message is, or answers.
    pub open spec fn id(self) -> Option<RequestIdView> {
        match self {
            MessageView::Request { id, .. } => Some(id),
            MessageView::Response { id, .. } => Some(id),
            _ => None,
        }
    }
}

impl RawMessage {
    /// The method of a call.
    pub fn method(&self) -> (method: Option<&str>)
        ensures
            match method {
                Some(text) => self@.method() == Some(text@),
                None => self@.method() is None,
            },
    {
        match self {
            RawMessage::Request { method, .. } => Some(method.as_str()),
            RawMessage::Notification { method, .. } => Some(method.as_str()),
            RawMessage::Response { .. } => None,
            RawMessage::ProtocolError { .. } => None,
        }
    }

    /// The request a message is, or answers.
    pub fn id(&self) -> (id: Option<&RequestId>)
        ensures
            match id {
                Some(request) => self@.id() == Some(request.deep_view()),
                None => self@.id() is None,
            },
    {
        match self {
            RawMessage::Request { id, .. } => Some(id),
            RawMessage::Notification { .. } => None,
            RawMessage::Response { id, .. } => Some(id),
            RawMessage::ProtocolError { .. } => None,
        }
    }
}

/// The response that carries an error.
pub open spec fn error_answer(id: RequestIdView, error: LspErrorView) -> MessageView {
    MessageView::Response { id, result: Err(wire_error(error)) }
}

/// The response that a request's outcome makes.
pub open spec fn answer(id: RequestIdView, outcome: Result<Seq<u8>, LspErrorView>) -> MessageView {
    match outcome {
        Ok(body) => MessageView::Response { id, result: Ok(body) },
        Err(error) => error_answer(id, error),
    }
}

/// What a request's outcome is.
pub open spec fn outcome_view(outcome: Result<Vec<u8>, LspError>) -> Result<
    Seq<u8>,
    LspErrorView,
> {
    match outcome {
        Ok(body) => Ok(body@),
        Err(error) => Err(error@),
    }
}

/// The response that carries an error.
pub fn error_response(id: RequestId, error: &LspError) -> (message: RawMessage)
    ensures
        message@ == error_answer(id.deep_view(), error@),
{
    let data = match error.data() {
        Some(value) => Some(json_clone(value)),
        None => None,
    };
    RawMessage::Response {
        id,
        result: Err(JsonRpcError { code: error.code(), message: error.message(), data }),
    }
}

/// The response that a request's outcome makes.
pub fn response(id: RequestId, outcome: Result<Vec<u8>, LspError>) -> (message: RawMessage)
    ensures
        message@ == answer(id.deep_view(), outcome_view(outcome)),
{
    match outcome {
        Ok(body) => RawMessage::Response { id, result: Ok(body) },
        Err(error) => error_response(id, &error),
    }
}

} // verus!
