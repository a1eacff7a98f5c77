//! The dispatcher with a fixed set of methods.
use lspf::dispatcher::{
    ending, DispatchEffect, DispatchFlow, DispatchOutcome, DispatchStep, Dispatcher, EndEvent,
    FixedNotification, State,
};
use lspf::documents::Documents;
use lspf::error::{Error, LspError, TransportError};
use lspf::message::{JsonRpcError, RawMessage, RequestId};
use serde_json::Value;

fn request(id: i32, method: &str, params: &[u8]) -> RawMessage {
    RawMessage::Request {
        id: RequestId::Number(id),
        method: method.to_string(),
        params: params.to_vec(),
    }
}

fn notification(method: &str, params: &[u8]) -> RawMessage {
    RawMessage::Notification { method: method.to_string(), params: params.to_vec() }
}

fn answer(message: &RawMessage) -> (RequestId, Result<Vec<u8>, i32>) {
    match message {
        RawMessage::Response { id, result } => (
            id.clone(),
            match result {
                Ok(body) => Ok(body.clone()),
                Err(error) => Err(error.code),
            },
        ),
        other => panic!("expected a response, got {other:?}"),
    }
}

/// The code of the error that a step answers a request with.
fn refusal(step: Result<DispatchStep<u8>, Error>) -> i32 {
    let step = step.expect("the connection goes on");
    assert!(matches!(step.flow, DispatchFlow::Continue));
    match step.effects.as_slice() {
        [DispatchEffect::Send(message)] => answer(message).1.expect_err("the request is refused"),
        _ => panic!("the request is refused"),
    }
}

fn running() -> Dispatcher<u8> {
    let mut dispatcher = Dispatcher::new(Documents::new());
    let step = dispatcher.dispatch(request(1, "initialize", br#"{"capabilities":{}}"#), 0).unwrap();
    assert!(matches!(step.flow, DispatchFlow::Initialize { id: RequestId::Number(1), .. }));
    assert_eq!(dispatcher.state(), State::Uninitialized);
    let message = dispatcher.finish_initialize(RequestId::Number(1), Ok(Value::Bool(true)));
    assert_eq!(answer(&message), (RequestId::Number(1), Ok(b"true".to_vec())));
    assert_eq!(dispatcher.state(), State::Running);
    dispatcher
}

#[test]
fn fixed_requests_follow_the_lifecycle() {
    let mut dispatcher: Dispatcher<u8> = Dispatcher::new(Documents::new());
    assert_eq!(refusal(dispatcher.dispatch(request(1, "shutdown", b""), 0)), -32002);
    assert_eq!(dispatcher.exit_code(), 1);

    let mut dispatcher = running();
    assert_eq!(refusal(dispatcher.dispatch(request(2, "initialize", b"{}"), 0)), -32600);
    assert_eq!(refusal(dispatcher.dispatch(request(3, "custom/a", b"{}"), 0)), -32601);

    let step = dispatcher.dispatch(request(4, "shutdown", b""), 9).unwrap();
    assert!(matches!(step.flow, DispatchFlow::Shutdown { id: RequestId::Number(4) }));
    let message = dispatcher.finish_shutdown(RequestId::Number(4), Ok(())).unwrap();
    assert_eq!(answer(&message), (RequestId::Number(4), Ok(b"null".to_vec())));
    assert_eq!(dispatcher.state(), State::ShuttingDown);
    assert_eq!(refusal(dispatcher.dispatch(request(5, "custom/a", b"{}"), 0)), -32600);

    let step = dispatcher.dispatch(notification("exit", b""), 0).unwrap();
    assert!(matches!(step.flow, DispatchFlow::Exit));
    assert_eq!(dispatcher.exit_code(), 0);
}

#[test]
fn a_failed_initialize_leaves_the_connection_uninitialized() {
    let mut dispatcher: Dispatcher<u8> = Dispatcher::new(Documents::new());
    let message = dispatcher
        .finish_initialize(RequestId::Number(1), Err(LspError::Internal("no".to_string())));
    assert_eq!(answer(&message).1, Err(-32603));
    assert_eq!(dispatcher.state(), State::Uninitialized);
}

#[test]
fn malformed_parameters_end_the_connection() {
    let mut dispatcher: Dispatcher<u8> = Dispatcher::new(Documents::new());
    assert!(matches!(
        dispatcher.dispatch(request(1, "initialize", b"[1]"), 0),
        Err(Error::Lsp(LspError::InvalidParams(_)))
    ));
    let mut dispatcher = running();
    assert!(matches!(
        dispatcher.dispatch(notification("textDocument/didOpen", b""), 0),
        Err(Error::Lsp(LspError::InvalidParams(_)))
    ));
}

#[test]
fn a_cancelled_shutdown_is_answered_once() {
    let mut dispatcher = running();
    dispatcher.dispatch(request(2, "shutdown", b""), 9).unwrap();
    let step = dispatcher.dispatch(notification("$/cancelRequest", br#"{"id":2}"#), 0).unwrap();
    match step.effects.as_slice() {
        [DispatchEffect::Cancel(9), DispatchEffect::Send(message)] => {
            assert_eq!(answer(message), (RequestId::Number(2), Err(-32800)))
        }
        _ => panic!("the token is fired and the request answered"),
    }
    assert!(dispatcher
        .finish_shutdown(RequestId::Number(2), Err(LspError::RequestCancelled))
        .is_none());
    let again = dispatcher.dispatch(notification("$/cancelRequest", br#"{"id":2}"#), 0).unwrap();
    assert!(again.effects.is_empty());
    let malformed = dispatcher.dispatch(notification("$/cancelRequest", b""), 0).unwrap();
    assert!(malformed.effects.is_empty());
}

#[test]
fn documents_are_visible_to_the_next_message() {
    let open = br#"{"textDocument":{"uri":"file:///a.rs","languageId":"rust","version":1,"text":"one two"}}"#;
    let mut early: Dispatcher<u8> = Dispatcher::new(Documents::new());
    let step = early.dispatch(notification("textDocument/didOpen", open), 0).unwrap();
    assert!(matches!(step.flow, DispatchFlow::Continue), "dropped before initialize");
    assert!(early.documents().get("file:///a.rs").is_none());

    let mut dispatcher = running();
    let step = dispatcher.dispatch(notification("textDocument/didOpen", open), 0).unwrap();
    match step.flow {
        DispatchFlow::Notify { notification, params } => {
            assert_eq!(notification, FixedNotification::DidOpen);
            assert_eq!(params, open);
        }
        _ => panic!("the handler is notified"),
    }
    assert_eq!(dispatcher.documents().get("file:///a.rs").unwrap().text(), "one two");

    // The middle change is refused, and the others apply.
    let change = br#"{"textDocument":{"uri":"file:///a.rs","version":5},"contentChanges":[
        {"range":{"start":{"line":0,"character":0},"end":{"line":0,"character":3}},"text":"1"},
        {"range":{"start":{"line":9,"character":0},"end":{"line":9,"character":1}},"text":"x"},
        {"range":{"start":{"line":0,"character":2},"end":{"line":0,"character":5}},"text":"2"}]}"#;
    dispatcher.dispatch(notification("textDocument/didChange", change), 0).unwrap();
    let doc = dispatcher.documents().get("file:///a.rs").unwrap();
    assert_eq!((doc.text().as_str(), doc.version()), ("1 2", Some(5)));

    let whole = br#"{"textDocument":{"uri":"file:///a.rs","version":6},"contentChanges":[{"text":"all"}]}"#;
    dispatcher.dispatch(notification("textDocument/didChange", whole), 0).unwrap();
    assert_eq!(dispatcher.documents().get("file:///a.rs").unwrap().text(), "all");

    let id = br#"{"textDocument":{"uri":"file:///a.rs"}}"#;
    let step = dispatcher.dispatch(notification("textDocument/didSave", id), 0).unwrap();
    assert!(matches!(
        step.flow,
        DispatchFlow::Notify { notification: FixedNotification::DidSave, .. }
    ));
    dispatcher.dispatch(notification("textDocument/didClose", id), 0).unwrap();
    assert!(dispatcher.documents().get("file:///a.rs").is_none());
}

#[test]
fn other_messages_are_ignored_or_echoed() {
    let mut dispatcher = running();
    let step = dispatcher.dispatch(notification("initialized", b""), 0).unwrap();
    assert!(matches!(
        step.flow,
        DispatchFlow::Notify { notification: FixedNotification::Initialized, .. }
    ));
    let step = dispatcher.dispatch(notification("custom/ping", b"{}"), 0).unwrap();
    assert!(step.effects.is_empty() && matches!(step.flow, DispatchFlow::Continue));
    let response = RawMessage::Response { id: RequestId::Number(1), result: Ok(Vec::new()) };
    assert!(dispatcher.dispatch(response, 0).unwrap().effects.is_empty());
    let error = JsonRpcError { code: -32700, message: "parse error".to_string(), data: None };
    let step = dispatcher.dispatch(RawMessage::ProtocolError { error }, 0).unwrap();
    assert!(matches!(
        step.effects.as_slice(),
        [DispatchEffect::Send(RawMessage::ProtocolError { error })] if error.code == -32700
    ));
}

#[test]
fn a_disconnect_drains_and_an_exit_aborts() {
    let end = ending(EndEvent::ReadFailed(TransportError::Closed));
    assert_eq!((end.abort_tasks, end.drain_queue), (false, true));
    assert_eq!(end.result.unwrap(), DispatchOutcome::TransportClosed);
    let end = ending(EndEvent::Exited(0));
    assert_eq!((end.abort_tasks, end.drain_queue), (true, true));
    assert_eq!(end.result.unwrap(), DispatchOutcome::Exit(0));
    let end = ending(EndEvent::ReadFailed(TransportError::Malformed("x".to_string())));
    assert_eq!((end.abort_tasks, end.drain_queue), (true, false));
    assert!(matches!(end.result, Err(Error::Transport(TransportError::Malformed(_)))));
    let end = ending(EndEvent::DispatchFailed(Error::RuntimeRequired));
    assert_eq!((end.abort_tasks, end.drain_queue), (true, false));
    assert!(matches!(end.result, Err(Error::RuntimeRequired)));
}
