//! What a handler is given of the call it serves.
use lspf::client::ClientHandle;
use lspf::client_endpoint::ClientContext;
use lspf::context::ServerContext;
use lspf::error::ClientError;
use lspf::failure::FailureReporter;
use lspf::message::{ProgressToken, RawMessage, RequestId};
use lspf::outbound::{OutboundQueue, OutboundRegistry};
use lspf::progress::ProgressOptions;
use serde_json::Value;

type Client = ClientHandle<&'static str, u8>;

fn client(max_outbound_messages: usize) -> Client {
    ClientHandle::new(
        OutboundQueue::bounded(max_outbound_messages, usize::MAX, FailureReporter::new(None, 1)),
        OutboundRegistry::new(),
        None,
    )
}

fn partial_result_context() -> ServerContext<&'static str> {
    ServerContext::for_request(RequestId::Number(7)).with_partial_result(
        "textDocument/documentSymbol".to_string(),
        Some(ProgressToken::String("symbols".to_string())),
    )
}

fn chunk() -> Value {
    Value::Array(Vec::new())
}

fn options() -> ProgressOptions {
    ProgressOptions {
        title: "in\"dex".to_string(),
        cancellable: true,
        message: None,
        percentage: Some(5),
    }
}

fn sent(client: &mut Client) -> Vec<u8> {
    match client.take_next() {
        Some(RawMessage::Notification { method, params }) if method == "$/progress" => params,
        _ => panic!("progress is sent"),
    }
}

#[test]
fn partial_result_sink_requires_the_requests_token() {
    let ctx: ServerContext<&str> = ServerContext::for_notification()
        .with_partial_result("textDocument/documentSymbol".to_string(), None);

    assert!(ctx.partial_results("textDocument/documentSymbol").is_none());
}

#[test]
fn partial_result_reports_use_bounded_outbound_admission() {
    let mut client = client(1);
    let ctx = partial_result_context();
    let sink = ctx
        .partial_results("textDocument/documentSymbol")
        .expect("a supported request with a token has a sink");

    sink.report(&mut client, &chunk(), Ok(60))
        .expect("the first chunk occupies the only outbound slot");
    assert_eq!(sent(&mut client), br#"{"token":"symbols","value":[]}"#);
    assert_eq!(sink.chunk_params(&chunk()).unwrap(), br#"{"token":"symbols","value":[]}"#);
    assert!(matches!(
        sink.report(&mut client, &chunk(), Ok(60)),
        Err(ClientError::OutboundOverloaded)
    ));
}

#[test]
fn partial_result_scope_rejects_reports_after_request_completion() {
    let mut client = client(2);
    let mut ctx = partial_result_context();
    assert!(ctx.partial_result_scope().is_some());

    ctx.finish_partial_results();

    let sink = ctx.partial_results("textDocument/documentSymbol").unwrap();
    assert!(matches!(
        sink.report(&mut client, &chunk(), Ok(60)),
        Err(ClientError::InvalidHelperParams(message))
            if message == "partial-result request has completed"
    ));
    assert!(client.take_next().is_none(), "a late chunk is not enqueued");
}

#[test]
fn a_sink_is_for_the_request_being_handled() {
    let ctx = partial_result_context();
    assert!(ctx.partial_results("textDocument/definition").is_none());
    let scope = ctx.partial_result_scope().unwrap();
    assert_eq!(scope.method(), "textDocument/documentSymbol");
    assert_eq!(scope.token(), &ProgressToken::String("symbols".to_string()));
}

#[test]
fn progress_begins_on_the_token_of_the_request() {
    let mut client = client(4);
    let plain: ServerContext<&str> = ServerContext::for_request(RequestId::Number(1));
    assert!(matches!(plain.begin_progress(&mut client, &options(), Ok(9)), Ok(None)));
    assert!(plain.begin_params(&options()).is_none());
    assert!(client.take_next().is_none());

    let ctx = plain
        .with_cancellation("token")
        .with_work_done_token(Some(ProgressToken::Int(3)));
    assert_eq!(ctx.cancellation(), Some(&"token"));
    assert_eq!(ctx.request_id(), Some(&RequestId::Number(1)));
    let begun = ctx.begin_progress(&mut client, &options(), Ok(9)).unwrap();
    assert_eq!(begun, Some(ProgressToken::Int(3)));
    let params: Value = serde_json::from_slice(&sent(&mut client)).unwrap();
    let expected: Value = serde_json::from_str(
        r#"{"token": 3, "value": {"kind": "begin", "title": "in\"dex", "cancellable": true, "percentage": 5}}"#,
    )
    .unwrap();
    assert_eq!(params, expected);
    assert!(client.progress_registry().is_active(&ProgressToken::Int(3)));

    let other = ServerContext::for_notification()
        .with_work_done_token(Some(ProgressToken::Int(4)))
        .with_cancellation("never");
    assert!(other.request_id().is_none());
    assert!(matches!(
        other.begin_progress(&mut client, &options(), Err("no".to_string())),
        Err(ClientError::Serialize(_))
    ));
    assert!(!client.progress_registry().is_active(&ProgressToken::Int(4)));
}

#[test]
fn diagnostics_are_published_through_the_client() {
    let mut client = client(1);
    let ctx: ServerContext<&str> = ServerContext::for_notification();
    ctx.publish_diagnostics(&mut client, Ok(b"{}".to_vec()), Ok(5)).unwrap();
    assert!(ctx.publish_diagnostics(&mut client, Ok(b"{}".to_vec()), Ok(5)).is_err());
    assert_eq!(
        client.take_next().unwrap().method(),
        Some("textDocument/publishDiagnostics")
    );
}

#[test]
fn a_reverse_context_carries_the_request_id() {
    let ctx = ClientContext::for_request(RequestId::String("a".to_string()));
    assert_eq!(ctx.request_id(), Some(&RequestId::String("a".to_string())));
    assert!(ClientContext::for_notification().request_id().is_none());
}
