//! The protocol engine, its admission of requests, and its close operation.
use lspf::builder::{ProtocolNotification, Server};
use lspf::client::ClientHandle;
use lspf::codec::encode_body;
use lspf::documents::{Position, Range, TextDocumentContentChangeEvent};
use lspf::engine::{
    final_close_cause, validate_sync_changes, BuiltInGate, CloseCause, Input, Outcome,
    ProtocolEngine, ServiceResult,
};
use lspf::error::{Error, LspError, TransportError};
use lspf::failure::{
    ConnectionDirection, ConnectionFailureCategory, ConnectionRequestId, FailureReporter,
};
use lspf::message::{response, ProgressToken, RawMessage, RequestId};
use lspf::options::{
    Save, SaveOptions, TextDocumentSyncKind, TextDocumentSyncOptions,
};
use lspf::outbound::{InsertOutcome, OutboundQueue, OutboundRegistry, OutboundSendError};
use lspf::resource_policy::ResourcePolicy;
use lspf::session::{CloseSignal, InboundRegistry, InboundReserveError, TaskGroup};
use lspf::step::{initialize_response, Effect, Flow, ServerInfo, Step};
use serde_json::Value;

type Engine = ProtocolEngine<&'static str, &'static str>;

fn queue(max_messages: usize, max_bytes: usize) -> OutboundQueue<&'static str> {
    OutboundQueue::bounded(max_messages, max_bytes, FailureReporter::new(Some("on_error"), 7))
}

fn client() -> ClientHandle<&'static str, &'static str> {
    ClientHandle::new(queue(usize::MAX, usize::MAX), OutboundRegistry::new(), None)
}

fn notification(method: &str, params: &[u8]) -> RawMessage {
    RawMessage::Notification { method: method.to_string(), params: params.to_vec() }
}

fn request(id: i32, method: &str, params: &[u8]) -> RawMessage {
    RawMessage::Request {
        id: RequestId::Number(id),
        method: method.to_string(),
        params: params.to_vec(),
    }
}

/// Run the cancel built-in against a client that holds progress.
fn gated_cancel(
    client: ClientHandle<&'static str, &'static str>,
    params: &[u8],
) -> (Option<BuiltInGate>, Vec<Effect<&'static str>>, Engine) {
    let server = Server::builder(()).build().expect("an empty server builds");
    let (mut engine, ()) = ProtocolEngine::new(server, client);
    let mut effects = Vec::new();
    let gate = engine.process_protocol_notification(
        &mut effects,
        ProtocolNotification::ProgressCancel,
        &params.to_vec(),
    );
    (gate.ok(), effects, engine)
}

#[test]
fn a_matching_cancellable_token_fires_and_opens_the_hook_gate() {
    let mut client = client();
    client.register_progress(ProgressToken::Int(1), true);

    let (gate, effects, engine) = gated_cancel(client, br#"{"token": 1}"#);

    assert!(matches!(gate, Some(BuiltInGate::RunHook)), "a successful decode lets the hook run");
    assert!(matches!(effects.as_slice(), [Effect::CancelProgress(ProgressToken::Int(1))]));
    assert!(engine.client().progress_registry().is_cancelled(&ProgressToken::Int(1)));
    assert!(
        engine.client().progress_registry().is_active(&ProgressToken::Int(1)),
        "cancellation never ends the progress: the token stays registered"
    );
}

#[test]
fn non_cancellable_and_inactive_tokens_log_at_debug_and_keep_the_gate_open() {
    let mut plain = client();
    plain.register_progress(ProgressToken::Int(1), false);
    let (gate, effects, engine) = gated_cancel(plain, br#"{"token": 1}"#);
    assert!(matches!(gate, Some(BuiltInGate::RunHook)));
    assert!(effects.is_empty(), "a non-cancellable token never fires");
    assert!(!engine.client().progress_registry().is_cancelled(&ProgressToken::Int(1)));

    let mut other = client();
    other.register_progress(ProgressToken::Int(1), false);
    let (gate, effects, engine) = gated_cancel(other, br#"{"token": 99}"#);
    assert!(matches!(gate, Some(BuiltInGate::RunHook)));
    assert!(effects.is_empty());
    assert!(
        engine.client().progress_registry().is_active(&ProgressToken::Int(1)),
        "an unknown token leaves the registry untouched"
    );
}

#[test]
fn malformed_cancel_params_log_at_debug_and_close_the_hook_gate() {
    for raw in [br#"{"token": true}"#.as_slice(), br#"{}"#.as_slice(), b"not json".as_slice()] {
        let mut client = client();
        client.register_progress(ProgressToken::Int(1), true);
        let (gate, effects, engine) = gated_cancel(client, raw);
        assert!(
            matches!(gate, Some(BuiltInGate::ProtocolFailure)),
            "malformed params {raw:?} skip the hook"
        );
        assert!(effects.is_empty());
        assert!(
            !engine.client().progress_registry().is_cancelled(&ProgressToken::Int(1)),
            "malformed params never cancel anything"
        );
    }
}

fn content_change(with_range: bool) -> TextDocumentContentChangeEvent {
    let text = "replacement".to_string();
    if with_range {
        TextDocumentContentChangeEvent::Partial {
            range: Range {
                start: Position { line: 0, character: 0 },
                end: Position { line: 0, character: 1 },
            },
            text,
        }
    } else {
        TextDocumentContentChangeEvent::WholeDocument { text }
    }
}

#[test]
fn sync_kind_validation_accepts_only_compatible_change_shapes() {
    assert!(validate_sync_changes(TextDocumentSyncKind::Full, &vec![content_change(false)]).is_ok());
    assert!(validate_sync_changes(TextDocumentSyncKind::Full, &vec![content_change(true)]).is_err());
    assert!(validate_sync_changes(
        TextDocumentSyncKind::Incremental,
        &vec![content_change(true), content_change(false)],
    )
    .is_ok());
    assert!(
        validate_sync_changes(TextDocumentSyncKind::Unsynced, &vec![content_change(false)])
            .is_err()
    );
}

#[test]
fn the_first_requester_records_the_cause_and_later_ones_do_not_replace_it() {
    let mut close = CloseSignal::new();
    assert!(!close.is_requested());

    close.request(CloseCause::WriterFailed);
    close.request(CloseCause::Exit { code: 0 });
    close.request(CloseCause::ReaderEof);

    assert!(close.is_requested(), "requesting close wakes the read-loop");
    assert!(
        matches!(close.take_cause(), Some(CloseCause::WriterFailed)),
        "the first cause requested is the one reported"
    );
    assert!(
        close.take_cause().is_none(),
        "the cause is taken once, by the read-loop that ran the close"
    );
}

#[test]
fn a_late_required_enqueue_failure_overrides_an_earlier_close_cause() {
    let mut queue = queue(1, usize::MAX);
    queue.send(notification("test/required", b""), Ok(50)).unwrap();
    let mut close = CloseSignal::new();
    close.request(CloseCause::InitializeFailed);

    assert!(queue.send_required(notification("test/required", b""), Ok(50)).is_err());

    assert!(matches!(
        final_close_cause(&mut close, queue.has_failed()),
        CloseCause::WriterFailed
    ));
}

#[test]
fn every_cause_maps_to_one_outcome_or_a_transport_error() {
    assert_eq!(CloseCause::Exit { code: 0 }.into_result().unwrap(), Outcome::Exit { code: 0 });
    assert_eq!(CloseCause::ReaderEof.into_result().unwrap(), Outcome::TransportClosed);
    assert_eq!(CloseCause::WriterFailed.into_result().unwrap(), Outcome::WriterFailed);
    assert_eq!(CloseCause::InitializeFailed.into_result().unwrap(), Outcome::InitializeFailed);
    assert!(matches!(
        CloseCause::ReaderFailed(TransportError::Malformed("bad".into())).into_result(),
        Err(Error::Transport(_))
    ));
}

#[test]
fn a_stale_reservation_cannot_claim_a_reused_request_id() {
    let mut registry = InboundRegistry::new(2);
    let id = RequestId::Number(2);

    let first = registry.reserve(id.clone(), true).expect("the id is free").reservation;
    assert!(
        matches!(registry.reserve(id.clone(), true), Err(InboundReserveError::DuplicateId)),
        "an in-flight id is not reserved twice"
    );

    // `$/cancelRequest` claims the entry and answers the first request.
    let cancelled = registry.claim_cancellation(&id).expect("the first request is cancellable");
    assert_eq!(cancelled.id(), &id, "the cancellation answers the first request");
    // The peer then reuses the id for a new request.
    let second = registry
        .reserve(id.clone(), true)
        .expect("the id is free once the first request is answered")
        .reservation;

    // The first request's task only now produces a result.
    assert!(
        registry.complete(first, encode_body(&Value::String("race".to_string()))).is_none(),
        "the stale reservation enqueued nothing"
    );
    let answer = registry
        .complete(second, encode_body(&Value::String("reused".to_string())))
        .expect("the second request is answered");
    match answer {
        RawMessage::Response { result: Ok(body), .. } => assert_eq!(
            serde_json::from_slice::<String>(&body).unwrap(),
            "reused",
            "the second request gets its own result, not the stale one"
        ),
        other => panic!("expected a success response, got {other:?}"),
    }
}

#[test]
fn an_exhausted_registry_stays_bounded_and_cancellation_releases_its_entry() {
    let mut registry = InboundRegistry::new(1);
    let accepted = registry
        .reserve(RequestId::Number(2), true)
        .expect("the one slot is available");

    for id in 3..=66 {
        assert!(matches!(
            registry.reserve(RequestId::Number(id), true),
            Err(InboundReserveError::CapacityExhausted)
        ));
    }
    assert_eq!(registry.in_flight(), 1, "the flood retained only the admitted registry entry");

    registry
        .claim_cancellation(&RequestId::Number(2))
        .expect("the admitted request is cancellable");
    assert_eq!(registry.in_flight(), 0, "cancellation releases the registry entry");
    assert!(matches!(
        registry.reserve(RequestId::Number(67), true),
        Err(InboundReserveError::CapacityExhausted)
    ));
    registry.release(accepted.permit);
    assert!(
        registry.reserve(RequestId::Number(67), true).is_ok(),
        "capacity returns after the admitted task drops its reservation"
    );
}

#[test]
fn a_finished_task_holds_capacity_until_its_handle_is_reaped() {
    let mut registry = InboundRegistry::new(1);
    let accepted = registry
        .reserve(RequestId::Number(2), true)
        .expect("the one slot is available");
    registry.complete(accepted.reservation, encode_body(&Value::String("done".to_string())));

    let mut tasks = TaskGroup::new();
    tasks.spawn(accepted.permit);
    assert_eq!(tasks.len(), 1, "the finished handle is still owned");
    assert!(matches!(
        registry.reserve(RequestId::Number(3), true),
        Err(InboundReserveError::CapacityExhausted)
    ));

    for permit in tasks.reap_finished(&vec![true]) {
        registry.release(permit);
    }
    assert_eq!(tasks.len(), 0, "the finished handle was reaped");
    assert!(
        registry.reserve(RequestId::Number(3), true).is_ok(),
        "reaping the handle releases its admission permit"
    );
}

#[test]
fn aborting_the_task_group_releases_disconnect_capacity() {
    let mut registry = InboundRegistry::new(1);
    let accepted = registry
        .reserve(RequestId::Number(2), true)
        .expect("the one slot is available");
    let mut tasks = TaskGroup::new();
    tasks.spawn(accepted.permit);

    registry.claim_all();
    assert_eq!(registry.in_flight(), 0);
    assert!(matches!(
        registry.reserve(RequestId::Number(3), true),
        Err(InboundReserveError::CapacityExhausted)
    ));

    for permit in tasks.take_all() {
        registry.release(permit);
    }
    assert_eq!(tasks.len(), 0, "disconnect joined every task");
    assert!(
        registry.reserve(RequestId::Number(3), true).is_ok(),
        "joining aborted tasks releases their admission permits"
    );
}

#[test]
fn only_a_shutdown_exit_reports_code_zero() {
    assert_eq!(Outcome::Exit { code: 0 }.code(), 0);
    assert_eq!(Outcome::Exit { code: 1 }.code(), 1);
    assert_eq!(Outcome::TransportClosed.code(), 1);
    assert_eq!(Outcome::WriterFailed.code(), 1);
    assert_eq!(Outcome::InitializeFailed.code(), 1);
}

fn send_loop_message(tag: u8) -> RawMessage {
    notification("test/send-loop", &[tag])
}

#[test]
fn requests_responses_and_notifications_share_one_depth_counter() {
    let policy = ResourcePolicy::default();
    let mut client: ClientHandle<&str, &str> = ClientHandle::new(
        OutboundQueue::new(policy.max_outbound_messages, FailureReporter::new(None, 1)),
        OutboundRegistry::new(),
        None,
    );

    client.notify("test/outbound-notification", Ok(b"{}".to_vec()), Ok(60)).unwrap();
    client.send_required(response(RequestId::Number(1), Ok(b"null".to_vec())), Ok(40));
    let (guard, message) = client
        .reserve_request("test/outbound-request", Ok(b"{}".to_vec()), "waiter")
        .expect("the request has an ID");
    assert_eq!(guard.id(), 1);
    client.enqueue_request(guard, message, Ok(60)).expect("the request awaits the peer's response");
    assert_eq!(client.outgoing().depth(), 3);

    let delivery = client.complete(1, Ok(b"\"pong\"".to_vec())).expect("the request is pending");
    assert_eq!(delivery.waiter, "waiter");
    assert_eq!(
        client.outgoing().depth(),
        3,
        "a notification, a response, and a request all increment the one counter"
    );
}

#[test]
fn writer_failure_releases_attempted_and_abandoned_accounting() {
    let mut queue = queue(16, usize::MAX);
    for tag in 0..3 {
        queue.send(send_loop_message(tag), Ok(50)).unwrap();
    }
    assert_eq!(queue.depth(), 3);

    // The first write lands, and the second fails.
    assert!(queue.take_next().is_some());
    queue.record_done();
    assert!(queue.take_next().is_some());
    queue.discard_all();

    assert_eq!(queue.depth(), 0, "writer failure abandons every queued slot");
    assert_eq!(queue.encoded_bytes(), 0, "writer failure abandons every queued byte charge");
    assert!(queue.take_next().is_none());
}

#[test]
fn draining_after_close_decrements_every_message_in_order() {
    let mut client: ClientHandle<&str, &str> = ClientHandle::new(
        OutboundQueue::new(2, FailureReporter::new(None, 1)),
        OutboundRegistry::new(),
        None,
    );
    for tag in 0..3 {
        client.notify("test/send-loop", Ok(vec![tag]), Ok(50)).unwrap();
    }
    client.close_outbound();

    let mut tags = Vec::new();
    while let Some(message) = client.take_next() {
        match message {
            RawMessage::Notification { params, .. } => tags.push(params[0]),
            other => panic!("expected notifications, got {other:?}"),
        }
        client.record_done();
    }

    assert_eq!(
        client.outgoing().depth(),
        0,
        "draining decrements every queued message, above and below the threshold"
    );
    assert_eq!(
        client.outgoing().encoded_bytes(),
        0,
        "close releases every encoded-byte charge after draining"
    );
    assert_eq!(tags, vec![0, 1, 2], "draining never drops or reorders a message");
    assert!(!client.outbound_failed(), "clean draining is not a writer failure");
}

#[test]
fn a_slow_reader_cannot_grow_count_or_bytes_past_the_policy() {
    let message_bytes = 53;
    let mut queue = queue(2, message_bytes * 2);
    queue.send(send_loop_message(0), Ok(message_bytes)).unwrap();
    queue.send(send_loop_message(1), Ok(message_bytes)).unwrap();

    assert!(queue.take_next().is_some());
    assert_eq!(queue.depth(), 2, "the in-flight write remains accounted");
    assert_eq!(queue.encoded_bytes(), message_bytes * 2);
    assert!(matches!(
        queue.send(send_loop_message(2), Ok(message_bytes)),
        Err(OutboundSendError::Overloaded)
    ));
    assert_eq!(queue.depth(), 2, "the rejected send consumes no slot");
    assert_eq!(queue.encoded_bytes(), message_bytes * 2, "the rejected send consumes no bytes");

    queue.record_done();
    assert_eq!(queue.depth(), 1, "a successful write releases one slot");
    assert_eq!(
        queue.encoded_bytes(),
        message_bytes,
        "a successful write releases exactly its encoded bytes"
    );

    queue.close();
    assert!(queue.take_next().is_some());
    queue.record_done();
    assert_eq!(queue.depth(), 0, "close drains the remaining message");
    assert_eq!(queue.encoded_bytes(), 0, "close releases all byte accounting");
}

// --- Whole sessions -------------------------------------------------------

const INITIALIZE: &[u8] =
    br#"{"processId":null,"rootUri":null,"capabilities":{"general":{"positionEncodings":["utf-8"]}}}"#;

fn sync_everything() -> TextDocumentSyncOptions {
    TextDocumentSyncOptions {
        open_close: Some(true),
        change: Some(TextDocumentSyncKind::Incremental),
        will_save: None,
        will_save_wait_until: None,
        save: Some(Save::SaveOptions(SaveOptions { include_text: Some(true) })),
    }
}

fn engine_of(limit: usize) -> Engine {
    let server = Server::builder(())
        .text_document_sync(sync_everything())
        .request("custom/echo".to_string(), "echo")
        .notification("custom/ping".to_string(), "ping")
        .notification("textDocument/didOpen".to_string(), "did_open")
        .on_initialized("on_initialized")
        .on_shutdown("on_shutdown")
        .on_exit("on_exit")
        .resource_policy(ResourcePolicy { max_inbound_requests: limit, ..ResourcePolicy::default() })
        .build()
        .expect("the server builds");
    let (engine, ()) = ProtocolEngine::new(server, client());
    engine
}

fn flow(step: Step<&'static str, &'static str>) -> (Vec<Effect<&'static str>>, Flow<&'static str>) {
    (step.effects, step.flow)
}

/// The error code and message that the one response among effects carries.
fn refusal(effects: &[Effect<&'static str>]) -> (RequestId, i32, String) {
    let mut answers = effects.iter().filter_map(|effect| match effect {
        Effect::Send(RawMessage::Response { id, result: Err(error) }) => {
            Some((id.clone(), error.code, error.message.clone()))
        }
        _ => None,
    });
    let answer = answers.next().expect("the request is refused");
    assert!(answers.next().is_none(), "one response for one request");
    answer
}

/// Take an engine through `initialize`.
fn running(limit: usize) -> Engine {
    let mut engine = engine_of(limit);
    let (effects, flow1) = flow(engine.dispatch(request(1, "initialize", INITIALIZE), false));
    assert!(effects.is_empty());
    let transaction = match flow1 {
        Flow::Configure(transaction) => transaction,
        _ => panic!("the transaction awaits its registration callback"),
    };
    assert!(transaction.callback.is_none());
    let (_, flow2) = flow(engine.configured(transaction, Ok(())));
    let greeting = match flow2 {
        Flow::Greet(greeting) => greeting,
        _ => panic!("the committed transaction awaits its hook"),
    };
    let info = ServerInfo { name: "lspf".to_string(), version: Some("1".to_string()) };
    let (effects, _) = flow(engine.greeted(greeting, Ok(Some(info))));
    match effects.as_slice() {
        [Effect::Greet { id: RequestId::Number(1), result }] => {
            assert!(result.capabilities.position_encoding.is_some());
            assert!(result.capabilities.text_document_sync.is_some());
            let info = result.server_info.as_ref().expect("the hook's words are sent");
            assert_eq!((info.name.as_str(), info.version.as_deref()), ("lspf", Some("1")));
        }
        _ => panic!("the request is answered with the capabilities"),
    }
    assert!(engine.router().is_some(), "the connection runs");
    engine
}

#[test]
fn requests_before_initialize_are_refused() {
    let mut engine = engine_of(4);
    let (effects, _) = flow(engine.dispatch(request(1, "custom/echo", b"{}"), false));
    assert_eq!(refusal(&effects), (RequestId::Number(1), -32002, "server not initialized".into()));
    assert!(engine.router().is_none());
}

#[test]
fn malformed_initialize_can_be_retried() {
    let mut engine = engine_of(4);
    let (effects, next) = flow(engine.dispatch(request(1, "initialize", b"[]"), false));
    assert_eq!(refusal(&effects).1, -32602);
    assert!(matches!(next, Flow::Continue));
    let (_, next) = flow(engine.dispatch(request(2, "initialize", INITIALIZE), false));
    assert!(matches!(next, Flow::Configure(_)), "the attempt was not spent");
}

#[test]
fn initialize_is_spent_once() {
    let mut engine = running(4);
    let (effects, next) = flow(engine.dispatch(request(2, "initialize", INITIALIZE), false));
    assert_eq!(refusal(&effects).0, RequestId::Number(2));
    assert!(matches!(next, Flow::Continue));
}

#[test]
fn a_failed_configuration_ends_the_connection() {
    let mut engine = engine_of(4);
    let (_, next) = flow(engine.dispatch(request(1, "initialize", INITIALIZE), false));
    let transaction = match next {
        Flow::Configure(transaction) => transaction,
        _ => panic!("the transaction awaits its registration callback"),
    };
    let (effects, next) =
        flow(engine.configured(transaction, Err(LspError::Internal("no".to_string()))));
    assert_eq!(refusal(&effects).0, RequestId::Number(1));
    assert!(matches!(next, Flow::Close(CloseCause::InitializeFailed)));
    assert!(engine.router().is_none());
}

#[test]
fn a_registered_request_is_served_and_answered_once() {
    let mut engine = running(4);
    let (effects, next) = flow(engine.dispatch(request(2, "custom/echo", br#"{"a":1}"#), false));
    assert!(effects.is_empty());
    let call = match next {
        Flow::Spawn(call) => call,
        _ => panic!("the request is handed to its handler"),
    };
    assert_eq!(call.method, "custom/echo");
    assert_eq!(serde_json::to_string(&call.params).unwrap(), r#"{"a":1}"#);
    let effects = engine.finish_call(
        call.reserved.reservation,
        ServiceResult::Response(Value::Bool(true)),
    );
    match effects.as_slice() {
        [Effect::Send(RawMessage::Response { id: RequestId::Number(2), result: Ok(body) })] => {
            assert_eq!(body.as_slice(), b"true")
        }
        _ => panic!("the request is answered"),
    }
    engine.release(call.reserved.permit);
}

#[test]
fn a_handler_without_a_response_is_an_internal_error() {
    let mut engine = running(4);
    let (_, next) = flow(engine.dispatch(request(2, "custom/echo", b""), false));
    let call = match next {
        Flow::Spawn(call) => call,
        _ => panic!("the request is handed to its handler"),
    };
    assert_eq!(serde_json::to_string(&call.params).unwrap(), "{}");
    let effects = engine.finish_call(call.reserved.reservation, ServiceResult::NoResponse);
    assert_eq!(
        refusal(&effects),
        (
            RequestId::Number(2),
            -32603,
            LspError::Internal("request service returned no response".to_string()).message()
        )
    );
}

#[test]
fn progress_tokens_are_read_from_the_parameters() {
    let mut engine = running(4);
    let params = br#"{"workDoneToken":"w","partialResultToken":7}"#;
    let (_, next) = flow(engine.dispatch(request(2, "custom/echo", params), true));
    match next {
        Flow::Spawn(call) => {
            assert_eq!(call.work_done_token, Some(ProgressToken::String("w".to_string())));
            assert_eq!(call.partial_result_token, Some(ProgressToken::Int(7)));
        }
        _ => panic!("the request is handed to its handler"),
    }
    let (_, next) = flow(engine.dispatch(request(3, "custom/echo", params), false));
    match next {
        Flow::Spawn(call) => assert_eq!(call.partial_result_token, None),
        _ => panic!("the request is handed to its handler"),
    }
}

#[test]
fn an_unknown_method_reaches_the_service_stack_without_a_route() {
    let mut engine = running(4);
    assert_eq!(engine.router().unwrap().request("custom/echo"), Some(&"echo"));
    assert_eq!(engine.router().unwrap().request("custom/other"), None);
    let (effects, next) = flow(engine.dispatch(request(2, "custom/other", b"{}"), false));
    assert!(effects.is_empty());
    let call = match next {
        Flow::Spawn(call) => call,
        _ => panic!("the stack answers the request"),
    };
    let effects = engine.finish_call(
        call.reserved.reservation,
        ServiceResult::Error(LspError::MethodNotFound(call.method)),
    );
    let (id, code, message) = refusal(&effects);
    assert_eq!((id, code), (RequestId::Number(2), -32601));
    assert!(message.contains("custom/other"));
}

#[test]
fn admission_is_bounded_and_duplicates_are_refused() {
    let mut engine = running(1);
    let (_, next) = flow(engine.dispatch(request(2, "custom/echo", b"{}"), false));
    assert!(matches!(next, Flow::Spawn(_)));
    let (effects, _) = flow(engine.dispatch(request(2, "custom/echo", b"{}"), false));
    assert_eq!(refusal(&effects).1, -32600);
    let (effects, next) = flow(engine.dispatch(request(3, "custom/echo", b"{}"), false));
    assert_eq!(refusal(&effects).0, RequestId::Number(3));
    assert!(matches!(next, Flow::Continue));
}

#[test]
fn a_cancelled_request_is_answered_once() {
    let mut engine = running(4);
    let (_, next) = flow(engine.dispatch(request(2, "custom/echo", b"{}"), false));
    let call = match next {
        Flow::Spawn(call) => call,
        _ => panic!("the request is handed to its handler"),
    };
    let (effects, _) = flow(engine.dispatch(notification("$/cancelRequest", br#"{"id":2}"#), false));
    assert!(effects.iter().any(|effect| matches!(effect, Effect::Cancel(_))));
    assert_eq!(refusal(&effects).1, -32800);
    let late = engine.finish_call(
        call.reserved.reservation,
        ServiceResult::Response(Value::Null),
    );
    assert!(late.is_empty(), "the handler's own response is dropped");
}

#[test]
fn documents_follow_their_notifications() {
    let mut engine = running(4);
    let open = br#"{"textDocument":{"uri":"file:///a.rs","languageId":"rust","version":1,"text":"one"}}"#;
    let (effects, next) = flow(engine.dispatch(notification("textDocument/didOpen", open), false));
    assert!(effects.is_empty());
    match next {
        Flow::Notify { method, .. } => assert_eq!(method, "textDocument/didOpen"),
        _ => panic!("the hook runs after the built-in"),
    }
    assert_eq!(engine.documents().get("file:///a.rs").unwrap().text(), "one");

    let change = br#"{"textDocument":{"uri":"file:///a.rs","version":2},"contentChanges":[{"range":{"start":{"line":0,"character":0},"end":{"line":0,"character":3}},"text":"two"}]}"#;
    let (effects, next) = flow(engine.dispatch(notification("textDocument/didChange", change), false));
    assert!(effects.is_empty());
    assert!(matches!(next, Flow::Notify { .. }), "the stack sees the notification");
    let doc = engine.documents().get("file:///a.rs").unwrap();
    assert_eq!((doc.text().as_str(), doc.version()), ("two", Some(2)));

    let save = br#"{"textDocument":{"uri":"file:///a.rs"}}"#;
    let (effects, _) = flow(engine.dispatch(notification("textDocument/didSave", save), false));
    assert!(
        effects.iter().any(|effect| matches!(effect, Effect::Report(_))),
        "the saved text is required"
    );

    let close = br#"{"textDocument":{"uri":"file:///a.rs"}}"#;
    let (_, _) = flow(engine.dispatch(notification("textDocument/didClose", close), false));
    assert!(engine.documents().get("file:///a.rs").is_none());
}

#[test]
fn a_refused_built_in_is_reported_and_changes_nothing() {
    let mut engine = running(4);
    let change = br#"{"textDocument":{"uri":"file:///none.rs","version":2},"contentChanges":[{"text":"x"}]}"#;
    let (effects, next) = flow(engine.dispatch(notification("textDocument/didChange", change), false));
    match effects.as_slice() {
        [Effect::Report(failure)] => {
            assert_eq!(failure.category, ConnectionFailureCategory::Protocol);
            assert_eq!(failure.context.connection_id, 7);
            assert_eq!(failure.context.direction, Some(ConnectionDirection::Inbound));
            assert_eq!(failure.context.method.as_deref(), Some("textDocument/didChange"));
            assert_eq!(failure.context.request_id, None);
        }
        _ => panic!("the failure is reported"),
    }
    assert!(matches!(next, Flow::Continue));
    assert!(engine.documents().get("file:///none.rs").is_none());
}

#[test]
fn the_lifecycle_hooks_run_once_and_the_exit_is_clean() {
    let mut engine = running(4);
    let (_, next) = flow(engine.dispatch(notification("initialized", b"{}"), false));
    assert!(matches!(next, Flow::Initialized("on_initialized")));
    let (_, next) = flow(engine.dispatch(notification("initialized", b"{}"), false));
    assert!(matches!(next, Flow::Continue));

    let (_, next) = flow(engine.dispatch(request(2, "shutdown", b"null"), false));
    let reserved = match next {
        Flow::Shutdown(reserved) => reserved,
        _ => panic!("the shutdown hook runs"),
    };
    assert_eq!(engine.shutdown_hook(), Some(&"on_shutdown"));
    let (effects, _) = flow(engine.finish_shutdown(reserved, Ok(())));
    assert!(effects.iter().any(|effect| matches!(
        effect,
        Effect::Send(RawMessage::Response { id: RequestId::Number(2), result: Ok(body) })
            if body.as_slice() == b"null"
    )));

    let (effects, _) = flow(engine.dispatch(request(3, "custom/echo", b"{}"), false));
    assert_eq!(refusal(&effects).1, -32600);

    let (_, next) = flow(engine.dispatch(notification("exit", b""), false));
    match next {
        Flow::Exit { hook, code } => assert_eq!((hook, code), (Some("on_exit"), 0)),
        _ => panic!("the exit hook runs"),
    }
    engine.request_close(CloseCause::Exit { code: 0 });
    assert!(engine.close_requested());
    engine.close();
    assert_eq!(engine.finish().unwrap(), Outcome::Exit { code: 0 });
}

#[test]
fn an_ignored_initialized_does_not_consume_the_hook() {
    let mut engine = running(4);
    for params in [&b"[]"[..], b"{\"a\":1}", b""] {
        let (_, next) = flow(engine.dispatch(notification("initialized", params), false));
        assert!(matches!(next, Flow::Continue));
    }
    let mut runs = 0;
    for params in [&b"null"[..], b"{}", b"null"] {
        let (_, next) = flow(engine.dispatch(notification("initialized", params), false));
        if let Flow::Initialized(hook) = next {
            assert_eq!(hook, "on_initialized");
            runs += 1;
        }
    }
    assert_eq!(runs, 1, "the hook runs once in a connection");
}

#[test]
fn a_failed_shutdown_leaves_the_connection_running() {
    let mut engine = running(4);
    let (_, next) = flow(engine.dispatch(request(2, "shutdown", b""), false));
    let reserved = match next {
        Flow::Shutdown(reserved) => reserved,
        _ => panic!("the shutdown hook runs"),
    };
    let (effects, _) =
        flow(engine.finish_shutdown(reserved, Err(LspError::Internal("busy".to_string()))));
    assert_eq!(refusal(&effects).1, -32603);
    assert!(engine.router().is_some());
    let (_, next) = flow(engine.dispatch(notification("exit", b""), false));
    assert!(matches!(next, Flow::Exit { code: 1, .. }));
}

#[test]
fn closing_cancels_what_is_in_flight_and_forgets_everything() {
    let mut engine = running(4);
    let open = br#"{"textDocument":{"uri":"file:///a.rs","languageId":"rust","version":1,"text":"one"}}"#;
    engine.dispatch(notification("textDocument/didOpen", open), false);
    engine.dispatch(request(2, "custom/echo", b"{}"), false);
    let (_, next) = flow(engine.receive(Input::ReadFailed(TransportError::Closed), false));
    assert!(matches!(next, Flow::Stop), "the end of the input is recorded");
    assert!(engine.close_requested());
    let effects = engine.close();
    assert!(matches!(effects.as_slice(), [Effect::Cancel(_)]), "the request's token is fired");
    assert!(engine.documents().get("file:///a.rs").is_none());
    assert!(engine.close().is_empty(), "closing is idempotent");
    assert_eq!(engine.finish().unwrap(), Outcome::TransportClosed);
}

#[test]
fn responses_complete_pending_requests_once() {
    let mut client = client();
    let (guard, message) = client
        .reserve_request("custom/ask", Ok(b"{}".to_vec()), "waiter")
        .expect("the request has an ID");
    client.enqueue_request(guard, message, Ok(10)).expect("the queue has room");
    let server = Server::builder(()).build().expect("an empty server builds");
    let (mut engine, ()): (Engine, ()) = ProtocolEngine::new(server, client);
    let answer = || RawMessage::Response { id: RequestId::Number(1), result: Ok(b"1".to_vec()) };
    let (effects, _) = flow(engine.dispatch(answer(), false));
    assert!(matches!(effects.as_slice(), [Effect::Deliver(delivery)] if delivery.waiter == "waiter"));
    let (effects, _) = flow(engine.dispatch(answer(), false));
    assert!(!effects.iter().any(|effect| matches!(effect, Effect::Deliver(_))));
}

#[test]
fn textual_request_ids_are_redacted() {
    assert_eq!(
        ConnectionRequestId::from(&RequestId::String("secret".to_string())),
        ConnectionRequestId::String
    );
    assert_eq!(ConnectionRequestId::from(&RequestId::Number(4)), ConnectionRequestId::Number(4));
    let reporter = FailureReporter::new(Some("hook"), 3);
    let failure = reporter
        .report(
            ConnectionFailureCategory::Overload,
            Some(ConnectionDirection::Outbound),
            Some("m"),
            Some(&RequestId::String("secret".to_string())),
        )
        .expect("a hook is registered");
    assert_eq!(failure.context.request_id, Some(ConnectionRequestId::String));
    let silent: FailureReporter<&str> = FailureReporter::new(None, 3);
    assert!(silent.report(ConnectionFailureCategory::Overload, None, None, None).is_none());
}

#[test]
fn outbound_ids_count_up_from_one() {
    let mut registry: OutboundRegistry<&str> = OutboundRegistry::new();
    assert_eq!(registry.insert("a"), InsertOutcome::Inserted(1));
    assert_eq!(registry.insert("b"), InsertOutcome::Inserted(2));
    assert_eq!(registry.remove(1), Some("a"));
    assert_eq!(registry.insert("c"), InsertOutcome::Inserted(3));
}

#[test]
fn the_response_to_initialize_carries_its_body() {
    let id = || RequestId::Number(1);
    assert!(matches!(
        initialize_response(id(), Ok(b"{}".to_vec())),
        RawMessage::Response { id: RequestId::Number(1), result: Ok(body) } if body == b"{}"
    ));
    match initialize_response(id(), Err("no".to_string())) {
        RawMessage::Response { result: Err(error), .. } => {
            assert_eq!(error.code, -32603);
            assert_eq!(error.message, "serialization failed: no");
        }
        _ => panic!("a failed encoding is an error"),
    }
}
