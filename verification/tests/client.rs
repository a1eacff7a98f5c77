//! The handle to the peer, its queue, and its registry of pending requests.
use lspf::client::{cancel_message, response_body, ClientHandle, PendingGuard};
use lspf::error::ClientError;
use lspf::failure::{ConnectionFailureCategory, FailureReporter};
use lspf::message::{JsonRpcError, RawMessage, RequestId};
use lspf::outbound::{
    InsertOutcome, OutboundQueue, OutboundRegistry, OutboundSendError, PendingOutcome,
};
use lspf::params::TraceValue;
use lspf::resource_policy::DEFAULT_OUTBOUND_WARNING_THRESHOLD;
use serde_json::Value;

type Client = ClientHandle<&'static str, u8>;

fn reporter() -> FailureReporter<&'static str> {
    FailureReporter::new(Some("on_error"), 1)
}

fn make_client() -> Client {
    ClientHandle::new(
        OutboundQueue::new(DEFAULT_OUTBOUND_WARNING_THRESHOLD, reporter()),
        OutboundRegistry::new(),
        None,
    )
}

fn bounded_client(max_messages: usize) -> Client {
    ClientHandle::new(
        OutboundQueue::bounded(max_messages, usize::MAX, reporter()),
        OutboundRegistry::new(),
        None,
    )
}

fn params(text: &str) -> Result<Vec<u8>, String> {
    Ok(text.as_bytes().to_vec())
}

/// Send a request, and take it off the wire.
fn ping(client: &mut Client, waiter: u8) -> (PendingGuard, u32) {
    let (guard, message) = client
        .reserve_request("test/ping", params("{}"), waiter)
        .expect("the request has an ID");
    let guard = client.enqueue_request(guard, message, Ok(50)).expect("the queue has room");
    let id = match client.take_next() {
        Some(RawMessage::Request { id: RequestId::Number(n), method, .. }) => {
            assert_eq!(method, "test/ping");
            n as u32
        }
        other => panic!("expected numeric request, got {other:?}"),
    };
    client.record_done();
    assert_eq!(guard.id(), id);
    (guard, id)
}

#[test]
fn serialization_failure_is_reported_without_enqueuing() {
    let mut client = make_client();

    assert!(matches!(
        client.notify(
            "test/fails-to-serialize",
            Err("deliberate serialization failure".to_string()),
            Ok(50)
        ),
        Err(ClientError::Serialize(_))
    ));
    assert!(client.take_next().is_none());
}

#[test]
fn closed_connection_is_reported_before_enqueue() {
    let mut client = make_client();
    client.close_connection();

    assert!(matches!(
        client.notify("test/notification", params(r#"{"value":1}"#), Ok(50)),
        Err(ClientError::ConnectionClosed)
    ));
    assert!(client.take_next().is_none());
}

#[test]
fn outbound_closure_rejects_every_new_notification() {
    let mut client = make_client();
    client.close_connection();
    client.close_outbound();

    for value in [1, 2] {
        assert!(matches!(
            client.notify("test/notification", params(&format!("{{\"value\":{value}}}")), Ok(50)),
            Err(ClientError::OutboundClosed)
        ));
    }
    assert!(client.take_next().is_none());
}

// --- The registry ---------------------------------------------------------

fn insert_ok(registry: &mut OutboundRegistry<u8>, waiter: u8) -> u32 {
    match registry.insert(waiter) {
        InsertOutcome::Inserted(id) => id,
        InsertOutcome::Closed => panic!("registry unexpectedly closed"),
        InsertOutcome::Exhausted => panic!("registry unexpectedly exhausted"),
    }
}

#[test]
fn outbound_ids_are_monotonic_and_never_reused() {
    let mut registry = OutboundRegistry::new();
    let id1 = insert_ok(&mut registry, 1);
    let id2 = insert_ok(&mut registry, 2);
    let id3 = insert_ok(&mut registry, 3);
    assert_eq!(id1, 1);
    assert_eq!(id2, 2);
    assert_eq!(id3, 3);

    // Completing an earlier request does not free its ID for reuse: the
    // allocator only ever moves forward.
    registry.complete(id1, Ok(b"null".to_vec()));
    let id4 = insert_ok(&mut registry, 4);
    assert_eq!(id4, 4);
}

#[test]
fn complete_returns_true_for_known_id_and_false_for_unknown() {
    let mut registry = OutboundRegistry::new();
    let id = insert_ok(&mut registry, 9);
    let delivery = registry.complete(id, Ok(b"null".to_vec()));
    // Now gone: a second call completes nothing.
    assert!(registry.complete(id, Ok(b"null".to_vec())).is_none());
    // Nor does an unknown ID.
    assert!(registry.complete(999, Ok(b"null".to_vec())).is_none());
    // The waiter is handed the value.
    let delivery = delivery.expect("the known ID completes");
    assert_eq!(delivery.waiter, 9);
    assert!(matches!(delivery.outcome, PendingOutcome::Response(Ok(body)) if body == b"null"));
}

#[test]
fn close_all_completes_pending_with_cancelled() {
    let mut registry = OutboundRegistry::new();
    insert_ok(&mut registry, 1);
    insert_ok(&mut registry, 2);
    let deliveries = registry.close_all();
    let mut waiters: Vec<u8> = deliveries
        .iter()
        .map(|delivery| {
            assert!(matches!(delivery.outcome, PendingOutcome::Cancelled));
            delivery.waiter
        })
        .collect();
    waiters.sort();
    assert_eq!(waiters, vec![1, 2]);
    // Registry is drained; nothing leaks.
    assert_eq!(registry.pending_len(), 0);
}

#[test]
fn outbound_id_space_exhaustion_returns_none() {
    let mut registry = OutboundRegistry::new();
    // Force the allocator to the last usable positive ID.
    registry.set_next_id(i32::MAX as u32);
    let id = insert_ok(&mut registry, 1);
    assert_eq!(id, i32::MAX as u32);
    // The next allocation is refused: the positive ID space is exhausted.
    assert!(matches!(registry.insert(2), InsertOutcome::Exhausted));
}

#[test]
fn insert_after_close_all_is_refused() {
    let mut registry = OutboundRegistry::new();
    registry.close_all();
    // A handler that starts a new outbound request after the registry has
    // already been drained must fail fast instead of enqueuing a request
    // that would never be completed.
    assert!(matches!(registry.insert(1), InsertOutcome::Closed));
}

// --- Requests -------------------------------------------------------------

#[test]
fn request_completes_when_response_arrives() {
    let mut client = make_client();
    let (_guard, id) = ping(&mut client, 1);
    let delivery = client.complete(id, params("\"pong\"").map_err(|_| unreachable!())).unwrap();
    let body = response_body(Some(delivery.outcome)).unwrap();
    assert_eq!(serde_json::from_slice::<String>(&body).unwrap(), "pong");
}

#[test]
fn request_returns_remote_error_on_error_response() {
    let mut client = make_client();
    let (_guard, id) = ping(&mut client, 1);
    let data: Value = serde_json::from_str(r#"{"retry":true}"#).unwrap();
    let delivery = client
        .complete(
            id,
            Err(JsonRpcError {
                code: -32000,
                message: "server error".to_string(),
                data: Some(data.clone()),
            }),
        )
        .unwrap();

    // The remote error's code, message, and optional data are preserved.
    match response_body(Some(delivery.outcome)).unwrap_err() {
        ClientError::Remote(e) => {
            assert_eq!(e.code, -32000);
            assert_eq!(e.message, "server error");
            assert_eq!(e.data, Some(data));
        }
        other => panic!("expected ClientError::Remote, got {other:?}"),
    }
    assert_eq!(client.outbound_registry().pending_len(), 0);
}

#[test]
fn malformed_success_result_returns_deserialize_error() {
    let mut client = make_client();
    let (_guard, id) = ping(&mut client, 1);
    let delivery = client.complete(id, Ok(b"\"not a number\"".to_vec())).unwrap();
    let body = response_body(Some(delivery.outcome)).unwrap();
    let decoded = serde_json::from_slice::<u32>(&body).map_err(|error| error.to_string());

    let err = client.decoded_response("test/typed", id, decoded).unwrap_err();
    assert!(
        matches!(err, ClientError::Deserialize(_)),
        "expected ClientError::Deserialize, got {err:?}"
    );
    assert_eq!(client.outbound_registry().pending_len(), 0);
}

fn assert_cancels(client: &mut Client, id: u32) {
    match client.take_next() {
        Some(RawMessage::Notification { method, params }) => {
            assert_eq!(method, "$/cancelRequest");
            let params: Value = serde_json::from_slice(&params).unwrap();
            assert_eq!(params["id"], Value::from(id));
        }
        other => panic!("expected a $/cancelRequest notification, got {other:?}"),
    }
    client.record_done();
}

#[test]
fn dropping_request_future_removes_pending_entry() {
    let mut client = make_client();
    let (guard, id) = ping(&mut client, 1);

    assert!(client.cancel_if_pending(guard, Ok(60)));

    assert!(
        client.complete(id, Ok(b"\"pong\"".to_vec())).is_none(),
        "pending entry was not cleaned up after the request was given up"
    );
    // Giving up also emits one typed $/cancelRequest for the ID.
    assert_cancels(&mut client, id);
    // Exactly one cancellation notification; nothing else leaks.
    assert!(client.take_next().is_none());
    assert_eq!(client.outbound_registry().pending_len(), 0);
}

#[test]
fn abandoned_enqueued_request_emits_one_cancel_notification() {
    let mut client = make_client();
    let (guard, id) = ping(&mut client, 1);
    client.cancel_if_pending(guard, Ok(60));
    assert_cancels(&mut client, id);
    // Exactly one notification; nothing else leaks.
    assert!(client.take_next().is_none());
    assert_eq!(client.outbound_registry().pending_len(), 0);
}

#[test]
fn close_all_yields_cancelled_error_from_request() {
    let mut client = make_client();
    ping(&mut client, 1);

    // Session closes: every pending entry completes with Cancelled.
    let delivery = client.close_all().pop().expect("the request was pending");

    let err = response_body(Some(delivery.outcome)).unwrap_err();
    assert!(matches!(err, ClientError::Cancelled), "expected Cancelled, got {err:?}");
    assert_eq!(client.outbound_registry().pending_len(), 0);
}

#[test]
fn stale_response_after_cleanup_cannot_complete_another_request() {
    let mut client = make_client();
    let (guard_a, id_a) = ping(&mut client, 1);

    // Abandon request A: its entry is gone and a cancel is sent.
    client.cancel_if_pending(guard_a, Ok(60));
    assert_cancels(&mut client, id_a);

    // Request B gets a fresh, never-reused ID.
    let (_guard_b, id_b) = ping(&mut client, 2);
    assert_ne!(id_a, id_b, "abandoned ID must never be reused");

    // A stale response for A cannot complete B.
    assert!(client.complete(id_a, Ok(b"\"stale\"".to_vec())).is_none());
    assert_eq!(client.outbound_registry().pending_len(), 1);

    // The real response for B completes B with its own result.
    let delivery = client.complete(id_b, Ok(b"\"pong\"".to_vec())).unwrap();
    assert_eq!(delivery.waiter, 2);
    let body = response_body(Some(delivery.outcome)).unwrap();
    assert_eq!(serde_json::from_slice::<String>(&body).unwrap(), "pong");
    assert_eq!(client.outbound_registry().pending_len(), 0);
}

#[test]
fn enqueue_failure_emits_no_cancel_and_leaves_no_entry() {
    let mut client = make_client();
    let (guard, message) = client.reserve_request("test/ping", params("{}"), 1).unwrap();
    client.close_outbound();
    let result = client.enqueue_request(guard, message, Ok(50));
    assert!(matches!(result, Err(ClientError::OutboundClosed)));

    // Nothing was ever emitted, and the registry is empty.
    assert!(client.take_next().is_none());
    assert_eq!(client.outbound_registry().pending_len(), 0);
}

// --- The depth of the queue -----------------------------------------------

fn queue_test_message() -> RawMessage {
    RawMessage::Notification { method: "test/message".to_string(), params: b"{}".to_vec() }
}

fn send(queue: &mut OutboundQueue<&'static str>) -> (usize, bool) {
    let note = queue.send(queue_test_message(), Ok(52)).unwrap();
    (note.depth, note.warn)
}

#[test]
fn the_first_threshold_crossing_records_the_depth_and_warns_once() {
    let mut queue = OutboundQueue::new(2, reporter());

    let notes = [send(&mut queue), send(&mut queue), send(&mut queue)];

    assert_eq!(queue.depth(), 3);
    assert_eq!(
        notes,
        [(1, false), (2, true), (3, false)],
        "the crossing warns once, recording the current depth"
    );
}

#[test]
fn sustained_depth_at_or_above_the_threshold_does_not_repeat_the_warning() {
    let mut queue = OutboundQueue::new(2, reporter());

    let warnings = (0..5).filter(|_| send(&mut queue).1).count();

    assert_eq!(queue.depth(), 5, "the queue stays unbounded above the threshold");
    assert_eq!(warnings, 1, "depth remaining at or above the threshold warns only once");
}

#[test]
fn dropping_below_the_threshold_rearms_one_warning_for_the_next_crossing() {
    let mut queue = OutboundQueue::new(2, reporter());

    let mut warnings = Vec::new();
    warnings.push(send(&mut queue));
    warnings.push(send(&mut queue));
    queue.record_done();
    queue.record_done();
    assert_eq!(queue.depth(), 0, "the writer drained both messages");
    warnings.push(send(&mut queue));
    warnings.push(send(&mut queue));
    warnings.push(send(&mut queue));

    assert_eq!(queue.depth(), 3);
    assert_eq!(
        warnings,
        vec![(1, false), (2, true), (1, false), (2, true), (3, false)],
        "the recovery rearms exactly one warning for the second crossing"
    );
}

#[test]
fn concurrent_enqueues_all_count_toward_the_one_shared_depth() {
    let mut queue = OutboundQueue::new(usize::MAX, reporter());
    for _ in 0..800 {
        send(&mut queue);
    }

    assert_eq!(queue.depth(), 800, "no enqueue is lost");
    for _ in 0..800 {
        queue.take_next().expect("no enqueued message is dropped");
    }
    assert!(queue.take_next().is_none(), "exactly the enqueued messages arrive");
}

#[test]
fn a_failed_enqueue_is_not_counted() {
    let mut queue = OutboundQueue::new(1, reporter());
    queue.close();

    assert!(queue.send(queue_test_message(), Ok(52)).is_err());
    assert_eq!(queue.depth(), 0, "a message that never entered the queue is not counted");
}

#[test]
fn ordinary_sends_fail_explicitly_when_the_message_budget_is_full() {
    let mut client = bounded_client(1);

    client.notify("test/notification", params(r#"{"value":1}"#), Ok(50)).unwrap();
    let error = client
        .notify("test/notification", params(r#"{"value":2}"#), Ok(50))
        .unwrap_err();

    assert!(matches!(error, ClientError::OutboundOverloaded));
    assert_eq!(client.outgoing().depth(), 1, "the rejected message consumes no slot");
}

#[test]
fn every_queued_message_accounts_for_its_encoded_bytes() {
    let encoded_bytes = 52;
    let mut queue = OutboundQueue::bounded(2, encoded_bytes, reporter());

    queue.send(queue_test_message(), Ok(encoded_bytes)).unwrap();
    assert_eq!(queue.encoded_bytes(), encoded_bytes);
    assert!(matches!(
        queue.send(queue_test_message(), Ok(encoded_bytes)),
        Err(OutboundSendError::Overloaded)
    ));
    assert_eq!(queue.depth(), 1, "the rejected message consumes no slot");
    assert_eq!(queue.encoded_bytes(), encoded_bytes, "the rejected message consumes no bytes");
}

#[test]
fn a_required_send_that_cannot_fit_requests_the_failure_close_path() {
    let mut queue = OutboundQueue::bounded(1, usize::MAX, reporter());
    queue.send(queue_test_message(), Ok(52)).unwrap();

    assert!(matches!(
        queue.send_required(queue_test_message(), Ok(52)),
        Err(OutboundSendError::Overloaded)
    ));
    assert!(
        queue.has_failed(),
        "a response or cancellation that cannot be queued must close the connection"
    );
    assert_eq!(queue.depth(), 1, "the failed required send is not retained");
}

#[test]
fn an_overloaded_request_fails_explicitly_without_leaking_its_registry_entry() {
    let mut client = bounded_client(1);
    client.notify("test/notification", params(r#"{"value":1}"#), Ok(50)).unwrap();

    let (guard, message) = client.reserve_request("test/request", params("{}"), 1).unwrap();
    let result = client.enqueue_request(guard, message, Ok(50));

    assert!(matches!(result, Err(ClientError::OutboundOverloaded)));
    assert_eq!(client.outbound_registry().pending_len(), 0);
}

#[test]
fn cancellation_that_cannot_fit_requests_the_failure_close_path() {
    let mut client = bounded_client(1);
    let (guard, message) = client.reserve_request("test/request", params("{}"), 1).unwrap();
    let guard = client.enqueue_request(guard, message, Ok(50)).unwrap();
    client.cancel_if_pending(guard, Ok(60));

    assert_eq!(client.outbound_registry().pending_len(), 0);
    assert!(
        client.outbound_failed(),
        "a required $/cancelRequest that cannot fit must close the connection"
    );
}

// --- Further behaviour ----------------------------------------------------

#[test]
fn the_cancel_notification_is_spelled_exactly() {
    match cancel_message(42) {
        RawMessage::Notification { method, params } => {
            assert_eq!(method, "$/cancelRequest");
            assert_eq!(params, br#"{"id":42}"#);
        }
        other => panic!("expected a notification, got {other:?}"),
    }
}

#[test]
fn an_expired_request_times_out_unless_it_was_answered() {
    let mut client = make_client();
    let (guard, _) = ping(&mut client, 1);
    assert!(matches!(client.expire(guard, Ok(60)), Some(ClientError::Timeout)));

    let (guard, id) = ping_after_cancel(&mut client);
    client.complete(id, Ok(b"1".to_vec())).unwrap();
    assert!(client.expire(guard, Ok(60)).is_none());
}

fn ping_after_cancel(client: &mut Client) -> (PendingGuard, u32) {
    client.take_next().expect("the cancellation is on the wire");
    client.record_done();
    ping(client, 2)
}

#[test]
fn a_request_without_a_free_id_is_refused() {
    let mut registry = OutboundRegistry::new();
    registry.set_next_id(i32::MAX as u32);
    registry.insert(0);
    let mut client: Client = ClientHandle::new(
        OutboundQueue::new(8, reporter()),
        registry,
        Some(250),
    );
    assert_eq!(client.request_timeout(), Some(250));
    assert!(matches!(
        client.reserve_request("test/ping", params("{}"), 1),
        Err(ClientError::IdExhausted)
    ));
    client.close_all();
    assert!(matches!(
        client.reserve_request("test/ping", params("{}"), 1),
        Err(ClientError::ConnectionClosed)
    ));
    assert!(matches!(
        client.reserve_request("test/ping", Err("no".to_string()), 1),
        Err(ClientError::Serialize(text)) if text == "no"
    ));
    assert!(matches!(response_body(None), Err(ClientError::OutboundClosed)));
}

#[test]
fn helpers_name_their_methods() {
    let mut client = make_client();
    client.publish_diagnostics(params("{}"), Ok(1)).unwrap();
    client.show_message(params("{}"), Ok(1)).unwrap();
    client.log_message(params("{}"), Ok(1)).unwrap();
    client.telemetry_event(params("{}"), Ok(1)).unwrap();
    client.progress(params("{}"), Ok(1)).unwrap();
    let mut methods = Vec::new();
    while let Some(message) = client.take_next() {
        methods.push(message.method().expect("a notification has a method").to_string());
        client.record_done();
    }
    assert_eq!(
        methods,
        [
            "textDocument/publishDiagnostics",
            "window/showMessage",
            "window/logMessage",
            "telemetry/event",
            "$/progress",
        ]
    );
    let messages = vec![
        client.show_document(params("{}"), 1),
        client.show_message_request(params("{}"), 1),
        client.apply_edit(params("{}"), 1),
        client.configuration(params("{}"), 1),
        client.workspace_folders(params(""), 1),
        client.register_capability(params("{}"), 1),
        client.unregister_capability(params("{}"), 1),
        client.code_lens_refresh(params(""), 1),
        client.diagnostic_refresh(params(""), 1),
        client.inlay_hint_refresh(params(""), 1),
        client.inline_value_refresh(params(""), 1),
        client.semantic_tokens_refresh(params(""), 1),
        client.refresh_folding_ranges(params(""), 1),
        client.refresh_text_document_content(params("{}"), 1),
    ];
    let methods: Vec<String> = messages
        .into_iter()
        .map(|reserved| reserved.unwrap().1.method().unwrap().to_string())
        .collect();
    assert_eq!(
        methods,
        [
            "window/showDocument",
            "window/showMessageRequest",
            "workspace/applyEdit",
            "workspace/configuration",
            "workspace/workspaceFolders",
            "client/registerCapability",
            "client/unregisterCapability",
            "workspace/codeLens/refresh",
            "workspace/diagnostic/refresh",
            "workspace/inlayHint/refresh",
            "workspace/inlineValue/refresh",
            "workspace/semanticTokens/refresh",
            "workspace/foldingRange/refresh",
            "workspace/textDocumentContent/refresh",
        ]
    );
}

#[test]
fn trace_logging_follows_the_trace_value() {
    let mut client = make_client();
    client.log_trace(params("{}"), Ok(1)).unwrap();
    assert!(client.take_next().is_none(), "tracing is off");
    client.set_trace(TraceValue::Messages);
    assert_eq!(client.shared_trace(), TraceValue::Messages);
    client.log_trace(params("{}"), Ok(1)).unwrap();
    assert_eq!(client.take_next().unwrap().method(), Some("$/logTrace"));
}

#[test]
fn a_message_that_cannot_be_measured_is_told_as_a_serialization_failure() {
    let mut queue = OutboundQueue::bounded(4, 100, reporter());
    assert!(matches!(
        queue.send(queue_test_message(), Err("bad".to_string())),
        Err(OutboundSendError::Serialize(text)) if text == "bad"
    ));
    assert!(matches!(
        queue.send(queue_test_message(), Ok(101)),
        Err(OutboundSendError::Overloaded)
    ));
    assert!(queue
        .take_reports()
        .iter()
        .any(|failure| failure.category == ConnectionFailureCategory::Overload));
}
