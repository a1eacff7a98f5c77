//! The client side: its lifecycle, its progress tokens, and its engine.
use lspf::client::ClientHandle;
use lspf::client_endpoint::{
    fuzz_lifecycle_sequence, initialize_params, is_reserved_reverse_method, work_done_token,
    Client, ClientBuilder, ClientCloseCause, ClientPhase, ClientTransition, ClientWork,
};
use lspf::client_engine::{ClientEngine, ClientFlow, ClientStep, DeliverySignal};
use lspf::client_progress::{ClientProgressRegistry, CreateOutcome};
use lspf::engine::{Input, Outcome, ServiceResult};
use lspf::error::{BuildError, ClientError, Error, TransportError};
use lspf::failure::FailureReporter;
use lspf::message::{ProgressToken, RawMessage, RequestId};
use lspf::outbound::{OutboundQueue, OutboundRegistry};
use lspf::resource_policy::{ResourcePolicy, ResourcePolicyField};
use lspf::step::Effect;
use serde_json::Value;

#[test]
fn the_lifecycle_is_a_strict_sequence() {
    let running = ClientPhase::Initializing.transition(ClientTransition::Initialized);
    assert_eq!(running, Some(ClientPhase::Running));
    assert_eq!(ClientPhase::Running.transition(ClientTransition::Initialized), None);
    assert_eq!(
        ClientPhase::Running.transition(ClientTransition::BeginShutdown),
        Some(ClientPhase::ShutdownPending)
    );
    assert_eq!(
        ClientPhase::ShutdownPending.transition(ClientTransition::ShutdownFailed),
        Some(ClientPhase::Running)
    );
    assert_eq!(
        ClientPhase::ShutdownPending.transition(ClientTransition::ShutdownSucceeded),
        Some(ClientPhase::ShuttingDown)
    );
    assert_eq!(ClientPhase::Running.transition(ClientTransition::Exit), None);
    assert_eq!(
        ClientPhase::ShuttingDown.transition(ClientTransition::Exit),
        Some(ClientPhase::Exited)
    );
    for transition in [
        ClientTransition::Initialized,
        ClientTransition::BeginShutdown,
        ClientTransition::Exit,
        ClientTransition::Disconnect,
    ] {
        assert_eq!(ClientPhase::Exited.transition(transition), None);
        assert_eq!(ClientPhase::Disconnected.transition(transition), None);
    }
    assert!(ClientPhase::Running.permits(ClientWork::Outbound));
    assert!(!ClientPhase::ShuttingDown.permits(ClientWork::Outbound));
    assert!(!ClientPhase::ShuttingDown.permits(ClientWork::Reverse));
    assert_eq!(ClientPhase::ShutdownPending.as_str(), "shutdown is pending");
}

#[test]
fn a_sequence_of_transitions_ends_where_it_leads() {
    assert_eq!(fuzz_lifecycle_sequence(&[]), ClientPhase::Initializing);
    assert_eq!(fuzz_lifecycle_sequence(&[0, 1, 2, 4]), ClientPhase::Exited);
    assert_eq!(fuzz_lifecycle_sequence(&[0, 1, 3, 4]), ClientPhase::Running);
    assert_eq!(fuzz_lifecycle_sequence(&[6, 11, 0, 1]), ClientPhase::Disconnected);
}

#[test]
fn close_causes_map_to_outcomes() {
    assert_eq!(ClientCloseCause::Exit.into_result().unwrap(), Outcome::Exit { code: 0 });
    assert_eq!(ClientCloseCause::ReaderEof.into_result().unwrap(), Outcome::TransportClosed);
    assert_eq!(ClientCloseCause::writer_failed().into_result().unwrap(), Outcome::WriterFailed);
    assert!(matches!(
        ClientCloseCause::ReaderFailed(TransportError::Io("x".to_string())).into_result(),
        Err(Error::Transport(TransportError::Io(_)))
    ));
    assert_eq!(ClientCloseCause::InitializeFailed.as_str(), "initialize_failed");
}

#[test]
fn work_done_tokens_are_found_in_encoded_parameters() {
    assert_eq!(work_done_token(&Vec::new()).unwrap(), None);
    assert_eq!(
        work_done_token(&br#"{"workDoneToken":8}"#.to_vec()).unwrap(),
        Some(ProgressToken::Int(8))
    );
    assert!(matches!(
        work_done_token(&br#"{"workDoneToken":[]}"#.to_vec()),
        Err(ClientError::Serialize(_))
    ));
    assert!(matches!(work_done_token(&b"{".to_vec()), Err(ClientError::Serialize(_))));
    let params = initialize_params("caps", Some("info"), Some(Value::Bool(true)));
    assert_eq!(params.capabilities, "caps");
    assert_eq!(params.client_info, Some("info"));
    assert_eq!(params.initialization_options, Some(Value::Bool(true)));
    assert_eq!(params.process_id, None);
    assert!(params.work_done_token.is_none());
}

fn value(kind: &str) -> Value {
    serde_json::from_str(&format!("{{\"kind\":\"{kind}\"}}")).unwrap()
}

#[test]
fn progress_begins_reports_and_ends_in_order() {
    let token = ProgressToken::Int(1);
    let mut registry: ClientProgressRegistry<u32> = ClientProgressRegistry::new();
    assert!(registry.accept(&token, &value("begin"), 0, 0).is_none(), "an unknown token");
    assert!(registry.try_reserve_create(token.clone()));
    assert!(!registry.try_reserve_create(token.clone()), "a token is reserved once");
    assert!(registry.accept(&token, &value("begin"), 0, 0).is_none(), "not created yet");
    registry.finish_create(&token, CreateOutcome::Succeeded);
    assert!(registry.accept(&token, &value("report"), 0, 0).is_none(), "not begun yet");
    let begin = registry.accept(&token, &value("begin"), 10, 11).expect("it begins");
    assert_eq!((begin.previous, begin.done), (None, Some(10)));
    assert!(registry.accept(&token, &value("begin"), 0, 0).is_none(), "it begins once");
    assert!(registry.accept(&token, &value("other"), 0, 0).is_none());
    let report = registry.accept(&token, &value("report"), 20, 21).expect("it reports");
    assert_eq!((report.previous, report.done), (Some(11), Some(20)));
    let end = registry.accept(&token, &value("end"), 30, 31).expect("it ends");
    assert_eq!((end.previous, end.done), (Some(21), None));
    assert!(registry.accept(&token, &value("report"), 0, 0).is_none(), "nothing follows the end");

    assert!(registry.try_reserve_create(token.clone()));
    registry.finish_create(&token, CreateOutcome::Failed);
    assert!(registry.try_register_request(token.clone()), "a failed creation gives it up");
    registry.remove(&token);
    assert!(registry.accept(&token, &value("begin"), 0, 0).is_none());
}

#[test]
fn progress_tokens_are_independent() {
    let number = ProgressToken::Int(1);
    let text = ProgressToken::String("1".to_string());
    let mut registry: ClientProgressRegistry<u32> = ClientProgressRegistry::new();
    assert!(registry.try_register_request(number.clone()));
    assert!(registry.try_register_request(text.clone()), "a text is no number");
    assert!(registry.accept(&number, &value("begin"), 1, 2).is_some());
    assert!(registry.accept(&text, &value("report"), 0, 0).is_none(), "only the other has begun");
    registry.remove(&text);
    assert!(registry.accept(&number, &value("report"), 3, 4).is_some());
}

type Engine = ClientEngine<&'static str, &'static str, u32>;

fn builder() -> ClientBuilder<&'static str, &'static str, &'static str> {
    Client::<&str, _, _, _>::builder("caps")
}

#[test]
fn the_builder_refuses_mistakes() {
    assert!(is_reserved_reverse_method("shutdown"));
    assert!(!is_reserved_reverse_method("workspace/configuration"));
    let err = builder().request("exit".to_string(), "h").build("transport").err();
    assert_eq!(err, Some(BuildError::ReservedMethod("exit".to_string())));
    let err = builder()
        .notification("custom/a".to_string(), "a")
        .notification("custom/a".to_string(), "b")
        .request("exit".to_string(), "h")
        .build("transport")
        .err();
    assert_eq!(err, Some(BuildError::DuplicateMethod("custom/a".to_string())));
    let err = builder()
        .resource_policy(ResourcePolicy { max_documents: 0, ..ResourcePolicy::default() })
        .validate()
        .err();
    assert_eq!(
        err,
        Some(BuildError::InvalidResourcePolicy { field: ResourcePolicyField::MaxDocuments })
    );
    let client = builder()
        .client_info("info")
        .initialization_options(Value::Null)
        .build("transport")
        .expect("the client builds");
    assert_eq!((client.transport, client.capabilities), ("transport", "caps"));
    assert_eq!(client.client_info, Some("info"));
}

fn engine() -> Engine {
    let client = builder()
        .request("custom/ask".to_string(), "ask")
        .request("window/workDoneProgress/create".to_string(), "create")
        .notification("custom/tell".to_string(), "tell")
        .notification("$/progress".to_string(), "progress")
        .build("transport")
        .expect("the client builds");
    let peer = ClientHandle::new(
        OutboundQueue::bounded(100, usize::MAX, FailureReporter::new(Some("hook"), 1)),
        OutboundRegistry::new(),
        None,
    );
    ClientEngine::new(client.request_handlers, client.notification_handlers, 2, peer)
}

fn signal() -> DeliverySignal<u32, u32> {
    DeliverySignal { done: 1, tail: 2 }
}

fn request(id: i32, method: &str, params: &[u8]) -> RawMessage {
    RawMessage::Request {
        id: RequestId::Number(id),
        method: method.to_string(),
        params: params.to_vec(),
    }
}

fn notification(method: &str, params: &[u8]) -> RawMessage {
    RawMessage::Notification { method: method.to_string(), params: params.to_vec() }
}

fn refusal(step: ClientStep<&'static str, u32, u32>) -> i32 {
    assert!(matches!(step.flow, ClientFlow::Continue));
    step.effects
        .iter()
        .find_map(|effect| match effect {
            Effect::Send(RawMessage::Response { result: Err(error), .. }) => Some(error.code),
            _ => None,
        })
        .expect("the request is refused")
}

fn running() -> Engine {
    let mut engine = engine();
    let (guard, message) =
        engine.begin_initialize(Ok(b"{}".to_vec()), "initialize").expect("the request has an ID");
    assert_eq!(message.method(), Some("initialize"));
    engine.server_mut().enqueue_request(guard, message, Ok(50)).expect("the queue has room");
    let step: ClientStep<_, u32, u32> = engine.dispatch_during_initialize(RawMessage::Response {
        id: RequestId::Number(1),
        result: Ok(b"{}".to_vec()),
    });
    assert!(matches!(step.effects.as_slice(), [Effect::Deliver(_)]));
    engine.finish_initialize(Ok(()), Ok(40)).expect("the connection runs");
    assert_eq!(engine.server().phase(), ClientPhase::Running);
    engine
}

#[test]
fn nothing_is_served_during_initialize() {
    let mut engine = engine();
    let step: ClientStep<_, u32, u32> =
        engine.dispatch_during_initialize(request(9, "custom/ask", b"{}"));
    assert_eq!(refusal(step), -32002);
    assert!(matches!(
        engine.server_mut().notify("custom/n", Ok(b"{}".to_vec()), Ok(9)),
        Err(ClientError::InvalidLifecycle { state: "initializing", .. })
    ));
    let failure = engine.fail_initialize(TransportError::Closed);
    assert!(matches!(failure, Error::Transport(TransportError::Closed)));
}

#[test]
fn a_failed_initialize_never_runs() {
    let mut engine = engine();
    let result = engine.finish_initialize(Err(ClientError::Timeout), Ok(40));
    assert!(matches!(result, Err(Error::Client(ClientError::Timeout))));
    assert_eq!(engine.server().phase(), ClientPhase::Initializing);
}

#[test]
fn reverse_requests_are_served_and_answered() {
    let mut engine = running();
    assert_eq!(engine.request_handler(&"custom/ask".to_string()), Some(&"ask"));
    assert_eq!(engine.notification_handler(&"custom/tell".to_string()), Some(&"tell"));
    let call = match engine.dispatch(request(5, "custom/ask", b"[1]"), signal()).flow {
        ClientFlow::Reverse(call) => call,
        _ => panic!("the request is handed to its handler"),
    };
    assert_eq!(call.method, "custom/ask");
    let effects = engine.finish_reverse(
        call.reserved.reservation,
        call.progress_token,
        ServiceResult::Response(Value::from(3)),
    );
    assert!(matches!(
        effects.as_slice(),
        [Effect::Send(RawMessage::Response { id: RequestId::Number(5), result: Ok(body) })]
            if body.as_slice() == b"3"
    ));
    engine.release(call.reserved.permit);
    assert_eq!(refusal(engine.dispatch(request(6, "custom/other", b"{}"), signal())), -32601);
    match engine.dispatch(notification("custom/tell", b"{}"), signal()).flow {
        ClientFlow::Notify { method, delivery, .. } => {
            assert_eq!(method, "custom/tell");
            assert!(delivery.is_none());
        }
        _ => panic!("the notification is handed to its handler"),
    }
}

#[test]
fn created_progress_is_delivered_in_order() {
    let mut engine = running();
    let step = engine
        .dispatch(request(5, "window/workDoneProgress/create", br#"{"token":"p"}"#), signal());
    let call = match step.flow {
        ClientFlow::Reverse(call) => call,
        _ => panic!("the creation is handed to its handler"),
    };
    assert_eq!(call.progress_token, Some(ProgressToken::String("p".to_string())));
    engine.finish_reverse(
        call.reserved.reservation,
        call.progress_token,
        ServiceResult::Response(Value::Null),
    );
    engine.release(call.reserved.permit);
    let begin = br#"{"token":"p","value":{"kind":"begin","title":"t"}}"#;
    match engine.dispatch(notification("$/progress", begin), signal()).flow {
        ClientFlow::Notify { delivery: Some(delivery), .. } => {
            assert_eq!((delivery.previous, delivery.done), (None, Some(1)))
        }
        _ => panic!("the progress is delivered"),
    }
    let stray = br#"{"token":"other","value":{"kind":"begin","title":"t"}}"#;
    assert!(matches!(
        engine.dispatch(notification("$/progress", stray), signal()).flow,
        ClientFlow::Continue
    ));
}

#[test]
fn a_request_owns_its_progress_token() {
    let mut engine = running();
    let params = || Ok(br#"{"workDoneToken":"w"}"#.to_vec());
    let first = engine.server_mut().request("custom/do", params(), "a").expect("the token is free");
    assert_eq!(first.token, Some(ProgressToken::String("w".to_string())));
    assert!(
        engine.server_mut().request("custom/do", params(), "b").is_err(),
        "a token is for one request at a time"
    );
    engine.server_mut().finish_request(first.token);
    assert!(engine.server_mut().request("custom/do", params(), "c").is_ok());
    assert!(engine.server_mut().request("shutdown", params(), "d").is_err());
}

#[test]
fn shutdown_and_exit_end_the_connection() {
    let mut engine = running();
    assert!(engine.server_mut().exit(Ok(20)).is_err(), "exit follows shutdown");
    let (guard, message) = engine.server_mut().begin_shutdown("bye").expect("the phase allows it");
    assert_eq!(message.method(), Some("shutdown"));
    engine.server_mut().enqueue_request(guard, message, Ok(20)).unwrap();
    assert_eq!(engine.server().phase(), ClientPhase::ShutdownPending);
    engine.finish_shutdown(true);
    assert_eq!(engine.server().phase(), ClientPhase::ShuttingDown);
    assert_eq!(refusal(engine.dispatch(request(8, "custom/ask", b"{}"), signal())), -32600);
    engine.server_mut().exit(Ok(20)).expect("exit follows shutdown");
    assert_eq!(engine.server().phase(), ClientPhase::Exited);
    engine.close();
    assert_eq!(engine.finish().unwrap(), Outcome::Exit { code: 0 });
}

#[test]
fn the_end_of_the_input_stops_the_engine() {
    let mut engine = running();
    engine.dispatch(request(5, "custom/ask", b"{}"), signal());
    let step = engine.receive(Input::ReadFailed(TransportError::Closed), signal());
    assert!(matches!(step.flow, ClientFlow::Stop));
    let effects = engine.close();
    assert!(effects.iter().any(|effect| matches!(effect, Effect::Cancel(_))));
    assert_eq!(engine.finish().unwrap(), Outcome::TransportClosed);
}
