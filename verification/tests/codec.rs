//! Encoding and decoding at the protocol's edge, and the errors it speaks of.
use lspf::builder::ProtocolNotification;
use lspf::codec::{
    decode_initialized_params, decode_value, encode_body, encode_params, omit_null, request_token,
    serialization_failed,
};
use lspf::documents::PositionEncodingKind;
use lspf::error::{BuildError, ClientError, LspError, ProgressError};
use lspf::message::{error_response, response, ProgressToken, RawMessage, RequestId};
use lspf::params::{
    decode_built_in, decode_cancel, decode_initialize, decode_nothing, encoding_kind,
    trace_value, BuiltInParams, TraceValue,
};
use lspf::resource_policy::ResourcePolicyField;
use serde_json::Value;

fn json(text: &str) -> Value {
    serde_json::from_str(text).unwrap()
}

#[test]
fn absent_parameters_decode_as_an_empty_object() {
    assert_eq!(decode_value(&Vec::new()).unwrap(), json("{}"));
    assert_eq!(decode_value(&b"[1,2]".to_vec()).unwrap(), json("[1,2]"));
    assert!(matches!(decode_value(&b"{".to_vec()), Err(LspError::InvalidParams(_))));
}

#[test]
fn null_parameters_are_absent_on_the_wire() {
    assert_eq!(encode_params(&Value::Null).unwrap(), b"");
    assert_eq!(encode_params(&json(r#"{"b":1,"a":[true]}"#)).unwrap(), br#"{"a":[true],"b":1}"#);
    assert_eq!(omit_null(b"null".to_vec()), b"");
    assert_eq!(omit_null(b"nul".to_vec()), b"nul");
    assert_eq!(encode_body(&Value::Null).unwrap(), b"null");
    assert_eq!(encode_body(&Value::String("x".to_string())).unwrap(), b"\"x\"");
    assert_eq!(
        serialization_failed("why").message(),
        LspError::Internal("serialization failed: why".to_string()).message()
    );
}

#[test]
fn tokens_are_integers_or_text() {
    let params = json(r#"{"int":-4,"text":"t","null":null,"bool":true,"big":4294967296,"f":1.5}"#);
    assert_eq!(request_token(&params, "int").unwrap(), Some(ProgressToken::Int(-4)));
    assert_eq!(
        request_token(&params, "text").unwrap(),
        Some(ProgressToken::String("t".to_string()))
    );
    assert_eq!(request_token(&params, "null").unwrap(), None);
    assert_eq!(request_token(&params, "missing").unwrap(), None);
    assert_eq!(request_token(&Value::Bool(true), "int").unwrap(), None);
    let wrong = request_token(&params, "bool").unwrap_err();
    assert_eq!(request_token(&params, "big").unwrap_err(), wrong);
    assert_eq!(request_token(&params, "f").unwrap_err(), wrong);
    assert_eq!(
        wrong,
        "data did not match any variant of untagged enum ProgressToken"
    );
}

#[test]
fn initialized_parameters_say_nothing() {
    for text in ["{}", "null", " { } "] {
        assert!(decode_initialized_params(&text.as_bytes().to_vec()).is_ok(), "{text}");
    }
    for text in ["{\"a\":1}", "[]", "", "0", "{"] {
        assert!(
            matches!(
                decode_initialized_params(&text.as_bytes().to_vec()),
                Err(LspError::InvalidParams(message))
                    if message == "initialized params must be an empty object"
            ),
            "{text}"
        );
    }
}

#[test]
fn built_in_parameters_are_decoded() {
    let folders = br#"{"event":{"added":[{"uri":"file:///a","name":"a"}],"removed":[]}}"#.to_vec();
    match decode_built_in(ProtocolNotification::WorkspaceFolders, &folders).unwrap() {
        BuiltInParams::WorkspaceFolders(change) => {
            assert_eq!(change.added.len(), 1);
            assert_eq!(change.added[0].uri, "file:///a");
            assert_eq!(change.added[0].name, "a");
            assert!(change.removed.is_empty());
        }
        other => panic!("expected folders, got {other:?}"),
    }
    match decode_built_in(ProtocolNotification::Trace, &br#"{"value":"verbose"}"#.to_vec()).unwrap() {
        BuiltInParams::Trace(value) => assert_eq!(trace_value(&value), Some(TraceValue::Verbose)),
        other => panic!("expected a trace value, got {other:?}"),
    }
    match decode_built_in(ProtocolNotification::Configuration, &br#"{"settings":{"a":1}}"#.to_vec())
        .unwrap()
    {
        BuiltInParams::Configuration(settings) => assert_eq!(settings, json(r#"{"a":1}"#)),
        other => panic!("expected settings, got {other:?}"),
    }
    match decode_built_in(
        ProtocolNotification::WillSave,
        &br#"{"textDocument":{"uri":"file:///a"},"reason":1}"#.to_vec(),
    )
    .unwrap()
    {
        BuiltInParams::WillSave => {}
        other => panic!("expected a save, got {other:?}"),
    }
    match decode_built_in(
        ProtocolNotification::Close,
        &br#"{"textDocument":{"uri":"file:///a"}}"#.to_vec(),
    )
    .unwrap()
    {
        BuiltInParams::Close(uri) => assert_eq!(uri, "file:///a"),
        other => panic!("expected a close, got {other:?}"),
    }
    for built_in in [
        ProtocolNotification::Open,
        ProtocolNotification::Change,
        ProtocolNotification::Close,
        ProtocolNotification::Save,
        ProtocolNotification::Trace,
        ProtocolNotification::ProgressCancel,
    ] {
        assert!(matches!(
            decode_built_in(built_in, &b"[]".to_vec()),
            Err(LspError::InvalidParams(_))
        ));
    }
}

#[test]
fn request_ids_and_initialize_facts_are_decoded() {
    assert_eq!(decode_cancel(&br#"{"id":5}"#.to_vec()).unwrap(), RequestId::Number(5));
    assert_eq!(
        decode_cancel(&br#"{"id":"x"}"#.to_vec()).unwrap(),
        RequestId::String("x".to_string())
    );
    assert!(decode_cancel(&b"{}".to_vec()).is_err());
    assert!(decode_nothing(&b"null".to_vec()).is_ok());
    assert!(decode_nothing(&b"1".to_vec()).is_err());

    let params = br#"{"processId":null,"rootUri":null,"workDoneToken":"t","capabilities":{"general":{"positionEncodings":["utf-16","x"]}}}"#;
    let facts = decode_initialize(&params.to_vec()).unwrap();
    assert_eq!(facts.work_done_token, Some(ProgressToken::String("t".to_string())));
    assert_eq!(
        facts.encodings,
        Some(vec!["utf-16".to_string(), "x".to_string()])
    );
    assert!(decode_initialize(&b"[]".to_vec()).is_err());
}

#[test]
fn names_stand_for_values() {
    assert_eq!(trace_value("off"), Some(TraceValue::Off));
    assert_eq!(trace_value("Off"), None);
    assert_eq!(encoding_kind("utf-8".to_string()), PositionEncodingKind::UTF8);
    assert_eq!(encoding_kind("utf-32".to_string()), PositionEncodingKind::UTF32);
    assert_eq!(
        encoding_kind("utf-7".to_string()),
        PositionEncodingKind::Custom("utf-7".to_string())
    );
    assert_eq!(ResourcePolicyField::MaxDocumentBytes.as_str(), "max_document_bytes");
}

#[test]
fn errors_have_codes_and_messages() {
    let cases = [
        (LspError::ServerNotInitialized, -32002),
        (LspError::MethodNotFound("m".to_string()), -32601),
        (LspError::InvalidParams("p".to_string()), -32602),
        (LspError::InvalidRequest("r".to_string()), -32600),
        (LspError::Internal("i".to_string()), -32603),
        (LspError::RequestCancelled, -32800),
        (LspError::ContentModified, -32801),
        (LspError::ServerCancelled("c".to_string()), -32802),
        (
            LspError::ServerError { code: -5, message: "s".to_string(), data: Some(Value::Null) },
            -5,
        ),
    ];
    for (error, code) in cases {
        assert_eq!(error.code(), code);
        match error_response(RequestId::Number(1), &error) {
            RawMessage::Response { id, result: Err(wire) } => {
                assert_eq!(id, RequestId::Number(1));
                assert_eq!(wire.code, code);
                assert_eq!(wire.message, error.message());
                assert_eq!(wire.data.as_ref(), error.data());
            }
            other => panic!("expected an error response, got {other:?}"),
        }
    }
    assert!(matches!(
        response(RequestId::Number(2), Ok(b"1".to_vec())),
        RawMessage::Response { result: Ok(body), .. } if body == b"1"
    ));
    assert!(ClientError::Timeout.message().len() > 0);
    assert_eq!(
        BuildError::InvalidConcurrencyLimit.message(),
        "concurrency limit must be greater than zero"
    );
    assert_eq!(
        ProgressError::InvalidPercentage(101).message(),
        "progress percentage 101 is outside the range 0..=100"
    );
}

#[test]
fn errors_are_displayed_with_their_class() {
    let cases = [
        (LspError::Internal("i".to_string()), "internal error: i"),
        (LspError::InvalidParams("p".to_string()), "invalid params: p"),
        (LspError::MethodNotFound("m".to_string()), "method not found: m"),
        (LspError::RequestCancelled, "request cancelled"),
        (LspError::ContentModified, "content modified"),
        (LspError::ServerNotInitialized, "server not initialized"),
        (LspError::InvalidRequest("r".to_string()), "invalid request: r"),
        (
            LspError::ServerError { code: -5, message: "s".to_string(), data: None },
            "s",
        ),
    ];
    for (error, text) in cases {
        assert_eq!(error.displayed(), text);
    }
}
