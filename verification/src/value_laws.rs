//! What errors, names, parameters and answers look like to a peer and to a reader,
//! and what a connection does when it ends.
use vstd::prelude::*;
use vstd::utf8::encode_utf8;

use crate::builder::ProtocolNotification;
use crate::client::ClientView;
use crate::client_engine::{abandons_work, cancels_work, ClientEngineView};
use crate::codec::{body_of, field_token, params_member, says_nothing};
use crate::connection_laws::{law_every_request_is_claimed_once, law_every_waiter_is_told};
use crate::context::{ContextView, ScopeView};
use crate::dispatcher::value_outcome;
use crate::documents::ContentChangeView;
use crate::engine::{
    cancellations, closes_all, read_failure_category, service_outcome, shut_down_by,
    sync_change_failure, CloseCause, EngineView, Input, ServiceView,
};
use crate::error::{
    BuildErrorView, ClientErrorView, LspError, LspErrorView, ProgressError, TransportError,
};
use crate::failure::ConnectionFailureCategory;
use crate::json::{encoded_json, json_model, parsed_json, token_of, JsonModel};
use crate::message::{
    answer, error_answer, JsonRpcErrorView, MessageView, ProgressTokenView, RequestIdView,
};
use crate::options::{PositionEncodingKindView, TextDocumentSyncKind};
use crate::outbound::{cancels_every, Delivery, DeliveryRequirement, OutcomeView};
use crate::params::{
    built_in_params, checked, encoding_named, parsed_configuration, parsed_did_change,
    parsed_did_close, parsed_did_open, parsed_did_save, parsed_folder_change,
    parsed_progress_cancel, parsed_set_trace, parsed_unit, parsed_will_save, present, trace_named,
    unit_error, BuiltInView, TraceValue,
};
use crate::progress::{
    after_cancel, begin_value, cancel_outcome, progress_params, token_json, ProgressOptionsView,
    ProgressState,
};
use crate::server_laws::{failed, given, run, told, token_in};
use crate::session::{claims_every, flagged, InboundView, ReservationView, SignalView};
use crate::step::{EffectView, FlowView, InitializeResultView, ReservedView};
use crate::text::{decimal_digits, decimal_text};

verus! {

/// The codes that errors have on the wire, and what they say there.
pub proof fn law_errors_have_their_codes(m: Seq<char>, code: i32, data: Option<serde_json::Value>)
    ensures
        LspErrorView::Internal(m).code() == -32603 && LspErrorView::Internal(m).message() == m,
        LspErrorView::InvalidParams(m).code() == -32602 && LspErrorView::InvalidParams(m).message()
            == m,
        LspErrorView::MethodNotFound(m).code() == -32601 && LspErrorView::MethodNotFound(
            m,
        ).message() == m,
        LspErrorView::InvalidRequest(m).code() == -32600 && LspErrorView::InvalidRequest(
            m,
        ).message() == m,
        LspErrorView::ServerNotInitialized.code() == -32002,
        LspErrorView::ServerNotInitialized.message() == "server not initialized"@,
        LspErrorView::RequestCancelled.code() == -32800,
        LspErrorView::RequestCancelled.message() == "request cancelled"@,
        LspErrorView::ContentModified.code() == -32801,
        LspErrorView::ContentModified.message() == "content modified"@,
        LspErrorView::ServerCancelled(m).code() == -32802 && LspErrorView::ServerCancelled(
            m,
        ).message() == m,
        (LspErrorView::ServerError { code, message: m, data }).code() == code,
        (LspErrorView::ServerError { code, message: m, data }).message() == m,
        (LspErrorView::ServerError { code, message: m, data }).data() == data,
{
}

/// Whether an error is one that an application defines, with data of its own.
pub open spec fn is_application_error(error: LspErrorView) -> bool {
    error is ServerError
}

/// An answer carries the request's ID, and the body or the error's code, message
/// and data; only an application-defined error has data.
pub proof fn law_an_answer_carries_its_outcome(
    id: RequestIdView,
    body: Seq<u8>,
    error: LspErrorView,
)
    ensures
        answer(id, Ok(body)) == (MessageView::Response { id, result: Ok(body) }),
        answer(id, Err(error)) == error_answer(id, error),
        error_answer(id, error) matches MessageView::Response { id: answered, result: Err(said) }
            && {
            &&& answered == id
            &&& said.code == error.code()
            &&& said.message == error.message()
            &&& !is_application_error(error) ==> said.data is None
            &&& (error.data() is Some) == (said.data is Some)
            &&& error.data() matches Some(value) ==> said.data == Some(json_model(value))
        },
{
}

/// The method and the request of a message are those it names.
pub proof fn law_a_message_names_its_method_and_request(
    id: RequestIdView,
    method: Seq<char>,
    params: Seq<u8>,
    result: Result<Seq<u8>, JsonRpcErrorView>,
    error: JsonRpcErrorView,
)
    ensures
        (MessageView::Request { id, method, params }).method() == Some(method),
        (MessageView::Request { id, method, params }).id() == Some(id),
        (MessageView::Notification { method, params }).method() == Some(method),
        (MessageView::Notification { method, params }).id() is None,
        (MessageView::Response { id, result }).method() is None,
        (MessageView::Response { id, result }).id() == Some(id),
        (MessageView::ProtocolError { error }).method() is None,
        (MessageView::ProtocolError { error }).id() is None,
{
}

/// Errors are displayed with their class before what they say.
pub proof fn law_errors_are_displayed_with_their_class(m: Seq<char>, state: Seq<char>, n: u32)
    ensures
        LspErrorView::Internal(m).text() == "internal error: "@ + m,
        LspErrorView::InvalidParams(m).text() == "invalid params: "@ + m,
        LspErrorView::MethodNotFound(m).text() == "method not found: "@ + m,
        LspErrorView::ServerCancelled(m).text() == "server cancelled: "@ + m,
        LspErrorView::InvalidRequest(m).text() == "invalid request: "@ + m,
        LspErrorView::RequestCancelled.text() == "request cancelled"@,
        LspErrorView::ContentModified.text() == "content modified"@,
        LspErrorView::ServerNotInitialized.text() == "server not initialized"@,
        ClientErrorView::Serialize(m).text() == "failed to serialize client parameters: "@ + m,
        ClientErrorView::ConnectionClosed.text() == "client connection is closed"@,
        ClientErrorView::OutboundClosed.text() == "client outbound queue is closed"@,
        ClientErrorView::OutboundOverloaded.text() == "client outbound queue is overloaded"@,
        ClientErrorView::Cancelled.text() == "client request was cancelled"@,
        ClientErrorView::Timeout.text() == "client request timed out"@,
        ClientErrorView::IdExhausted.text() == "outbound request ID space exhausted"@,
        ClientErrorView::Deserialize(m).text() == "failed to deserialize client response: "@ + m,
        ClientErrorView::InvalidHelperParams(m).text() == "invalid helper parameters: "@ + m,
        (ClientErrorView::InvalidLifecycle { operation: m, state }).text() == "cannot perform "@ + m
            + " while the connection is "@ + state,
        ProgressError::AlreadyEnded.text() == "progress handle has already ended"@,
        ProgressError::Cancelled.text() == "progress was cancelled"@,
        ProgressError::UnknownToken.text() == "progress token is not active on this connection"@,
        ProgressError::InvalidPercentage(n).text() == "progress percentage "@ + decimal_text(
            n as int,
        ) + " is outside the range 0..=100"@,
        BuildErrorView::DuplicateMethod(m).text() == "duplicate handler registered for method `"@
            + m + "`"@,
        BuildErrorView::ReservedMethod(m).text() == "method `"@ + m
            + "` is reserved by the framework and cannot be overridden"@,
        BuildErrorView::DuplicateCommand(m).text() == "duplicate handler registered for command `"@
            + m + "`"@,
        BuildErrorView::EmptyCommandName.text() == "a command name cannot be empty"@,
        (BuildErrorView::ConflictingCapability { field: m }).text()
            == "conflicting contributions for capability field `"@ + m + "`"@,
        BuildErrorView::DuplicateLifecycleHook(m).text() == "lifecycle hook `"@ + m
            + "` may only be supplied once"@,
{
}

/// The number that decimal digits are read as.
pub open spec fn number_read(digits: Seq<char>) -> int
    decreases digits.len(),
{
    if digits.len() == 0 {
        0
    } else {
        10 * number_read(digits.drop_last()) + (digits.last() as int - '0' as int)
    }
}

/// A number is spelled in digits that are read as it, without leading zeros, behind
/// a minus sign if it is negative.
pub proof fn law_numbers_are_spelled_in_decimal(n: int)
    ensures
        n >= 0 ==> decimal_text(n) == decimal_digits(n as nat),
        n < 0 ==> decimal_text(n) == seq!['-'] + decimal_digits((-n) as nat),
        n >= 0 ==> number_read(decimal_digits(n as nat)) == n,
        n >= 0 ==> decimal_digits(n as nat).len() > 0,
        n > 0 ==> decimal_digits(n as nat)[0] != '0',
        n >= 0 ==> forall|i: int|
            0 <= i < decimal_digits(n as nat).len() ==> '0' <= #[trigger] decimal_digits(
                n as nat,
            )[i] <= '9',
    decreases
            if n < 0 {
                -n + 1
            } else {
                n
            },
{
    if n >= 0 {
        let digits = decimal_digits(n as nat);
        let last = (0x30 + (n as nat) % 10) as char;
        assert(last as int == 0x30 + n % 10);
        assert(n == 10 * (n / 10) + n % 10);
        assert('0' as int == 0x30);
        assert(number_read(digits) == 10 * number_read(digits.drop_last()) + (last as int
            - 0x30)) by {
            assert(digits.len() > 0);
            assert(digits.last() == last);
        }
        if n >= 10 {
            law_numbers_are_spelled_in_decimal(n / 10);
            assert(digits.drop_last() =~= decimal_digits((n as nat) / 10));
            assert(digits.last() == last);
            let rest = decimal_digits((n as nat) / 10);
            assert(digits[0] == rest[0]);
        } else {
            assert(digits.drop_last() =~= Seq::<char>::empty());
            assert(digits.last() == last);
        }
    }
}

/// Trace values and encodings are known by their wire names.
pub proof fn law_wire_names_stand_for_their_values(name: Seq<char>)
    ensures
        trace_named("off"@) == Some(TraceValue::Off),
        trace_named("messages"@) == Some(TraceValue::Messages),
        trace_named("verbose"@) == Some(TraceValue::Verbose),
        name != "off"@ && name != "messages"@ && name != "verbose"@ ==> trace_named(name) is None,
        encoding_named("utf-8"@) == PositionEncodingKindView::UTF8,
        encoding_named("utf-16"@) == PositionEncodingKindView::UTF16,
        encoding_named("utf-32"@) == PositionEncodingKindView::UTF32,
        name != "utf-8"@ && name != "utf-16"@ && name != "utf-32"@ ==> encoding_named(name)
            == PositionEncodingKindView::Custom(name),
{
    reveal_strlit("off");
    reveal_strlit("messages");
    reveal_strlit("verbose");
    assert("off"@.len() == 3 && "messages"@.len() == 8 && "verbose"@.len() == 7);
    reveal_strlit("utf-8");
    reveal_strlit("utf-16");
    reveal_strlit("utf-32");
    assert("utf-8"@.len() == 5 && "utf-16"@.len() == 6 && "utf-32"@.len() == 6);
    assert("utf-16"@[4] == '1' && "utf-32"@[4] == '3');
}

/// Absent parameters are decoded as an empty object; what does not decode is a
/// failure of the parameters with the decoder's text. Nothing is said by `null`
/// alone.
pub proof fn law_parameters_are_decoded_as_given(params: Seq<u8>, error: Seq<char>, value: JsonModel)
    ensures
        present(params) == given(params),
        checked(Ok::<JsonModel, Seq<char>>(value)) == Ok::<JsonModel, LspErrorView>(value),
        checked(Err::<JsonModel, Seq<char>>(error)) == Err::<JsonModel, LspErrorView>(
            LspErrorView::InvalidParams(error),
        ),
        parsed_unit(params) is Ok <==> parsed_json(params) == Ok::<JsonModel, Seq<char>>(
            JsonModel::Null,
        ),
        parsed_unit(params) matches Err(text) ==> text == unit_error(params),
        params_member(params).len() == 0 <==> params.len() == 0 || params == seq![
            110u8,
            117u8,
            108u8,
            108u8,
        ],
        params_member(params).len() > 0 ==> params_member(params) == params,
        says_nothing(params) <==> {
            ||| parsed_json(params) == Ok::<JsonModel, Seq<char>>(JsonModel::Null)
            ||| parsed_json(params) matches Ok(JsonModel::Object(entries))
                && entries.dom().finite() && entries.dom().len() == 0
        },
{
    assert(crate::json::null_body().len() == 4);
    assert(crate::json::null_body() =~= seq![110u8, 117u8, 108u8, 108u8]);
}

/// A token is an integer of 32 bits or a text; a missing or null field holds none.
pub proof fn law_tokens_are_integers_or_texts(
    value: JsonModel,
    field: Seq<char>,
    n: int,
    text: Seq<char>,
    number: i32,
)
    ensures
        field_token(value, field) == token_in(value, field),
        i32::MIN <= n <= i32::MAX ==> token_of(JsonModel::Integer(n)) == Some(
            ProgressTokenView::Int(n as i32),
        ),
        !(i32::MIN <= n <= i32::MAX) ==> token_of(JsonModel::Integer(n)) is None,
        token_of(JsonModel::Text(text)) == Some(ProgressTokenView::String(text)),
        !(value is Integer) && !(value is Text) ==> token_of(value) is None,
        token_of(token_json(ProgressTokenView::Int(number))) == Some(
            ProgressTokenView::Int(number),
        ),
        token_of(token_json(ProgressTokenView::String(text))) == Some(
            ProgressTokenView::String(text),
        ),
{
}

/// Each owned notification is decoded as its own parameters, and as nothing else.
pub proof fn law_owned_notifications_are_decoded_as_their_own(bytes: Seq<u8>)
    ensures
        parsed_did_open(bytes) matches Ok(item) ==> built_in_params(
            ProtocolNotification::Open,
            bytes,
        ) == Ok::<BuiltInView, Seq<char>>(BuiltInView::Open(item)),
        parsed_did_change(bytes) matches Ok(change) ==> built_in_params(
            ProtocolNotification::Change,
            bytes,
        ) == Ok::<BuiltInView, Seq<char>>(BuiltInView::Change(change)),
        parsed_did_close(bytes) matches Ok(uri) ==> built_in_params(
            ProtocolNotification::Close,
            bytes,
        ) == Ok::<BuiltInView, Seq<char>>(BuiltInView::Close(uri)),
        parsed_will_save(bytes) is Ok ==> built_in_params(ProtocolNotification::WillSave, bytes)
            == Ok::<BuiltInView, Seq<char>>(BuiltInView::WillSave),
        parsed_did_save(bytes) matches Ok(text) ==> built_in_params(
            ProtocolNotification::Save,
            bytes,
        ) == Ok::<BuiltInView, Seq<char>>(BuiltInView::Save(text)),
        parsed_folder_change(bytes) matches Ok(change) ==> built_in_params(
            ProtocolNotification::WorkspaceFolders,
            bytes,
        ) == Ok::<BuiltInView, Seq<char>>(BuiltInView::WorkspaceFolders(change)),
        parsed_configuration(bytes) matches Ok(settings) ==> built_in_params(
            ProtocolNotification::Configuration,
            bytes,
        ) == Ok::<BuiltInView, Seq<char>>(BuiltInView::Configuration(settings)),
        parsed_set_trace(bytes) matches Ok(name) ==> built_in_params(
            ProtocolNotification::Trace,
            bytes,
        ) == Ok::<BuiltInView, Seq<char>>(BuiltInView::Trace(name)),
        parsed_progress_cancel(bytes) matches Ok(token) ==> built_in_params(
            ProtocolNotification::ProgressCancel,
            bytes,
        ) == Ok::<BuiltInView, Seq<char>>(BuiltInView::ProgressCancel(token)),
        parsed_did_open(bytes) is Err ==> built_in_params(ProtocolNotification::Open, bytes) is Err,
        parsed_did_change(bytes) is Err ==> built_in_params(ProtocolNotification::Change, bytes)
            is Err,
        parsed_did_close(bytes) is Err ==> built_in_params(ProtocolNotification::Close, bytes)
            is Err,
        parsed_will_save(bytes) is Err ==> built_in_params(ProtocolNotification::WillSave, bytes)
            is Err,
        parsed_did_save(bytes) is Err ==> built_in_params(ProtocolNotification::Save, bytes) is Err,
        parsed_folder_change(bytes) is Err ==> built_in_params(
            ProtocolNotification::WorkspaceFolders,
            bytes,
        ) is Err,
        parsed_configuration(bytes) is Err ==> built_in_params(
            ProtocolNotification::Configuration,
            bytes,
        ) is Err,
        parsed_set_trace(bytes) is Err ==> built_in_params(ProtocolNotification::Trace, bytes)
            is Err,
        parsed_progress_cancel(bytes) is Err ==> built_in_params(
            ProtocolNotification::ProgressCancel,
            bytes,
        ) is Err,
{
}

/// Progress begins with its kind, its title, whether it can be cancelled, and its
/// message and its percentage where it has them.
pub proof fn law_progress_begins_with_its_options(options: ProgressOptionsView)
    ensures
        begin_value(options) matches JsonModel::Object(entries) && {
            &&& entries.dom().contains("kind"@)
            &&& entries["kind"@] == JsonModel::Text("begin"@)
            &&& entries.dom().contains("title"@)
            &&& entries["title"@] == JsonModel::Text(options.title)
            &&& entries.dom().contains("cancellable"@)
            &&& entries["cancellable"@] == JsonModel::Bool(options.cancellable)
            &&& options.message matches Some(text) ==> entries.dom().contains("message"@)
                && entries["message"@] == JsonModel::Text(text)
            &&& options.message is None ==> !entries.dom().contains("message"@)
            &&& options.percentage matches Some(n) ==> entries.dom().contains("percentage"@)
                && entries["percentage"@] == JsonModel::Integer(n as int)
            &&& options.percentage is None ==> !entries.dom().contains("percentage"@)
        },
{
    reveal_strlit("kind");
    reveal_strlit("title");
    reveal_strlit("cancellable");
    reveal_strlit("message");
    reveal_strlit("percentage");
    assert("kind"@.len() == 4 && "title"@.len() == 5 && "cancellable"@.len() == 11
        && "message"@.len() == 7 && "percentage"@.len() == 10);
}

/// Progress is reported as an object with its token and its value.
pub proof fn law_progress_is_reported_under_its_token(
    token: ProgressTokenView,
    value: JsonModel,
    number: i32,
    text: Seq<char>,
)
    ensures
        token_json(ProgressTokenView::Int(number)) == JsonModel::Integer(number as int),
        token_json(ProgressTokenView::String(text)) == JsonModel::Text(text),
        encoded_json(token_json(token)) is Ok && encoded_json(value) is Ok ==> progress_params(
            token,
            value,
        ) == Ok::<Seq<u8>, Seq<char>>(
            encode_utf8("{\"token\":"@) + encoded_json(token_json(token))->Ok_0 + encode_utf8(
                ",\"value\":"@,
            ) + encoded_json(value)->Ok_0 + encode_utf8("}"@),
        ),
        encoded_json(token_json(token)) is Err || encoded_json(value) is Err ==> progress_params(
            token,
            value,
        ) is Err,
{
}

/// Only active progress that can be cancelled is cancelled, and no other changes.
pub proof fn law_only_cancellable_progress_is_cancelled(
    active: Map<ProgressTokenView, ProgressState>,
    token: ProgressTokenView,
    other: ProgressTokenView,
)
    ensures
        ({
            let after = after_cancel(active, token);
            let known = active.dom().contains(token);
            &&& !known ==> cancel_outcome(active, token) is NotActive
            &&& known && !active[token].cancellable ==> cancel_outcome(active, token)
                is NotCancellable
            &&& known && active[token].cancellable ==> cancel_outcome(active, token) is Cancelled
            &&& known && active[token].cancellable ==> after.dom().contains(token)
                && after[token].cancelled && after[token].cancellable
            &&& !known || !active[token].cancellable ==> after == active
            &&& other != token ==> after.dom().contains(other) == active.dom().contains(other)
            &&& other != token ==> after[other] == active[other]
        }),
{
}

/// Partial results go under the token of the request that is being handled and to
/// no other method's; none follow once it has completed.
pub proof fn law_partial_results_go_under_their_request<C, T>(
    context: ContextView<C>,
    scope: ScopeView,
    client: ClientView<T>,
    chunk: JsonModel,
    size: Result<usize, Seq<char>>,
    method: Seq<char>,
    id: Option<RequestIdView>,
)
    ensures
        context.sink(method) is Some <==> context.scope is Some && context.scope->0.method == method,
        context.sink(method) matches Some(found) ==> Some(found) == context.scope,
        ContextView::<C>::bare(id).request_id == id,
        ContextView::<C>::bare(id).cancellation is None,
        ContextView::<C>::bare(id).work_done_token is None,
        ContextView::<C>::bare(id).scope is None,
        scope.finished ==> scope.reported(client, chunk, size) == client && scope.report_failure(
            client,
            chunk,
            size,
        ) == Some(
            ClientErrorView::InvalidHelperParams("partial-result request has completed"@),
        ),
        !scope.finished ==> scope.reported(client, chunk, size) == client.notified(
            "$/progress"@,
            progress_params(scope.token, chunk),
            size,
            DeliveryRequirement::Ordinary,
        ),
        !scope.finished ==> scope.report_failure(client, chunk, size) == client.notify_failure(
            progress_params(scope.token, chunk),
            size,
        ),
{
}

/// What a handler gives is what the peer is sent: its value encoded, or its error;
/// nothing given, or a value that cannot be encoded, is an internal error.
pub proof fn law_a_handlers_result_is_sent(
    value: JsonModel,
    error: LspErrorView,
    missing: Seq<char>,
)
    ensures
        encoded_json(value) matches Ok(body) ==> service_outcome(
            ServiceView::Response(value),
            missing,
        ) == Ok::<Seq<u8>, LspErrorView>(body) && body_of(value) == Ok::<Seq<u8>, LspErrorView>(
            body,
        ),
        encoded_json(value) matches Err(text) ==> service_outcome(
            ServiceView::Response(value),
            missing,
        ) == Err::<Seq<u8>, LspErrorView>(
            LspErrorView::Internal("serialization failed: "@ + text),
        ) && body_of(value) == Err::<Seq<u8>, LspErrorView>(
            LspErrorView::Internal("serialization failed: "@ + text),
        ),
        service_outcome(ServiceView::Error(error), missing) == Err::<Seq<u8>, LspErrorView>(error),
        service_outcome(ServiceView::NoResponse, missing) == Err::<Seq<u8>, LspErrorView>(
            LspErrorView::Internal(missing),
        ),
{
}

/// Changes fit incremental synchronization always, full synchronization if they are
/// of whole documents, and no other.
pub proof fn law_changes_fit_their_synchronization(changes: Seq<ContentChangeView>, n: u32)
    ensures
        ({
            let whole = forall|i: int|
                0 <= i < changes.len() ==> #[trigger] changes[i] is WholeDocument;
            let off = Some(
                LspErrorView::InvalidRequest(
                    "document changes are disabled by the configured synchronization kind"@,
                ),
            );
            &&& sync_change_failure(TextDocumentSyncKind::Incremental, changes) is None
            &&& whole ==> sync_change_failure(TextDocumentSyncKind::Full, changes) is None
            &&& !whole ==> sync_change_failure(TextDocumentSyncKind::Full, changes) == Some(
                LspErrorView::InvalidRequest(
                    "range changes require incremental document synchronization"@,
                ),
            )
            &&& sync_change_failure(TextDocumentSyncKind::Unsynced, changes) == off
            &&& sync_change_failure(TextDocumentSyncKind::Custom(n), changes) == off
        }),
{
}

/// A read that fails on a frame is a framing failure, and any other a failure of
/// the transport.
pub proof fn law_failed_reads_are_classified(error: TransportError)
    ensures
        read_failure_category(error) == if error is Malformed || error is OversizedMessage {
            ConnectionFailureCategory::Framing
        } else {
            ConnectionFailureCategory::Transport
        },
{
}

/// Each claimed request has its token fired and is then answered as cancelled, in
/// order.
pub proof fn law_claimed_requests_are_cancelled_in_order<T>(
    claimed: Seq<ReservationView>,
    i: int,
)
    requires
        0 <= i < claimed.len(),
    ensures
        cancellations::<T>(claimed).len() == 2 * claimed.len(),
        cancellations::<T>(claimed)[2 * i] == EffectView::<T>::Cancel(claimed[i].serial),
        cancellations::<T>(claimed)[2 * i + 1] == EffectView::<T>::Send(
            error_answer(claimed[i].id, LspErrorView::RequestCancelled),
        ),
    decreases claimed.len(),
{
    let rest = claimed.drop_last();
    if rest.len() > 0 {
        if i < rest.len() {
            law_claimed_requests_are_cancelled_in_order::<T>(rest, i);
        } else {
            law_claimed_requests_are_cancelled_in_order::<T>(rest, 0);
        }
    } else {
        assert(cancellations::<T>(rest).len() == 0);
    }
}

/// A reason to close stops the connection: the end of input as such, a failed read
/// with a report of its class, a lost required message as a failed writer.
#[verifier::spinoff_prover]
pub proof fn law_failures_stop_the_connection<H, T>(
    engine: EngineView<H, T>,
    error: TransportError,
    partial_results: bool,
)
    ensures
        engine.received(Input::CloseRequested, partial_results) == run(
            engine,
            Seq::empty(),
            FlowView::Stop,
        ),
        engine.received(Input::OutboundFailed, partial_results) == run(
            engine.asked_to_close(CloseCause::WriterFailed),
            Seq::empty(),
            FlowView::Stop,
        ),
        engine.received(Input::ReadFailed(error), partial_results) == if error is Closed {
            run(engine.asked_to_close(CloseCause::ReaderEof), Seq::empty(), FlowView::Stop)
        } else {
            run(
                engine.asked_to_close(CloseCause::ReaderFailed(error)),
                told(engine, read_failure_category(error), None, None),
                FlowView::Stop,
            )
        },
{
}

/// The first reason to close is the one that is recorded, and nothing else changes.
pub proof fn law_the_first_reason_to_close_is_recorded<H, T>(
    engine: EngineView<H, T>,
    cause: CloseCause,
)
    ensures
        engine.asked_to_close(cause) == (EngineView {
            close: if engine.close.requested {
                engine.close
            } else {
                SignalView { requested: true, cause: Some(cause) }
            },
            ..engine
        }),
{
}

/// A message leads to what it leads to; where that is the close of the connection,
/// its cause is recorded and the connection stops.
#[verifier::spinoff_prover]
pub proof fn law_a_received_message_is_dispatched<H, T>(
    engine: EngineView<H, T>,
    message: crate::message::RawMessage,
    partial_results: bool,
)
    ensures
        ({
            let next = engine.dispatched(message@, partial_results);
            let received = engine.received(Input::Message(message), partial_results);
            &&& !(next.step.flow is Close) ==> received == next
            &&& next.step.flow matches FlowView::Close(cause) ==> received == run(
                next.engine.asked_to_close(cause),
                next.step.effects,
                FlowView::Stop,
            )
        }),
{
}

/// A successful shutdown answers its own request, cancels all others and lets
/// nothing more in: the lifecycle says so, and everything else stays.
pub proof fn law_a_shutdown_leaves_nothing_in_flight<H, T>(
    engine: EngineView<H, T>,
    reserved: ReservedView,
    id: RequestIdView,
)
    ensures
        ({
            let after = engine.shut_down(reserved);
            &&& after.lifecycle is ShuttingDown
            &&& !after.inbound.entries.dom().contains(id)
            &&& after.inbound.permits == engine.inbound.permits.remove(reserved.permit)
            &&& after.inbound.next_serial == engine.inbound.next_serial
            &&& after.inbound.limit == engine.inbound.limit
            &&& after.store == engine.store && after.sync == engine.sync
            &&& after.parked == engine.parked && after.client == engine.client
            &&& after.close == engine.close
        }),
        ({
            let after = engine.settled(reserved);
            &&& engine.inbound.owns(reserved.reservation) ==> !after.inbound.entries.dom().contains(
                reserved.reservation.id,
            )
            &&& after.inbound.permits == engine.inbound.permits.remove(reserved.permit)
            &&& after == (EngineView { inbound: after.inbound, ..engine })
        }),
{
}

/// The close of a connection forgets its documents, requests and progress, lets
/// nothing more out, and keeps the cause and the limits.
pub proof fn law_the_close_forgets_the_session<H, T>(
    engine: EngineView<H, T>,
    id: RequestIdView,
    number: u32,
    key: Seq<u8>,
    token: ProgressTokenView,
)
    ensures
        ({
            let after = engine.after_close();
            &&& after.lifecycle is Exited
            &&& !after.store.docs.dom().contains(key) && after.store.bytes == 0
            &&& after.store.max_documents == engine.store.max_documents
            &&& after.store.max_document_bytes == engine.store.max_document_bytes
            &&& after.store.encoding == engine.store.encoding
            &&& !after.inbound.entries.dom().contains(id)
            &&& after.inbound.permits == engine.inbound.permits
            &&& !after.client.registry.pending.dom().contains(number)
            &&& after.client.registry.closed
            &&& !after.client.progress.dom().contains(token)
            &&& after.client.shut() == Some(ClientErrorView::OutboundClosed)
            &&& after.client.closing
            &&& after.client.queue == engine.client.queue
            &&& after.close == engine.close && after.sync == engine.sync
            &&& after.parked == engine.parked
        }),
{
}

/// Whether effects fire the token of every request in flight and tell everyone who
/// waits for an answer that none comes.
pub open spec fn abandons<T>(
    inbound: InboundView,
    pending: Map<u32, T>,
    effects: Seq<EffectView<T>>,
) -> bool {
    &&& forall|id: RequestIdView| #[trigger]
        inbound.entries.dom().contains(id) ==> effects.contains(
            EffectView::Cancel(inbound.entries[id].serial),
        )
    &&& forall|id: u32| #[trigger]
        pending.dom().contains(id) ==> effects.contains(
            EffectView::Deliver(pending[id], OutcomeView::Cancelled),
        )
}

/// Claimed requests have their tokens fired.
proof fn lemma_tokens_are_fired<T>(
    inbound: InboundView,
    claimed: Seq<ReservationView>,
    pending: Map<u32, T>,
    deliveries: Seq<Delivery<T>>,
)
    requires
        claims_every(inbound, claimed),
        cancels_every(pending, deliveries),
    ensures
        ({
            let effects = claimed.map_values(
                |reservation: ReservationView| EffectView::<T>::Cancel(reservation.serial),
            ) + deliveries.map_values(
                |delivery: Delivery<T>| EffectView::Deliver(delivery.waiter, delivery.outcome@),
            );
            &&& abandons(inbound, pending, effects)
            &&& effects.len() == inbound.entries.dom().len() + pending.dom().len()
            &&& forall|i: int|
                0 <= i < effects.len() ==> #[trigger] effects[i] is Cancel || effects[i] is Deliver
        }),
{
    let fired = claimed.map_values(
        |reservation: ReservationView| EffectView::<T>::Cancel(reservation.serial),
    );
    let told = deliveries.map_values(
        |delivery: Delivery<T>| EffectView::Deliver(delivery.waiter, delivery.outcome@),
    );
    let effects = fired + told;
    lemma_claims_are_as_many(inbound, claimed);
    law_every_waiter_is_told(pending, deliveries, 0);
    assert forall|id: RequestIdView| #[trigger]
        inbound.entries.dom().contains(id) implies effects.contains(
        EffectView::Cancel(inbound.entries[id].serial),
    ) by {
        law_every_request_is_claimed_once(inbound, claimed, id);
        let i = choose|i: int|
            0 <= i < claimed.len() && #[trigger] claimed[i] == (ReservationView {
                id,
                serial: inbound.entries[id].serial,
            });
        assert(effects[i] == EffectView::<T>::Cancel(inbound.entries[id].serial));
    }
    assert forall|id: u32| #[trigger] pending.dom().contains(id) implies effects.contains(
        EffectView::Deliver(pending[id], OutcomeView::Cancelled),
    ) by {
        law_every_waiter_is_told(pending, deliveries, id);
        let i = choose|i: int|
            0 <= i < deliveries.len() && (#[trigger] deliveries[i]).waiter == pending[id];
        assert(effects[fired.len() + i] == EffectView::Deliver(
            pending[id],
            OutcomeView::Cancelled,
        ));
    }
}

/// As many requests are claimed as are in flight.
proof fn lemma_claims_are_as_many(inbound: InboundView, claimed: Seq<ReservationView>)
    requires
        claims_every(inbound, claimed),
    ensures
        claimed.len() == inbound.entries.dom().len(),
{
    let ids = choose|ids: Seq<RequestIdView>|
        {
            &&& ids.no_duplicates()
            &&& #[trigger] ids.to_set() == inbound.entries.dom()
            &&& claimed.len() == ids.len()
            &&& forall|i: int|
                0 <= i < claimed.len() ==> #[trigger] claimed[i] == inbound.reservation(ids[i])
        };
    ids.unique_seq_to_set();
}

/// The close of a connection, of a server's or of a client's, abandons every
/// request in flight and every one that is pending, each once, and does nothing
/// else.
pub proof fn law_the_close_abandons_all_work<H, T, W>(
    engine: EngineView<H, T>,
    peer: ClientEngineView<H, T, W>,
    effects: Seq<EffectView<T>>,
)
    ensures
        closes_all(engine, effects) ==> abandons(
            engine.inbound,
            engine.client.registry.pending,
            effects,
        ) && effects.len() == engine.inbound.entries.dom().len()
            + engine.client.registry.pending.dom().len(),
        abandons_work(peer, effects) ==> abandons(
            peer.inbound,
            peer.server.peer.registry.pending,
            effects,
        ) && effects.len() == peer.inbound.entries.dom().len()
            + peer.server.peer.registry.pending.dom().len(),
{
    if closes_all(engine, effects) {
        let pending = engine.client.registry.pending;
        let (claimed, deliveries) = choose|
            claimed: Seq<ReservationView>,
            deliveries: Seq<Delivery<T>>,
        |
            {
                &&& #[trigger] claims_every(engine.inbound, claimed)
                &&& #[trigger] cancels_every(pending, deliveries)
                &&& effects == claimed.map_values(
                    |reservation: ReservationView| EffectView::<T>::Cancel(reservation.serial),
                ) + deliveries.map_values(
                    |delivery: Delivery<T>|
                        EffectView::Deliver(delivery.waiter, delivery.outcome@),
                )
            };
        lemma_tokens_are_fired(engine.inbound, claimed, pending, deliveries);
    }
    if abandons_work(peer, effects) {
        let pending = peer.server.peer.registry.pending;
        let (claimed, deliveries) = choose|
            claimed: Seq<ReservationView>,
            deliveries: Seq<Delivery<T>>,
        |
            {
                &&& #[trigger] claims_every(peer.inbound, claimed)
                &&& #[trigger] cancels_every(pending, deliveries)
                &&& effects == claimed.map_values(
                    |reservation: ReservationView| EffectView::<T>::Cancel(reservation.serial),
                ) + deliveries.map_values(
                    |delivery: Delivery<T>|
                        EffectView::Deliver(delivery.waiter, delivery.outcome@),
                )
            };
        lemma_tokens_are_fired(peer.inbound, claimed, pending, deliveries);
    }
}

/// Whether effects fire the token of a request and answer it as cancelled.
pub open spec fn cancels_one<T>(
    effects: Seq<EffectView<T>>,
    id: RequestIdView,
    serial: u64,
) -> bool {
    effects.contains(EffectView::Cancel(serial)) && effects.contains(
        EffectView::Send(failed(id, -32800, "request cancelled"@)),
    )
}

proof fn lemma_cancellations_reach<T>(
    inbound: InboundView,
    claimed: Seq<ReservationView>,
    before: Seq<EffectView<T>>,
    after: Seq<EffectView<T>>,
    id: RequestIdView,
)
    requires
        claims_every(inbound, claimed),
    ensures
        cancellations::<T>(claimed).len() == 2 * inbound.entries.dom().len(),
        inbound.entries.dom().contains(id) ==> cancels_one(
            before + cancellations::<T>(claimed) + after,
            id,
            inbound.entries[id].serial,
        ),
{
    lemma_claims_are_as_many(inbound, claimed);
    if claimed.len() > 0 {
        law_claimed_requests_are_cancelled_in_order::<T>(claimed, 0);
    }
    if inbound.entries.dom().contains(id) {
        law_every_request_is_claimed_once(inbound, claimed, id);
        let i = choose|i: int|
            0 <= i < claimed.len() && #[trigger] claimed[i] == (ReservationView {
                id,
                serial: inbound.entries[id].serial,
            });
        law_claimed_requests_are_cancelled_in_order::<T>(claimed, i);
        let effects = before + cancellations::<T>(claimed) + after;
        let n = before.len() as int;
        assert(effects[n + 2 * i] == cancellations::<T>(claimed)[2 * i]);
        assert(effects[n + 2 * i + 1] == cancellations::<T>(claimed)[2 * i + 1]);
    }
}

/// A successful shutdown sends its own answer first and then cancels and answers
/// every other request in flight, each once, and does nothing else.
pub proof fn law_a_shutdown_cancels_the_others<T>(
    inbound: InboundView,
    answered: Seq<EffectView<T>>,
    effects: Seq<EffectView<T>>,
    id: RequestIdView,
)
    requires
        shut_down_by(inbound, answered, effects),
    ensures
        effects.len() == answered.len() + 2 * inbound.entries.dom().len(),
        effects.take(answered.len() as int) == answered,
        inbound.entries.dom().contains(id) ==> cancels_one(
            effects,
            id,
            inbound.entries[id].serial,
        ),
{
    let claimed = choose|claimed: Seq<ReservationView>|
        #[trigger] claims_every(inbound, claimed) && effects == answered + cancellations::<T>(
            claimed,
        );
    lemma_cancellations_reach(inbound, claimed, answered, Seq::empty(), id);
    assert(answered + cancellations::<T>(claimed) + Seq::<EffectView<T>>::empty() =~= effects);
    assert(effects.take(answered.len() as int) =~= answered);
}

/// A client's shutdown cancels and answers every reverse request in flight and
/// tells everyone who waits for an answer that none comes, each once.
pub proof fn law_a_client_shutdown_cancels_all_work<H, T, W>(
    peer: ClientEngineView<H, T, W>,
    effects: Seq<EffectView<T>>,
    id: RequestIdView,
    number: u32,
)
    requires
        cancels_work(peer, effects),
    ensures
        ({
            let pending = peer.server.peer.registry.pending;
            &&& effects.len() == 2 * peer.inbound.entries.dom().len() + pending.dom().len()
            &&& peer.inbound.entries.dom().contains(id) ==> cancels_one(
                effects,
                id,
                peer.inbound.entries[id].serial,
            )
            &&& pending.dom().contains(number) ==> effects.contains(
                EffectView::Deliver(pending[number], OutcomeView::Cancelled),
            )
        }),
{
    let pending = peer.server.peer.registry.pending;
    let (claimed, deliveries) = choose|
        claimed: Seq<ReservationView>,
        deliveries: Seq<Delivery<T>>,
    |
        {
            &&& #[trigger] claims_every(peer.inbound, claimed)
            &&& #[trigger] cancels_every(pending, deliveries)
            &&& effects == cancellations::<T>(claimed) + deliveries.map_values(
                |delivery: Delivery<T>| EffectView::Deliver(delivery.waiter, delivery.outcome@),
            )
        };
    let told = deliveries.map_values(
        |delivery: Delivery<T>| EffectView::Deliver(delivery.waiter, delivery.outcome@),
    );
    let none = Seq::<EffectView<T>>::empty();
    lemma_cancellations_reach(peer.inbound, claimed, none, told, id);
    assert(none + cancellations::<T>(claimed) + told =~= effects);
    law_every_waiter_is_told(pending, deliveries, number);
    if pending.dom().contains(number) {
        let i = choose|i: int|
            0 <= i < deliveries.len() && (#[trigger] deliveries[i]).waiter == pending[number];
        assert(effects[cancellations::<T>(claimed).len() + i] == EffectView::Deliver(
            pending[number],
            OutcomeView::Cancelled,
        ));
    }
}

/// The tasks with one flag and those with the other are all the tasks: each stands
/// on the side of its own flag, and none is lost or made up.
pub proof fn law_tasks_are_parted_by_their_flags<T>(
    handles: Seq<T>,
    flags: Seq<bool>,
    value: bool,
)
    ensures
        flagged(handles, flags, value).len() + flagged(handles, flags, !value).len()
            == handles.len(),
        forall|i: int|
            0 <= i < handles.len() && flags[i] == value ==> flagged(
                handles,
                flags,
                value,
            ).contains(#[trigger] handles[i]),
        forall|j: int|
            0 <= j < flagged(handles, flags, value).len() ==> exists|i: int|
                0 <= i < handles.len() && flags[i] == value && #[trigger] handles[i]
                    == #[trigger] flagged(handles, flags, value)[j],
    decreases handles.len(),
{
    if handles.len() > 0 {
        let shorter = handles.drop_last();
        let last = handles.len() - 1;
        law_tasks_are_parted_by_their_flags(shorter, flags, value);
        let before = flagged(shorter, flags, value);
        let all = flagged(handles, flags, value);
        assert forall|i: int| 0 <= i < handles.len() && flags[i] == value implies all.contains(
            #[trigger] handles[i],
        ) by {
            if i < last {
                assert(shorter[i] == handles[i]);
                let j = choose|j: int| 0 <= j < before.len() && before[j] == handles[i];
                assert(all[j] == handles[i]);
            } else {
                assert(all[all.len() - 1] == handles[i]);
            }
        }
        assert forall|j: int| 0 <= j < all.len() implies exists|i: int|
            0 <= i < handles.len() && flags[i] == value && #[trigger] handles[i]
                == #[trigger] all[j] by {
            if j < before.len() {
                assert(all[j] == before[j]);
                let i = choose|i: int|
                    0 <= i < shorter.len() && flags[i] == value && #[trigger] shorter[i]
                        == before[j];
                assert(handles[i] == shorter[i]);
            } else {
                assert(handles[last] == all[j]);
            }
        }
    }
}

/// What is answered is answered once, by the reservation that owns the response:
/// with the body or the error under its own ID, and with nothing where it does not.
pub proof fn law_only_the_owner_answers<H, T, W>(
    engine: EngineView<H, T>,
    peer: ClientEngineView<H, T, W>,
    reservation: ReservationView,
    outcome: Result<Seq<u8>, LspErrorView>,
    result: InitializeResultView,
)
    ensures
        engine.inbound.owns(reservation) ==> engine.response(reservation, outcome) == seq![
            EffectView::<T>::Send(answer(reservation.id, outcome)),
        ] && engine.greeting(reservation, result) == seq![
            EffectView::<T>::Greet { id: reservation.id, result },
        ],
        !engine.inbound.owns(reservation) ==> engine.response(reservation, outcome).len() == 0
            && engine.greeting(reservation, result).len() == 0,
        peer.inbound.owns(reservation) ==> peer.response(reservation, outcome) == seq![
            EffectView::<T>::Send(answer(reservation.id, outcome)),
        ],
        !peer.inbound.owns(reservation) ==> peer.response(reservation, outcome).len() == 0,
{
}

/// A fixed handler's value is answered encoded, and its error as it is.
pub proof fn law_a_fixed_handlers_result_is_sent(value: serde_json::Value, error: LspError)
    ensures
        encoded_json(json_model(value)) matches Ok(body) ==> value_outcome(Ok(value)) == Ok::<
            Seq<u8>,
            LspErrorView,
        >(body),
        encoded_json(json_model(value)) matches Err(text) ==> value_outcome(Ok(value)) == Err::<
            Seq<u8>,
            LspErrorView,
        >(LspErrorView::Internal("serialization failed: "@ + text)),
        value_outcome(Err(error)) == Err::<Seq<u8>, LspErrorView>(error@),
{
}

} // verus!
