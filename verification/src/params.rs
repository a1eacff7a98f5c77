//! The parameters of the protocol's own methods, read from their bytes.
use vstd::prelude::*;

use gen_lsp_types::DidChangeTextDocumentParams as WireDidChange;
use gen_lsp_types::InitializeParams as WireInitialize;
use gen_lsp_types::TextDocumentContentChangeEvent as WireChange;
use serde_json::Value;

use crate::builder::ProtocolNotification;
use crate::documents::{
    ContentChangeView, ItemView, Position, PositionEncodingKind, Range,
    TextDocumentContentChangeEvent, TextDocumentItem,
};
use crate::error::{LspError, LspErrorView};
use crate::json::{json_model, parsed_json, JsonModel};
use crate::message::{ProgressToken, ProgressTokenView, RequestId, RequestIdView};
use crate::options::PositionEncodingKindView;
use crate::text::same_text;

verus! {

/// The parameters of `textDocument/didChange`.
#[derive(Debug)]
pub struct DidChangeParams {
    /// The document's URI.
    pub uri: String,
    /// The version that the changes lead to.
    pub version: i32,
    /// The changes in order.
    pub changes: Vec<TextDocumentContentChangeEvent>,
}

/// What [`DidChangeParams`] say.
pub struct DidChangeView {
    pub uri: Seq<char>,
    pub version: i32,
    pub changes: Seq<ContentChangeView>,
}

impl View for DidChangeParams {
    type V = DidChangeView;

    open spec fn view(&self) -> DidChangeView {
        DidChangeView {
            uri: self.uri@,
            version: self.version,
            changes: self.changes@.map_values(|change: TextDocumentContentChangeEvent| change@),
        }
    }
}

/// A workspace folder.
#[derive(Debug)]
pub struct WorkspaceFolder {
    /// The folder's URI.
    pub uri: String,
    /// The folder's name.
    pub name: String,
}

/// What a [`WorkspaceFolder`] says.
pub struct FolderView {
    pub uri: Seq<char>,
    pub name: Seq<char>,
}

impl View for WorkspaceFolder {
    type V = FolderView;

    open spec fn view(&self) -> FolderView {
        FolderView { uri: self.uri@, name: self.name@ }
    }
}

/// The parameters of `workspace/didChangeWorkspaceFolders`.
#[derive(Debug)]
pub struct FolderChange {
    /// The folders that came.
    pub added: Vec<WorkspaceFolder>,
    /// The folders that went.
    pub removed: Vec<WorkspaceFolder>,
}

/// What a [`FolderChange`] says.
pub struct FolderChangeView {
    pub added: Seq<FolderView>,
    pub removed: Seq<FolderView>,
}

impl View for FolderChange {
    type V = FolderChangeView;

    open spec fn view(&self) -> FolderChangeView {
        FolderChangeView {
            added: self.added@.map_values(|folder: WorkspaceFolder| folder@),
            removed: self.removed@.map_values(|folder: WorkspaceFolder| folder@),
        }
    }
}

/// How much of the traffic the client wants traced.
#[derive(Debug, Clone, Copy, PartialEq, Eq, Structural)]
pub enum TraceValue {
    /// Nothing.
    Off,
    /// Messages only.
    Messages,
    /// Messages and details.
    Verbose,
}

/// The trace value a wire name stands for; none for any other name.
pub open spec fn trace_named(name: Seq<char>) -> Option<TraceValue> {
    if name == "off"@ {
        Some(TraceValue::Off)
    } else if name == "messages"@ {
        Some(TraceValue::Messages)
    } else if name == "verbose"@ {
        Some(TraceValue::Verbose)
    } else {
        None
    }
}

/// The trace value a wire name stands for; none for any other name.
pub fn trace_value(name: &str) -> (value: Option<TraceValue>)
    ensures
        value == trace_named(name@),
{
    if same_text(name, "off") {
        Some(TraceValue::Off)
    } else if same_text(name, "messages") {
        Some(TraceValue::Messages)
    } else if same_text(name, "verbose") {
        Some(TraceValue::Verbose)
    } else {
        None
    }
}

/// The position encoding a wire name stands for.
pub open spec fn encoding_named(name: Seq<char>) -> PositionEncodingKindView {
    if name == "utf-8"@ {
        PositionEncodingKindView::UTF8
    } else if name == "utf-16"@ {
        PositionEncodingKindView::UTF16
    } else if name == "utf-32"@ {
        PositionEncodingKindView::UTF32
    } else {
        PositionEncodingKindView::Custom(name)
    }
}

/// The position encoding a wire name stands for.
pub fn encoding_kind(name: String) -> (kind: PositionEncodingKind)
    ensures
        kind.deep_view() == encoding_named(name@),
{
    if same_text(name.as_str(), "utf-8") {
        PositionEncodingKind::UTF8
    } else if same_text(name.as_str(), "utf-16") {
        PositionEncodingKind::UTF16
    } else if same_text(name.as_str(), "utf-32") {
        PositionEncodingKind::UTF32
    } else {
        PositionEncodingKind::Custom(name)
    }
}

/// What the initialize transaction reads of its parameters.
#[derive(Debug)]
pub struct InitializeFacts {
    /// The wire names of the position encodings the client offers.
    pub encodings: Option<Vec<String>>,
    /// The token for progress on the initialization.
    pub work_done_token: Option<ProgressToken>,
}

/// What [`InitializeFacts`] say.
pub struct InitializeView {
    pub encodings: Option<Seq<Seq<char>>>,
    pub work_done_token: Option<ProgressTokenView>,
}

impl View for InitializeFacts {
    type V = InitializeView;

    open spec fn view(&self) -> InitializeView {
        InitializeView {
            encodings: self.encodings.deep_view(),
            work_done_token: self.work_done_token.deep_view(),
        }
    }
}

/// A decoding came out as named.
pub open spec fn decoded<T, V>(
    named: Result<V, Seq<char>>,
    result: Result<T, String>,
    view: spec_fn(T) -> V,
) -> bool {
    match result {
        Ok(value) => named == Ok::<V, Seq<char>>(view(value)),
        Err(error) => named == Err::<V, Seq<char>>(error@),
    }
}

/// `serde_json::from_slice::<gen_lsp_types::DidOpenTextDocumentParams>`.
pub uninterp spec fn parsed_did_open(bytes: Seq<u8>) -> Result<ItemView, Seq<char>>;

/// `serde_json::from_slice::<gen_lsp_types::DidChangeTextDocumentParams>`.
pub uninterp spec fn parsed_did_change(bytes: Seq<u8>) -> Result<DidChangeView, Seq<char>>;

/// `serde_json::from_slice::<gen_lsp_types::DidCloseTextDocumentParams>`, by the
/// document's URI.
pub uninterp spec fn parsed_did_close(bytes: Seq<u8>) -> Result<Seq<char>, Seq<char>>;

/// `serde_json::from_slice::<gen_lsp_types::WillSaveTextDocumentParams>`, by
/// whether it succeeds.
pub uninterp spec fn parsed_will_save(bytes: Seq<u8>) -> Result<(), Seq<char>>;

/// `serde_json::from_slice::<gen_lsp_types::DidSaveTextDocumentParams>`, by the
/// text that was saved.
pub uninterp spec fn parsed_did_save(bytes: Seq<u8>) -> Result<Option<Seq<char>>, Seq<char>>;

/// `serde_json::from_slice::<gen_lsp_types::DidChangeWorkspaceFoldersParams>`.
pub uninterp spec fn parsed_folder_change(bytes: Seq<u8>) -> Result<FolderChangeView, Seq<char>>;

/// `serde_json::from_slice::<gen_lsp_types::DidChangeConfigurationParams>`, by
/// the settings.
pub uninterp spec fn parsed_configuration(bytes: Seq<u8>) -> Result<JsonModel, Seq<char>>;

/// `serde_json::from_slice::<gen_lsp_types::SetTraceParams>`, by the wire name of
/// the value.
pub uninterp spec fn parsed_set_trace(bytes: Seq<u8>) -> Result<Seq<char>, Seq<char>>;

/// `serde_json::from_slice::<gen_lsp_types::WorkDoneProgressCancelParams>`, by
/// the token.
pub uninterp spec fn parsed_progress_cancel(bytes: Seq<u8>) -> Result<
    ProgressTokenView,
    Seq<char>,
>;

/// `serde_json::from_slice::<gen_lsp_types::CancelParams>`, by the identity of
/// the request.
pub uninterp spec fn parsed_cancel(bytes: Seq<u8>) -> Result<RequestIdView, Seq<char>>;

/// `serde_json::from_slice::<gen_lsp_types::InitializeParams>`, by what the
/// initialize transaction reads of it.
pub uninterp spec fn parsed_initialize(bytes: Seq<u8>) -> Result<InitializeView, Seq<char>>;

/// `serde_json::from_slice::<()>`, by the text of the error where the bytes are
/// not the unit's.
pub uninterp spec fn unit_error(bytes: Seq<u8>) -> Seq<char>;

/// What bytes say where nothing is to be said: `null` says it, and anything else
/// is an error.
pub open spec fn parsed_unit(bytes: Seq<u8>) -> Result<(), Seq<char>> {
    if parsed_json(bytes) == Ok::<JsonModel, Seq<char>>(JsonModel::Null) {
        Ok(())
    } else {
        Err(unit_error(bytes))
    }
}

/// `serde_json::from_slice::<gen_lsp_types::DidOpenTextDocumentParams>`: the
/// contract names the result.
#[verifier::external_body]
fn parse_did_open(bytes: &[u8]) -> (result: Result<TextDocumentItem, String>)
    ensures
        decoded(parsed_did_open(bytes@), result, |item: TextDocumentItem| item@),
{
    match serde_json::from_slice::<gen_lsp_types::DidOpenTextDocumentParams>(bytes) {
        Ok(params) => Ok(
            TextDocumentItem {
                uri: params.text_document.uri.0,
                language_id: String::from(params.text_document.language_id),
                version: params.text_document.version,
                text: params.text_document.text,
            },
        ),
        Err(error) => Err(error.to_string()),
    }
}

/// `serde_json::from_slice::<gen_lsp_types::DidChangeTextDocumentParams>`: the
/// contract names the result. A change keeps its kind, its range and its text;
/// the deprecated range length is left behind.
#[verifier::external_body]
fn parse_did_change(bytes: &[u8]) -> (result: Result<DidChangeParams, String>)
    ensures
        decoded(parsed_did_change(bytes@), result, |params: DidChangeParams| params@),
{
    let params = serde_json::from_slice::<WireDidChange>(bytes).map_err(|error| error.to_string())?;
    let changes = params.content_changes.into_iter().map(|change| match change {
        WireChange::TextDocumentContentChangePartial(part) => {
            let (start, end) = (part.range.start, part.range.end);
            let start = Position { line: start.line, character: start.character };
            let end = Position { line: end.line, character: end.character };
            TextDocumentContentChangeEvent::Partial { range: Range { start, end }, text: part.text }
        },
        WireChange::TextDocumentContentChangeWholeDocument(whole) =>
            TextDocumentContentChangeEvent::WholeDocument { text: whole.text },
    }).collect();
    let uri = params.text_document.text_document_identifier.uri.0;
    Ok(DidChangeParams { uri, version: params.text_document.version, changes })
}

/// `serde_json::from_slice::<gen_lsp_types::DidCloseTextDocumentParams>`: the
/// contract names the result.
#[verifier::external_body]
fn parse_did_close(bytes: &[u8]) -> (result: Result<String, String>)
    ensures
        decoded(parsed_did_close(bytes@), result, |uri: String| uri@),
{
    match serde_json::from_slice::<gen_lsp_types::DidCloseTextDocumentParams>(bytes) {
        Ok(params) => Ok(params.text_document.uri.0),
        Err(error) => Err(error.to_string()),
    }
}

/// `serde_json::from_slice::<gen_lsp_types::WillSaveTextDocumentParams>`: the
/// contract names the result.
#[verifier::external_body]
fn parse_will_save(bytes: &[u8]) -> (result: Result<(), String>)
    ensures
        decoded(parsed_will_save(bytes@), result, |unit: ()| unit),
{
    match serde_json::from_slice::<gen_lsp_types::WillSaveTextDocumentParams>(bytes) {
        Ok(_) => Ok(()),
        Err(error) => Err(error.to_string()),
    }
}

/// `serde_json::from_slice::<gen_lsp_types::DidSaveTextDocumentParams>`: the
/// contract names the result.
#[verifier::external_body]
fn parse_did_save(bytes: &[u8]) -> (result: Result<Option<String>, String>)
    ensures
        decoded(parsed_did_save(bytes@), result, |text: Option<String>| text.deep_view()),
{
    match serde_json::from_slice::<gen_lsp_types::DidSaveTextDocumentParams>(bytes) {
        Ok(params) => Ok(params.text),
        Err(error) => Err(error.to_string()),
    }
}

/// `serde_json::from_slice::<gen_lsp_types::DidChangeWorkspaceFoldersParams>`:
/// the contract names the result.
#[verifier::external_body]
fn parse_folder_change(bytes: &[u8]) -> (result: Result<FolderChange, String>)
    ensures
        decoded(parsed_folder_change(bytes@), result, |change: FolderChange| change@),
{
    let params = serde_json::from_slice::<gen_lsp_types::DidChangeWorkspaceFoldersParams>(
        bytes,
    ).map_err(|error| error.to_string())?;
    let added = params.event.added.into_iter().map(
        |folder| WorkspaceFolder { uri: folder.uri.0, name: folder.name },
    ).collect();
    let removed = params.event.removed.into_iter().map(
        |folder| WorkspaceFolder { uri: folder.uri.0, name: folder.name },
    ).collect();
    Ok(FolderChange { added, removed })
}

/// `serde_json::from_slice::<gen_lsp_types::DidChangeConfigurationParams>`: the
/// contract names the result.
#[verifier::external_body]
fn parse_configuration(bytes: &[u8]) -> (result: Result<Value, String>)
    ensures
        decoded(parsed_configuration(bytes@), result, |settings: Value| json_model(settings)),
{
    match serde_json::from_slice::<gen_lsp_types::DidChangeConfigurationParams>(bytes) {
        Ok(params) => Ok(params.settings),
        Err(error) => Err(error.to_string()),
    }
}

/// `serde_json::from_slice::<gen_lsp_types::SetTraceParams>`: the contract names
/// the result.
#[verifier::external_body]
fn parse_set_trace(bytes: &[u8]) -> (result: Result<String, String>)
    ensures
        decoded(parsed_set_trace(bytes@), result, |name: String| name@),
{
    match serde_json::from_slice::<gen_lsp_types::SetTraceParams>(bytes) {
        Ok(params) => Ok(String::from(params.value)),
        Err(error) => Err(error.to_string()),
    }
}

/// `serde_json::from_slice::<gen_lsp_types::WorkDoneProgressCancelParams>`: the
/// contract names the result.
#[verifier::external_body]
fn parse_progress_cancel(bytes: &[u8]) -> (result: Result<ProgressToken, String>)
    ensures
        decoded(
            parsed_progress_cancel(bytes@),
            result,
            |token: ProgressToken| token.deep_view(),
        ),
{
    match serde_json::from_slice::<gen_lsp_types::WorkDoneProgressCancelParams>(bytes) {
        Ok(params) => Ok(match params.token {
            gen_lsp_types::ProgressToken::Int(number) => ProgressToken::Int(number),
            gen_lsp_types::ProgressToken::String(text) => ProgressToken::String(text),
        }),
        Err(error) => Err(error.to_string()),
    }
}

/// `serde_json::from_slice::<gen_lsp_types::CancelParams>`: the contract names
/// the result.
#[verifier::external_body]
fn parse_cancel(bytes: &[u8]) -> (result: Result<RequestId, String>)
    ensures
        decoded(parsed_cancel(bytes@), result, |id: RequestId| id.deep_view()),
{
    match serde_json::from_slice::<gen_lsp_types::CancelParams>(bytes) {
        Ok(params) => Ok(match params.id {
            gen_lsp_types::Id::Int(number) => RequestId::Number(number),
            gen_lsp_types::Id::String(text) => RequestId::String(text),
        }),
        Err(error) => Err(error.to_string()),
    }
}

/// `serde_json::from_slice::<gen_lsp_types::InitializeParams>`: the contract
/// names the result.
#[verifier::external_body]
fn parse_initialize(bytes: &[u8]) -> (result: Result<InitializeFacts, String>)
    ensures
        decoded(parsed_initialize(bytes@), result, |facts: InitializeFacts| facts@),
{
    let params = serde_json::from_slice::<WireInitialize>(bytes).map_err(|error| error.to_string())?;
    let token = params.work_done_progress_params.work_done_token.map(|token| match token {
        gen_lsp_types::ProgressToken::Int(number) => ProgressToken::Int(number),
        gen_lsp_types::ProgressToken::String(text) => ProgressToken::String(text),
    });
    let kinds = params.capabilities.general.and_then(|general| general.position_encodings);
    let encodings = kinds.map(|kinds| kinds.into_iter().map(String::from).collect());
    Ok(InitializeFacts { encodings, work_done_token: token })
}

/// `serde_json::from_slice::<()>`: it succeeds exactly where the bytes are JSON's
/// `null`; the contract names the text of the error.
#[verifier::external_body]
fn parse_unit(bytes: &[u8]) -> (result: Result<(), String>)
    ensures
        result is Ok == (parsed_json(bytes@) == Ok::<JsonModel, Seq<char>>(JsonModel::Null)),
        result matches Err(error) ==> error@ == unit_error(bytes@),
{
    serde_json::from_slice::<()>(bytes).map_err(|error| error.to_string())
}

/// The bytes that are decoded for parameters: an absent payload is an empty
/// object.
pub open spec fn present(params: Seq<u8>) -> Seq<u8> {
    if params.len() == 0 {
        seq![123u8, 125u8]
    } else {
        params
    }
}

/// The bytes that are decoded for parameters: an absent payload is an empty
/// object, so that parameterless methods decode cleanly.
pub fn present_params(params: &Vec<u8>) -> (bytes: Vec<u8>)
    ensures
        bytes@ == present(params@),
{
    if params.len() == 0 {
        vec![123u8, 125u8]
    } else {
        params.clone()
    }
}

/// A decoding of parameters, with any failure as invalid parameters.
pub open spec fn checked<V>(named: Result<V, Seq<char>>) -> Result<V, LspErrorView> {
    match named {
        Ok(value) => Ok(value),
        Err(error) => Err(LspErrorView::InvalidParams(error)),
    }
}

/// A failed decoding is a failure of the parameters, so that a malformed request
/// never reaches a handler.
pub fn check_params<T>(result: Result<T, String>) -> (checked: Result<T, LspError>)
    ensures
        match result {
            Ok(value) => checked == Ok::<T, LspError>(value),
            Err(error) => checked matches Err(e) && e@ == LspErrorView::InvalidParams(error@),
        },
{
    match result {
        Ok(value) => Ok(value),
        Err(error) => Err(LspError::InvalidParams(error)),
    }
}

/// The decoded parameters of a protocol-owned notification.
#[derive(Debug)]
pub enum BuiltInParams {
    /// `textDocument/didOpen`.
    Open(TextDocumentItem),
    /// `textDocument/didChange`.
    Change(DidChangeParams),
    /// `textDocument/didClose`, by the document's URI.
    Close(String),
    /// `textDocument/willSave`.
    WillSave,
    /// `textDocument/didSave`, by the text that was saved.
    Save(Option<String>),
    /// `workspace/didChangeWorkspaceFolders`.
    WorkspaceFolders(FolderChange),
    /// `workspace/didChangeConfiguration`, by the settings.
    Configuration(Value),
    /// `$/setTrace`, by the wire name of the value.
    Trace(String),
    /// `window/workDoneProgress/cancel`, by the token.
    ProgressCancel(ProgressToken),
}

/// What [`BuiltInParams`] say.
#[allow(inconsistent_fields)]
pub enum BuiltInView {
    Open(ItemView),
    Change(DidChangeView),
    Close(Seq<char>),
    WillSave,
    Save(Option<Seq<char>>),
    WorkspaceFolders(FolderChangeView),
    Configuration(JsonModel),
    Trace(Seq<char>),
    ProgressCancel(ProgressTokenView),
}

impl View for BuiltInParams {
    type V = BuiltInView;

    open spec fn view(&self) -> BuiltInView {
        match *self {
            BuiltInParams::Open(item) => BuiltInView::Open(item@),
            BuiltInParams::Change(params) => BuiltInView::Change(params@),
            BuiltInParams::Close(uri) => BuiltInView::Close(uri@),
            BuiltInParams::WillSave => BuiltInView::WillSave,
            BuiltInParams::Save(text) => BuiltInView::Save(text.deep_view()),
            BuiltInParams::WorkspaceFolders(change) => BuiltInView::WorkspaceFolders(change@),
            BuiltInParams::Configuration(settings) => BuiltInView::Configuration(
                json_model(settings),
            ),
            BuiltInParams::Trace(name) => BuiltInView::Trace(name@),
            BuiltInParams::ProgressCancel(token) => BuiltInView::ProgressCancel(token.deep_view()),
        }
    }
}

/// What a protocol-owned notification's bytes say, or why they say nothing.
pub open spec fn built_in_params(built_in: ProtocolNotification, bytes: Seq<u8>) -> Result<
    BuiltInView,
    Seq<char>,
> {
    match built_in {
        ProtocolNotification::Open => match parsed_did_open(bytes) {
            Ok(item) => Ok(BuiltInView::Open(item)),
            Err(error) => Err(error),
        },
        ProtocolNotification::Change => match parsed_did_change(bytes) {
            Ok(params) => Ok(BuiltInView::Change(params)),
            Err(error) => Err(error),
        },
        ProtocolNotification::Close => match parsed_did_close(bytes) {
            Ok(uri) => Ok(BuiltInView::Close(uri)),
            Err(error) => Err(error),
        },
        ProtocolNotification::WillSave => match parsed_will_save(bytes) {
            Ok(_) => Ok(BuiltInView::WillSave),
            Err(error) => Err(error),
        },
        ProtocolNotification::Save => match parsed_did_save(bytes) {
            Ok(text) => Ok(BuiltInView::Save(text)),
            Err(error) => Err(error),
        },
        ProtocolNotification::WorkspaceFolders => match parsed_folder_change(bytes) {
            Ok(change) => Ok(BuiltInView::WorkspaceFolders(change)),
            Err(error) => Err(error),
        },
        ProtocolNotification::Configuration => match parsed_configuration(bytes) {
            Ok(settings) => Ok(BuiltInView::Configuration(settings)),
            Err(error) => Err(error),
        },
        ProtocolNotification::Trace => match parsed_set_trace(bytes) {
            Ok(name) => Ok(BuiltInView::Trace(name)),
            Err(error) => Err(error),
        },
        ProtocolNotification::ProgressCancel => match parsed_progress_cancel(bytes) {
            Ok(token) => Ok(BuiltInView::ProgressCancel(token)),
            Err(error) => Err(error),
        },
    }
}

/// A decoding with a fallible result came out as expected.
pub open spec fn checked_as<T: View>(
    expected: Result<T::V, LspErrorView>,
    result: Result<T, LspError>,
) -> bool {
    match result {
        Ok(value) => expected == Ok::<T::V, LspErrorView>(value@),
        Err(error) => expected == Err::<T::V, LspErrorView>(error@),
    }
}

/// Decode the parameters of a protocol-owned notification.
pub fn decode_built_in(built_in: ProtocolNotification, params: &Vec<u8>) -> (result: Result<
    BuiltInParams,
    LspError,
>)
    ensures
        checked_as(checked(built_in_params(built_in, present(params@))), result),
{
    let bytes = present_params(params);
    let bytes = bytes.as_slice();
    let parsed = match built_in {
        ProtocolNotification::Open => match parse_did_open(bytes) {
            Ok(item) => Ok(BuiltInParams::Open(item)),
            Err(error) => Err(error),
        },
        ProtocolNotification::Change => match parse_did_change(bytes) {
            Ok(params) => Ok(BuiltInParams::Change(params)),
            Err(error) => Err(error),
        },
        ProtocolNotification::Close => match parse_did_close(bytes) {
            Ok(uri) => Ok(BuiltInParams::Close(uri)),
            Err(error) => Err(error),
        },
        ProtocolNotification::WillSave => match parse_will_save(bytes) {
            Ok(_) => Ok(BuiltInParams::WillSave),
            Err(error) => Err(error),
        },
        ProtocolNotification::Save => match parse_did_save(bytes) {
            Ok(text) => Ok(BuiltInParams::Save(text)),
            Err(error) => Err(error),
        },
        ProtocolNotification::WorkspaceFolders => match parse_folder_change(bytes) {
            Ok(change) => Ok(BuiltInParams::WorkspaceFolders(change)),
            Err(error) => Err(error),
        },
        ProtocolNotification::Configuration => match parse_configuration(bytes) {
            Ok(settings) => Ok(BuiltInParams::Configuration(settings)),
            Err(error) => Err(error),
        },
        ProtocolNotification::Trace => match parse_set_trace(bytes) {
            Ok(name) => Ok(BuiltInParams::Trace(name)),
            Err(error) => Err(error),
        },
        ProtocolNotification::ProgressCancel => match parse_progress_cancel(bytes) {
            Ok(token) => Ok(BuiltInParams::ProgressCancel(token)),
            Err(error) => Err(error),
        },
    };
    check_params(parsed)
}

/// Decode the parameters of `$/cancelRequest`.
pub fn decode_cancel(params: &Vec<u8>) -> (result: Result<RequestId, LspError>)
    ensures
        match result {
            Ok(id) => checked(parsed_cancel(present(params@))) == Ok::<RequestIdView, LspErrorView>(
                id.deep_view(),
            ),
            Err(error) => checked(parsed_cancel(present(params@))) == Err::<
                RequestIdView,
                LspErrorView,
            >(error@),
        },
{
    check_params(parse_cancel(present_params(params).as_slice()))
}

/// Decode the parameters of `initialize`.
pub fn decode_initialize(params: &Vec<u8>) -> (result: Result<InitializeFacts, LspError>)
    ensures
        checked_as(checked(parsed_initialize(present(params@))), result),
{
    check_params(parse_initialize(present_params(params).as_slice()))
}

/// Decode the parameters of a method that has none; they may be absent.
pub fn decode_nothing(params: &Vec<u8>) -> (result: Result<(), LspError>)
    ensures
        match result {
            Ok(_) => params@.len() == 0 || parsed_unit(params@) is Ok,
            Err(error) => params@.len() > 0 && parsed_unit(params@) is Err && error@
                == LspErrorView::InvalidParams(parsed_unit(params@)->Err_0),
        },
{
    if params.len() == 0 {
        Ok(())
    } else {
        check_params(parse_unit(params.as_slice()))
    }
}

} // verus!
