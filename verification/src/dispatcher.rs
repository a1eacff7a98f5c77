//! The concurrent dispatcher of a language server whose methods are fixed.
//!
//! In-flight requests are tracked in a registry that holds their cancellation
//! tokens, so a `$/cancelRequest` can trigger a token; whoever takes an entry out
//! of the registry writes the one wire response. Built-in document mutations run
//! before the handler of their notification, so the document is visible to the
//! next message. Whoever drives the connection runs the handlers, holds the
//! concurrency permits, and hands the results back.
use vstd::prelude::*;

use serde_json::Value;

use lsp_types::DidChangeTextDocumentParams as FixedDidChange;

use crate::documents::{
    ContentChangeView, Documents, ItemView, Position, Range, StoreView,
    TextDocumentContentChangeEvent, TextDocumentItem,
};
use crate::codec::{body_of, encode_body};
use crate::error::{Error, LspError, LspErrorView, TransportError};
use crate::json::{json_model, json_null, null_body};
use crate::message::{
    answer, error_answer, error_response, response, MessageView, RawMessage, RequestId,
    RequestIdView,
};
use crate::params::{
    decode_cancel, decoded, parsed_cancel, present, present_params, DidChangeParams, DidChangeView,
};
use crate::table::Table;
use crate::text::same_text;

verus! {

/// `serde_json::from_slice::<lsp_types::InitializeParams>`, by whether it
/// succeeds.
pub uninterp spec fn fixed_initialize(bytes: Seq<u8>) -> Result<(), Seq<char>>;

/// `serde_json::from_slice::<lsp_types::InitializedParams>`, by whether it
/// succeeds.
pub uninterp spec fn fixed_initialized(bytes: Seq<u8>) -> Result<(), Seq<char>>;

/// `serde_json::from_slice::<lsp_types::DidOpenTextDocumentParams>`.
pub uninterp spec fn fixed_did_open(bytes: Seq<u8>) -> Result<ItemView, Seq<char>>;

/// `serde_json::from_slice::<lsp_types::DidChangeTextDocumentParams>`.
pub uninterp spec fn fixed_did_change(bytes: Seq<u8>) -> Result<DidChangeView, Seq<char>>;

/// `serde_json::from_slice::<lsp_types::DidCloseTextDocumentParams>`, by the
/// document's URI.
pub uninterp spec fn fixed_did_close(bytes: Seq<u8>) -> Result<Seq<char>, Seq<char>>;

/// `serde_json::from_slice::<lsp_types::DidSaveTextDocumentParams>`, by whether
/// it succeeds.
pub uninterp spec fn fixed_did_save(bytes: Seq<u8>) -> Result<(), Seq<char>>;

/// `serde_json::from_slice::<lsp_types::InitializeParams>`: the contract names
/// the result.
#[verifier::external_body]
fn read_initialize(bytes: &[u8]) -> (result: Result<(), String>)
    ensures
        decoded(fixed_initialize(bytes@), result, |unit: ()| unit),
{
    match serde_json::from_slice::<lsp_types::InitializeParams>(bytes) {
        Ok(_) => Ok(()),
        Err(error) => Err(error.to_string()),
    }
}

/// `serde_json::from_slice::<lsp_types::InitializedParams>`: the contract names
/// the result.
#[verifier::external_body]
fn read_initialized(bytes: &[u8]) -> (result: Result<(), String>)
    ensures
        decoded(fixed_initialized(bytes@), result, |unit: ()| unit),
{
    match serde_json::from_slice::<lsp_types::InitializedParams>(bytes) {
        Ok(_) => Ok(()),
        Err(error) => Err(error.to_string()),
    }
}

/// `serde_json::from_slice::<lsp_types::DidOpenTextDocumentParams>`: the contract
/// names the result.
#[verifier::external_body]
fn read_did_open(bytes: &[u8]) -> (result: Result<TextDocumentItem, String>)
    ensures
        decoded(fixed_did_open(bytes@), result, |item: TextDocumentItem| item@),
{
    match serde_json::from_slice::<lsp_types::DidOpenTextDocumentParams>(bytes) {
        Ok(params) => Ok(
            TextDocumentItem {
                uri: params.text_document.uri.as_str().to_owned(),
                language_id: params.text_document.language_id,
                version: params.text_document.version,
                text: params.text_document.text,
            },
        ),
        Err(error) => Err(error.to_string()),
    }
}

/// `serde_json::from_slice::<lsp_types::DidChangeTextDocumentParams>`: the
/// contract names the result. A change with a range is a partial one, and one
/// without replaces the whole document; the deprecated range length is left
/// behind.
#[verifier::external_body]
fn read_did_change(bytes: &[u8]) -> (result: Result<DidChangeParams, String>)
    ensures
        decoded(fixed_did_change(bytes@), result, |params: DidChangeParams| params@),
{
    let params = serde_json::from_slice::<FixedDidChange>(bytes).map_err(|error| error.to_string())?;
    let changes = params.content_changes.into_iter().map(|change| match change.range {
        Some(range) => {
            let start = Position { line: range.start.line, character: range.start.character };
            let end = Position { line: range.end.line, character: range.end.character };
            TextDocumentContentChangeEvent::Partial { range: Range { start, end }, text: change.text }
        },
        None => TextDocumentContentChangeEvent::WholeDocument { text: change.text },
    }).collect();
    let uri = params.text_document.uri.as_str().to_owned();
    Ok(DidChangeParams { uri, version: params.text_document.version, changes })
}

/// `serde_json::from_slice::<lsp_types::DidCloseTextDocumentParams>`: the
/// contract names the result.
#[verifier::external_body]
fn read_did_close(bytes: &[u8]) -> (result: Result<String, String>)
    ensures
        decoded(fixed_did_close(bytes@), result, |uri: String| uri@),
{
    match serde_json::from_slice::<lsp_types::DidCloseTextDocumentParams>(bytes) {
        Ok(params) => Ok(params.text_document.uri.as_str().to_owned()),
        Err(error) => Err(error.to_string()),
    }
}

/// `serde_json::from_slice::<lsp_types::DidSaveTextDocumentParams>`: the contract
/// names the result.
#[verifier::external_body]
fn read_did_save(bytes: &[u8]) -> (result: Result<(), String>)
    ensures
        decoded(fixed_did_save(bytes@), result, |unit: ()| unit),
{
    match serde_json::from_slice::<lsp_types::DidSaveTextDocumentParams>(bytes) {
        Ok(_) => Ok(()),
        Err(error) => Err(error.to_string()),
    }
}

/// How far the connection has come.
#[derive(Debug, Clone, Copy, PartialEq, Eq, Structural)]
pub enum State {
    Uninitialized,
    Running,
    ShuttingDown,
}

/// A fixed notification with a handler.
#[derive(Debug, Clone, Copy, PartialEq, Eq, Structural)]
pub enum FixedNotification {
    Initialized,
    DidOpen,
    DidChange,
    DidClose,
    DidSave,
}

impl FixedNotification {
    /// The wire method of a notification.
    pub open spec fn method(self) -> Seq<char> {
        match self {
            FixedNotification::Initialized => "initialized"@,
            FixedNotification::DidOpen => "textDocument/didOpen"@,
            FixedNotification::DidChange => "textDocument/didChange"@,
            FixedNotification::DidClose => "textDocument/didClose"@,
            FixedNotification::DidSave => "textDocument/didSave"@,
        }
    }
}

/// What is to be done for a message, in order. `C` stands for a cancellation
/// token.
pub enum DispatchEffect<C> {
    /// Enqueue a message.
    Send(RawMessage),
    /// Fire a cancellation token.
    Cancel(C),
}

/// What a [`DispatchEffect`] does.
pub enum DispatchEffectView<C> {
    Send(MessageView),
    Cancel(C),
}

impl<C> View for DispatchEffect<C> {
    type V = DispatchEffectView<C>;

    open spec fn view(&self) -> DispatchEffectView<C> {
        match *self {
            DispatchEffect::Send(message) => DispatchEffectView::Send(message@),
            DispatchEffect::Cancel(token) => DispatchEffectView::Cancel(token),
        }
    }
}

/// What is to be run once the effects of a message are done.
pub enum DispatchFlow {
    /// Nothing: take the next message.
    Continue,
    /// `initialize`, inline: the read-loop waits, so that every later message sees
    /// the state it leaves.
    Initialize {
        /// The request.
        id: RequestId,
        /// Its encoded parameters.
        params: Vec<u8>,
    },
    /// A task for `shutdown`.
    Shutdown {
        /// The request.
        id: RequestId,
    },
    /// A task for a notification.
    Notify {
        /// The notification.
        notification: FixedNotification,
        /// Its encoded parameters.
        params: Vec<u8>,
    },
    /// The `exit` handler, and then the end with [`Dispatcher::exit_code`].
    Exit,
}

/// What a [`DispatchFlow`] runs.
#[allow(inconsistent_fields)]
pub enum DispatchFlowView {
    Continue,
    Initialize { id: RequestIdView, params: Seq<u8> },
    Shutdown { id: RequestIdView },
    Notify { notification: FixedNotification, params: Seq<u8> },
    Exit,
}

impl View for DispatchFlow {
    type V = DispatchFlowView;

    open spec fn view(&self) -> DispatchFlowView {
        match *self {
            DispatchFlow::Continue => DispatchFlowView::Continue,
            DispatchFlow::Initialize { id, params } => DispatchFlowView::Initialize {
                id: id.deep_view(),
                params: params@,
            },
            DispatchFlow::Shutdown { id } => DispatchFlowView::Shutdown { id: id.deep_view() },
            DispatchFlow::Notify { notification, params } => DispatchFlowView::Notify {
                notification,
                params: params@,
            },
            DispatchFlow::Exit => DispatchFlowView::Exit,
        }
    }
}

/// What a message leads to.
pub struct DispatchStep<C> {
    /// What is to be done, in order.
    pub effects: Vec<DispatchEffect<C>>,
    /// What is to be run after that.
    pub flow: DispatchFlow,
}

/// What a [`DispatchStep`] leads to.
#[verifier::ext_equal]
pub struct DispatchStepView<C> {
    pub effects: Seq<DispatchEffectView<C>>,
    pub flow: DispatchFlowView,
}

impl<C> View for DispatchStep<C> {
    type V = DispatchStepView<C>;

    open spec fn view(&self) -> DispatchStepView<C> {
        DispatchStepView {
            effects: self.effects@.map_values(|effect: DispatchEffect<C>| effect@),
            flow: self.flow@,
        }
    }
}

/// The dispatcher's state of one connection.
pub struct Dispatcher<C> {
    state: State,
    registry: Table<RequestId, C>,
    documents: Documents,
}

/// What a [`Dispatcher`] holds.
#[verifier::ext_equal]
pub struct DispatcherView<C> {
    pub state: State,
    pub registry: Map<RequestIdView, C>,
    pub store: StoreView,
}

/// A dispatcher and what a message led to; a failure of the parameters ends the
/// connection.
#[verifier::ext_equal]
pub struct DispatchNext<C> {
    pub dispatcher: DispatcherView<C>,
    pub result: Result<DispatchStepView<C>, LspErrorView>,
}

/// The store after changes are applied one by one; a change that is refused
/// leaves the document as it is, and the next is tried.
pub open spec fn changed_one_by_one(
    store: StoreView,
    uri: Seq<char>,
    version: i32,
    changes: Seq<ContentChangeView>,
) -> StoreView
    decreases changes.len(),
{
    if changes.len() == 0 {
        store
    } else {
        changed_one_by_one(store, uri, version, changes.drop_last()).changed(
            uri,
            version,
            seq![changes.last()],
        )
    }
}

impl<C> DispatcherView<C> {
    /// The LSP exit code: 0 exactly after a successful shutdown.
    pub open spec fn exit_code(self) -> i32 {
        if self.state == State::ShuttingDown {
            0
        } else {
            1
        }
    }

    /// Nothing but effects.
    pub open spec fn only(self, effects: Seq<DispatchEffectView<C>>) -> DispatchNext<C> {
        DispatchNext {
            dispatcher: self,
            result: Ok(DispatchStepView { effects, flow: DispatchFlowView::Continue }),
        }
    }

    /// Something to run.
    pub open spec fn then_run(self, flow: DispatchFlowView) -> DispatchNext<C> {
        DispatchNext {
            dispatcher: self,
            result: Ok(DispatchStepView { effects: Seq::empty(), flow }),
        }
    }

    /// A request is refused.
    pub open spec fn refused(self, id: RequestIdView, error: LspErrorView) -> DispatchNext<C> {
        self.only(seq![DispatchEffectView::Send(error_answer(id, error))])
    }

    /// The parameters of a message end the connection.
    pub open spec fn failed(self, error: Seq<char>) -> DispatchNext<C> {
        DispatchNext { dispatcher: self, result: Err(LspErrorView::InvalidParams(error)) }
    }

    /// What a request leads to.
    pub open spec fn on_request(
        self,
        id: RequestIdView,
        method: Seq<char>,
        params: Seq<u8>,
        token: C,
    ) -> DispatchNext<C> {
        if method != "initialize"@ && self.state == State::Uninitialized {
            self.refused(id, LspErrorView::ServerNotInitialized)
        } else if self.state == State::ShuttingDown {
            self.refused(id, LspErrorView::InvalidRequest("invalid request"@))
        } else if method == "initialize"@ {
            if self.state != State::Uninitialized {
                self.refused(
                    id,
                    LspErrorView::ServerError {
                        code: (-32600) as i32,
                        message: "server already initialized"@,
                        data: None,
                    },
                )
            } else {
                match fixed_initialize(present(params)) {
                    Err(error) => self.failed(error),
                    Ok(_) => self.then_run(DispatchFlowView::Initialize { id, params }),
                }
            }
        } else if method == "shutdown"@ {
            DispatcherView { registry: self.registry.insert(id, token), ..self }.then_run(
                DispatchFlowView::Shutdown { id },
            )
        } else {
            self.refused(id, LspErrorView::MethodNotFound(method))
        }
    }

    /// What a notification leads to.
    pub open spec fn on_notification(self, method: Seq<char>, params: Seq<u8>) -> DispatchNext<C> {
        let bytes = present(params);
        if method == "exit"@ {
            self.then_run(DispatchFlowView::Exit)
        } else if method == "initialized"@ {
            match fixed_initialized(bytes) {
                Err(error) => self.failed(error),
                Ok(_) => self.then_run(
                    DispatchFlowView::Notify {
                        notification: FixedNotification::Initialized,
                        params,
                    },
                ),
            }
        } else if self.state == State::Uninitialized {
            self.only(Seq::empty())
        } else if method == "$/cancelRequest"@ {
            self.on_cancel(params)
        } else if method == "textDocument/didOpen"@ {
            match fixed_did_open(bytes) {
                Err(error) => self.failed(error),
                Ok(item) => DispatcherView { store: self.store.opened(item), ..self }.then_run(
                    DispatchFlowView::Notify { notification: FixedNotification::DidOpen, params },
                ),
            }
        } else if method == "textDocument/didChange"@ {
            match fixed_did_change(bytes) {
                Err(error) => self.failed(error),
                Ok(change) => DispatcherView {
                    store: changed_one_by_one(
                        self.store,
                        change.uri,
                        change.version,
                        change.changes,
                    ),
                    ..self
                }.then_run(
                    DispatchFlowView::Notify { notification: FixedNotification::DidChange, params },
                ),
            }
        } else if method == "textDocument/didClose"@ {
            match fixed_did_close(bytes) {
                Err(error) => self.failed(error),
                Ok(uri) => DispatcherView { store: self.store.closed(uri), ..self }.then_run(
                    DispatchFlowView::Notify { notification: FixedNotification::DidClose, params },
                ),
            }
        } else if method == "textDocument/didSave"@ {
            match fixed_did_save(bytes) {
                Err(error) => self.failed(error),
                Ok(_) => self.then_run(
                    DispatchFlowView::Notify { notification: FixedNotification::DidSave, params },
                ),
            }
        } else {
            self.only(Seq::empty())
        }
    }

    /// What `$/cancelRequest` leads to: the token of the request is fired, and it
    /// is answered as cancelled.
    pub open spec fn on_cancel(self, params: Seq<u8>) -> DispatchNext<C> {
        match parsed_cancel(present(params)) {
            Err(_) => self.only(Seq::empty()),
            Ok(id) => if self.registry.dom().contains(id) {
                DispatcherView { registry: self.registry.remove(id), ..self }.only(
                    seq![
                        DispatchEffectView::Cancel(self.registry[id]),
                        DispatchEffectView::Send(
                            error_answer(id, LspErrorView::RequestCancelled),
                        ),
                    ],
                )
            } else {
                self.only(Seq::empty())
            },
        }
    }

    /// What a message leads to.
    pub open spec fn dispatched(self, message: MessageView, token: C) -> DispatchNext<C> {
        match message {
            MessageView::Request { id, method, params } => self.on_request(
                id,
                method,
                params,
                token,
            ),
            MessageView::Notification { method, params } => self.on_notification(method, params),
            MessageView::Response { id, result } => self.only(Seq::empty()),
            MessageView::ProtocolError { error } => self.only(
                seq![DispatchEffectView::Send(MessageView::ProtocolError { error })],
            ),
        }
    }
}

impl<C> View for Dispatcher<C> {
    type V = DispatcherView<C>;

    closed spec fn view(&self) -> DispatcherView<C> {
        DispatcherView {
            state: self.state,
            registry: self.registry@,
            store: self.documents@,
        }
    }
}

/// Dispatching came out as expected.
pub open spec fn dispatched_as<C>(
    expected: DispatchNext<C>,
    after: DispatcherView<C>,
    result: Result<DispatchStep<C>, Error>,
) -> bool {
    &&& after == expected.dispatcher
    &&& match result {
        Ok(step) => expected.result == Ok::<DispatchStepView<C>, LspErrorView>(step@),
        Err(error) => {
            &&& expected.result is Err
            &&& error matches Error::Lsp(failure)
            &&& failure@ == expected.result->Err_0
        },
    }
}

/// A step without effects.
fn plain_step<C>(flow: DispatchFlow) -> (step: DispatchStep<C>)
    ensures
        step@ == (DispatchStepView::<C> { effects: Seq::empty(), flow: flow@ }),
{
    let step = DispatchStep { effects: Vec::new(), flow };
    assert(step@.effects =~= Seq::<DispatchEffectView<C>>::empty());
    step
}

/// A step that only sends.
fn sending_step<C>(message: RawMessage) -> (step: DispatchStep<C>)
    ensures
        step@ == (DispatchStepView::<C> {
            effects: seq![DispatchEffectView::Send(message@)],
            flow: DispatchFlowView::Continue,
        }),
{
    let mut effects: Vec<DispatchEffect<C>> = Vec::new();
    effects.push(DispatchEffect::Send(message));
    let step = DispatchStep { effects, flow: DispatchFlow::Continue };
    assert(step@.effects =~= seq![DispatchEffectView::<C>::Send(message@)]);
    step
}

/// A failure of the parameters.
fn params_failed<C>(error: String) -> (result: Result<DispatchStep<C>, Error>)
    ensures
        result matches Err(Error::Lsp(failure)) && failure@ == LspErrorView::InvalidParams(error@),
{
    Err(Error::Lsp(LspError::InvalidParams(error)))
}

impl<C> Dispatcher<C> {
    /// The documents are well-formed.
    pub closed spec fn wf(&self) -> bool {
        self.documents.wf()
    }

    /// A connection that is not initialized.
    pub fn new(documents: Documents) -> (dispatcher: Self)
        requires
            documents.wf(),
        ensures
            dispatcher.wf(),
            dispatcher@ == (DispatcherView::<C> {
                state: State::Uninitialized,
                registry: Map::empty(),
                store: documents@,
            }),
    {
        Dispatcher { state: State::Uninitialized, registry: Table::new(), documents }
    }

    /// Take one message. `token` is the cancellation token of the request, should
    /// the message be one that is spawned.
    pub fn dispatch(&mut self, message: RawMessage, token: C) -> (result: Result<
        DispatchStep<C>,
        Error,
    >)
        requires
            old(self).wf(),
        ensures
            final(self).wf(),
            dispatched_as(old(self)@.dispatched(message@, token), final(self)@, result),
    {
        match message {
            RawMessage::Request { id, method, params } => self.dispatch_request(
                id,
                method,
                params,
                token,
            ),
            RawMessage::Notification { method, params } => self.dispatch_notification(
                method,
                params,
            ),
            RawMessage::Response { .. } => Ok(plain_step(DispatchFlow::Continue)),
            RawMessage::ProtocolError { error } => Ok(
                sending_step(RawMessage::ProtocolError { error }),
            ),
        }
    }

    /// Take one request.
    ///
    /// Until `initialize` completes, every other request is refused before any
    /// handler is spawned; after a successful shutdown, every request is invalid
    /// until exit.
    fn dispatch_request(
        &mut self,
        id: RequestId,
        method: String,
        params: Vec<u8>,
        token: C,
    ) -> (result: Result<DispatchStep<C>, Error>)
        requires
            old(self).wf(),
        ensures
            final(self).wf(),
            dispatched_as(
                old(self)@.on_request(id.deep_view(), method@, params@, token),
                final(self)@,
                result,
            ),
    {
        let initialize = same_text(method.as_str(), "initialize");
        if !initialize && self.state == State::Uninitialized {
            return Ok(sending_step(error_response(id, &LspError::ServerNotInitialized)));
        }
        if self.state == State::ShuttingDown {
            return Ok(
                sending_step(
                    error_response(id, &LspError::InvalidRequest("invalid request".to_owned())),
                ),
            );
        }
        if initialize {
            if self.state != State::Uninitialized {
                return Ok(
                    sending_step(
                        error_response(
                            id,
                            &LspError::ServerError {
                                code: -32600,
                                message: "server already initialized".to_owned(),
                                data: None,
                            },
                        ),
                    ),
                );
            }
            return match read_initialize(present_params(&params).as_slice()) {
                Ok(()) => Ok(plain_step(DispatchFlow::Initialize { id, params })),
                Err(error) => params_failed(error),
            };
        }
        if same_text(method.as_str(), "shutdown") {
            self.registry.insert(id.clone(), token);
            return Ok(plain_step(DispatchFlow::Shutdown { id }));
        }
        Ok(sending_step(error_response(id, &LspError::MethodNotFound(method))))
    }

    /// Take one notification.
    ///
    /// Until `initialize` completes, every notification is dropped except `exit`
    /// and `initialized`. Built-in mutations run inline, so the document is
    /// visible to the next message.
    fn dispatch_notification(&mut self, method: String, params: Vec<u8>) -> (result: Result<
        DispatchStep<C>,
        Error,
    >)
        requires
            old(self).wf(),
        ensures
            final(self).wf(),
            dispatched_as(old(self)@.on_notification(method@, params@), final(self)@, result),
    {
        if same_text(method.as_str(), "exit") {
            return Ok(plain_step(DispatchFlow::Exit));
        }
        let bytes = present_params(&params);
        let bytes = bytes.as_slice();
        if same_text(method.as_str(), "initialized") {
            return match read_initialized(bytes) {
                Ok(()) => Ok(
                    plain_step(
                        DispatchFlow::Notify {
                            notification: FixedNotification::Initialized,
                            params,
                        },
                    ),
                ),
                Err(error) => params_failed(error),
            };
        }
        if self.state == State::Uninitialized {
            return Ok(plain_step(DispatchFlow::Continue));
        }
        if same_text(method.as_str(), "$/cancelRequest") {
            return Ok(self.handle_cancel(&params));
        }
        let notification = if same_text(method.as_str(), "textDocument/didOpen") {
            match read_did_open(bytes) {
                Ok(item) => {
                    let _ = self.documents.open(item);
                },
                Err(error) => return params_failed(error),
            }
            FixedNotification::DidOpen
        } else if same_text(method.as_str(), "textDocument/didChange") {
            match read_did_change(bytes) {
                Ok(change) => self.apply_one_by_one(change),
                Err(error) => return params_failed(error),
            }
            FixedNotification::DidChange
        } else if same_text(method.as_str(), "textDocument/didClose") {
            match read_did_close(bytes) {
                Ok(uri) => {
                    let _ = self.documents.close(uri.as_str());
                },
                Err(error) => return params_failed(error),
            }
            FixedNotification::DidClose
        } else if same_text(method.as_str(), "textDocument/didSave") {
            match read_did_save(bytes) {
                Ok(()) => {},
                Err(error) => return params_failed(error),
            }
            FixedNotification::DidSave
        } else {
            return Ok(plain_step(DispatchFlow::Continue));
        };
        Ok(plain_step(DispatchFlow::Notify { notification, params }))
    }

    /// Apply changes one by one; one that is refused leaves the document as it
    /// is, and the next is tried.
    fn apply_one_by_one(&mut self, change: DidChangeParams)
        requires
            old(self).wf(),
        ensures
            final(self).wf(),
            final(self)@ == (DispatcherView {
                store: changed_one_by_one(
                    old(self)@.store,
                    change@.uri,
                    change@.version,
                    change@.changes,
                ),
                ..old(self)@
            }),
    {
        let DidChangeParams { uri, version, changes } = change;
        let ghost all = changes@;
        let ghost views = changes@.map_values(|change: TextDocumentContentChangeEvent| change@);
        let ghost before = *self;
        assert(views.take(0) =~= Seq::<ContentChangeView>::empty());
        for one in it: changes
            invariant
                it.seq() == all,
                views == all.map_values(|change: TextDocumentContentChangeEvent| change@),
                self.documents.wf(),
                self.state == before.state,
                self.registry == before.registry,
                self.documents@ == changed_one_by_one(
                    before.documents@,
                    uri@,
                    version,
                    views.take(it.index() as int),
                ),
        {
            let ghost i = it.index() as int;
            let mut single: Vec<TextDocumentContentChangeEvent> = Vec::new();
            single.push(one);
            assert(views[i] == one@);
            assert(single@.map_values(|change: TextDocumentContentChangeEvent| change@) =~= seq![
                one@,
            ]);
            assert(views.take(i + 1).drop_last() =~= views.take(i));
            let _ = self.documents.apply_changes(uri.as_str(), version, single);
        }
        assert(views.take(views.len() as int) =~= views);
    }

    /// Take `$/cancelRequest`. The task of the request stays owned by its group
    /// and is reaped once it finishes.
    fn handle_cancel(&mut self, params: &Vec<u8>) -> (step: DispatchStep<C>)
        requires
            old(self).wf(),
        ensures
            final(self).wf(),
            (DispatchNext { dispatcher: final(self)@, result: Ok(step@) }) == old(
                self,
            )@.on_cancel(params@),
    {
        let id = match decode_cancel(params) {
            Ok(id) => id,
            Err(_) => return plain_step(DispatchFlow::Continue),
        };
        match self.registry.remove(&id) {
            Some(token) => {
                let mut effects: Vec<DispatchEffect<C>> = Vec::new();
                effects.push(DispatchEffect::Cancel(token));
                effects.push(
                    DispatchEffect::Send(error_response(id, &LspError::RequestCancelled)),
                );
                let step = DispatchStep { effects, flow: DispatchFlow::Continue };
                assert(step@.effects =~= seq![
                    DispatchEffectView::Cancel(token),
                    DispatchEffectView::Send(
                        error_answer(id.deep_view(), LspErrorView::RequestCancelled),
                    ),
                ]);
                step
            },
            None => plain_step(DispatchFlow::Continue),
        }
    }

    /// Go on with `initialize` once its handler has ended: a success lets the
    /// connection run. The response is the one to send.
    pub fn finish_initialize(&mut self, id: RequestId, result: Result<Value, LspError>) -> (
    message: RawMessage)
        requires
            old(self).wf(),
        ensures
            final(self).wf(),
            message@ == answer(id.deep_view(), value_outcome(result)),
            final(self)@ == (DispatcherView {
                state: if result is Ok {
                    State::Running
                } else {
                    old(self)@.state
                },
                ..old(self)@
            }),
    {
        if result.is_ok() {
            self.state = State::Running;
        }
        value_response(id, result)
    }

    /// Go on with `shutdown` once its handler has ended: a success shuts the
    /// connection down. The response is sent unless a cancellation has answered
    /// the request.
    pub fn finish_shutdown(&mut self, id: RequestId, result: Result<(), LspError>) -> (message:
        Option<RawMessage>)
        requires
            old(self).wf(),
        ensures
            final(self).wf(),
            final(self)@ == (DispatcherView {
                state: if result is Ok {
                    State::ShuttingDown
                } else {
                    old(self)@.state
                },
                registry: old(self)@.registry.remove(id.deep_view()),
                ..old(self)@
            }),
            match message {
                Some(sent) => old(self)@.registry.dom().contains(id.deep_view()) && sent@
                    == answer(
                    id.deep_view(),
                    match result {
                        Ok(_) => Ok(null_body()),
                        Err(error) => Err(error@),
                    },
                ),
                None => !old(self)@.registry.dom().contains(id.deep_view()),
            },
    {
        let result = match result {
            Ok(()) => {
                self.state = State::ShuttingDown;
                Ok(json_null())
            },
            Err(error) => Err(error),
        };
        let removed = self.registry.remove(&id);
        assert(removed is None ==> old(self)@.registry.remove(id.deep_view()) =~= old(
            self,
        )@.registry);
        if removed.is_some() {
            Some(value_response(id, result))
        } else {
            None
        }
    }

    /// The LSP exit code, read once the `exit` handler has ended.
    pub fn exit_code(&self) -> (code: i32)
        ensures
            code == self@.exit_code(),
    {
        if self.state == State::ShuttingDown {
            0
        } else {
            1
        }
    }

    /// The connection's documents.
    pub fn documents(&self) -> (documents: &Documents)
        requires
            self.wf(),
        ensures
            documents@ == self@.store,
            documents.wf(),
    {
        &self.documents
    }

    /// How far the connection has come.
    pub fn state(&self) -> (state: State)
        ensures
            state == self@.state,
    {
        self.state
    }
}

/// The outcome of a handler's value.
pub open spec fn value_outcome(result: Result<Value, LspError>) -> Result<Seq<u8>, LspErrorView> {
    match result {
        Ok(value) => body_of(json_model(value)),
        Err(error) => Err(error@),
    }
}

/// The response that a handler's value makes.
pub fn value_response(id: RequestId, result: Result<Value, LspError>) -> (message: RawMessage)
    ensures
        message@ == answer(id.deep_view(), value_outcome(result)),
        result matches Ok(value) ==> json_model(value) is Null ==> message@ == answer(
            id.deep_view(),
            Ok(null_body()),
        ),
{
    let outcome = match result {
        Ok(value) => encode_body(&value),
        Err(error) => Err(error),
    };
    response(id, outcome)
}

/// What ended the dispatcher's read-loop.
#[derive(Debug, Clone, Copy, PartialEq, Eq, Structural)]
pub enum DispatchOutcome {
    /// The peer closed the transport before sending `exit`.
    TransportClosed,
    /// An `exit` notification was processed; carries the LSP exit code (0 if
    /// `shutdown` preceded it, else 1).
    Exit(i32),
}

/// What ends the read-loop.
#[derive(Debug)]
pub enum EndEvent {
    /// Reading failed, or reached the end.
    ReadFailed(TransportError),
    /// The parameters of a message could not be decoded.
    DispatchFailed(Error),
    /// `exit` was processed.
    Exited(i32),
}

/// How the read-loop ends.
#[derive(Debug)]
pub struct Ending {
    /// Whether handlers in flight are aborted; otherwise they are let finish.
    pub abort_tasks: bool,
    /// Whether the writer drains what is queued; otherwise it is aborted.
    pub drain_queue: bool,
    /// What serving the connection returns.
    pub result: Result<DispatchOutcome, Error>,
}

/// How the read-loop ends. A peer that disconnects before `exit` leaves handlers
/// to finish and the queue to drain; `exit` means to stop now, but what is queued
/// is still written; a failure stops everything.
pub fn ending(event: EndEvent) -> (end: Ending)
    ensures
        end == match event {
            EndEvent::ReadFailed(TransportError::Closed) => Ending {
                abort_tasks: false,
                drain_queue: true,
                result: Ok::<DispatchOutcome, Error>(DispatchOutcome::TransportClosed),
            },
            EndEvent::ReadFailed(error) => Ending {
                abort_tasks: true,
                drain_queue: false,
                result: Err(Error::Transport(error)),
            },
            EndEvent::DispatchFailed(error) => Ending {
                abort_tasks: true,
                drain_queue: false,
                result: Err(error),
            },
            EndEvent::Exited(code) => Ending {
                abort_tasks: true,
                drain_queue: true,
                result: Ok(DispatchOutcome::Exit(code)),
            },
        },
{
    match event {
        EndEvent::ReadFailed(TransportError::Closed) => Ending {
            abort_tasks: false,
            drain_queue: true,
            result: Ok(DispatchOutcome::TransportClosed),
        },
        EndEvent::ReadFailed(error) => Ending {
            abort_tasks: true,
            drain_queue: false,
            result: Err(Error::Transport(error)),
        },
        EndEvent::DispatchFailed(error) => Ending {
            abort_tasks: true,
            drain_queue: false,
            result: Err(error),
        },
        EndEvent::Exited(code) => Ending {
            abort_tasks: true,
            drain_queue: true,
            result: Ok(DispatchOutcome::Exit(code)),
        },
    }
}

/// Until `initialize` completes, every other request is refused and nothing is
/// spawned; after a successful shutdown, every request is invalid.
pub proof fn law_fixed_requests_follow_the_lifecycle<C>(
    dispatcher: DispatcherView<C>,
    id: RequestIdView,
    method: Seq<char>,
    params: Seq<u8>,
    token: C,
)
    ensures
        dispatcher.state == State::Uninitialized && method != "initialize"@
            ==> dispatcher.on_request(id, method, params, token) == dispatcher.refused(
            id,
            LspErrorView::ServerNotInitialized,
        ),
        dispatcher.state == State::ShuttingDown ==> dispatcher.on_request(
            id,
            method,
            params,
            token,
        ) == dispatcher.refused(id, LspErrorView::InvalidRequest("invalid request"@)),
{
}

/// No message moves the state: only a finished `initialize` or `shutdown` does.
pub proof fn law_fixed_messages_keep_the_state<C>(
    dispatcher: DispatcherView<C>,
    message: MessageView,
    token: C,
)
    ensures
        dispatcher.dispatched(message, token).dispatcher.state == dispatcher.state,
{
}

/// Exit reports 0 exactly after a successful shutdown: no message alone can make
/// it so.
pub proof fn law_fixed_exit_is_clean_only_after_shutdown<C>(
    dispatcher: DispatcherView<C>,
    message: MessageView,
    token: C,
)
    ensures
        dispatcher.exit_code() == 0 <==> dispatcher.state == State::ShuttingDown,
        dispatcher.dispatched(message, token).dispatcher.exit_code() == dispatcher.exit_code(),
{
}

/// A cancelled request is answered as cancelled, and its handler's own response
/// is dropped afterwards: whoever takes the registry entry out answers.
pub proof fn law_fixed_cancellation_answers_once<C>(
    dispatcher: DispatcherView<C>,
    params: Seq<u8>,
    id: RequestIdView,
)
    requires
        parsed_cancel(present(params)) == Ok::<RequestIdView, Seq<char>>(id),
        dispatcher.registry.dom().contains(id),
    ensures
        ({
            let next = dispatcher.on_cancel(params);
            &&& next.result is Ok
            &&& next.result->Ok_0.effects == seq![
                DispatchEffectView::Cancel(dispatcher.registry[id]),
                DispatchEffectView::Send(error_answer(id, LspErrorView::RequestCancelled)),
            ]
            &&& !next.dispatcher.registry.dom().contains(id)
            &&& next.dispatcher.on_cancel(params) == next.dispatcher.only(Seq::empty())
        }),
{
}

} // verus!
