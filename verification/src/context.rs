//! What a handler is given of the call it serves.
//!
//! The connection's own state stays with whoever drives the connection: the
//! operations that send take the client handle, and reads of documents go through
//! the [`DocumentsView`](crate::documents::DocumentsView).
use vstd::prelude::*;

use serde_json::Value;

use crate::client::{fails_as, params_view, ClientHandle, ClientView};
use crate::error::{ClientError, ClientErrorView};
use crate::json::{json_model, JsonModel};
use crate::message::{ProgressToken, ProgressTokenView, RequestId, RequestIdView};
use crate::outbound::{size_view, DeliveryRequirement};
use crate::progress::{
    begin_params, begin_value, encode_progress, progress_params, ProgressOptions, ProgressState,
};
use crate::text::same_text;

verus! {

/// The partial results of one request: they are reported under the token that
/// came with it, until it has completed.
pub struct PartialResultScope {
    method: String,
    token: ProgressToken,
    finished: bool,
}

/// What a [`PartialResultScope`] holds.
#[verifier::ext_equal]
pub struct ScopeView {
    pub method: Seq<char>,
    pub token: ProgressTokenView,
    pub finished: bool,
}

impl View for PartialResultScope {
    type V = ScopeView;

    closed spec fn view(&self) -> ScopeView {
        ScopeView {
            method: self.method@,
            token: self.token.deep_view(),
            finished: self.finished,
        }
    }
}

impl ScopeView {
    /// Why a chunk is not reported: a completed request takes none.
    pub open spec fn report_failure<T>(
        self,
        client: ClientView<T>,
        chunk: JsonModel,
        size: Result<usize, Seq<char>>,
    ) -> Option<ClientErrorView> {
        if self.finished {
            Some(ClientErrorView::InvalidHelperParams("partial-result request has completed"@))
        } else {
            client.notify_failure(progress_params(self.token, chunk), size)
        }
    }

    /// The client after a chunk is reported under the scope's token, or refused.
    pub open spec fn reported<T>(
        self,
        client: ClientView<T>,
        chunk: JsonModel,
        size: Result<usize, Seq<char>>,
    ) -> ClientView<T> {
        if self.finished {
            client
        } else {
            client.notified(
                "$/progress"@,
                progress_params(self.token, chunk),
                size,
                DeliveryRequirement::Ordinary,
            )
        }
    }
}

impl PartialResultScope {
    /// A scope for the method that is being handled.
    pub fn new(method: String, token: ProgressToken) -> (scope: Self)
        ensures
            scope@ == (ScopeView {
                method: method@,
                token: token.deep_view(),
                finished: false,
            }),
    {
        PartialResultScope { method, token, finished: false }
    }

    /// The method that is being handled.
    pub fn method(&self) -> (method: &str)
        ensures
            method@ == self@.method,
    {
        self.method.as_str()
    }

    /// The token that chunks are reported under.
    pub fn token(&self) -> (token: &ProgressToken)
        ensures
            token.deep_view() == self@.token,
    {
        &self.token
    }

    /// The request has completed: later chunks are refused.
    pub fn finish(&mut self)
        ensures
            final(self)@ == (ScopeView { finished: true, ..old(self)@ }),
    {
        self.finished = true;
    }

    /// The parameters of `$/progress` with a chunk, to be measured.
    pub fn chunk_params(&self, chunk: &Value) -> (params: Result<Vec<u8>, String>)
        ensures
            params_view(params) == progress_params(self@.token, json_model(*chunk)),
    {
        encode_progress(&self.token, chunk)
    }

    /// Report one chunk with `$/progress`, under the scope's token. `size` is that
    /// of the message's envelope.
    pub fn report<H, T>(
        &self,
        client: &mut ClientHandle<H, T>,
        chunk: &Value,
        size: Result<usize, String>,
    ) -> (result: Result<(), ClientError>)
        requires
            old(client).wf(),
        ensures
            final(client).wf(),
            final(client)@ == self@.reported(old(client)@, json_model(*chunk), size_view(size)),
            fails_as(
                self@.report_failure(old(client)@, json_model(*chunk), size_view(size)),
                result,
            ),
    {
        if self.finished {
            return Err(
                ClientError::InvalidHelperParams("partial-result request has completed".to_owned()),
            );
        }
        client.progress(self.chunk_params(chunk), size)
    }
}

/// The call that a handler serves. `C` stands for a cancellation token.
pub struct ServerContext<C> {
    request_id: Option<RequestId>,
    cancellation: Option<C>,
    work_done_token: Option<ProgressToken>,
    partial_result_scope: Option<PartialResultScope>,
}

/// What a [`ServerContext`] holds.
#[verifier::ext_equal]
pub struct ContextView<C> {
    pub request_id: Option<RequestIdView>,
    pub cancellation: Option<C>,
    pub work_done_token: Option<ProgressTokenView>,
    pub scope: Option<ScopeView>,
}

/// A scope, as its view.
pub open spec fn scope_view(scope: Option<PartialResultScope>) -> Option<ScopeView> {
    match scope {
        Some(open) => Some(open@),
        None => None,
    }
}

impl<C> View for ServerContext<C> {
    type V = ContextView<C>;

    closed spec fn view(&self) -> ContextView<C> {
        ContextView {
            request_id: self.request_id.deep_view(),
            cancellation: self.cancellation,
            work_done_token: self.work_done_token.deep_view(),
            scope: scope_view(self.partial_result_scope),
        }
    }
}

impl<C> ContextView<C> {
    /// The context of a call that carries nothing beyond its ID.
    pub open spec fn bare(request_id: Option<RequestIdView>) -> Self {
        ContextView { request_id, cancellation: None, work_done_token: None, scope: None }
    }

    /// The scope that a sink for a method reports to.
    pub open spec fn sink(self, method: Seq<char>) -> Option<ScopeView> {
        match self.scope {
            Some(scope) => if scope.method == method {
                Some(scope)
            } else {
                None
            },
            None => None,
        }
    }
}

impl<C> ServerContext<C> {
    /// The context of a request.
    pub fn for_request(id: RequestId) -> (context: Self)
        ensures
            context@ == ContextView::<C>::bare(Some(id.deep_view())),
    {
        ServerContext {
            request_id: Some(id),
            cancellation: None,
            work_done_token: None,
            partial_result_scope: None,
        }
    }

    /// The context of a notification.
    pub fn for_notification() -> (context: Self)
        ensures
            context@ == ContextView::<C>::bare(None),
    {
        ServerContext {
            request_id: None,
            cancellation: None,
            work_done_token: None,
            partial_result_scope: None,
        }
    }

    /// Attach the request's cancellation token.
    pub fn with_cancellation(self, cancellation: C) -> (context: Self)
        ensures
            context@ == (ContextView { cancellation: Some(cancellation), ..self@ }),
    {
        ServerContext { cancellation: Some(cancellation), ..self }
    }

    /// Attach the token for progress on the request, if it came with one.
    pub fn with_work_done_token(self, token: Option<ProgressToken>) -> (context: Self)
        ensures
            context@ == (ContextView { work_done_token: token.deep_view(), ..self@ }),
    {
        ServerContext { work_done_token: token, ..self }
    }

    /// Attach the token for partial results, if the request came with one.
    pub fn with_partial_result(self, method: String, token: Option<ProgressToken>) -> (context:
        Self)
        ensures
            context@ == (ContextView {
                scope: match token {
                    Some(token) => Some(
                        ScopeView {
                            method: method@,
                            token: token.deep_view(),
                            finished: false,
                        },
                    ),
                    None => None,
                },
                ..self@
            }),
    {
        let partial_result_scope = match token {
            Some(token) => Some(PartialResultScope::new(method, token)),
            None => None,
        };
        ServerContext { partial_result_scope, ..self }
    }

    /// The scope of the request's partial results.
    pub fn partial_result_scope(&self) -> (scope: Option<&PartialResultScope>)
        ensures
            match scope {
                Some(open) => self@.scope == Some(open@),
                None => self@.scope is None,
            },
    {
        self.partial_result_scope.as_ref()
    }

    /// The request has completed: its partial results end.
    pub fn finish_partial_results(&mut self)
        ensures
            final(self)@ == (ContextView {
                scope: match old(self)@.scope {
                    Some(scope) => Some(ScopeView { finished: true, ..scope }),
                    None => None,
                },
                ..old(self)@
            }),
    {
        if let Some(scope) = &mut self.partial_result_scope {
            scope.finish();
        }
    }

    /// The request's cancellation token.
    pub fn cancellation(&self) -> (cancellation: Option<&C>)
        ensures
            match cancellation {
                Some(token) => self@.cancellation == Some(*token),
                None => self@.cancellation is None,
            },
    {
        self.cancellation.as_ref()
    }

    /// The JSON-RPC request ID, or `None` while handling a notification.
    pub fn request_id(&self) -> (id: Option<&RequestId>)
        ensures
            match id {
                Some(id) => self@.request_id == Some(id.deep_view()),
                None => self@.request_id is None,
            },
    {
        self.request_id.as_ref()
    }

    /// The parameters of `$/progress` with which progress on this inbound request
    /// begins, to be measured; none when the request carried no token.
    pub fn begin_params(&self, options: &ProgressOptions) -> (params: Option<
        Result<Vec<u8>, String>,
    >)
        ensures
            match (params, self@.work_done_token) {
                (Some(params), Some(token)) => params_view(params) == progress_params(
                    token,
                    begin_value(options@),
                ),
                (None, None) => true,
                _ => false,
            },
    {
        match &self.work_done_token {
            Some(token) => Some(begin_params(token, options)),
            None => None,
        }
    }

    /// Begin progress on the token supplied with this inbound request.
    ///
    /// Gives `Ok(None)` when the request carried no token, and sends nothing.
    /// Otherwise the begin notification is sent directly on that token, and the
    /// token is active from then on. `size` is that of the message's envelope.
    pub fn begin_progress<H, T>(
        &self,
        client: &mut ClientHandle<H, T>,
        options: &ProgressOptions,
        size: Result<usize, String>,
    ) -> (result: Result<Option<ProgressToken>, ClientError>)
        requires
            old(client).wf(),
        ensures
            final(client).wf(),
            match self@.work_done_token {
                None => final(client)@ == old(client)@ && result is Ok && result->Ok_0 is None,
                Some(token) => {
                    let params = progress_params(token, begin_value(options@));
                    let failure = old(client)@.notify_failure(params, size_view(size));
                    let sent = old(client)@.notified(
                        "$/progress"@,
                        params,
                        size_view(size),
                        DeliveryRequirement::Ordinary,
                    );
                    &&& fails_as(failure, result)
                    &&& result is Ok ==> result->Ok_0 is Some
                        && result->Ok_0->Some_0.deep_view() == token
                    &&& final(client)@ == if failure is Some {
                        sent
                    } else {
                        ClientView {
                            progress: sent.progress.insert(
                                token,
                                ProgressState {
                                    cancellable: options.cancellable,
                                    cancelled: false,
                                },
                            ),
                            ..sent
                        }
                    }
                },
            },
    {
        match &self.work_done_token {
            None => Ok(None),
            Some(token) => match client.progress(begin_params(token, options), size) {
                Ok(()) => {
                    client.register_progress(token.clone(), options.cancellable);
                    Ok(Some(token.clone()))
                },
                Err(error) => Err(error),
            },
        }
    }

    /// The sink for this request's partial results, when the client supplied a
    /// token and `method` is the request that is being handled.
    pub fn partial_results(&self, method: &str) -> (sink: Option<&PartialResultScope>)
        ensures
            match sink {
                Some(scope) => self@.sink(method@) == Some(scope@),
                None => self@.sink(method@) is None,
            },
    {
        match &self.partial_result_scope {
            Some(scope) => if same_text(scope.method(), method) {
                Some(scope)
            } else {
                None
            },
            None => None,
        }
    }

    /// Push diagnostics through the connection's client handle,
    /// fire-and-forget. A failed publish never invalidates the handler that
    /// triggered it.
    pub fn publish_diagnostics<H, T>(
        &self,
        client: &mut ClientHandle<H, T>,
        params: Result<Vec<u8>, String>,
        size: Result<usize, String>,
    ) -> (result: Result<(), ClientError>)
        requires
            old(client).wf(),
        ensures
            final(client).wf(),
            final(client)@ == old(client)@.notified(
                "textDocument/publishDiagnostics"@,
                params_view(params),
                size_view(size),
                DeliveryRequirement::Ordinary,
            ),
            fails_as(old(client)@.notify_failure(params_view(params), size_view(size)), result),
    {
        client.publish_diagnostics(params, size)
    }
}

/// A request without a token has no sink, whatever its method.
pub proof fn law_a_sink_requires_the_requests_token<C>(
    context: ContextView<C>,
    asked: Seq<char>,
)
    ensures
        (ContextView { scope: None, ..context }).sink(asked) is None,
        context.sink(asked) matches Some(scope) ==> scope.method == asked,
{
}

/// A late chunk is refused and changes nothing.
pub proof fn law_no_chunk_follows_completion<T>(
    scope: ScopeView,
    client: ClientView<T>,
    chunk: JsonModel,
    size: Result<usize, Seq<char>>,
)
    ensures
        ({
            let finished = ScopeView { finished: true, ..scope };
            &&& finished.report_failure(client, chunk, size) is Some
            &&& finished.reported(client, chunk, size) == client
        }),
{
}

} // verus!
