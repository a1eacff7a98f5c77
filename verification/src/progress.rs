//! The work-done progress that a connection reports on.
use vstd::prelude::*;
use vstd::utf8::encode_utf8;

use serde_json::Value;

use crate::client::params_view;
use crate::json::{encoded_json, json_model, JsonModel};
use crate::message::{ProgressToken, ProgressTokenView};
use crate::table::Table;

verus! {

/// How progress begins.
#[derive(Debug)]
pub struct ProgressOptions {
    /// What is being done.
    pub title: String,
    /// Whether the client may cancel it.
    pub cancellable: bool,
    /// What is being done at the moment.
    pub message: Option<String>,
    /// How much of it is done.
    pub percentage: Option<u32>,
}

/// What [`ProgressOptions`] say.
pub struct ProgressOptionsView {
    pub title: Seq<char>,
    pub cancellable: bool,
    pub message: Option<Seq<char>>,
    pub percentage: Option<u32>,
}

impl View for ProgressOptions {
    type V = ProgressOptionsView;

    open spec fn view(&self) -> ProgressOptionsView {
        ProgressOptionsView {
            title: self.title@,
            cancellable: self.cancellable,
            message: self.message.deep_view(),
            percentage: self.percentage,
        }
    }
}

/// An object with one entry more, where there is one.
pub open spec fn with_entry(
    entries: Map<Seq<char>, JsonModel>,
    key: Seq<char>,
    value: Option<JsonModel>,
) -> Map<Seq<char>, JsonModel> {
    match value {
        Some(value) => entries.insert(key, value),
        None => entries,
    }
}

/// The value that progress begins with.
pub open spec fn begin_value(options: ProgressOptionsView) -> JsonModel {
    let entries = map![
        "kind"@ => JsonModel::Text("begin"@),
        "title"@ => JsonModel::Text(options.title),
        "cancellable"@ => JsonModel::Bool(options.cancellable),
    ];
    let message = match options.message {
        Some(text) => Some(JsonModel::Text(text)),
        None => None,
    };
    let percentage = match options.percentage {
        Some(percentage) => Some(JsonModel::Integer(percentage as int)),
        None => None,
    };
    JsonModel::Object(
        with_entry(with_entry(entries, "message"@, message), "percentage"@, percentage),
    )
}

/// `serde_json::to_value` of `gen_lsp_types::WorkDoneProgressBegin`: an object
/// with its kind, its title, whether it may be cancelled, and the message and the
/// percentage where they are given. Texts, numbers and truth values are always
/// encoded.
#[verifier::external_body]
fn encode_begin(options: &ProgressOptions) -> (value: Value)
    ensures
        json_model(value) == begin_value(options@),
{
    serde_json::to_value(
        gen_lsp_types::WorkDoneProgressBegin {
            title: options.title.clone(),
            cancellable: Some(options.cancellable),
            message: options.message.clone(),
            percentage: options.percentage,
        },
    ).expect("texts, numbers and truth values are encoded")
}

/// A token as JSON.
pub open spec fn token_json(token: ProgressTokenView) -> JsonModel {
    match token {
        ProgressTokenView::Int(number) => JsonModel::Integer(number as int),
        ProgressTokenView::String(text) => JsonModel::Text(text),
    }
}

/// The parameters of `$/progress`: an object with a token and a value, or why
/// they are not encoded.
pub open spec fn progress_params(token: ProgressTokenView, value: JsonModel) -> Result<
    Seq<u8>,
    Seq<char>,
> {
    match (encoded_json(token_json(token)), encoded_json(value)) {
        (Ok(token), Ok(value)) => Ok(
            encode_utf8("{\"token\":"@) + token + encode_utf8(",\"value\":"@) + value
                + encode_utf8("}"@),
        ),
        (Err(error), _) => Err(error),
        (_, Err(error)) => Err(error),
    }
}

/// `serde_json::to_vec` of `gen_lsp_types::ProgressParams`: an object with the
/// token and the value in this order, each encoded as it would be alone.
#[verifier::external_body]
pub(crate) fn encode_progress(token: &ProgressToken, value: &Value) -> (params: Result<Vec<u8>, String>)
    ensures
        match params {
            Ok(body) => progress_params(token.deep_view(), json_model(*value)) == Ok::<
                Seq<u8>,
                Seq<char>,
            >(body@),
            Err(error) => progress_params(token.deep_view(), json_model(*value)) == Err::<
                Seq<u8>,
                Seq<char>,
            >(error@),
        },
{
    let token = match token {
        ProgressToken::Int(number) => gen_lsp_types::ProgressToken::Int(*number),
        ProgressToken::String(text) => gen_lsp_types::ProgressToken::String(text.clone()),
    };
    serde_json::to_vec(&gen_lsp_types::ProgressParams { token, value: value.clone() })
        .map_err(|error| error.to_string())
}

/// The parameters of `$/progress` with which progress begins under a token.
pub fn begin_params(token: &ProgressToken, options: &ProgressOptions) -> (params: Result<
    Vec<u8>,
    String,
>)
    ensures
        params_view(params) == progress_params(token.deep_view(), begin_value(options@)),
{
    let value = encode_begin(options);
    encode_progress(token, &value)
}

/// What became of a request to cancel progress.
#[derive(Debug, Clone, Copy, PartialEq, Eq, Structural)]
pub enum ProgressCancel {
    /// The progress was told to stop.
    Cancelled,
    /// The progress is active, and cannot be cancelled.
    NotCancellable,
    /// No progress is active under the token.
    NotActive,
}

/// The state of active progress.
#[derive(Debug, Clone, Copy, PartialEq, Eq, Structural)]
pub struct ProgressState {
    /// Whether the client may cancel it.
    pub cancellable: bool,
    /// Whether the client has cancelled it.
    pub cancelled: bool,
}

/// The active work-done progress of a connection, by its token.
pub struct ProgressRegistry {
    active: Table<ProgressToken, ProgressState>,
}

impl View for ProgressRegistry {
    type V = Map<ProgressTokenView, ProgressState>;

    closed spec fn view(&self) -> Map<ProgressTokenView, ProgressState> {
        self.active@
    }
}

/// What cancelling progress comes to.
pub open spec fn cancel_outcome(
    active: Map<ProgressTokenView, ProgressState>,
    token: ProgressTokenView,
) -> ProgressCancel {
    if !active.dom().contains(token) {
        ProgressCancel::NotActive
    } else if active[token].cancellable {
        ProgressCancel::Cancelled
    } else {
        ProgressCancel::NotCancellable
    }
}

/// The active progress after a request to cancel one: only a matching
/// cancellable token is marked, and none is ended.
pub open spec fn after_cancel(
    active: Map<ProgressTokenView, ProgressState>,
    token: ProgressTokenView,
) -> Map<ProgressTokenView, ProgressState> {
    if cancel_outcome(active, token) == ProgressCancel::Cancelled {
        active.insert(token, ProgressState { cancelled: true, ..active[token] })
    } else {
        active
    }
}

impl ProgressRegistry {
    /// No progress.
    pub fn new() -> (registry: Self)
        ensures
            registry@ == Map::<ProgressTokenView, ProgressState>::empty(),
    {
        ProgressRegistry { active: Table::new() }
    }

    /// Begin progress under a token.
    pub fn register(&mut self, token: ProgressToken, cancellable: bool)
        ensures
            final(self)@ == old(self)@.insert(
                token.deep_view(),
                ProgressState { cancellable, cancelled: false },
            ),
    {
        self.active.insert(token, ProgressState { cancellable, cancelled: false });
    }

    /// End the progress under a token, if it is active.
    pub fn end(&mut self, token: &ProgressToken) -> (was_active: bool)
        ensures
            was_active == old(self)@.dom().contains(token.deep_view()),
            final(self)@ == old(self)@.remove(token.deep_view()),
    {
        let removed = self.active.remove(token);
        assert(removed is None ==> old(self)@.remove(token.deep_view()) =~= old(self)@);
        removed.is_some()
    }

    /// Tell the progress under a token to stop. Cancellation never ends the
    /// progress: the application decides the final message.
    pub fn cancel(&mut self, token: &ProgressToken) -> (outcome: ProgressCancel)
        ensures
            outcome == cancel_outcome(old(self)@, token.deep_view()),
            final(self)@ == after_cancel(old(self)@, token.deep_view()),
    {
        match self.active.get(token) {
            None => ProgressCancel::NotActive,
            Some(state) => {
                if state.cancellable {
                    self.active.insert(
                        token.clone(),
                        ProgressState { cancellable: true, cancelled: true },
                    );
                    ProgressCancel::Cancelled
                } else {
                    ProgressCancel::NotCancellable
                }
            },
        }
    }

    /// Whether progress is active under a token.
    pub fn is_active(&self, token: &ProgressToken) -> (active: bool)
        ensures
            active == self@.dom().contains(token.deep_view()),
    {
        self.active.contains_key(token)
    }

    /// Whether the progress under a token was told to stop.
    pub fn is_cancelled(&self, token: &ProgressToken) -> (cancelled: bool)
        ensures
            cancelled == (self@.dom().contains(token.deep_view())
                && self@[token.deep_view()].cancelled),
    {
        match self.active.get(token) {
            Some(state) => state.cancelled,
            None => false,
        }
    }

    /// End all progress.
    pub fn clear(&mut self)
        ensures
            final(self)@ == Map::<ProgressTokenView, ProgressState>::empty(),
    {
        self.active = Table::new();
    }
}

/// Cancelling never ends progress: exactly the same tokens are active
/// afterwards, and only the named one can have changed.
pub proof fn law_cancelling_never_ends_progress(
    active: Map<ProgressTokenView, ProgressState>,
    token: ProgressTokenView,
)
    ensures
        after_cancel(active, token).dom() == active.dom(),
        forall|other: ProgressTokenView|
            other != token && active.dom().contains(other) ==> #[trigger] after_cancel(
                active,
                token,
            )[other] == active[other],
        cancel_outcome(active, token) == ProgressCancel::Cancelled ==> after_cancel(
            active,
            token,
        )[token].cancelled,
{
    assert(after_cancel(active, token).dom() =~= active.dom());
}

} // verus!
