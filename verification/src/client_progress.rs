//! Client-side work-done progress token validation and ordered delivery.
use vstd::prelude::*;

use serde_json::Value;

use crate::json::{json_entry, json_get, json_model, json_text, JsonModel};
use crate::message::{ProgressToken, ProgressTokenView};
use crate::table::Table;
use crate::text::same_text;

verus! {

/// One link in a per-token FIFO established synchronously during dispatch: the
/// end of the previous delivery to wait for, and the signal that this one is
/// done. `W` stands for what is waited for, and `D` for the signal.
#[derive(Debug)]
pub struct ProgressDelivery<D, W> {
    /// The end of the previous delivery.
    pub previous: Option<W>,
    /// The signal of this one's end; the last delivery has none.
    pub done: Option<D>,
}

/// Whether a completed `window/workDoneProgress/create` handler established
/// its reserved token.
#[derive(Debug, Clone, Copy, PartialEq, Eq, Structural)]
pub enum CreateOutcome {
    Succeeded,
    Failed,
}

/// How far progress has come.
#[derive(Debug, Clone, Copy, PartialEq, Eq, Structural)]
pub enum ProgressPhase {
    /// Its creation is being handled.
    Creating,
    /// It may begin.
    Created,
    /// It has begun.
    Begun,
}

/// Progress under a token.
pub struct ProgressEntry<W> {
    /// How far it has come.
    pub phase: ProgressPhase,
    /// The end of the delivery queued last.
    pub tail: Option<W>,
}

/// Connection-local work-done progress tokens created by the server or
/// supplied by the client in an outgoing request.
///
/// State transitions happen in receive order. The per-token delivery tail
/// also preserves that order while handlers await nested server calls and the
/// connection read loop continues processing their responses.
pub struct ClientProgressRegistry<W> {
    entries: Table<ProgressToken, ProgressEntry<W>>,
}

impl<W> View for ClientProgressRegistry<W> {
    type V = Map<ProgressTokenView, ProgressEntry<W>>;

    closed spec fn view(&self) -> Map<ProgressTokenView, ProgressEntry<W>> {
        self.entries@
    }
}

/// What a progress value says of itself.
pub open spec fn progress_kind(value: JsonModel) -> Option<Seq<char>> {
    match json_entry(value, "kind"@) {
        Some(JsonModel::Text(kind)) => Some(kind),
        _ => None,
    }
}

/// A step of progress.
#[derive(Debug, Clone, Copy, PartialEq, Eq, Structural)]
pub enum ProgressMove {
    Begin,
    Report,
    End,
}

/// The step that a progress value makes.
pub open spec fn progress_move(value: JsonModel) -> Option<ProgressMove> {
    match progress_kind(value) {
        Some(kind) => if kind == "begin"@ {
            Some(ProgressMove::Begin)
        } else if kind == "report"@ {
            Some(ProgressMove::Report)
        } else if kind == "end"@ {
            Some(ProgressMove::End)
        } else {
            None
        },
        None => None,
    }
}

/// Whether a step is valid in a phase: progress begins once, after it was
/// created, and reports and ends only after it has begun.
pub open spec fn permits_move(phase: ProgressPhase, step: ProgressMove) -> bool {
    match step {
        ProgressMove::Begin => phase == ProgressPhase::Created,
        ProgressMove::Report => phase == ProgressPhase::Begun,
        ProgressMove::End => phase == ProgressPhase::Begun,
    }
}

/// Whether a step is accepted under a token.
pub open spec fn accepts_move<W>(
    entries: Map<ProgressTokenView, ProgressEntry<W>>,
    token: ProgressTokenView,
    step: Option<ProgressMove>,
) -> bool {
    &&& step is Some
    &&& entries.dom().contains(token)
    &&& permits_move(entries[token].phase, step->0)
}

/// The tokens after a step: an accepted one queues its delivery behind the
/// previous, and the end takes the token away.
pub open spec fn after_move<W>(
    entries: Map<ProgressTokenView, ProgressEntry<W>>,
    token: ProgressTokenView,
    step: Option<ProgressMove>,
    tail: W,
) -> Map<ProgressTokenView, ProgressEntry<W>> {
    if !accepts_move(entries, token, step) {
        entries
    } else if step == Some(ProgressMove::End) {
        entries.remove(token)
    } else {
        entries.insert(token, ProgressEntry { phase: ProgressPhase::Begun, tail: Some(tail) })
    }
}

/// The tokens after the handling of a creation has ended.
pub open spec fn after_create<W>(
    entries: Map<ProgressTokenView, ProgressEntry<W>>,
    token: ProgressTokenView,
    outcome: CreateOutcome,
) -> Map<ProgressTokenView, ProgressEntry<W>> {
    if !entries.dom().contains(token) || entries[token].phase != ProgressPhase::Creating {
        entries
    } else {
        match outcome {
            CreateOutcome::Succeeded => entries.insert(
                token,
                ProgressEntry { phase: ProgressPhase::Created, ..entries[token] },
            ),
            CreateOutcome::Failed => entries.remove(token),
        }
    }
}

/// The step that a progress value makes.
fn move_of(value: &Value) -> (step: Option<ProgressMove>)
    ensures
        step == progress_move(json_model(*value)),
{
    let kind = match json_get(value, "kind") {
        Some(kind) => kind,
        None => return None,
    };
    match json_text(kind) {
        Some(kind) => if same_text(kind, "begin") {
            Some(ProgressMove::Begin)
        } else if same_text(kind, "report") {
            Some(ProgressMove::Report)
        } else if same_text(kind, "end") {
            Some(ProgressMove::End)
        } else {
            None
        },
        None => None,
    }
}

impl<W> ClientProgressRegistry<W> {
    /// No tokens.
    pub fn new() -> (registry: Self)
        ensures
            registry@ == Map::<ProgressTokenView, ProgressEntry<W>>::empty(),
    {
        ClientProgressRegistry { entries: Table::new() }
    }

    /// Reserve the token of a creation that is about to be handled.
    pub fn try_reserve_create(&mut self, token: ProgressToken) -> (reserved: bool)
        ensures
            inserted_as(
                old(self)@,
                final(self)@,
                token.deep_view(),
                ProgressPhase::Creating,
                reserved,
            ),
    {
        self.try_insert(token, ProgressPhase::Creating)
    }

    /// Register the token of an outgoing request.
    pub fn try_register_request(&mut self, token: ProgressToken) -> (registered: bool)
        ensures
            inserted_as(
                old(self)@,
                final(self)@,
                token.deep_view(),
                ProgressPhase::Created,
                registered,
            ),
    {
        self.try_insert(token, ProgressPhase::Created)
    }

    fn try_insert(&mut self, token: ProgressToken, phase: ProgressPhase) -> (inserted: bool)
        ensures
            inserted_as(old(self)@, final(self)@, token.deep_view(), phase, inserted),
    {
        if self.entries.contains_key(&token) {
            return false;
        }
        self.entries.insert(token, ProgressEntry { phase, tail: None });
        true
    }

    /// Forget a token.
    pub fn remove(&mut self, token: &ProgressToken)
        ensures
            final(self)@ == old(self)@.remove(token.deep_view()),
    {
        let removed = self.entries.remove(token);
        assert(removed is None ==> old(self)@.remove(token.deep_view()) =~= old(self)@);
    }

    /// End the handling of a creation: a success establishes the reserved token,
    /// and a failure gives it up.
    pub fn finish_create(&mut self, token: &ProgressToken, outcome: CreateOutcome)
        ensures
            final(self)@ == after_create(old(self)@, token.deep_view(), outcome),
    {
        let creating = match self.entries.get(token) {
            Some(entry) => entry.phase == ProgressPhase::Creating,
            None => false,
        };
        if !creating {
            return;
        }
        if let Some(entry) = self.entries.remove(token) {
            if outcome == CreateOutcome::Succeeded {
                self.entries.insert(
                    token.clone(),
                    ProgressEntry { phase: ProgressPhase::Created, tail: entry.tail },
                );
                assert(self@ =~= after_create(old(self)@, token.deep_view(), outcome));
            }
        }
    }

    /// Take one progress notification: its delivery, if its step is valid for a
    /// token of this connection.
    ///
    /// `done` and `tail` are the two ends of a fresh signal; the next delivery
    /// under the token waits for it.
    pub fn accept<D>(&mut self, token: &ProgressToken, value: &Value, done: D, tail: W) -> (
    delivery: Option<ProgressDelivery<D, W>>)
        ensures
            final(self)@ == after_move(
                old(self)@,
                token.deep_view(),
                progress_move(json_model(*value)),
                tail,
            ),
            delivered_as(
                old(self)@,
                token.deep_view(),
                progress_move(json_model(*value)),
                done,
                delivery,
            ),
    {
        let step = match move_of(value) {
            Some(step) => step,
            None => return None,
        };
        let permitted = match self.entries.get(token) {
            Some(entry) => match step {
                ProgressMove::Begin => entry.phase == ProgressPhase::Created,
                ProgressMove::Report | ProgressMove::End => entry.phase == ProgressPhase::Begun,
            },
            None => false,
        };
        if !permitted {
            return None;
        }
        match self.entries.remove(token) {
            Some(entry) => {
                if step == ProgressMove::End {
                    return Some(ProgressDelivery { previous: entry.tail, done: None });
                }
                self.entries.insert(
                    token.clone(),
                    ProgressEntry { phase: ProgressPhase::Begun, tail: Some(tail) },
                );
                proof {
                    assert(self@ =~= after_move(
                        old(self)@,
                        token.deep_view(),
                        progress_move(json_model(*value)),
                        tail,
                    ));
                }
                Some(ProgressDelivery { previous: entry.tail, done: Some(done) })
            },
            None => None,
        }
    }
}

/// A token was inserted in a phase, unless it was there.
pub open spec fn inserted_as<W>(
    before: Map<ProgressTokenView, ProgressEntry<W>>,
    after: Map<ProgressTokenView, ProgressEntry<W>>,
    token: ProgressTokenView,
    phase: ProgressPhase,
    inserted: bool,
) -> bool {
    &&& inserted == !before.dom().contains(token)
    &&& after == if inserted {
        before.insert(token, ProgressEntry { phase, tail: None })
    } else {
        before
    }
}

/// A step was delivered behind the one before it, or not at all.
pub open spec fn delivered_as<D, W>(
    before: Map<ProgressTokenView, ProgressEntry<W>>,
    token: ProgressTokenView,
    step: Option<ProgressMove>,
    done: D,
    delivery: Option<ProgressDelivery<D, W>>,
) -> bool {
    match delivery {
        Some(link) => {
            &&& accepts_move(before, token, step)
            &&& link.previous == before[token].tail
            &&& link.done == if step == Some(ProgressMove::End) {
                None
            } else {
                Some(done)
            }
        },
        None => !accepts_move(before, token, step),
    }
}

/// Progress begins once, reports while it runs, and ends once: after its end
/// nothing is accepted under the token, and before its beginning neither a report
/// nor an end is.
pub proof fn law_progress_begins_reports_and_ends_in_order<W>(
    entries: Map<ProgressTokenView, ProgressEntry<W>>,
    token: ProgressTokenView,
    step: Option<ProgressMove>,
    later: Option<ProgressMove>,
    tail: W,
)
    requires
        accepts_move(entries, token, step),
    ensures
        ({
            let after = after_move(entries, token, step, tail);
            &&& step == Some(ProgressMove::End) ==> !accepts_move(after, token, later)
            &&& step != Some(ProgressMove::End) ==> !accepts_move(
                after,
                token,
                Some(ProgressMove::Begin),
            )
            &&& step != Some(ProgressMove::End) ==> accepts_move(
                after,
                token,
                Some(ProgressMove::Report),
            ) && accepts_move(after, token, Some(ProgressMove::End))
            &&& entries[token].phase == ProgressPhase::Created ==> step == Some(
                ProgressMove::Begin,
            )
            &&& entries[token].phase != ProgressPhase::Creating
        }),
{
}

/// Deliveries under a token form one queue: each waits for the one accepted just
/// before it.
pub proof fn law_deliveries_wait_for_their_predecessor<D, W>(
    entries: Map<ProgressTokenView, ProgressEntry<W>>,
    token: ProgressTokenView,
    first: Option<ProgressMove>,
    second: Option<ProgressMove>,
    tail: W,
    done: D,
    delivery: Option<ProgressDelivery<D, W>>,
)
    requires
        accepts_move(entries, token, first),
        first != Some(ProgressMove::End),
        accepts_move(after_move(entries, token, first, tail), token, second),
        delivered_as(after_move(entries, token, first, tail), token, second, done, delivery),
    ensures
        delivery is Some,
        delivery->0.previous == Some(tail),
{
}

/// Steps under one token leave every other token alone.
pub proof fn law_tokens_are_independent<W>(
    entries: Map<ProgressTokenView, ProgressEntry<W>>,
    token: ProgressTokenView,
    other: ProgressTokenView,
    step: Option<ProgressMove>,
    tail: W,
    outcome: CreateOutcome,
)
    requires
        other != token,
    ensures
        after_move(entries, token, step, tail).dom().contains(other) == entries.dom().contains(
            other,
        ),
        entries.dom().contains(other) ==> after_move(entries, token, step, tail)[other]
            == entries[other],
        entries.dom().contains(other) ==> after_create(entries, token, outcome)[other]
            == entries[other],
{
}

} // verus!
