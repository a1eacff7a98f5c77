//! What a connection has sent and still waits for: the registry of pending
//! outbound requests, and the bounded queue of outgoing messages.
use vstd::prelude::*;
use vstd::std_specs::iter::IteratorSpec;

use std::collections::HashMap;

use crate::failure::{
    ConnectionDirection, ConnectionFailure, ConnectionFailureCategory, FailureReporter, FailureView,
    ReporterView,
};
use crate::message::{result_view, JsonRpcError, JsonRpcErrorView, MessageView, RawMessage};

verus! {

/// The last outbound request ID that fits a positive 32-bit integer.
pub const LAST_OUTBOUND_ID: u32 = 0x7fff_ffff;

/// What a pending outbound request eventually resolves to.
#[derive(Debug)]
pub enum PendingOutcome {
    /// The peer answered, either with raw success bytes or a JSON-RPC error.
    Response(Result<Vec<u8>, JsonRpcError>),
    /// The session closed before the peer answered.
    Cancelled,
}

/// What a [`PendingOutcome`] says.
pub enum OutcomeView {
    Response(Result<Seq<u8>, JsonRpcErrorView>),
    Cancelled,
}

impl View for PendingOutcome {
    type V = OutcomeView;

    open spec fn view(&self) -> OutcomeView {
        match *self {
            PendingOutcome::Response(result) => OutcomeView::Response(result_view(result)),
            PendingOutcome::Cancelled => OutcomeView::Cancelled,
        }
    }
}

/// The outcome of a pending request, on its way to whoever waits for it.
#[derive(Debug)]
pub struct Delivery<T> {
    /// Who waits.
    pub waiter: T,
    /// What came of the request.
    pub outcome: PendingOutcome,
}

/// Outcome of allocating a new pending outbound-request entry.
#[derive(Debug, Clone, Copy, PartialEq, Eq, Structural)]
pub enum InsertOutcome {
    /// The entry was created under an ID; the caller should enqueue the request
    /// and await its outcome.
    Inserted(u32),
    /// The registry has been closed and no longer accepts new pending entries.
    Closed,
    /// The positive ID space is exhausted.
    Exhausted,
}

/// The outbound pending-request registry and ID allocator of one connection.
///
/// An entry is created before the request is enqueued and completed when the
/// response arrives or the session closes. `T` stands for whoever waits.
pub struct OutboundRegistry<T> {
    /// Pending requests keyed by their outbound ID.
    pending: HashMap<u32, T>,
    /// The next ID to allocate; it only ever grows.
    next_id: u32,
    /// Set by [`close_all`](Self::close_all). Once set, no entry is created: a
    /// handler that starts a new outbound request after the registry has been
    /// drained fails fast instead of waiting for an answer that cannot come.
    closed: bool,
}

/// What an [`OutboundRegistry`] holds.
#[verifier::ext_equal]
pub struct RegistryView<T> {
    pub pending: Map<u32, T>,
    pub next_id: u32,
    pub closed: bool,
}

impl<T> RegistryView<T> {
    /// An open registry with nothing pending.
    pub open spec fn fresh() -> Self {
        RegistryView { pending: Map::empty(), next_id: 1, closed: false }
    }

    /// Every pending request has a positive ID that was allocated.
    pub open spec fn allocated(self) -> bool {
        &&& 1 <= self.next_id <= LAST_OUTBOUND_ID + 1
        &&& forall|id: u32| #[trigger]
            self.pending.dom().contains(id) ==> 1 <= id < self.next_id
    }

    /// What comes of creating an entry.
    pub open spec fn insert_outcome(self) -> InsertOutcome {
        if self.closed {
            InsertOutcome::Closed
        } else if self.next_id > LAST_OUTBOUND_ID {
            InsertOutcome::Exhausted
        } else {
            InsertOutcome::Inserted(self.next_id)
        }
    }

    /// The registry after an entry is created, or refused.
    pub open spec fn inserted(self, waiter: T) -> Self {
        match self.insert_outcome() {
            InsertOutcome::Inserted(id) => RegistryView {
                pending: self.pending.insert(id, waiter),
                next_id: (id + 1) as u32,
                ..self
            },
            _ => self,
        }
    }

    /// The registry after an entry is taken out, if it is there.
    pub open spec fn removed(self, id: u32) -> Self {
        RegistryView { pending: self.pending.remove(id), ..self }
    }

    /// The registry after it is drained and closed.
    pub open spec fn drained(self) -> Self {
        RegistryView { pending: Map::empty(), closed: true, ..self }
    }
}

impl<T> View for OutboundRegistry<T> {
    type V = RegistryView<T>;

    closed spec fn view(&self) -> RegistryView<T> {
        RegistryView {
            pending: self.pending@,
            next_id: self.next_id,
            closed: self.closed,
        }
    }
}

/// Deliveries that resolve every pending entry once, as cancelled.
pub open spec fn cancels_every<T>(pending: Map<u32, T>, deliveries: Seq<Delivery<T>>) -> bool {
    exists|ids: Seq<u32>|
        {
            &&& ids.no_duplicates()
            &&& #[trigger] ids.to_set() == pending.dom()
            &&& deliveries.len() == ids.len()
            &&& forall|i: int|
                0 <= i < deliveries.len() ==> (#[trigger] deliveries[i]).waiter == pending[ids[i]]
                    && deliveries[i].outcome@ == OutcomeView::Cancelled
        }
}

impl<T> OutboundRegistry<T> {
    #[verifier::type_invariant]
    closed spec fn type_inv(self) -> bool {
        &&& 1 <= self.next_id <= LAST_OUTBOUND_ID + 1
        &&& forall|id: u32| #[trigger]
            self.pending@.dom().contains(id) ==> 1 <= id < self.next_id
    }

    /// An open registry with nothing pending.
    pub fn new() -> (registry: Self)
        ensures
            registry@ == RegistryView::<T>::fresh(),
            registry@.allocated(),
    {
        OutboundRegistry { pending: HashMap::new(), next_id: 1, closed: false }
    }

    /// Allocate the next outbound request ID (starting at 1) and store who waits
    /// for it.
    ///
    /// IDs are allocated monotonically and never reused, so a response for an
    /// abandoned request can never complete a later request. Once the positive
    /// ID space is exhausted, or [`close_all`](Self::close_all) has run, no entry
    /// is created.
    pub fn insert(&mut self, waiter: T) -> (outcome: InsertOutcome)
        ensures
            outcome == old(self)@.insert_outcome(),
            final(self)@ == old(self)@.inserted(waiter),
            old(self)@.allocated(),
            final(self)@.allocated(),
    {
        proof {
            use_type_invariant(&*self);
        }
        if self.closed {
            return InsertOutcome::Closed;
        }
        let id = self.next_id;
        if id > LAST_OUTBOUND_ID {
            return InsertOutcome::Exhausted;
        }
        self.next_id = id + 1;
        let mut pending: HashMap<u32, T> = HashMap::new();
        core::mem::swap(&mut pending, &mut self.pending);
        pending.insert(id, waiter);
        self.pending = pending;
        InsertOutcome::Inserted(id)
    }

    /// Remove and complete the pending entry for `id` with `result`.
    ///
    /// If no entry exists (unknown, duplicate, or late response), nothing is
    /// delivered and all other entries stay intact.
    pub fn complete(&mut self, id: u32, result: Result<Vec<u8>, JsonRpcError>) -> (delivery: Option<
        Delivery<T>,
    >)
        ensures
            final(self)@ == old(self)@.removed(id),
            final(self)@.allocated(),
            match delivery {
                Some(found) => {
                    &&& old(self)@.pending.dom().contains(id)
                    &&& found.waiter == old(self)@.pending[id]
                    &&& found.outcome@ == OutcomeView::Response(result_view(result))
                },
                None => !old(self)@.pending.dom().contains(id),
            },
    {
        match self.remove(id) {
            Some(waiter) => Some(Delivery { waiter, outcome: PendingOutcome::Response(result) }),
            None => None,
        }
    }

    /// Roll back the pending entry for `id`.
    ///
    /// Used when encoding or enqueue fails immediately after
    /// [`insert`](Self::insert), and on abandonment.
    pub fn remove(&mut self, id: u32) -> (waiter: Option<T>)
        ensures
            final(self)@ == old(self)@.removed(id),
            final(self)@.allocated(),
            match waiter {
                Some(found) => old(self)@.pending.dom().contains(id) && found == old(
                    self,
                )@.pending[id],
                None => !old(self)@.pending.dom().contains(id),
            },
    {
        proof {
            use_type_invariant(&*self);
        }
        let mut pending: HashMap<u32, T> = HashMap::new();
        core::mem::swap(&mut pending, &mut self.pending);
        let ghost before = pending@;
        let waiter = pending.remove(&id);
        proof {
            assert(pending@ =~= before.remove(id));
            assert forall|other: u32| #[trigger] pending@.dom().contains(other) implies 1 <= other
                < self.next_id by {
                assert(before.dom().contains(other));
            }
        }
        self.pending = pending;
        waiter
    }

    /// Complete every remaining pending entry as cancelled, clear the registry,
    /// and permanently close it to new entries.
    pub fn close_all(&mut self) -> (deliveries: Vec<Delivery<T>>)
        ensures
            final(self)@ == old(self)@.drained(),
            final(self)@.allocated(),
            cancels_every(old(self)@.pending, deliveries@),
    {
        proof {
            use_type_invariant(&*self);
        }
        self.closed = true;
        let mut pending: HashMap<u32, T> = HashMap::new();
        core::mem::swap(&mut pending, &mut self.pending);
        let ghost before = pending@;
        let ghost all = pending.keys().remaining().unref();
        let mut ids: Vec<u32> = Vec::new();
        for id in it: pending.keys()
            invariant
                it.seq().unref() == all,
                ids@ =~= all.take(it.index() as int),
        {
            ids.push(*id);
        }
        proof {
            assert(ids@ =~= all);
            let listed = pending.keys().remaining();
            assert forall|i: int, j: int|
                0 <= i < all.len() && 0 <= j < all.len() && i != j implies all[i] != all[j] by {
                assert(listed[i] != listed[j]);
            }
        }
        let mut deliveries: Vec<Delivery<T>> = Vec::new();
        for id in it: ids
            invariant
                it.seq() == all,
                all.no_duplicates(),
                all.to_set() == before.dom(),
                pending@ == before.remove_keys(all.take(it.index() as int).to_set()),
                deliveries@.len() == it.index(),
                forall|i: int|
                    0 <= i < deliveries@.len() ==> (#[trigger] deliveries@[i]).waiter
                        == before[all[i]] && deliveries@[i].outcome@ == OutcomeView::Cancelled,
        {
            let ghost i = it.index() as int;
            proof {
                assert(all[i] == id);
                assert(all.to_set().contains(id));
                let taken = all.take(i);
                if taken.to_set().contains(id) {
                    let j = taken.index_of(id);
                    assert(all[j] == all[i]);
                }
                assert(pending@.dom().contains(id));
                assert(all.take(i + 1) =~= taken.push(id));
                taken.lemma_push_to_set_commute(id);
                assert(all.take(i + 1).to_set() =~= taken.to_set().insert(id));
                assert(pending@.remove(id) =~= before.remove_keys(all.take(i + 1).to_set()));
            }
            if let Some(waiter) = pending.remove(&id) {
                deliveries.push(Delivery { waiter, outcome: PendingOutcome::Cancelled });
            }
        }
        assert(cancels_every(before, deliveries@)) by {
            assert(all.to_set() == before.dom());
        }
        deliveries
    }

    /// Skip ahead to an ID.
    pub fn set_next_id(&mut self, id: u32)
        requires
            old(self)@.next_id <= id <= LAST_OUTBOUND_ID + 1,
        ensures
            final(self)@ == (RegistryView { next_id: id, ..old(self)@ }),
    {
        proof {
            use_type_invariant(&*self);
        }
        self.next_id = id;
    }

    /// Number of entries currently pending.
    pub fn pending_len(&self) -> (n: usize)
        ensures
            n == self@.pending.len(),
    {
        self.pending.len()
    }
}

/// IDs are never reused: an allocated ID is none that is pending, and none that
/// was allocated before; every operation keeps the next one or moves it on.
pub proof fn law_outbound_ids_are_never_reused<T>(
    registry: RegistryView<T>,
    waiter: T,
    id: u32,
)
    requires
        registry.allocated(),
    ensures
        registry.inserted(waiter).allocated(),
        registry.removed(id).allocated(),
        registry.drained().allocated(),
        registry.insert_outcome() matches InsertOutcome::Inserted(fresh) ==> {
            &&& !registry.pending.dom().contains(fresh)
            &&& fresh == registry.next_id
            &&& registry.inserted(waiter).next_id > fresh
        },
        registry.inserted(waiter).next_id >= registry.next_id,
        registry.removed(id).next_id == registry.next_id,
        registry.drained().next_id == registry.next_id,
{
}

/// A request is completed at most once: once its entry is out, another response
/// finds none, and no other entry is touched.
pub proof fn law_a_request_completes_at_most_once<T>(
    registry: RegistryView<T>,
    id: u32,
    other: u32,
)
    ensures
        !registry.removed(id).pending.dom().contains(id),
        registry.removed(id).removed(id) == registry.removed(id),
        other != id ==> registry.removed(id).pending.dom().contains(other)
            == registry.pending.dom().contains(other),
        other != id && registry.pending.dom().contains(other) ==> registry.removed(
            id,
        ).pending[other] == registry.pending[other],
{
    assert(registry.removed(id).removed(id) =~= registry.removed(id));
}

/// After the drain nothing is pending and nothing becomes pending.
pub proof fn law_a_drained_registry_stays_empty<T>(registry: RegistryView<T>, waiter: T, id: u32)
    ensures
        registry.drained().pending == Map::<u32, T>::empty(),
        registry.drained().insert_outcome() == InsertOutcome::Closed,
        registry.drained().inserted(waiter) == registry.drained(),
        registry.drained().removed(id) == registry.drained(),
{
    assert(registry.drained().removed(id) =~= registry.drained());
}

/// Why a message was not enqueued.
#[derive(Debug)]
pub enum OutboundSendError {
    /// It would exceed the message or the byte budget.
    Overloaded,
    /// The writer is gone.
    Closed,
    /// Its envelope could not be encoded.
    Serialize(String),
}

/// What an [`OutboundSendError`] says.
pub enum SendErrorView {
    Overloaded,
    Closed,
    Serialize(Seq<char>),
}

impl View for OutboundSendError {
    type V = SendErrorView;

    open spec fn view(&self) -> SendErrorView {
        match *self {
            OutboundSendError::Overloaded => SendErrorView::Overloaded,
            OutboundSendError::Closed => SendErrorView::Closed,
            OutboundSendError::Serialize(text) => SendErrorView::Serialize(text@),
        }
    }
}

/// Whether a message may be given up when it does not fit.
#[derive(Debug, Clone, Copy, PartialEq, Eq, Structural)]
pub enum DeliveryRequirement {
    /// The sender is told, and goes on.
    Ordinary,
    /// The connection cannot go on without it.
    Required,
}

/// What the queue observed when it took a message.
#[derive(Debug, Clone, Copy, PartialEq, Eq, Structural)]
pub struct QueueNote {
    /// The depth with the message.
    pub depth: usize,
    /// Whether the depth has just crossed the warning threshold.
    pub warn: bool,
}

/// The outbound queue of one connection. Admission bounds both retained message
/// count and exact encoded JSON-RPC envelope bytes. Every successful
/// [`send`](Self::send) charges both budgets; the writer calls
/// [`record_done`](Self::record_done) after each transport attempt.
pub struct OutboundQueue<H> {
    threshold: usize,
    max_messages: usize,
    max_bytes: usize,
    /// Messages the writer has not taken yet, oldest first.
    waiting: Vec<RawMessage>,
    /// The encoded sizes of every message that is not done, oldest first.
    encoded_sizes: Vec<usize>,
    encoded_bytes: usize,
    /// Set once depth reaches the threshold and cleared once it drops back
    /// below it, so one sustained crossing produces exactly one warning.
    warned: bool,
    /// Set once a required message could not be retained.
    failed: bool,
    /// Set once the writer is gone.
    closed: bool,
    reporter: FailureReporter<H>,
    reports: Vec<ConnectionFailure>,
}

/// The sum of sizes.
pub open spec fn total(sizes: Seq<usize>) -> nat
    decreases sizes.len(),
{
    if sizes.len() == 0 {
        0
    } else {
        total(sizes.drop_last()) + sizes.last() as nat
    }
}

/// The first size and the rest make up the total.
proof fn lemma_total_from_front(sizes: Seq<usize>)
    requires
        sizes.len() > 0,
    ensures
        total(sizes) == sizes[0] + total(sizes.remove(0)),
    decreases sizes.len(),
{
    if sizes.len() == 1 {
        assert(sizes.remove(0) =~= Seq::<usize>::empty());
        assert(sizes.drop_last() =~= Seq::<usize>::empty());
    } else {
        lemma_total_from_front(sizes.drop_last());
        assert(sizes.remove(0).drop_last() =~= sizes.drop_last().remove(0));
        assert(sizes.remove(0).last() == sizes.last());
    }
}

/// What an [`OutboundQueue`] holds.
#[verifier::ext_equal]
pub struct QueueView {
    pub threshold: usize,
    pub max_messages: usize,
    pub max_bytes: usize,
    pub waiting: Seq<MessageView>,
    pub sizes: Seq<usize>,
    pub warned: bool,
    pub failed: bool,
    pub closed: bool,
    pub reporter: ReporterView,
    pub reports: Seq<FailureView>,
}

impl QueueView {
    /// An empty queue.
    pub open spec fn fresh(
        threshold: usize,
        max_messages: usize,
        max_bytes: usize,
        reporter: ReporterView,
    ) -> Self {
        QueueView {
            threshold,
            max_messages,
            max_bytes,
            waiting: Seq::empty(),
            sizes: Seq::empty(),
            warned: false,
            failed: false,
            closed: false,
            reporter,
            reports: Seq::empty(),
        }
    }

    /// How many messages are not done.
    pub open spec fn depth(self) -> nat {
        self.sizes.len()
    }

    /// How many encoded bytes are not done.
    pub open spec fn bytes(self) -> nat {
        total(self.sizes)
    }

    /// The queue stays within its budgets, and has warned exactly while its
    /// depth is at the threshold or above.
    pub open spec fn accounted(self) -> bool {
        &&& self.depth() <= self.max_messages
        &&& self.bytes() <= self.max_bytes
        &&& self.threshold > 0 ==> self.warned == (self.depth() >= self.threshold)
    }

    /// Whether a message of a size would exceed a budget.
    pub open spec fn is_full(self, size: usize) -> bool {
        ||| self.depth() >= self.max_messages
        ||| self.bytes() + size > self.max_bytes
    }

    /// Whether taking one more message crosses the warning threshold.
    pub open spec fn crosses(self) -> bool {
        self.depth() + 1 >= self.threshold && !self.warned
    }

    /// The queue after a message of a size is charged.
    pub open spec fn charged(self, size: usize) -> Self {
        QueueView {
            sizes: self.sizes.push(size),
            warned: self.warned || self.depth() + 1 >= self.threshold,
            ..self
        }
    }

    /// The queue after the youngest charge is taken back.
    pub open spec fn uncharged(self) -> Self {
        QueueView {
            sizes: self.sizes.drop_last(),
            warned: self.warned && self.depth() - 1 >= self.threshold,
            ..self
        }
    }

    /// Why a message is not taken.
    pub open spec fn refusal(self, size: Result<usize, Seq<char>>) -> Option<SendErrorView> {
        match size {
            Err(error) => Some(SendErrorView::Serialize(error)),
            Ok(size) => if self.is_full(size) {
                Some(SendErrorView::Overloaded)
            } else if self.closed {
                Some(SendErrorView::Closed)
            } else {
                None
            },
        }
    }

    /// The queue after a message is offered: taken, refused and reported, or
    /// charged and taken back.
    pub open spec fn sent(self, message: MessageView, size: Result<usize, Seq<char>>) -> Self {
        match self.refusal(size) {
            None => QueueView {
                waiting: self.waiting.push(message),
                ..self.charged(size->Ok_0)
            },
            Some(SendErrorView::Overloaded) => match self.reporter.report(
                ConnectionFailureCategory::Overload,
                Some(ConnectionDirection::Outbound),
                message.method(),
                message.id(),
            ) {
                Some(failure) => QueueView { reports: self.reports.push(failure), ..self },
                None => self,
            },
            Some(SendErrorView::Closed) => self.charged(size->Ok_0).uncharged(),
            Some(SendErrorView::Serialize(_)) => self,
        }
    }

    /// The queue after a message that must not be lost is offered.
    pub open spec fn sent_required(
        self,
        message: MessageView,
        size: Result<usize, Seq<char>>,
    ) -> Self {
        QueueView {
            failed: self.failed || self.refusal(size) is Some,
            ..self.sent(message, size)
        }
    }

    /// The queue after the oldest message is done.
    pub open spec fn done(self) -> Self {
        QueueView {
            sizes: self.sizes.remove(0),
            warned: self.warned && self.depth() - 1 >= self.threshold,
            ..self
        }
    }

    /// The queue after every message is abandoned.
    pub open spec fn discarded(self) -> Self {
        QueueView { sizes: Seq::empty(), waiting: Seq::empty(), warned: false, ..self }
    }
}

/// A size as its view.
pub open spec fn size_view(size: Result<usize, String>) -> Result<usize, Seq<char>> {
    match size {
        Ok(bytes) => Ok(bytes),
        Err(error) => Err(error@),
    }
}

impl<H> View for OutboundQueue<H> {
    type V = QueueView;

    closed spec fn view(&self) -> QueueView {
        QueueView {
            threshold: self.threshold,
            max_messages: self.max_messages,
            max_bytes: self.max_bytes,
            waiting: self.waiting@.map_values(|message: RawMessage| message@),
            sizes: self.encoded_sizes@,
            warned: self.warned,
            failed: self.failed,
            closed: self.closed,
            reporter: self.reporter@,
            reports: self.reports@.map_values(|failure: ConnectionFailure| failure@),
        }
    }
}

impl<H> OutboundQueue<H> {
    /// The accounting is exact and within the budgets.
    pub closed spec fn wf(&self) -> bool {
        &&& self.encoded_bytes == total(self.encoded_sizes@)
        &&& self@.accounted()
    }

    /// The depth and the bytes of a queue stay within its budgets, and its
    /// warning is raised exactly while the depth is at the threshold or above.
    pub proof fn law_every_message_is_accounted_for(&self)
        requires
            self.wf(),
        ensures
            self@.accounted(),
    {
    }

    /// An empty queue without budgets. `threshold` is the depth at which one
    /// warning is emitted per upward crossing.
    pub fn new(threshold: usize, reporter: FailureReporter<H>) -> (queue: Self)
        ensures
            queue.wf(),
            queue@ == QueueView::fresh(threshold, usize::MAX, usize::MAX, reporter@),
    {
        Self::with_limits(threshold, usize::MAX, usize::MAX, reporter)
    }

    /// An empty queue with its budgets; the message budget is also where it
    /// warns.
    pub fn bounded(max_messages: usize, max_bytes: usize, reporter: FailureReporter<H>) -> (queue:
        Self)
        ensures
            queue.wf(),
            queue@ == QueueView::fresh(max_messages, max_messages, max_bytes, reporter@),
    {
        Self::with_limits(max_messages, max_messages, max_bytes, reporter)
    }

    fn with_limits(
        threshold: usize,
        max_messages: usize,
        max_bytes: usize,
        reporter: FailureReporter<H>,
    ) -> (queue: Self)
        ensures
            queue.wf(),
            queue@ == QueueView::fresh(threshold, max_messages, max_bytes, reporter@),
    {
        let queue = OutboundQueue {
            threshold,
            max_messages,
            max_bytes,
            waiting: Vec::new(),
            encoded_sizes: Vec::new(),
            encoded_bytes: 0,
            warned: false,
            failed: false,
            closed: false,
            reporter,
            reports: Vec::new(),
        };
        assert(queue@ =~= QueueView::fresh(threshold, max_messages, max_bytes, reporter@));
        queue
    }

    /// Enqueue one message whose encoded envelope has a size. The depth is
    /// counted before the message is handed on, so the writer can never finish a
    /// message that is not yet counted; where the writer is gone, the message is
    /// uncounted again.
    pub fn send(&mut self, message: RawMessage, size: Result<usize, String>) -> (result: Result<
        QueueNote,
        OutboundSendError,
    >)
        requires
            old(self).wf(),
        ensures
            final(self).wf(),
            final(self)@ == old(self)@.sent(message@, size_view(size)),
            match result {
                Ok(note) => {
                    &&& old(self)@.refusal(size_view(size)) is None
                    &&& note.depth == old(self)@.depth() + 1
                    &&& note.warn == old(self)@.crosses()
                },
                Err(error) => old(self)@.refusal(size_view(size)) == Some(error@),
            },
    {
        let size = match size {
            Ok(size) => size,
            Err(error) => return Err(OutboundSendError::Serialize(error)),
        };
        let over_bytes = match self.encoded_bytes.checked_add(size) {
            Some(bytes) => bytes > self.max_bytes,
            None => true,
        };
        if self.encoded_sizes.len() >= self.max_messages || over_bytes {
            let failure = self.reporter.report(
                ConnectionFailureCategory::Overload,
                Some(ConnectionDirection::Outbound),
                message.method(),
                message.id(),
            );
            if let Some(failure) = failure {
                let ghost before = self@.reports;
                self.reports.push(failure);
                assert(self@.reports =~= before.push(failure@));
            }
            return Err(OutboundSendError::Overloaded);
        }
        let warn = self.record_enqueue(size);
        if self.closed {
            self.record_failed_enqueue();
            return Err(OutboundSendError::Closed);
        }
        let ghost before = self@.waiting;
        self.waiting.push(message);
        assert(self@.waiting =~= before.push(message@));
        Ok(QueueNote { depth: self.encoded_sizes.len(), warn })
    }

    /// Enqueue protocol traffic that must not be silently lost. If it cannot
    /// be retained within the same finite budgets as ordinary traffic, the
    /// connection fails.
    pub fn send_required(&mut self, message: RawMessage, size: Result<usize, String>) -> (result:
        Result<QueueNote, OutboundSendError>)
        requires
            old(self).wf(),
        ensures
            final(self).wf(),
            final(self)@ == old(self)@.sent_required(message@, size_view(size)),
            match result {
                Ok(note) => {
                    &&& old(self)@.refusal(size_view(size)) is None
                    &&& note.depth == old(self)@.depth() + 1
                    &&& note.warn == old(self)@.crosses()
                },
                Err(error) => old(self)@.refusal(size_view(size)) == Some(error@),
            },
    {
        let result = self.send(message, size);
        if result.is_err() {
            self.failed = true;
        }
        result
    }

    /// Count one message, and say whether the depth has just crossed from below
    /// the threshold to at least it.
    fn record_enqueue(&mut self, size: usize) -> (warn: bool)
        requires
            old(self).wf(),
            !old(self)@.is_full(size),
        ensures
            final(self)@ == old(self)@.charged(size),
            warn == old(self)@.crosses(),
            final(self).wf(),
    {
        let ghost sizes = self.encoded_sizes@;
        self.encoded_bytes = self.encoded_bytes + size;
        self.encoded_sizes.push(size);
        assert(self.encoded_sizes@.drop_last() =~= sizes);
        if self.encoded_sizes.len() >= self.threshold {
            if !self.warned {
                self.warned = true;
                return true;
            }
        }
        false
    }

    /// Count one message the queue is done with: the writer calls this after
    /// each transport send, whether it succeeded or failed. Dropping back below
    /// the threshold rearms one warning for the next crossing.
    pub fn record_done(&mut self)
        requires
            old(self).wf(),
            old(self)@.depth() > 0,
        ensures
            final(self).wf(),
            final(self)@ == old(self)@.done(),
    {
        proof {
            lemma_total_from_front(self.encoded_sizes@);
        }
        let size: usize = self.encoded_sizes.remove(0);
        self.encoded_bytes = self.encoded_bytes - size;
        if self.encoded_sizes.len() < self.threshold {
            self.warned = false;
        }
    }

    /// Uncount the message that was counted last.
    fn record_failed_enqueue(&mut self)
        requires
            old(self).wf(),
            old(self)@.depth() > 0,
        ensures
            final(self).wf(),
            final(self)@ == old(self)@.uncharged(),
    {
        let ghost sizes = self.encoded_sizes@;
        match self.encoded_sizes.pop() {
            Some(size) => {
                self.encoded_bytes = self.encoded_bytes - size;
                assert(self.encoded_sizes@ =~= sizes.drop_last());
            },
            None => {},
        }
        if self.encoded_sizes.len() < self.threshold {
            self.warned = false;
        }
    }

    /// Abandon every message.
    pub fn discard_all(&mut self)
        requires
            old(self).wf(),
        ensures
            final(self).wf(),
            final(self)@ == old(self)@.discarded(),
    {
        self.waiting = Vec::new();
        self.encoded_sizes = Vec::new();
        self.encoded_bytes = 0;
        self.warned = false;
        assert(self@ =~= old(self)@.discarded());
    }

    /// Take the oldest message that the writer has not taken yet. It stays
    /// accounted for until [`record_done`](Self::record_done).
    pub fn take_next(&mut self) -> (message: Option<RawMessage>)
        requires
            old(self).wf(),
        ensures
            final(self).wf(),
            match message {
                Some(taken) => {
                    &&& old(self)@.waiting.len() > 0
                    &&& taken@ == old(self)@.waiting[0]
                    &&& final(self)@ == (QueueView {
                        waiting: old(self)@.waiting.remove(0),
                        ..old(self)@
                    })
                },
                None => old(self)@.waiting.len() == 0 && final(self)@ == old(self)@,
            },
    {
        if self.waiting.len() == 0 {
            return None;
        }
        let message = self.waiting.remove(0);
        assert(self@.waiting =~= old(self)@.waiting.remove(0));
        Some(message)
    }

    /// The writer is gone.
    pub fn close(&mut self)
        requires
            old(self).wf(),
        ensures
            final(self).wf(),
            final(self)@ == (QueueView { closed: true, ..old(self)@ }),
    {
        self.closed = true;
    }

    /// Whether a required message could not be retained.
    pub fn has_failed(&self) -> (failed: bool)
        ensures
            failed == self@.failed,
    {
        self.failed
    }

    /// Whether the writer is gone.
    pub fn is_closed(&self) -> (closed: bool)
        ensures
            closed == self@.closed,
    {
        self.closed
    }

    /// The current queue depth.
    pub fn depth(&self) -> (depth: usize)
        ensures
            depth == self@.depth(),
    {
        self.encoded_sizes.len()
    }

    /// The encoded bytes of every message that is not done.
    pub fn encoded_bytes(&self) -> (bytes: usize)
        requires
            self.wf(),
        ensures
            bytes == self@.bytes(),
    {
        self.encoded_bytes
    }

    /// The reporter of this connection's failures.
    pub fn reporter(&self) -> (reporter: &FailureReporter<H>)
        ensures
            reporter@ == self@.reporter,
    {
        &self.reporter
    }

    /// Keep a failure for the error hook.
    pub fn keep_report(&mut self, failure: Option<ConnectionFailure>)
        requires
            old(self).wf(),
        ensures
            final(self).wf(),
            final(self)@ == (match failure {
                Some(told) => QueueView { reports: old(self)@.reports.push(told@), ..old(self)@ },
                None => old(self)@,
            }),
    {
        if let Some(told) = failure {
            self.reports.push(told);
            assert(self@.reports =~= old(self)@.reports.push(told@));
        }
    }

    /// Take the failures that are kept for the error hook.
    pub fn take_reports(&mut self) -> (reports: Vec<ConnectionFailure>)
        requires
            old(self).wf(),
        ensures
            final(self).wf(),
            reports@.map_values(|failure: ConnectionFailure| failure@) == old(self)@.reports,
            final(self)@ == (QueueView { reports: Seq::empty(), ..old(self)@ }),
    {
        let mut reports: Vec<ConnectionFailure> = Vec::new();
        core::mem::swap(&mut reports, &mut self.reports);
        assert(self@.reports =~= Seq::<FailureView>::empty());
        reports
    }
}

/// A refused message leaves no trace in the accounting: neither the depth nor
/// the bytes nor what waits changes, whatever the reason.
pub proof fn law_a_refused_message_is_not_counted(
    queue: QueueView,
    message: MessageView,
    size: Result<usize, Seq<char>>,
)
    requires
        queue.accounted(),
        queue.threshold > 0,
        queue.refusal(size) is Some,
    ensures
        queue.sent(message, size).sizes == queue.sizes,
        queue.sent(message, size).waiting == queue.waiting,
        queue.sent(message, size).warned == queue.warned,
        queue.sent_required(message, size).sizes == queue.sizes,
        queue.sent_required(message, size).failed,
{
    if let Ok(bytes) = size {
        assert(queue.charged(bytes).uncharged().sizes =~= queue.sizes);
    }
}

/// Whatever is sent, finished or abandoned, the queue stays within its budgets.
pub proof fn law_the_budgets_are_never_exceeded(
    queue: QueueView,
    message: MessageView,
    size: Result<usize, Seq<char>>,
)
    requires
        queue.accounted(),
    ensures
        queue.sent(message, size).accounted(),
        queue.sent_required(message, size).accounted(),
        queue.depth() > 0 ==> queue.done().accounted(),
        queue.discarded().accounted(),
        queue.discarded().depth() == 0,
        queue.discarded().bytes() == 0,
{
    if let Ok(bytes) = size {
        assert(queue.sizes.push(bytes).drop_last() =~= queue.sizes);
        assert(queue.charged(bytes).uncharged().sizes =~= queue.sizes);
    }
    if queue.depth() > 0 {
        lemma_total_from_front(queue.sizes);
    }
}

/// A sustained crossing warns once: no message that is taken while the depth
/// stays at the threshold or above warns again, and the next warning comes only
/// after the depth has been below.
pub proof fn law_one_warning_per_crossing(queue: QueueView)
    requires
        queue.accounted(),
        queue.threshold > 0,
    ensures
        queue.crosses() == (queue.depth() < queue.threshold && queue.depth() + 1
            >= queue.threshold),
        queue.crosses() == (queue.depth() + 1 == queue.threshold),
{
}

/// A finished message releases exactly one slot and exactly its own bytes.
pub proof fn law_a_finished_message_releases_its_own_charge(queue: QueueView)
    requires
        queue.depth() > 0,
    ensures
        queue.done().depth() == queue.depth() - 1,
        queue.done().bytes() == queue.bytes() - queue.sizes[0],
{
    lemma_total_from_front(queue.sizes);
}

} // verus!
