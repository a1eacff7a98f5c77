//! What both endpoints of a connection share: admission and completion of
//! inbound requests, the tasks that serve them, and the one request to close.
use vstd::prelude::*;

use std::collections::HashSet;

use crate::error::LspError;
use crate::message::{answer, outcome_view, response, RawMessage, RequestId, RequestIdView};
use crate::table::Table;

verus! {

/// What a request is told when no more can be admitted.
pub const INBOUND_CAPACITY_EXHAUSTED: &'static str = "inbound request capacity exhausted";

/// Why an inbound request is not admitted.
#[derive(Debug, Clone, Copy, PartialEq, Eq, Structural)]
pub enum InboundReserveError {
    /// A request under the same ID is in flight.
    DuplicateId,
    /// As many requests are admitted as the budget allows.
    CapacityExhausted,
}

/// An admitted request: its ID, and which admission under that ID it is.
///
/// The completion gate is scoped to the reservation, not the ID: a peer may
/// reuse an ID once the previous request under it has been answered.
#[derive(Debug)]
pub struct Reservation {
    id: RequestId,
    serial: u64,
}

/// What a [`Reservation`] stands for.
pub struct ReservationView {
    pub id: RequestIdView,
    pub serial: u64,
}

impl View for Reservation {
    type V = ReservationView;

    closed spec fn view(&self) -> ReservationView {
        ReservationView { id: self.id.deep_view(), serial: self.serial }
    }
}

impl Reservation {
    /// The ID of the request.
    pub fn id(&self) -> (id: &RequestId)
        ensures
            id.deep_view() == self@.id,
    {
        &self.id
    }

    /// Which admission it is.
    pub fn serial(&self) -> (serial: u64)
        ensures
            serial == self@.serial,
    {
        self.serial
    }
}

/// The place that an admitted request takes up until its task is reaped, even if
/// its response was claimed before.
#[derive(Debug)]
pub struct Permit {
    serial: u64,
}

impl View for Permit {
    type V = u64;

    closed spec fn view(&self) -> u64 {
        self.serial
    }
}

/// An admitted request and its place.
#[derive(Debug)]
pub struct Reserved {
    /// The request.
    pub reservation: Reservation,
    /// Its place.
    pub permit: Permit,
    /// Whether the peer may cancel it.
    pub cancellable: bool,
}

/// A request in flight.
#[derive(Debug, Clone, Copy, PartialEq, Eq, Structural)]
pub struct InboundEntry {
    /// Which admission it is.
    pub serial: u64,
    /// Whether the peer may cancel it.
    pub cancellable: bool,
}

/// The inbound requests in flight and the places they take up.
pub struct InboundRegistry {
    limit: usize,
    entries: Table<RequestId, InboundEntry>,
    permits: HashSet<u64>,
    next_serial: u64,
}

/// What an [`InboundRegistry`] holds.
#[verifier::ext_equal]
pub struct InboundView {
    pub limit: usize,
    pub entries: Map<RequestIdView, InboundEntry>,
    pub permits: Set<u64>,
    pub next_serial: u64,
}

impl InboundView {
    /// Nothing in flight.
    pub open spec fn fresh(limit: usize) -> Self {
        InboundView { limit, entries: Map::empty(), permits: Set::empty(), next_serial: 0 }
    }

    /// Admissions are within the budget, and all of them lie in the past.
    pub open spec fn admitted(self) -> bool {
        &&& self.permits.finite()
        &&& self.permits.len() <= self.limit
        &&& forall|id: RequestIdView| #[trigger]
            self.entries.dom().contains(id) ==> self.entries[id].serial < self.next_serial
        &&& forall|serial: u64| #[trigger]
            self.permits.contains(serial) ==> serial < self.next_serial
    }

    /// Why a request is not admitted.
    pub open spec fn refusal(self, id: RequestIdView) -> Option<InboundReserveError> {
        if self.entries.dom().contains(id) {
            Some(InboundReserveError::DuplicateId)
        } else if self.permits.len() >= self.limit || self.next_serial == u64::MAX {
            Some(InboundReserveError::CapacityExhausted)
        } else {
            None
        }
    }

    /// The registry after a request is admitted, or refused.
    pub open spec fn reserved(self, id: RequestIdView, cancellable: bool) -> Self {
        if self.refusal(id) is Some {
            self
        } else {
            InboundView {
                entries: self.entries.insert(
                    id,
                    InboundEntry { serial: self.next_serial, cancellable },
                ),
                permits: self.permits.insert(self.next_serial),
                next_serial: (self.next_serial + 1) as u64,
                ..self
            }
        }
    }

    /// Whether a reservation still owns the response under its ID.
    pub open spec fn owns(self, reservation: ReservationView) -> bool {
        self.entries.dom().contains(reservation.id) && self.entries[reservation.id].serial
            == reservation.serial
    }

    /// The registry after a reservation is completed, if it still owns the
    /// response.
    pub open spec fn completed(self, reservation: ReservationView) -> Self {
        if self.owns(reservation) {
            InboundView { entries: self.entries.remove(reservation.id), ..self }
        } else {
            self
        }
    }

    /// Whether the peer may cancel the request under an ID.
    pub open spec fn is_cancellable(self, id: RequestIdView) -> bool {
        self.entries.dom().contains(id) && self.entries[id].cancellable
    }

    /// The reservation under an ID.
    pub open spec fn reservation(self, id: RequestIdView) -> ReservationView {
        ReservationView { id, serial: self.entries[id].serial }
    }

    /// The registry after the request under an ID is cancelled, if it may be.
    pub open spec fn cancelled(self, id: RequestIdView) -> Self {
        if self.is_cancellable(id) {
            InboundView { entries: self.entries.remove(id), ..self }
        } else {
            self
        }
    }

    /// The registry after every request in flight is claimed.
    pub open spec fn emptied(self) -> Self {
        InboundView { entries: Map::empty(), ..self }
    }

    /// The registry after a place is given back.
    pub open spec fn released(self, permit: u64) -> Self {
        InboundView { permits: self.permits.remove(permit), ..self }
    }
}

/// Reservations that are every request in flight, each once.
pub open spec fn claims_every(
    before: InboundView,
    claimed: Seq<ReservationView>,
) -> bool {
    exists|ids: Seq<RequestIdView>|
        {
            &&& ids.no_duplicates()
            &&& #[trigger] ids.to_set() == before.entries.dom()
            &&& claimed.len() == ids.len()
            &&& forall|i: int|
                0 <= i < claimed.len() ==> #[trigger] claimed[i] == before.reservation(ids[i])
        }
}

impl View for InboundRegistry {
    type V = InboundView;

    closed spec fn view(&self) -> InboundView {
        InboundView {
            limit: self.limit,
            entries: self.entries@,
            permits: self.permits@,
            next_serial: self.next_serial,
        }
    }
}

impl InboundRegistry {
    /// Admissions are within the budget, and all of them lie in the past.
    pub closed spec fn wf(&self) -> bool {
        self@.admitted()
    }

    /// No more requests are admitted than the limit allows, and every admission
    /// carries a serial number that has been handed out.
    pub proof fn law_admissions_stay_within_the_limit(&self)
        requires
            self.wf(),
        ensures
            self@.admitted(),
    {
    }

    /// A registry that admits a number of requests.
    pub fn new(limit: usize) -> (registry: Self)
        ensures
            registry.wf(),
            registry@ == InboundView::fresh(limit),
    {
        let registry = InboundRegistry {
            limit,
            entries: Table::new(),
            permits: HashSet::new(),
            next_serial: 0,
        };
        assert(registry@ =~= InboundView::fresh(limit));
        registry
    }

    /// Admit a request.
    pub fn reserve(&mut self, id: RequestId, cancellable: bool) -> (result: Result<
        Reserved,
        InboundReserveError,
    >)
        requires
            old(self).wf(),
        ensures
            final(self).wf(),
            final(self)@ == old(self)@.reserved(id.deep_view(), cancellable),
            match result {
                Ok(admitted) => {
                    &&& old(self)@.refusal(id.deep_view()) is None
                    &&& admitted.reservation@ == (ReservationView {
                        id: id.deep_view(),
                        serial: old(self)@.next_serial,
                    })
                    &&& admitted.permit@ == old(self)@.next_serial
                    &&& admitted.cancellable == cancellable
                },
                Err(error) => old(self)@.refusal(id.deep_view()) == Some(error),
            },
    {
        if self.entries.contains_key(&id) {
            return Err(InboundReserveError::DuplicateId);
        }
        if self.permits.len() >= self.limit || self.next_serial == u64::MAX {
            return Err(InboundReserveError::CapacityExhausted);
        }
        let serial = self.next_serial;
        self.next_serial = serial + 1;
        self.entries.insert(id.clone(), InboundEntry { serial, cancellable });
        self.permits.insert(serial);
        proof {
            assert(self@.permits =~= old(self)@.permits.insert(serial));
            assert forall|other: RequestIdView| #[trigger]
                self@.entries.dom().contains(other) implies self@.entries[other].serial
                < self@.next_serial by {
                if other != id.deep_view() {
                    assert(old(self)@.entries.dom().contains(other));
                }
            }
        }
        Ok(
            Reserved {
                reservation: Reservation { id, serial },
                permit: Permit { serial },
                cancellable,
            },
        )
    }

    /// Claim the response of a reservation: true at most once, and never after
    /// another path has claimed it.
    pub fn claim(&mut self, reservation: &Reservation) -> (claimed: bool)
        requires
            old(self).wf(),
        ensures
            final(self).wf(),
            claimed == old(self)@.owns(reservation@),
            final(self)@ == old(self)@.completed(reservation@),
    {
        match self.entries.get(&reservation.id) {
            Some(entry) => {
                if entry.serial != reservation.serial {
                    return false;
                }
            },
            None => return false,
        }
        self.entries.remove(&reservation.id);
        proof {
            assert forall|other: RequestIdView| #[trigger]
                self@.entries.dom().contains(other) implies self@.entries[other].serial
                < self@.next_serial by {
                assert(old(self)@.entries.dom().contains(other));
            }
        }
        true
    }

    /// Complete a reservation: the response to send, unless another path has
    /// claimed it.
    pub fn complete(&mut self, reservation: Reservation, outcome: Result<Vec<u8>, LspError>) -> (
    message: Option<RawMessage>)
        requires
            old(self).wf(),
        ensures
            final(self).wf(),
            final(self)@ == old(self)@.completed(reservation@),
            match message {
                Some(sent) => old(self)@.owns(reservation@) && sent@ == answer(
                    reservation@.id,
                    outcome_view(outcome),
                ),
                None => !old(self)@.owns(reservation@),
            },
    {
        if self.claim(&reservation) {
            Some(response(reservation.id, outcome))
        } else {
            None
        }
    }

    /// Claim the response of the request under an ID for its cancellation.
    pub fn claim_cancellation(&mut self, id: &RequestId) -> (reservation: Option<Reservation>)
        requires
            old(self).wf(),
        ensures
            final(self).wf(),
            final(self)@ == old(self)@.cancelled(id.deep_view()),
            match reservation {
                Some(claimed) => old(self)@.is_cancellable(id.deep_view()) && claimed@ == old(
                    self,
                )@.reservation(id.deep_view()),
                None => !old(self)@.is_cancellable(id.deep_view()),
            },
    {
        let serial: u64 = match self.entries.get(id) {
            Some(entry) => {
                if !entry.cancellable {
                    return None;
                }
                entry.serial
            },
            None => return None,
        };
        let reservation = Reservation { id: id.clone(), serial };
        self.claim(&reservation);
        Some(reservation)
    }

    /// Claim the response of every request in flight.
    pub fn claim_all(&mut self) -> (claimed: Vec<Reservation>)
        requires
            old(self).wf(),
        ensures
            final(self).wf(),
            final(self)@ == old(self)@.emptied(),
            claims_every(old(self)@, claimed@.map_values(|reservation: Reservation| reservation@)),
    {
        let entries = self.entries.drain();
        let ghost taken = entries@;
        let ghost ids = Seq::new(taken.len(), |i: int| taken[i].0.deep_view());
        let mut claimed: Vec<Reservation> = Vec::new();
        for entry in it: entries
            invariant
                it.seq() == taken,
                claimed@.len() == it.index(),
                forall|i: int|
                    0 <= i < claimed@.len() ==> (#[trigger] claimed@[i])@ == (ReservationView {
                        id: taken[i].0.deep_view(),
                        serial: taken[i].1.serial,
                    }),
        {
            claimed.push(Reservation { id: entry.0, serial: entry.1.serial });
        }
        proof {
            let before = old(self)@;
            let views = claimed@.map_values(|reservation: Reservation| reservation@);
            assert(ids.no_duplicates()) by {
                assert forall|i: int, j: int|
                    0 <= i < ids.len() && 0 <= j < ids.len() && i != j implies ids[i] != ids[j] by {
                    assert(taken[i].0.deep_view() == ids[i]);
                    assert(taken[j].0.deep_view() == ids[j]);
                }
            }
            ids.unique_seq_to_set();
            assert(ids.to_set().subset_of(before.entries.dom())) by {
                assert forall|id: RequestIdView| ids.to_set().contains(id) implies
                    before.entries.dom().contains(id) by {
                    let i = ids.index_of(id);
                    assert(taken[i].0.deep_view() == id);
                }
            }
            vstd::set_lib::lemma_subset_equality(ids.to_set(), before.entries.dom());
            assert forall|i: int| 0 <= i < views.len() implies #[trigger] views[i]
                == before.reservation(ids[i]) by {
                assert(taken[i].0.deep_view() == ids[i]);
                assert(claimed@[i]@ == views[i]);
            }
        }
        claimed
    }

    /// Give a place back.
    pub fn release(&mut self, permit: Permit)
        requires
            old(self).wf(),
        ensures
            final(self).wf(),
            final(self)@ == old(self)@.released(permit@),
    {
        let removed = self.permits.remove(&permit.serial);
        proof {
            assert(self@.permits =~= old(self)@.permits.remove(permit@));
            if !removed {
                assert(self@.permits =~= old(self)@.permits);
            }
            assert(self@.permits.len() <= old(self)@.permits.len());
            assert forall|other: RequestIdView| #[trigger]
                self@.entries.dom().contains(other) implies self@.entries[other].serial
                < self@.next_serial by {
                assert(old(self)@.entries.dom().contains(other));
            }
            assert forall|serial: u64| #[trigger] self@.permits.contains(serial) implies serial
                < self@.next_serial by {
                assert(old(self)@.permits.contains(serial));
            }
        }
    }

    /// How many requests are in flight.
    pub fn in_flight(&self) -> (n: usize)
        ensures
            n == self@.entries.len(),
    {
        self.entries.len()
    }
}

/// A stale reservation cannot answer a reused ID: once a request was completed
/// or cancelled, its reservation owns nothing any more, whatever is admitted
/// under its ID afterwards.
pub proof fn law_a_stale_reservation_owns_nothing(
    registry: InboundView,
    stale: ReservationView,
    cancellable: bool,
)
    requires
        registry.admitted(),
        registry.owns(stale),
    ensures
        !registry.completed(stale).owns(stale),
        !registry.completed(stale).reserved(stale.id, cancellable).owns(stale),
        registry.is_cancellable(stale.id) ==> !registry.cancelled(stale.id).owns(stale),
        registry.is_cancellable(stale.id) ==> !registry.cancelled(stale.id).reserved(
            stale.id,
            cancellable,
        ).owns(stale),
{
}

/// A request is answered at most once: after one completion no other completion
/// of the same reservation is answered.
pub proof fn law_a_request_is_answered_at_most_once(
    registry: InboundView,
    reservation: ReservationView,
)
    ensures
        !registry.completed(reservation).owns(reservation),
        registry.completed(reservation).completed(reservation) == registry.completed(reservation),
        !registry.emptied().owns(reservation),
{
}

/// Admissions never exceed the budget, however requests are completed, cancelled
/// or claimed; only a place that is given back makes room.
pub proof fn law_admission_is_bounded(
    registry: InboundView,
    id: RequestIdView,
    cancellable: bool,
    reservation: ReservationView,
    permit: u64,
)
    requires
        registry.admitted(),
    ensures
        registry.reserved(id, cancellable).permits.len() <= registry.limit,
        registry.completed(reservation).permits == registry.permits,
        registry.cancelled(id).permits == registry.permits,
        registry.emptied().permits == registry.permits,
        registry.permits.contains(permit) ==> registry.released(permit).permits.len()
            < registry.limit,
{
}

/// The one request to close a connection: the first cause asked for is the one
/// reported.
pub struct CloseSignal<C> {
    requested: bool,
    cause: Option<C>,
}

/// What a [`CloseSignal`] holds.
pub struct SignalView<C> {
    pub requested: bool,
    pub cause: Option<C>,
}

impl<C> SignalView<C> {
    /// The signal after a cause asks for closure.
    pub open spec fn after(self, cause: C) -> Self {
        if self.requested {
            self
        } else {
            SignalView { requested: true, cause: Some(cause) }
        }
    }
}

impl<C> View for CloseSignal<C> {
    type V = SignalView<C>;

    closed spec fn view(&self) -> SignalView<C> {
        SignalView { requested: self.requested, cause: self.cause }
    }
}

impl<C> CloseSignal<C> {
    /// Nobody has asked for closure.
    pub fn new() -> (signal: Self)
        ensures
            signal@ == (SignalView::<C> { requested: false, cause: None }),
    {
        CloseSignal { requested: false, cause: None }
    }

    /// Ask for closure. Only the first requester's cause is recorded, so a
    /// writer failure racing reader EOF still reports a single deterministic
    /// ending.
    pub fn request(&mut self, cause: C)
        ensures
            final(self)@ == old(self)@.after(cause),
    {
        if !self.requested {
            self.requested = true;
            self.cause = Some(cause);
        }
    }

    /// Whether closure was asked for.
    pub fn is_requested(&self) -> (requested: bool)
        ensures
            requested == self@.requested,
    {
        self.requested
    }

    /// Take the recorded cause: once, by whoever runs the close.
    pub fn take_cause(&mut self) -> (cause: Option<C>)
        ensures
            cause == old(self)@.cause,
            final(self)@ == (SignalView { cause: None, ..old(self)@ }),
    {
        self.cause.take()
    }
}

/// The first cause asked for stays, whoever asks later.
pub proof fn law_the_first_close_cause_wins<C>(signal: SignalView<C>, first: C, later: C)
    requires
        !signal.requested,
    ensures
        signal.after(first).cause == Some(first),
        signal.after(first).after(later) == signal.after(first),
{
}

/// The tasks of one connection, each with what it keeps until it is reaped. How
/// a task runs, ends and is joined is for whoever drives the connection.
pub struct TaskGroup<T> {
    handles: Vec<T>,
}

impl<T> View for TaskGroup<T> {
    type V = Seq<T>;

    closed spec fn view(&self) -> Seq<T> {
        self.handles@
    }
}

/// The tasks whose flag has a value, in order.
pub open spec fn flagged<T>(handles: Seq<T>, flags: Seq<bool>, value: bool) -> Seq<T>
    decreases handles.len(),
{
    if handles.len() == 0 {
        Seq::empty()
    } else {
        let rest = flagged(handles.drop_last(), flags, value);
        if flags[handles.len() - 1] == value {
            rest.push(handles.last())
        } else {
            rest
        }
    }
}

impl<T> TaskGroup<T> {
    /// No tasks.
    pub fn new() -> (group: Self)
        ensures
            group@ == Seq::<T>::empty(),
    {
        TaskGroup { handles: Vec::new() }
    }

    /// Own one more task.
    pub fn spawn(&mut self, handle: T)
        ensures
            final(self)@ == old(self)@.push(handle),
    {
        self.handles.push(handle);
    }

    /// Take out the tasks that have finished, in order, and keep the others.
    pub fn reap_finished(&mut self, finished: &Vec<bool>) -> (reaped: Vec<T>)
        requires
            finished@.len() == old(self)@.len(),
        ensures
            reaped@ == flagged(old(self)@, finished@, true),
            final(self)@ == flagged(old(self)@, finished@, false),
    {
        let mut handles: Vec<T> = Vec::new();
        core::mem::swap(&mut handles, &mut self.handles);
        let ghost all = handles@;
        let mut running: Vec<T> = Vec::new();
        let mut reaped: Vec<T> = Vec::new();
        let count: usize = handles.len();
        let mut i: usize = 0;
        assert(all.take(0) =~= Seq::<T>::empty());
        for handle in it: handles
            invariant
                it.seq() == all,
                i == it.index(),
                i <= all.len(),
                count == all.len(),
                finished@.len() == all.len(),
                running@ == flagged(all.take(i as int), finished@, false),
                reaped@ == flagged(all.take(i as int), finished@, true),
        {
            assert(all.take(i + 1).drop_last() =~= all.take(i as int));
            assert(all.take(i + 1).last() == handle);
            if finished[i] {
                reaped.push(handle);
            } else {
                running.push(handle);
            }
            i = i + 1;
        }
        assert(all.take(all.len() as int) =~= all);
        self.handles = running;
        reaped
    }

    /// Take out every task, in order.
    pub fn take_all(&mut self) -> (handles: Vec<T>)
        ensures
            handles@ == old(self)@,
            final(self)@ == Seq::<T>::empty(),
    {
        let mut handles: Vec<T> = Vec::new();
        core::mem::swap(&mut handles, &mut self.handles);
        handles
    }

    /// The tasks, in order.
    pub fn handles(&self) -> (handles: &Vec<T>)
        ensures
            handles@ == self@,
    {
        &self.handles
    }

    /// How many tasks there are.
    pub fn len(&self) -> (n: usize)
        ensures
            n == self@.len(),
    {
        self.handles.len()
    }
}

} // verus!
