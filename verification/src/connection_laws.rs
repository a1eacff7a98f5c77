//! What the registries, the outbound queue and the client handle of a connection
//! do, in terms of what they hold.
use vstd::prelude::*;
use vstd::utf8::encode_utf8;

use crate::client::{
    answered, cancel_notice, reported_queue, reserved_as, ClientView, GuardView, PendingGuard,
    Phase,
};
use crate::error::{ClientError, ClientErrorView};
use crate::failure::{
    ConnectionDirection, ConnectionFailureCategory, ConnectionRequestId, FailureView, ReporterView,
};
use crate::message::{JsonRpcErrorView, MessageView, RawMessage, RequestIdView};
use crate::outbound::{
    cancels_every, total, Delivery, DeliveryRequirement, InsertOutcome, OutcomeView, QueueView,
    RegistryView, SendErrorView,
};
use crate::params::TraceValue;
use crate::session::{claims_every, InboundReserveError, InboundView, ReservationView, SignalView};
use crate::text::decimal_text;

verus! {

/// A request is admitted exactly if its ID is not in flight and there is a place
/// and a number left; it then holds both, and every other request stays.
pub proof fn law_admission_holds_an_id_and_a_place(
    inbound: InboundView,
    id: RequestIdView,
    cancellable: bool,
    other: RequestIdView,
)
    ensures
        ({
            let after = inbound.reserved(id, cancellable);
            let known = inbound.entries.dom().contains(id);
            let room = inbound.permits.len() < inbound.limit && inbound.next_serial < u64::MAX;
            &&& known ==> inbound.refusal(id) == Some(InboundReserveError::DuplicateId)
            &&& !known && !room ==> inbound.refusal(id) == Some(
                InboundReserveError::CapacityExhausted,
            )
            &&& known || !room ==> after == inbound
            &&& !known && room ==> {
                &&& inbound.refusal(id) is None
                &&& after.entries.dom().contains(id)
                &&& after.entries[id].serial == inbound.next_serial
                &&& after.entries[id].cancellable == cancellable
                &&& after.owns(ReservationView { id, serial: inbound.next_serial })
                &&& after.permits == inbound.permits.insert(inbound.next_serial)
                &&& after.next_serial == inbound.next_serial + 1
                &&& other != id ==> after.entries.dom().contains(other)
                    == inbound.entries.dom().contains(other)
                &&& other != id ==> after.entries[other] == inbound.entries[other]
            }
            &&& after.limit == inbound.limit
        }),
{
}

/// A new registry holds nothing and admits as many as its limit.
pub proof fn law_a_new_registry_is_empty(limit: usize, id: RequestIdView)
    ensures
        InboundView::fresh(limit).limit == limit,
        !InboundView::fresh(limit).entries.dom().contains(id),
        InboundView::fresh(limit).permits.len() == 0,
        limit > 0 ==> InboundView::fresh(limit).refusal(id) is None,
{
}

/// A reservation owns its response as long as its own number stands under its ID.
/// Completing it frees the ID, once, and leaves its place; releasing gives back
/// the place and leaves every ID; a cancellation frees the ID of a request that may
/// be cancelled.
pub proof fn law_a_reservation_is_completed_and_released(
    inbound: InboundView,
    reservation: ReservationView,
    permit: u64,
    other: RequestIdView,
)
    ensures
        inbound.owns(reservation) <==> inbound.entries.dom().contains(reservation.id)
            && inbound.entries[reservation.id].serial == reservation.serial,
        ({
            let after = inbound.completed(reservation);
            &&& inbound.owns(reservation) ==> !after.entries.dom().contains(reservation.id)
            &&& !inbound.owns(reservation) ==> after == inbound
            &&& other != reservation.id ==> after.entries.dom().contains(other)
                == inbound.entries.dom().contains(other)
            &&& other != reservation.id && inbound.entries.dom().contains(other)
                ==> after.entries[other] == inbound.entries[other]
            &&& after.permits == inbound.permits
            &&& after.next_serial == inbound.next_serial
            &&& after.limit == inbound.limit
        }),
        ({
            let after = inbound.released(permit);
            &&& after.permits == inbound.permits.remove(permit)
            &&& after.entries == inbound.entries
            &&& after.next_serial == inbound.next_serial
            &&& after.limit == inbound.limit
        }),
        ({
            let after = inbound.cancelled(other);
            let may = inbound.entries.dom().contains(other) && inbound.entries[other].cancellable;
            &&& inbound.is_cancellable(other) == may
            &&& may ==> after.entries == inbound.entries.remove(other)
            &&& !may ==> after == inbound
            &&& after.permits == inbound.permits
            &&& after.next_serial == inbound.next_serial
            &&& after.limit == inbound.limit
        }),
        ({
            let after = inbound.emptied();
            &&& !after.entries.dom().contains(other)
            &&& after.permits == inbound.permits
            &&& after.next_serial == inbound.next_serial
            &&& after.limit == inbound.limit
        }),
{
}

/// Claiming every request claims each that is in flight, under its own number, and
/// no other.
pub proof fn law_every_request_is_claimed_once(
    inbound: InboundView,
    claimed: Seq<ReservationView>,
    id: RequestIdView,
)
    requires
        claims_every(inbound, claimed),
    ensures
        inbound.entries.dom().contains(id) ==> exists|i: int|
            0 <= i < claimed.len() && #[trigger] claimed[i] == (ReservationView {
                id,
                serial: inbound.entries[id].serial,
            }),
        forall|i: int|
            0 <= i < claimed.len() ==> inbound.entries.dom().contains((#[trigger] claimed[i]).id)
                && inbound.owns(claimed[i]),
        forall|i: int, j: int|
            0 <= i < claimed.len() && 0 <= j < claimed.len() && i != j ==> (
            #[trigger] claimed[i]).id != (#[trigger] claimed[j]).id,
{
    let ids = choose|ids: Seq<RequestIdView>|
        {
            &&& ids.no_duplicates()
            &&& #[trigger] ids.to_set() == inbound.entries.dom()
            &&& claimed.len() == ids.len()
            &&& forall|i: int|
                0 <= i < claimed.len() ==> #[trigger] claimed[i] == inbound.reservation(ids[i])
        };
    assert forall|i: int| 0 <= i < claimed.len() implies inbound.entries.dom().contains(
        (#[trigger] claimed[i]).id,
    ) && inbound.owns(claimed[i]) by {
        assert(claimed[i] == inbound.reservation(ids[i]));
        assert(ids.to_set().contains(ids[i]));
    }
    if inbound.entries.dom().contains(id) {
        assert(ids.to_set().contains(id));
        let i = choose|i: int| 0 <= i < ids.len() && ids[i] == id;
        assert(claimed[i] == inbound.reservation(ids[i]));
    }
    assert forall|i: int, j: int|
        0 <= i < claimed.len() && 0 <= j < claimed.len() && i != j implies (
    #[trigger] claimed[i]).id != (#[trigger] claimed[j]).id by {
        assert(claimed[i] == inbound.reservation(ids[i]));
        assert(claimed[j] == inbound.reservation(ids[j]));
    }
}

/// Closing the registry of outbound requests tells everyone who waits, once, that
/// the request was cancelled, and nobody else.
pub proof fn law_every_waiter_is_told<T>(
    pending: Map<u32, T>,
    deliveries: Seq<Delivery<T>>,
    id: u32,
)
    requires
        cancels_every(pending, deliveries),
    ensures
        pending.dom().contains(id) ==> exists|i: int|
            0 <= i < deliveries.len() && (#[trigger] deliveries[i]).waiter == pending[id],
        deliveries.len() == pending.dom().len(),
        forall|i: int|
            0 <= i < deliveries.len() ==> (#[trigger] deliveries[i]).outcome@ is Cancelled,
{
    let ids = choose|ids: Seq<u32>|
        {
            &&& ids.no_duplicates()
            &&& #[trigger] ids.to_set() == pending.dom()
            &&& deliveries.len() == ids.len()
            &&& forall|i: int|
                0 <= i < deliveries.len() ==> (#[trigger] deliveries[i]).waiter == pending[ids[i]]
                    && deliveries[i].outcome@ == OutcomeView::Cancelled
        };
    ids.unique_seq_to_set();
    if pending.dom().contains(id) {
        assert(ids.to_set().contains(id));
        let i = choose|i: int| 0 <= i < ids.len() && ids[i] == id;
        assert(deliveries[i].waiter == pending[ids[i]]);
    }
}

/// The first cause that asks for closure is recorded, and no later one.
pub proof fn law_the_first_cause_is_recorded<C>(signal: SignalView<C>, cause: C)
    ensures
        signal.after(cause).requested,
        !signal.requested ==> signal.after(cause).cause == Some(cause),
        signal.requested ==> signal.after(cause).cause == signal.cause,
{
}

/// Outbound requests are numbered from 1 upwards through the positive 32-bit
/// numbers; each is pending under its own, with whoever waits for it, until it is
/// taken out. A closed registry and an exhausted one take none.
pub proof fn law_outbound_requests_are_numbered<T>(
    registry: RegistryView<T>,
    waiter: T,
    id: u32,
)
    ensures
        RegistryView::<T>::fresh().next_id == 1,
        !RegistryView::<T>::fresh().closed,
        !RegistryView::<T>::fresh().pending.dom().contains(id),
        ({
            let after = registry.inserted(waiter);
            let last = registry.next_id > 0x7fff_ffff;
            &&& registry.closed ==> registry.insert_outcome() == InsertOutcome::Closed
            &&& !registry.closed && last ==> registry.insert_outcome() == InsertOutcome::Exhausted
            &&& registry.closed || last ==> after == registry
            &&& !registry.closed && !last ==> {
                &&& registry.insert_outcome() == InsertOutcome::Inserted(registry.next_id)
                &&& after.pending.dom().contains(registry.next_id)
                &&& after.pending[registry.next_id] == waiter
                &&& after.next_id == registry.next_id + 1
                &&& !after.closed
                &&& id != registry.next_id ==> after.pending.dom().contains(id)
                    == registry.pending.dom().contains(id)
                &&& id != registry.next_id ==> after.pending[id] == registry.pending[id]
            }
        }),
        registry.removed(id).pending == registry.pending.remove(id),
        registry.removed(id).next_id == registry.next_id,
        registry.removed(id).closed == registry.closed,
        registry.drained().closed,
        !registry.drained().pending.dom().contains(id),
        registry.drained().next_id == registry.next_id,
{
}

/// Sizes sum up one by one.
pub proof fn law_sizes_sum_up(sizes: Seq<usize>, size: usize)
    ensures
        total(Seq::<usize>::empty()) == 0,
        total(sizes.push(size)) == total(sizes) + size,
        total(seq![size] + sizes) == size + total(sizes),
    decreases sizes.len(),
{
    assert(sizes.push(size).drop_last() =~= sizes);
    if sizes.len() == 0 {
        assert(seq![size] + sizes =~= Seq::<usize>::empty().push(size));
        assert(Seq::<usize>::empty().push(size).drop_last() =~= Seq::<usize>::empty());
        assert(sizes =~= Seq::<usize>::empty());
    } else {
        law_sizes_sum_up(sizes.drop_last(), size);
        assert((seq![size] + sizes).drop_last() =~= seq![size] + sizes.drop_last());
        assert((seq![size] + sizes).last() == sizes.last());
    }
}

/// What a failure on the way out is reported as, where there is a hook.
pub open spec fn told_outbound(
    reporter: ReporterView,
    category: ConnectionFailureCategory,
    direction: Option<ConnectionDirection>,
    method: Option<Seq<char>>,
    id: Option<RequestIdView>,
) -> Seq<FailureView> {
    if reporter.hooked {
        seq![
            FailureView {
                category,
                connection_id: reporter.connection_id,
                direction,
                method,
                request_id: match id {
                    None => None,
                    Some(RequestIdView::Number(number)) => Some(
                        ConnectionRequestId::Number(number),
                    ),
                    Some(RequestIdView::String(_)) => Some(ConnectionRequestId::String),
                },
            },
        ]
    } else {
        Seq::empty()
    }
}

/// The queue takes a message behind all others exactly if it is encoded, the queue
/// is open, and one message and its bytes fit; then it charges both. One that does
/// not fit is reported with its method and its request and changes nothing else; a
/// required message that is not taken fails the queue.
pub proof fn law_the_queue_takes_what_fits(
    queue: QueueView,
    message: MessageView,
    size: Result<usize, Seq<char>>,
)
    ensures
        ({
            let after = queue.sent(message, size);
            let required = queue.sent_required(message, size);
            let fits = size matches Ok(bytes) && queue.sizes.len() < queue.max_messages && total(
                queue.sizes,
            ) + bytes <= queue.max_bytes;
            let (method, id) = match message {
                MessageView::Request { id, method, .. } => (Some(method), Some(id)),
                MessageView::Notification { method, .. } => (Some(method), None),
                MessageView::Response { id, .. } => (None, Some(id)),
                MessageView::ProtocolError { .. } => (None, None),
            };
            &&& size matches Err(error) ==> queue.refusal(size) == Some(
                SendErrorView::Serialize(error),
            ) && after == queue
            &&& size is Ok && !fits ==> {
                &&& queue.refusal(size) == Some(SendErrorView::Overloaded)
                &&& after.reports == queue.reports + told_outbound(
                    queue.reporter,
                    ConnectionFailureCategory::Overload,
                    Some(ConnectionDirection::Outbound),
                    method,
                    id,
                )
                &&& after.waiting == queue.waiting
                &&& after.sizes == queue.sizes
                &&& after.warned == queue.warned
            }
            &&& fits && queue.closed ==> {
                &&& queue.refusal(size) == Some(SendErrorView::Closed)
                &&& after.waiting == queue.waiting
                &&& after.sizes == queue.sizes
                &&& after.reports == queue.reports
            }
            &&& fits && !queue.closed ==> {
                &&& queue.refusal(size) is None
                &&& after.waiting == queue.waiting + seq![message]
                &&& after.sizes == queue.sizes + seq![size->Ok_0]
                &&& after.reports == queue.reports
                &&& after.warned == (queue.warned || queue.sizes.len() + 1 >= queue.threshold)
            }
            &&& after.closed == queue.closed && after.failed == queue.failed
            &&& after.max_messages == queue.max_messages && after.max_bytes == queue.max_bytes
            &&& after.threshold == queue.threshold && after.reporter == queue.reporter
            &&& required == (QueueView {
                failed: queue.failed || !fits || queue.closed,
                ..after
            })
        }),
{
    let after = queue.sent(message, size);
    if let Ok(bytes) = size {
        assert(queue.sizes.push(bytes).drop_last() =~= queue.sizes);
        assert(queue.sizes.push(bytes) =~= queue.sizes + seq![bytes]);
    }
    assert(queue.waiting.push(message) =~= queue.waiting + seq![message]);
    assert(queue.reports + Seq::<FailureView>::empty() =~= queue.reports);
}

/// A warning is due exactly when the depth reaches the threshold and no warning
/// stands; the charge that is oldest is given back first, and abandoning the queue
/// gives back all.
pub proof fn law_the_queue_gives_back_its_charges(queue: QueueView)
    ensures
        queue.depth() == queue.sizes.len(),
        queue.bytes() == total(queue.sizes),
        queue.crosses() <==> queue.sizes.len() + 1 >= queue.threshold && !queue.warned,
        queue.sizes.len() > 0 ==> {
            let after = queue.done();
            &&& after.sizes == queue.sizes.skip(1)
            &&& total(queue.sizes) == queue.sizes[0] + total(after.sizes)
            &&& after.warned == (queue.warned && queue.sizes.len() - 1 >= queue.threshold)
            &&& after.waiting == queue.waiting
            &&& after.reports == queue.reports
            &&& after.closed == queue.closed && after.failed == queue.failed
            &&& after.max_messages == queue.max_messages && after.max_bytes == queue.max_bytes
            &&& after.threshold == queue.threshold && after.reporter == queue.reporter
        },
        ({
            let after = queue.discarded();
            &&& after.sizes.len() == 0 && after.waiting.len() == 0 && !after.warned
            &&& after.reports == queue.reports
            &&& after.closed == queue.closed && after.failed == queue.failed
            &&& after.max_messages == queue.max_messages && after.max_bytes == queue.max_bytes
            &&& after.threshold == queue.threshold && after.reporter == queue.reporter
        }),
{
    if queue.sizes.len() > 0 {
        assert(queue.sizes.remove(0) =~= queue.sizes.skip(1));
        assert(seq![queue.sizes[0]] + queue.sizes.skip(1) =~= queue.sizes);
        law_sizes_sum_up(queue.sizes.skip(1), queue.sizes[0]);
    }
}

/// A new queue is empty, open and within every limit it was given.
pub proof fn law_a_new_queue_is_empty(
    threshold: usize,
    max_messages: usize,
    max_bytes: usize,
    reporter: ReporterView,
)
    ensures
        ({
            let queue = QueueView::fresh(threshold, max_messages, max_bytes, reporter);
            &&& queue.waiting.len() == 0 && queue.sizes.len() == 0 && queue.reports.len() == 0
            &&& !queue.warned && !queue.failed && !queue.closed
            &&& queue.threshold == threshold && queue.max_messages == max_messages
            &&& queue.max_bytes == max_bytes && queue.reporter == reporter
        }),
{
}

/// A failure that the client side reports is kept behind those before it.
pub proof fn law_reports_are_kept_in_order(
    queue: QueueView,
    category: ConnectionFailureCategory,
    direction: Option<ConnectionDirection>,
    method: Option<Seq<char>>,
    id: Option<RequestIdView>,
)
    ensures
        ({
            let after = reported_queue(queue, category, direction, method, id);
            &&& after.reports == queue.reports + told_outbound(
                queue.reporter,
                category,
                direction,
                method,
                id,
            )
            &&& after == (QueueView { reports: after.reports, ..queue })
        }),
{
    assert(queue.reports + Seq::<FailureView>::empty() =~= queue.reports);
}

/// Why a handle takes no work: its queue is closed, or it is itself.
pub open spec fn closed_for<T>(client: ClientView<T>) -> Option<ClientErrorView> {
    if client.queue.closed || client.phase == Phase::OutboundClosed {
        Some(ClientErrorView::OutboundClosed)
    } else if client.phase == Phase::ConnectionClosed {
        Some(ClientErrorView::ConnectionClosed)
    } else {
        None
    }
}

/// What a caller is told of a message that the queue does not take.
pub open spec fn told_to_the_caller(refusal: Option<SendErrorView>) -> Option<ClientErrorView> {
    match refusal {
        None => None,
        Some(SendErrorView::Overloaded) => Some(ClientErrorView::OutboundOverloaded),
        Some(SendErrorView::Closed) => Some(ClientErrorView::OutboundClosed),
        Some(SendErrorView::Serialize(error)) => Some(ClientErrorView::Serialize(error)),
    }
}

/// A new handle is open, traces nothing and has no progress.
pub proof fn law_a_new_handle_is_open<T>(
    queue: QueueView,
    registry: RegistryView<T>,
    timeout: Option<u128>,
)
    ensures
        ({
            let client = ClientView::fresh(queue, registry, timeout);
            &&& client.queue == queue && client.registry == registry && client.timeout == timeout
            &&& client.progress =~= Map::empty()
            &&& client.phase == Phase::Open && !client.closing
            &&& client.trace == TraceValue::Off
            &&& client.shut() == closed_for(client)
        }),
{
}

/// A handle that takes no work says why, and remembers that its queue is closed.
pub proof fn law_a_handle_says_why_it_is_closed<T>(client: ClientView<T>)
    ensures
        client.shut() == closed_for(client),
        client.queue.closed ==> client.looked().phase == Phase::OutboundClosed
            && client.looked().closing,
        !client.queue.closed ==> client.looked() == client,
        client.looked().queue == client.queue,
        client.looked().registry == client.registry,
        client.looked().progress == client.progress,
        client.looked().trace == client.trace,
        client.looked().timeout == client.timeout,
{
}

/// A notification of an open handle is offered to the queue with its method and its
/// encoded parameters, and nothing else changes; it fails exactly as the handle is
/// closed, the parameters are not encoded, or the queue does not take it.
pub proof fn law_a_notification_is_offered_to_the_queue<T>(
    client: ClientView<T>,
    method: Seq<char>,
    params: Result<Seq<u8>, Seq<char>>,
    size: Result<usize, Seq<char>>,
    requirement: DeliveryRequirement,
)
    ensures
        ({
            let failure = client.notify_failure(params, size);
            let after = client.notified(method, params, size, requirement);
            match (closed_for(client), params) {
                (Some(error), _) => failure == Some(error) && after == client.looked(),
                (None, Err(error)) => failure == Some(ClientErrorView::Serialize(error)) && after
                    == client,
                (None, Ok(params)) => {
                    let message = MessageView::Notification { method, params };
                    &&& failure == told_to_the_caller(client.queue.refusal(size))
                    &&& after == (ClientView {
                        queue: if requirement == DeliveryRequirement::Required {
                            client.queue.sent_required(message, size)
                        } else {
                            client.queue.sent(message, size)
                        },
                        ..client
                    })
                },
            }
        }),
{
}

/// A request of an open handle gets the next number, under which whoever waits is
/// kept; it fails exactly as the handle or its registry is closed, the parameters
/// are not encoded, or the numbers are used up.
pub proof fn law_a_request_gets_the_next_number<T>(
    client: ClientView<T>,
    params: Result<Seq<u8>, Seq<char>>,
    waiter: T,
)
    ensures
        ({
            let failure = client.reserve_failure(params);
            let after = client.reserved(params, waiter);
            match (closed_for(client), params) {
                (Some(error), _) => failure == Some(error) && after == client.looked(),
                (None, Err(error)) => failure == Some(ClientErrorView::Serialize(error)) && after
                    == client,
                (None, Ok(_)) => if client.registry.closed {
                    failure == Some(ClientErrorView::ConnectionClosed) && after == client
                } else if client.registry.next_id > 0x7fff_ffff {
                    failure == Some(ClientErrorView::IdExhausted) && after == client
                } else {
                    &&& failure is None
                    &&& after == (ClientView { registry: after.registry, ..client })
                    &&& after.registry.pending == client.registry.pending.insert(
                        client.registry.next_id,
                        waiter,
                    )
                    &&& after.registry.next_id == client.registry.next_id + 1
                },
            }
        }),
{
}

/// The message of a request carries its number, its method and its parameters.
pub proof fn law_a_request_says_what_is_asked<T>(
    client: ClientView<T>,
    method: Seq<char>,
    params: Result<Seq<u8>, Seq<char>>,
    guard: PendingGuard,
    message: RawMessage,
    error: ClientError,
)
    ensures
        reserved_as(client, method, params, Ok((guard, message))) ==> {
            &&& params is Ok
            &&& message@ == (MessageView::Request {
                id: RequestIdView::Number(client.registry.next_id as i32),
                method,
                params: params->Ok_0,
            })
            &&& guard@.id == client.registry.next_id
            &&& !guard@.enqueued
            &&& client.reserve_failure(params) is None
        },
        reserved_as(client, method, params, Err(error)) ==> client.reserve_failure(params) == Some(
            error@,
        ),
{
}

/// A numbered request of an open handle is offered to the queue; where it is not
/// taken, its number is pending no longer and the caller is told why.
pub proof fn law_a_numbered_request_is_offered_to_the_queue<T>(
    client: ClientView<T>,
    id: u32,
    message: MessageView,
    size: Result<usize, Seq<char>>,
)
    ensures
        ({
            let failure = client.enqueue_failure(size);
            let after = client.enqueued(id, message, size);
            &&& match closed_for(client) {
                Some(error) => {
                    &&& failure == Some(error)
                    &&& after.registry.pending == client.registry.pending.remove(id)
                    &&& after.queue == client.queue
                },
                None => {
                    &&& failure == told_to_the_caller(client.queue.refusal(size))
                    &&& after.queue == client.queue.sent(message, size)
                    &&& failure is None ==> after.registry == client.registry
                    &&& failure is Some ==> after.registry.pending
                        == client.registry.pending.remove(id)
                    &&& after.phase == client.phase
                },
            }
            &&& after.registry.next_id == client.registry.next_id
            &&& after.registry.closed == client.registry.closed
            &&& after.progress == client.progress
            &&& after.trace == client.trace
            &&& after.timeout == client.timeout
        }),
{
}

/// The peer is told of a cancelled request by its number.
pub proof fn law_a_cancellation_names_the_request(id: u32)
    ensures
        cancel_notice(id) == (MessageView::Notification {
            method: "$/cancelRequest"@,
            params: encode_utf8("{\"id\":"@ + decimal_text(id as int) + "}"@),
        }),
{
}

/// A request that is given up is pending no longer, and the peer is told exactly if
/// it had reached the wire; one that is not pending is left alone.
pub proof fn law_a_given_up_request_is_cancelled<T>(
    client: ClientView<T>,
    guard: GuardView,
    size: Result<usize, Seq<char>>,
)
    ensures
        ({
            let after = client.given_up(guard, size);
            let pending = client.registry.pending;
            let notice = MessageView::Notification {
                method: "$/cancelRequest"@,
                params: encode_utf8("{\"id\":"@ + decimal_text(guard.id as int) + "}"@),
            };
            &&& !pending.dom().contains(guard.id) ==> after == client
            &&& pending.dom().contains(guard.id) ==> {
                &&& after.registry.pending == pending.remove(guard.id)
                &&& after.registry.next_id == client.registry.next_id
                &&& after.registry.closed == client.registry.closed
                &&& guard.enqueued && closed_for(client) is None ==> after.queue
                    == client.queue.sent_required(notice, size)
                &&& !guard.enqueued || closed_for(client) is Some ==> after.queue == client.queue
            }
        }),
{
}

/// Whoever waits gets the body of the answer, the peer's error as it came, or why
/// there is no answer.
pub proof fn law_the_waiter_gets_the_answer(body: Seq<u8>, error: JsonRpcErrorView)
    ensures
        answered(Some(OutcomeView::Response(Ok(body)))) == Ok::<Seq<u8>, ClientErrorView>(body),
        answered(Some(OutcomeView::Response(Err(error)))) == Err::<Seq<u8>, ClientErrorView>(
            ClientErrorView::Remote(error),
        ),
        answered(Some(OutcomeView::Cancelled)) == Err::<Seq<u8>, ClientErrorView>(
            ClientErrorView::Cancelled,
        ),
        answered(None) == Err::<Seq<u8>, ClientErrorView>(ClientErrorView::OutboundClosed),
{
}

} // verus!
