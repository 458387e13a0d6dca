//! What a store holds, as one value, and what its operations make of it.
//!
//! `DatabaseView` is the content of a store without its representation: the
//! events and the reservations, each with its tokens. Looking things up,
//! refusing an operation and carrying one out are functions of that value,
//! and so is being well-formed. The lemmas show that every operation a
//! store does not refuse keeps it well-formed and lets it evolve forwards
//! only.

use vstd::prelude::*;

use crate::api::EventStatus;
use crate::clock::Timestamp;
use crate::db::DatabaseError;
use crate::ident::Id;
use crate::ledger::{confirmed_seats, fits, lemma_seats_none, lemma_seats_push, lemma_seats_update};
use crate::models::{
    confirmed_with, event_status, expired, scanned, stage_may_become, token_may_become,
    EventView, ReservationView, TokenView,
};

verus! {

/// What a store holds.
pub struct DatabaseView {
    pub events: Seq<EventView>,
    pub reservations: Seq<ReservationView>,
}

/// Whether `i` is the place of the event `id` among `events`.
pub open spec fn is_event_in(events: Seq<EventView>, i: int, id: Id) -> bool {
    0 <= i < events.len() && events[i].id == id
}

/// A place of the event `id` among `events`, where there is one.
pub open spec fn event_place_in(events: Seq<EventView>, id: Id) -> int {
    choose|i: int| is_event_in(events, i, id)
}

/// Whether `i` is the place of the reservation `id` among `reservations`.
pub open spec fn is_reservation_in(reservations: Seq<ReservationView>, i: int, id: Id) -> bool {
    0 <= i < reservations.len() && reservations[i].id == id
}

/// A place of the reservation `id` among `reservations`, where there is one.
pub open spec fn reservation_place_in(reservations: Seq<ReservationView>, id: Id) -> int {
    choose|i: int| is_reservation_in(reservations, i, id)
}

/// Whether `i` is the place of the reservation with the verification token
/// `token` among `reservations`.
pub open spec fn is_verified_by_in(
    reservations: Seq<ReservationView>,
    i: int,
    token: Seq<char>,
) -> bool {
    0 <= i < reservations.len() && reservations[i].verification_token == token
}

/// A place of the reservation with the verification token `token` among
/// `reservations`, where there is one.
pub open spec fn verification_place_in(
    reservations: Seq<ReservationView>,
    token: Seq<char>,
) -> int {
    choose|i: int| is_verified_by_in(reservations, i, token)
}

/// Whether seat token `k` of reservation `i` among `reservations` reads
/// `token`.
pub open spec fn is_seat_of_in(
    reservations: Seq<ReservationView>,
    i: int,
    k: int,
    token: Seq<char>,
) -> bool {
    &&& 0 <= i < reservations.len()
    &&& 0 <= k < reservations[i].tokens().len()
    &&& reservations[i].tokens()[k].token == token
}

/// A place of the seat token that reads `token` among `reservations`, where
/// there is one.
pub open spec fn seat_place_in(reservations: Seq<ReservationView>, token: Seq<char>) -> (
    int,
    int,
) {
    choose|place: (int, int)| is_seat_of_in(reservations, place.0, place.1, token)
}

impl DatabaseView {
    /// Whether `i` is the place of the event `id`.
    pub open spec fn is_event(self, i: int, id: Id) -> bool {
        is_event_in(self.events, i, id)
    }

    /// Whether the store has the event `id`.
    pub open spec fn has_event(self, id: Id) -> bool {
        exists|i: int| is_event_in(self.events, i, id)
    }

    /// The place of the event `id`, where the store has it.
    pub open spec fn event_place(self, id: Id) -> int {
        event_place_in(self.events, id)
    }

    /// The event `id`, where the store has it.
    pub open spec fn event(self, id: Id) -> EventView {
        self.events[self.event_place(id)]
    }

    /// Whether `i` is the place of the reservation `id`.
    pub open spec fn is_reservation(self, i: int, id: Id) -> bool {
        is_reservation_in(self.reservations, i, id)
    }

    /// Whether the store has the reservation `id`, in whatever state.
    pub open spec fn has_reservation(self, id: Id) -> bool {
        exists|i: int| is_reservation_in(self.reservations, i, id)
    }

    /// The place of the reservation `id`, where the store has it.
    pub open spec fn reservation_place(self, id: Id) -> int {
        reservation_place_in(self.reservations, id)
    }

    /// The reservation `id`, where the store has it.
    pub open spec fn reservation(self, id: Id) -> ReservationView {
        self.reservations[self.reservation_place(id)]
    }

    /// Whether `i` is the place of the reservation with the verification
    /// token `token`.
    pub open spec fn is_verified_by(self, i: int, token: Seq<char>) -> bool {
        is_verified_by_in(self.reservations, i, token)
    }

    /// Whether a reservation of the store has the verification token `token`.
    pub open spec fn has_verification_token(self, token: Seq<char>) -> bool {
        exists|i: int| is_verified_by_in(self.reservations, i, token)
    }

    /// The reservation with the verification token `token`, where the store
    /// has it.
    pub open spec fn reservation_verified_by(self, token: Seq<char>) -> ReservationView {
        self.reservations[verification_place_in(self.reservations, token)]
    }

    /// Whether reservation `i` has a seat token `k`.
    pub open spec fn is_seat(self, i: int, k: int) -> bool {
        0 <= i < self.reservations.len() && 0 <= k < self.reservations[i].tokens().len()
    }

    /// Seat token `k` of reservation `i`.
    pub open spec fn seat(self, i: int, k: int) -> TokenView {
        self.reservations[i].tokens()[k]
    }

    /// Whether seat token `k` of reservation `i` reads `token`.
    pub open spec fn is_seat_of(self, i: int, k: int, token: Seq<char>) -> bool {
        is_seat_of_in(self.reservations, i, k, token)
    }

    /// Whether a seat token of the store reads `token`, in whatever state.
    pub open spec fn has_seat_token(self, token: Seq<char>) -> bool {
        exists|i: int, k: int| is_seat_of_in(self.reservations, i, k, token)
    }

    /// Whether the store has any seat token.
    pub open spec fn has_seat_tokens(self) -> bool {
        exists|i: int, k: int| self.is_seat(i, k)
    }

    /// The place of the seat token that reads `token`, where the store has it.
    pub open spec fn seat_place(self, token: Seq<char>) -> (int, int) {
        seat_place_in(self.reservations, token)
    }

    /// The seat token that reads `token`, where the store has it.
    pub open spec fn seat_token(self, token: Seq<char>) -> TokenView {
        self.seat(self.seat_place(token).0, self.seat_place(token).1)
    }

    /// The reservation that owns the seat token `token`, where the store has
    /// it.
    pub open spec fn reservation_seated_by(self, token: Seq<char>) -> ReservationView {
        self.reservations[self.seat_place(token).0]
    }

    /// The confirmed seat count of the event `id`.
    pub open spec fn seats_taken(self, id: Id) -> nat {
        confirmed_seats(self.reservations, id)
    }

    /// The status of the event `id` at `now`, where the store has it.
    pub open spec fn status(self, id: Id, now: Timestamp) -> EventStatus {
        event_status(self.event(id).end_time, self.event(id).capacity, self.seats_taken(id), now)
    }

    /// The test for an event that is open at `now`.
    pub open spec fn is_open_at(self, now: Timestamp) -> spec_fn(EventView) -> bool {
        |event: EventView|
            event_status(event.end_time, event.capacity, self.seats_taken(event.id), now)
                == EventStatus::Open
    }

    /// The events that are open at `now`, in the order in which they were
    /// stored.
    pub open spec fn open_events(self, now: Timestamp) -> Seq<EventView> {
        self.events.filter(self.is_open_at(now))
    }
}

impl DatabaseView {
    /// No two events share an identifier.
    pub open spec fn unique_event_ids(self) -> bool {
        forall|i: int, j: int|
            0 <= i < j < self.events.len() ==> (#[trigger] self.events[i]).id != (
            #[trigger] self.events[j]).id
    }

    /// No two reservations share an identifier.
    pub open spec fn unique_reservation_ids(self) -> bool {
        forall|i: int, j: int|
            0 <= i < j < self.reservations.len() ==> (#[trigger] self.reservations[i]).id != (
            #[trigger] self.reservations[j]).id
    }

    /// No two reservations share a verification token.
    pub open spec fn unique_verification_tokens(self) -> bool {
        forall|i: int, j: int|
            0 <= i < j < self.reservations.len() ==> (
            #[trigger] self.reservations[i]).verification_token != (
            #[trigger] self.reservations[j]).verification_token
    }

    /// No two seat tokens read alike, within a reservation or across them.
    pub open spec fn unique_seat_tokens(self) -> bool {
        forall|i: int, k: int, j: int, l: int|
            self.is_seat(i, k) && self.is_seat(j, l) && (i != j || k != l) ==> (
            #[trigger] self.seat(i, k)).token != (#[trigger] self.seat(j, l)).token
    }

    /// Every stored reservation is pending or confirmed, belongs to a stored
    /// event, and holds one token of its own for each confirmed seat.
    pub open spec fn sound_reservations(self) -> bool {
        forall|i: int|
            0 <= i < self.reservations.len() ==> {
                &&& !((#[trigger] self.reservations[i]).stage is Creating)
                &&& self.reservations[i].tokens_match_spots()
                &&& self.has_event(self.reservations[i].event_id)
            }
    }

    /// Every event has a seat and ends after it starts.
    pub open spec fn sound_events(self) -> bool {
        forall|i: int|
            0 <= i < self.events.len() ==> {
                &&& (#[trigger] self.events[i]).capacity >= 1
                &&& self.events[i].start_time < self.events[i].end_time
            }
    }

    /// No event has more confirmed seats than capacity.
    pub open spec fn within_capacity(self) -> bool {
        forall|i: int|
            0 <= i < self.events.len() ==> self.seats_taken((#[trigger] self.events[i]).id)
                <= self.events[i].capacity
    }

    /// Whether the store is well-formed.
    pub open spec fn wf(self) -> bool {
        &&& self.unique_event_ids()
        &&& self.unique_reservation_ids()
        &&& self.unique_verification_tokens()
        &&& self.unique_seat_tokens()
        &&& self.sound_reservations()
        &&& self.sound_events()
        &&& self.within_capacity()
    }
}

/// Whether `candidate` is a confirmation of the pending reservation
/// `stored`: the same reservation, verified, with one active token of its
/// own for each of its spots.
pub open spec fn confirms(stored: ReservationView, candidate: ReservationView) -> bool {
    &&& stored.stage is Pending
    &&& candidate.stage is Confirmed
    &&& candidate == confirmed_with(
        stored,
        candidate.stage->Confirmed_verified_at,
        candidate.tokens(),
    )
    &&& candidate.tokens_match_spots()
    &&& candidate.all_tokens_active()
}

/// Whether the stored reservation `stored` is the pending reservation
/// `pending`, whatever it says of its last update: the two agree once both
/// are confirmed alike.
pub open spec fn agree(stored: ReservationView, pending: ReservationView) -> bool {
    &&& stored.stage is Pending
    &&& pending.stage is Pending
    &&& confirmed_with(stored, 0, Seq::empty()) == confirmed_with(
        pending,
        0,
        Seq::empty(),
    )
}

/// Why a confirmation of `spot_count` spots at `now` is refused by an event
/// that ends at `end_time` and seats `capacity`, of which `confirmed_seats`
/// are taken, if it is: the event has ended, or the seats do not fit.
pub open spec fn confirmation_refusal(
    end_time: Timestamp,
    capacity: u32,
    confirmed_seats: u32,
    spot_count: u32,
    now: Timestamp,
) -> Option<DatabaseError> {
    if now >= end_time {
        Some(DatabaseError::EventNotOpen)
    } else if !fits(confirmed_seats as nat, spot_count as nat, capacity as nat) {
        Some(DatabaseError::CapacityExceeded)
    } else {
        None
    }
}

/// The event that is opened at `now` under the identifier `id`.
pub open spec fn opened(
    id: Id,
    name: Seq<char>,
    description: Option<Seq<char>>,
    start_time: Timestamp,
    end_time: Timestamp,
    capacity: u32,
    location: Option<Seq<char>>,
    now: Timestamp,
) -> EventView {
    EventView {
        id,
        name,
        description,
        start_time,
        end_time,
        capacity,
        location,
        created_at: now,
        updated_at: now,
    }
}

/// The event `event` after an update at `now`.
pub open spec fn updated(
    event: EventView,
    name: Seq<char>,
    description: Option<Seq<char>>,
    start_time: Timestamp,
    end_time: Timestamp,
    capacity: u32,
    location: Option<Seq<char>>,
    now: Timestamp,
) -> EventView {
    EventView {
        name,
        description,
        start_time,
        end_time,
        capacity,
        location,
        updated_at: now,
        ..event
    }
}

/// Whether `events` are in the order of their start times, earliest first.
pub open spec fn by_start_time(events: Seq<EventView>) -> bool {
    forall|a: int, b: int|
        0 <= a < b < events.len() ==> (#[trigger] events[a]).start_time <= (
        #[trigger] events[b]).start_time
}

impl DatabaseView {
    /// The store with one more reservation.
    pub open spec fn with_reservation(self, reservation: ReservationView) -> DatabaseView {
        DatabaseView { reservations: self.reservations.push(reservation), ..self }
    }

    /// The store with `reservation` in place `i`.
    pub open spec fn with_reservation_at(self, i: int, reservation: ReservationView) -> DatabaseView {
        DatabaseView { reservations: self.reservations.update(i, reservation), ..self }
    }

    /// The store with one more event.
    pub open spec fn with_event(self, event: EventView) -> DatabaseView {
        DatabaseView { events: self.events.push(event), ..self }
    }

    /// The store with `event` in place `i`.
    pub open spec fn with_event_at(self, i: int, event: EventView) -> DatabaseView {
        DatabaseView { events: self.events.update(i, event), ..self }
    }

    /// The store with `token` as seat token `k` of reservation `i`.
    pub open spec fn with_seat(self, i: int, k: int, token: TokenView) -> DatabaseView {
        self.with_reservation_at(
            i,
            self.reservations[i].with_tokens(self.reservations[i].tokens().update(k, token)),
        )
    }

    /// Why the store refuses to insert `creating`, if it does: its event is
    /// unknown, or its identifier or verification token is already taken.
    pub open spec fn insert_refusal(self, creating: ReservationView) -> Option<DatabaseError> {
        if !self.has_event(creating.event_id) {
            Some(DatabaseError::EventNotFound)
        } else if self.has_reservation(creating.id) || self.has_verification_token(
            creating.verification_token,
        ) {
            Some(DatabaseError::TokenCollision)
        } else {
            None
        }
    }

    /// Whether one of `tokens` reads like a stored seat token or like another
    /// of them.
    pub open spec fn collides(self, tokens: Seq<TokenView>) -> bool {
        ||| exists|k: int| 0 <= k < tokens.len() && self.has_seat_token((#[trigger] tokens[k]).token)
        ||| exists|k: int, l: int|
            0 <= k < l < tokens.len() && (#[trigger] tokens[k]).token == (#[trigger] tokens[l]).token
    }

    /// Why the store refuses to commit the confirmation `candidate`, if it
    /// does. In this order: the store has no pending reservation that
    /// `candidate` confirms; the event has ended by the time of verification;
    /// the seats do not fit; a seat token is already taken.
    pub open spec fn confirm_refusal(self, candidate: ReservationView) -> Option<DatabaseError> {
        if !(self.has_reservation(candidate.id) && confirms(
            self.reservation(candidate.id),
            candidate,
        )) {
            Some(DatabaseError::ReservationNotFound)
        } else if candidate.stage->Confirmed_verified_at >= self.event(candidate.event_id).end_time {
            Some(DatabaseError::EventNotOpen)
        } else if !fits(
            self.seats_taken(candidate.event_id),
            candidate.spot_count as nat,
            self.event(candidate.event_id).capacity as nat,
        ) {
            Some(DatabaseError::CapacityExceeded)
        } else if self.collides(candidate.tokens()) {
            Some(DatabaseError::TokenCollision)
        } else {
            None
        }
    }

    /// Why the store refuses to confirm `pending` at `now` whatever tokens
    /// are minted, if it does. In this order: the store does not hold
    /// `pending` as a pending reservation; the event has ended; the seats do
    /// not fit.
    pub open spec fn confirm_precheck(self, pending: ReservationView, now: Timestamp) -> Option<
        DatabaseError,
    > {
        if !(self.has_reservation(pending.id) && agree(self.reservation(pending.id), pending)) {
            Some(DatabaseError::ReservationNotFound)
        } else if now >= self.event(pending.event_id).end_time {
            Some(DatabaseError::EventNotOpen)
        } else if !fits(
            self.seats_taken(pending.event_id),
            pending.spot_count as nat,
            self.event(pending.event_id).capacity as nat,
        ) {
            Some(DatabaseError::CapacityExceeded)
        } else {
            None
        }
    }

    /// The store after the confirmation `candidate` is committed.
    pub open spec fn with_confirmed(self, candidate: ReservationView) -> DatabaseView {
        self.with_reservation_at(self.reservation_place(candidate.id), candidate)
    }

    /// Whether the store has an active seat token that reads `token`.
    pub open spec fn scannable(self, token: Seq<char>) -> bool {
        self.has_seat_token(token) && self.seat_token(token).state is Active
    }

    /// The store after the seat token that reads `token` is scanned at `now`.
    pub open spec fn after_scan(self, token: Seq<char>, now: Timestamp) -> DatabaseView {
        let (i, k) = self.seat_place(token);
        self.with_seat(i, k, scanned(self.seat(i, k), now))
    }

    /// The store after the seat token that reads `token` is withdrawn.
    pub open spec fn after_expiry(self, token: Seq<char>) -> DatabaseView {
        let (i, k) = self.seat_place(token);
        self.with_seat(i, k, expired(self.seat(i, k)))
    }

    /// Why the store refuses to insert `event`, if it does.
    pub open spec fn event_refusal(self, event: EventView) -> Option<DatabaseError> {
        if event.capacity < 1 || event.start_time >= event.end_time {
            Some(DatabaseError::InvalidEvent)
        } else if self.has_event(event.id) {
            Some(DatabaseError::TokenCollision)
        } else {
            None
        }
    }

    /// Why the store refuses to update the event `id` at `now`, if it does.
    /// In this order: the store has no such event that is open; the event
    /// would have no seat or would not end after it starts; the event would
    /// have fewer seats than are confirmed.
    pub open spec fn update_refusal(
        self,
        id: Id,
        start_time: Timestamp,
        end_time: Timestamp,
        capacity: u32,
        now: Timestamp,
    ) -> Option<DatabaseError> {
        if !(self.has_event(id) && self.status(id, now) == EventStatus::Open) {
            Some(DatabaseError::EventNotFound)
        } else if capacity < 1 || start_time >= end_time {
            Some(DatabaseError::InvalidEvent)
        } else if self.seats_taken(id) > capacity {
            Some(DatabaseError::CapacityExceeded)
        } else {
            None
        }
    }

    /// Whether `next` holds the same events, and the same reservations in
    /// the same places and states, whatever has become of their seat tokens.
    pub open spec fn same_but_tokens(self, next: DatabaseView) -> bool {
        &&& next.events == self.events
        &&& next.reservations.len() == self.reservations.len()
        &&& forall|i: int|
            0 <= i < self.reservations.len() ==> #[trigger] next.reservations[i]
                == self.reservations[i].with_tokens(next.reservations[i].tokens())
    }

    /// Whether `next` is this store at a later time: every event and every
    /// reservation is still in its place under its identifier, no
    /// reservation has moved backwards, and every seat token is still there
    /// and has not moved back to active.
    pub open spec fn evolves_to(self, next: DatabaseView) -> bool {
        &&& self.events.len() <= next.events.len()
        &&& forall|i: int|
            0 <= i < self.events.len() ==> (#[trigger] next.events[i]).id == self.events[i].id
        &&& self.reservations.len() <= next.reservations.len()
        &&& forall|i: int|
            0 <= i < self.reservations.len() ==> {
                &&& (#[trigger] next.reservations[i]).id == self.reservations[i].id
                &&& stage_may_become(self.reservations[i].stage, next.reservations[i].stage)
            }
        &&& forall|i: int, k: int|
            self.is_seat(i, k) ==> {
                &&& next.is_seat(i, k)
                &&& (#[trigger] next.seat(i, k)).token == self.seat(i, k).token
                &&& token_may_become(self.seat(i, k).state, next.seat(i, k).state)
            }
    }
}

impl DatabaseView {
    /// In a store with unique event identifiers, the place of an event is the
    /// place that `event` picks.
    pub proof fn lemma_event_place(self, i: int, id: Id)
        requires
            self.unique_event_ids(),
            self.is_event(i, id),
        ensures
            self.has_event(id),
            self.event(id) == self.events[i],
    {
        let j = self.event_place(id);
        if i < j {
            assert(self.events[i].id != self.events[j].id);
        } else if j < i {
            assert(self.events[j].id != self.events[i].id);
        }
    }

    /// In a store with unique reservation identifiers, the place of a
    /// reservation is the place that `reservation` picks.
    pub proof fn lemma_reservation_place(self, i: int, id: Id)
        requires
            self.unique_reservation_ids(),
            self.is_reservation(i, id),
        ensures
            self.has_reservation(id),
            self.reservation(id) == self.reservations[i],
    {
        let j = self.reservation_place(id);
        if i < j {
            assert(self.reservations[i].id != self.reservations[j].id);
        } else if j < i {
            assert(self.reservations[j].id != self.reservations[i].id);
        }
    }

    /// In a store with unique verification tokens, the place of a token is
    /// the place that `reservation_verified_by` picks.
    pub proof fn lemma_verification_place(self, i: int, token: Seq<char>)
        requires
            self.unique_verification_tokens(),
            self.is_verified_by(i, token),
        ensures
            self.has_verification_token(token),
            self.reservation_verified_by(token) == self.reservations[i],
    {
        let j = verification_place_in(self.reservations, token);
        if i < j {
            assert(self.reservations[i].verification_token
                != self.reservations[j].verification_token);
        } else if j < i {
            assert(self.reservations[j].verification_token
                != self.reservations[i].verification_token);
        }
    }

    /// In a store with unique seat tokens, the place of a seat token is the
    /// place that `seat_place` picks.
    pub proof fn lemma_seat_place(self, i: int, k: int, token: Seq<char>)
        requires
            self.unique_seat_tokens(),
            self.is_seat_of(i, k, token),
        ensures
            self.has_seat_token(token),
            self.seat_place(token) == (i, k),
    {
        let here = (i, k);
        assert(is_seat_of_in(self.reservations, here.0, here.1, token));
        let place = self.seat_place(token);
        if place.0 != i || place.1 != k {
            assert(self.seat(place.0, place.1).token != self.seat(i, k).token);
        }
    }

    /// Where the store has a seat token that reads `token`, `seat_place` is
    /// the place of one.
    pub proof fn lemma_seat_place_found(self, token: Seq<char>)
        requires
            self.has_seat_token(token),
        ensures
            self.is_seat_of(self.seat_place(token).0, self.seat_place(token).1, token),
    {
        let (i, k) = choose|i: int, k: int| is_seat_of_in(self.reservations, i, k, token);
        let here = (i, k);
        assert(is_seat_of_in(self.reservations, here.0, here.1, token));
    }

    /// Tokens collide only where there are two of them or the store has a
    /// seat token already.
    pub proof fn lemma_collision_needs_tokens(self, tokens: Seq<TokenView>)
        requires
            self.collides(tokens),
        ensures
            tokens.len() >= 2 || self.has_seat_tokens(),
    {
        if exists|k: int|
            0 <= k < tokens.len() && self.has_seat_token((#[trigger] tokens[k]).token) {
            let k = choose|k: int|
                0 <= k < tokens.len() && self.has_seat_token((#[trigger] tokens[k]).token);
            let (i, l) = choose|i: int, l: int|
                is_seat_of_in(self.reservations, i, l, tokens[k].token);
            assert(self.is_seat(i, l));
        }
    }

    /// Every event of a well-formed store is within its capacity.
    pub proof fn lemma_event_within_capacity(self, id: Id)
        requires
            self.wf(),
            self.has_event(id),
        ensures
            self.seats_taken(id) <= self.event(id).capacity,
    {
        let i = self.event_place(id);
        assert(self.seats_taken(self.events[i].id) <= self.events[i].capacity);
    }

    /// An event that the store does not have has no seat taken, since every
    /// reservation belongs to a stored event.
    pub proof fn lemma_unknown_event_is_empty(self, id: Id)
        requires
            self.sound_reservations(),
            !self.has_event(id),
        ensures
            self.seats_taken(id) == 0,
    {
        assert forall|i: int| 0 <= i < self.reservations.len() implies (
        #[trigger] self.reservations[i]).event_id != id by {
            assert(self.has_event(self.reservations[i].event_id));
        }
        lemma_seats_none(self.reservations, id);
    }

    /// The events of a store are found again in any store with the same
    /// events.
    pub proof fn lemma_same_events(self, other: DatabaseView, id: Id)
        requires
            self.events == other.events,
        ensures
            self.has_event(id) == other.has_event(id),
            self.event(id) == other.event(id),
    {
    }

    /// Inserting a pending reservation that the store does not refuse keeps
    /// the store well-formed.
    pub proof fn lemma_insert_keeps_wf(self, pending: ReservationView)
        requires
            self.wf(),
            pending.stage is Pending,
            self.insert_refusal(pending) is None,
        ensures
            self.with_reservation(pending).wf(),
            self.evolves_to(self.with_reservation(pending)),
    {
        let next = self.with_reservation(pending);
        let n = self.reservations.len() as int;
        assert forall|i: int, j: int| 0 <= i < j < next.reservations.len() implies (
        #[trigger] next.reservations[i]).id != (#[trigger] next.reservations[j]).id by {
            if j == n {
                assert(!is_reservation_in(self.reservations, i, pending.id));
            } else {
                assert(self.reservations[i].id != self.reservations[j].id);
            }
        }
        assert forall|i: int, j: int| 0 <= i < j < next.reservations.len() implies (
        #[trigger] next.reservations[i]).verification_token != (
        #[trigger] next.reservations[j]).verification_token by {
            if j == n {
                assert(!is_verified_by_in(self.reservations, i, pending.verification_token));
            } else {
                assert(self.reservations[i].verification_token
                    != self.reservations[j].verification_token);
            }
        }
        assert forall|i: int, k: int| next.is_seat(i, k) implies self.is_seat(i, k) && next.seat(
            i,
            k,
        ) == self.seat(i, k) by {}
        assert forall|i: int, k: int, j: int, l: int|
            next.is_seat(i, k) && next.is_seat(j, l) && (i != j || k != l) implies (
        #[trigger] next.seat(i, k)).token != (#[trigger] next.seat(j, l)).token by {
            assert(self.seat(i, k).token != self.seat(j, l).token);
        }
        assert forall|i: int| 0 <= i < next.reservations.len() implies {
            &&& !((#[trigger] next.reservations[i]).stage is Creating)
            &&& next.reservations[i].tokens_match_spots()
            &&& next.has_event(next.reservations[i].event_id)
        } by {
            self.lemma_same_events(next, next.reservations[i].event_id);
            if i < n {
                assert(self.reservations[i] == next.reservations[i]);
            }
        }
        assert forall|i: int| 0 <= i < next.events.len() implies next.seats_taken(
            (#[trigger] next.events[i]).id,
        ) <= next.events[i].capacity by {
            lemma_seats_push(self.reservations, pending, self.events[i].id);
            assert(self.seats_taken(self.events[i].id) <= self.events[i].capacity);
        }
    }

    /// Every store evolves to itself.
    pub proof fn lemma_evolves_reflexive(self)
        ensures
            self.evolves_to(self),
    {
    }

    /// Committing a confirmation that the store does not refuse keeps the
    /// store well-formed.
    pub proof fn lemma_confirm_keeps_wf(self, i: int, candidate: ReservationView)
        requires
            self.wf(),
            self.is_reservation(i, candidate.id),
            confirms(self.reservations[i], candidate),
            fits(
                self.seats_taken(candidate.event_id),
                candidate.spot_count as nat,
                self.event(candidate.event_id).capacity as nat,
            ),
            !self.collides(candidate.tokens()),
        ensures
            self.with_reservation_at(i, candidate).wf(),
            self.evolves_to(self.with_reservation_at(i, candidate)),
    {
        let next = self.with_reservation_at(i, candidate);
        let stored = self.reservations[i];
        let fresh = candidate.tokens();
        assert(stored.tokens().len() == 0);
        assert forall|a: int, b: int| 0 <= a < b < next.reservations.len() implies (
        #[trigger] next.reservations[a]).id != (#[trigger] next.reservations[b]).id by {
            assert(self.reservations[a].id != self.reservations[b].id);
        }
        assert forall|a: int, b: int| 0 <= a < b < next.reservations.len() implies (
        #[trigger] next.reservations[a]).verification_token != (
        #[trigger] next.reservations[b]).verification_token by {
            assert(self.reservations[a].verification_token
                != self.reservations[b].verification_token);
        }
        assert forall|a: int, k: int, b: int, l: int|
            next.is_seat(a, k) && next.is_seat(b, l) && (a != b || k != l) implies (
        #[trigger] next.seat(a, k)).token != (#[trigger] next.seat(b, l)).token by {
            if a == i && b == i {
                if k < l {
                    assert(fresh[k].token != fresh[l].token);
                } else {
                    assert(fresh[l].token != fresh[k].token);
                }
            } else if a == i {
                assert(!self.has_seat_token(fresh[k].token));
                assert(!is_seat_of_in(self.reservations, b, l, fresh[k].token));
            } else if b == i {
                assert(!self.has_seat_token(fresh[l].token));
                assert(!is_seat_of_in(self.reservations, a, k, fresh[l].token));
            } else {
                assert(self.seat(a, k).token != self.seat(b, l).token);
            }
        }
        assert forall|a: int| 0 <= a < next.reservations.len() implies {
            &&& !((#[trigger] next.reservations[a]).stage is Creating)
            &&& next.reservations[a].tokens_match_spots()
            &&& next.has_event(next.reservations[a].event_id)
        } by {
            assert(self.has_event(self.reservations[a].event_id));
        }
        assert forall|e: int| 0 <= e < next.events.len() implies next.seats_taken(
            (#[trigger] next.events[e]).id,
        ) <= next.events[e].capacity by {
            let id = self.events[e].id;
            lemma_seats_update(self.reservations, i, candidate, id);
            assert(self.seats_taken(id) <= self.events[e].capacity);
            if id == candidate.event_id {
                self.lemma_event_place(e, id);
            }
        }
        assert forall|a: int, k: int| self.is_seat(a, k) implies {
            &&& next.is_seat(a, k)
            &&& (#[trigger] next.seat(a, k)).token == self.seat(a, k).token
            &&& token_may_become(self.seat(a, k).state, next.seat(a, k).state)
        } by {
            assert(a != i);
        }
    }

    /// Replacing a seat token by one of the same text and owner whose state
    /// has not moved backwards keeps the store well-formed.
    pub proof fn lemma_seat_change_keeps_wf(self, i: int, k: int, token: TokenView)
        requires
            self.wf(),
            self.is_seat(i, k),
            token.token == self.seat(i, k).token,
            token.reservation_id == self.seat(i, k).reservation_id,
            token_may_become(self.seat(i, k).state, token.state),
        ensures
            self.with_seat(i, k, token).wf(),
            self.evolves_to(self.with_seat(i, k, token)),
    {
        let next = self.with_seat(i, k, token);
        let before = self.reservations[i];
        let after = next.reservations[i];
        assert(before.stage is Confirmed);
        assert(after.tokens() == before.tokens().update(k, token));
        assert forall|a: int, l: int| self.is_seat(a, l) == next.is_seat(a, l) by {}
        assert forall|a: int, l: int| self.is_seat(a, l) implies (#[trigger] next.seat(
            a,
            l,
        )).token == self.seat(a, l).token && next.seat(a, l).reservation_id == self.seat(
            a,
            l,
        ).reservation_id && token_may_become(self.seat(a, l).state, next.seat(a, l).state) by {}
        assert forall|a: int, b: int| 0 <= a < b < next.reservations.len() implies (
        #[trigger] next.reservations[a]).id != (#[trigger] next.reservations[b]).id by {
            assert(self.reservations[a].id != self.reservations[b].id);
        }
        assert forall|a: int, b: int| 0 <= a < b < next.reservations.len() implies (
        #[trigger] next.reservations[a]).verification_token != (
        #[trigger] next.reservations[b]).verification_token by {
            assert(self.reservations[a].verification_token
                != self.reservations[b].verification_token);
        }
        assert forall|a: int, l: int, b: int, m: int|
            next.is_seat(a, l) && next.is_seat(b, m) && (a != b || l != m) implies (
        #[trigger] next.seat(a, l)).token != (#[trigger] next.seat(b, m)).token by {
            assert(self.is_seat(a, l) && self.is_seat(b, m));
            assert(self.seat(a, l).token != self.seat(b, m).token);
        }
        assert forall|a: int| 0 <= a < next.reservations.len() implies {
            &&& !((#[trigger] next.reservations[a]).stage is Creating)
            &&& next.reservations[a].tokens_match_spots()
            &&& next.has_event(next.reservations[a].event_id)
        } by {
            assert(self.reservations[a].tokens_match_spots());
            assert(self.has_event(self.reservations[a].event_id));
            if a == i {
                assert forall|l: int| 0 <= l < after.tokens().len() implies (
                #[trigger] after.tokens()[l]).reservation_id == after.id by {
                    assert(before.tokens()[l].reservation_id == before.id);
                }
            }
        }
        assert forall|e: int| 0 <= e < next.events.len() implies next.seats_taken(
            (#[trigger] next.events[e]).id,
        ) <= next.events[e].capacity by {
            let id = self.events[e].id;
            lemma_seats_update(self.reservations, i, after, id);
            assert(self.seats_taken(id) <= self.events[e].capacity);
        }
    }

    /// Replacing a seat token changes no event and no reservation's state.
    pub proof fn lemma_seat_change_keeps_states(self, i: int, k: int, token: TokenView)
        requires
            self.is_seat(i, k),
        ensures
            self.same_but_tokens(self.with_seat(i, k, token)),
    {
        let next = self.with_seat(i, k, token);
        assert(self.reservations[i].stage is Confirmed);
        assert forall|j: int| 0 <= j < self.reservations.len() implies #[trigger] next.reservations[j]
            == self.reservations[j].with_tokens(next.reservations[j].tokens()) by {
            if j != i {
                assert(next.reservations[j] == self.reservations[j]);
            }
        }
    }

    /// Scanning an active seat token keeps the store well-formed.
    pub proof fn lemma_scan_keeps_wf(self, i: int, k: int, now: Timestamp)
        requires
            self.wf(),
            self.is_seat(i, k),
            self.seat(i, k).state is Active,
        ensures
            self.with_seat(i, k, scanned(self.seat(i, k), now)).wf(),
            self.evolves_to(self.with_seat(i, k, scanned(self.seat(i, k), now))),
    {
        self.lemma_seat_change_keeps_wf(i, k, scanned(self.seat(i, k), now));
    }

    /// Inserting an event that the store does not refuse keeps the store
    /// well-formed.
    pub proof fn lemma_event_insert_keeps_wf(self, event: EventView)
        requires
            self.wf(),
            self.event_refusal(event) is None,
        ensures
            self.with_event(event).wf(),
            self.evolves_to(self.with_event(event)),
    {
        let next = self.with_event(event);
        let n = self.events.len() as int;
        assert forall|a: int, k: int, b: int, l: int|
            next.is_seat(a, k) && next.is_seat(b, l) && (a != b || k != l) implies (
        #[trigger] next.seat(a, k)).token != (#[trigger] next.seat(b, l)).token by {
            assert(self.seat(a, k).token != self.seat(b, l).token);
        }
        assert forall|a: int, b: int| 0 <= a < b < next.events.len() implies (
        #[trigger] next.events[a]).id != (#[trigger] next.events[b]).id by {
            if b == n {
                assert(!is_event_in(self.events, a, event.id));
            } else {
                assert(self.events[a].id != self.events[b].id);
            }
        }
        assert forall|a: int| 0 <= a < next.reservations.len() implies {
            &&& !((#[trigger] next.reservations[a]).stage is Creating)
            &&& next.reservations[a].tokens_match_spots()
            &&& next.has_event(next.reservations[a].event_id)
        } by {
            let id = self.reservations[a].event_id;
            assert(self.has_event(id));
            let e = self.event_place(id);
            assert(is_event_in(next.events, e, id));
        }
        assert forall|e: int| 0 <= e < next.events.len() implies next.seats_taken(
            (#[trigger] next.events[e]).id,
        ) <= next.events[e].capacity by {
            if e == n {
                self.lemma_unknown_event_is_empty(event.id);
            } else {
                assert(self.seats_taken(self.events[e].id) <= self.events[e].capacity);
            }
        }
        assert forall|a: int| 0 <= a < next.events.len() implies {
            &&& (#[trigger] next.events[a]).capacity >= 1
            &&& next.events[a].start_time < next.events[a].end_time
        } by {
            if a < n {
                assert(self.events[a].capacity >= 1);
            }
        }
    }

    /// Replacing an event by one of the same identifier that is sound and
    /// seats all that is confirmed keeps the store well-formed.
    pub proof fn lemma_event_update_keeps_wf(self, i: int, event: EventView)
        requires
            self.wf(),
            self.is_event(i, event.id),
            event.capacity >= 1,
            event.start_time < event.end_time,
            self.seats_taken(event.id) <= event.capacity,
        ensures
            self.with_event_at(i, event).wf(),
            self.evolves_to(self.with_event_at(i, event)),
    {
        let next = self.with_event_at(i, event);
        assert forall|a: int, k: int, b: int, l: int|
            next.is_seat(a, k) && next.is_seat(b, l) && (a != b || k != l) implies (
        #[trigger] next.seat(a, k)).token != (#[trigger] next.seat(b, l)).token by {
            assert(self.seat(a, k).token != self.seat(b, l).token);
        }
        assert forall|a: int, b: int| 0 <= a < b < next.events.len() implies (
        #[trigger] next.events[a]).id != (#[trigger] next.events[b]).id by {
            assert(self.events[a].id != self.events[b].id);
        }
        assert forall|a: int| 0 <= a < next.reservations.len() implies {
            &&& !((#[trigger] next.reservations[a]).stage is Creating)
            &&& next.reservations[a].tokens_match_spots()
            &&& next.has_event(next.reservations[a].event_id)
        } by {
            let id = self.reservations[a].event_id;
            assert(self.has_event(id));
            let e = self.event_place(id);
            assert(is_event_in(next.events, e, id));
        }
        assert forall|e: int| 0 <= e < next.events.len() implies next.seats_taken(
            (#[trigger] next.events[e]).id,
        ) <= next.events[e].capacity by {
            assert(self.seats_taken(self.events[e].id) <= self.events[e].capacity);
        }
        assert forall|a: int| 0 <= a < next.events.len() implies {
            &&& (#[trigger] next.events[a]).capacity >= 1
            &&& next.events[a].start_time < next.events[a].end_time
        } by {
            if a != i {
                assert(self.events[a].capacity >= 1);
            }
        }
    }
}

} // verus!
