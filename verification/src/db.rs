//! The store: events and reservations, with the operations that the
//! reservation lifecycle needs from persistence.
//!
//! `Database` keeps everything in memory. Every operation is one transaction:
//! it either takes effect as a whole or leaves the store as it was, and all
//! of them keep the store well-formed. In a well-formed store no event has
//! more confirmed seats than capacity, identifiers and tokens are unique, and
//! a confirmed reservation holds one token for each of its seats.

use vstd::prelude::*;

use crate::api::EventStatus;
use crate::clock::Timestamp;
use crate::db_view::{
    agree, by_start_time, confirmation_refusal, confirms, is_event_in, is_reservation_in,
    is_seat_of_in, is_verified_by_in, opened, updated, DatabaseView,
};
use crate::ident::{fresh_id, is_random_id, parse_id, parsed_uuid, Id};
use crate::ledger::{
    confirmed_seats, fits, has_capacity, lemma_seats_prefix, lemma_seats_step,
};
use crate::models::{
    confirmed_with, created, event_status, expired, minted_for, scanned, token_views, AnyEvent,
    AnyReservation, AnyReservationToken, Confirmed, ConfirmedReservation, CreatingReservation,
    Event, EventView, Open, OpenEvent, PendingReservation, Reservation,
};
use crate::text::{borrowed_text_of, owned_text, str_eq};

verus! {

/// Makes `sqlx::Error` known as a type, so that a failure of a storage
/// engine can be carried in a `DatabaseError`. Nothing is said of what such
/// a value holds.
#[verifier::external_type_specification]
#[verifier::external_body]
pub struct ExSqlxError(sqlx::Error);

/// Why the store refused an operation.
#[derive(Debug)]
pub enum DatabaseError {
    /// A failure of the storage engine itself.
    SqlxError(sqlx::Error),
    /// No such event, or none in the state asked for.
    EventNotFound,
    /// No such reservation, or none in the state asked for.
    ReservationNotFound,
    /// No such seat token, or one that is no longer active.
    TokenInvalid,
    /// The confirmation would take more seats than the event has.
    CapacityExceeded,
    /// The event's end time has passed.
    EventNotOpen,
    /// A freshly drawn identifier or token is already taken; draw again.
    TokenCollision,
    /// The event would have no seat, or would not end after it starts.
    InvalidEvent,
}

impl DatabaseError {
    /// Whether the operation is worth one more try with freshly drawn
    /// identifiers and tokens: so it is after a collision, and after nothing
    /// else.
    pub fn is_retryable(&self) -> (b: bool)
        ensures
            b == (self is TokenCollision),
    {
        matches!(self, DatabaseError::TokenCollision)
    }
}

/// A store that keeps its events and reservations in memory: the measure
/// of what any store of the service has to do.
pub struct Database {
    events: Vec<Event<Open>>,
    reservations: Vec<AnyReservation>,
}

impl View for Database {
    type V = DatabaseView;

    closed spec fn view(&self) -> DatabaseView {
        DatabaseView {
            events: self.events@.map_values(|event: Event<Open>| event@),
            reservations: self.reservations@.map_values(|reservation: AnyReservation| reservation@),
        }
    }
}

impl Database {
    /// An empty store.
    pub fn new() -> (db: Self)
        ensures
            db@.events.len() == 0,
            db@.reservations.len() == 0,
            db@.wf(),
    {
        Database { events: Vec::new(), reservations: Vec::new() }
    }

    /// The place of the event `id`.
    fn find_event(&self, id: Id) -> (place: Option<usize>)
        ensures
            match place {
                Some(i) => self@.is_event(i as int, id),
                None => !self@.has_event(id),
            },
    {
        let mut i: usize = 0;
        while i < self.events.len()
            invariant
                i <= self.events.len(),
                forall|j: int| 0 <= j < i ==> !is_event_in(self@.events, j, id),
            decreases self.events.len() - i,
        {
            if self.events[i].id == id {
                return Some(i);
            }
            i += 1;
        }
        None
    }

    /// The place of the reservation `id`.
    fn find_reservation(&self, id: Id) -> (place: Option<usize>)
        ensures
            match place {
                Some(i) => self@.is_reservation(i as int, id),
                None => !self@.has_reservation(id),
            },
    {
        let mut i: usize = 0;
        while i < self.reservations.len()
            invariant
                i <= self.reservations.len(),
                forall|j: int| 0 <= j < i ==> !is_reservation_in(self@.reservations, j, id),
            decreases self.reservations.len() - i,
        {
            if self.reservations[i].id() == id {
                return Some(i);
            }
            i += 1;
        }
        None
    }

    /// The place of the reservation with the verification token `token`.
    fn find_verification_token(&self, token: &str) -> (place: Option<usize>)
        ensures
            match place {
                Some(i) => self@.is_verified_by(i as int, token@),
                None => !self@.has_verification_token(token@),
            },
    {
        let mut i: usize = 0;
        while i < self.reservations.len()
            invariant
                i <= self.reservations.len(),
                forall|j: int| 0 <= j < i ==> !is_verified_by_in(self@.reservations, j, token@),
            decreases self.reservations.len() - i,
        {
            if str_eq(self.reservations[i].verification_token(), token) {
                return Some(i);
            }
            i += 1;
        }
        None
    }

    /// The place of the seat token that reads `token`.
    fn find_seat_token(&self, token: &str) -> (place: Option<(usize, usize)>)
        ensures
            match place {
                Some((i, k)) => self@.is_seat_of(i as int, k as int, token@),
                None => !self@.has_seat_token(token@),
            },
    {
        let mut i: usize = 0;
        while i < self.reservations.len()
            invariant
                i <= self.reservations.len(),
                forall|j: int, l: int|
                    0 <= j < i ==> !is_seat_of_in(self@.reservations, j, l, token@),
            decreases self.reservations.len() - i,
        {
            if let AnyReservation::Confirmed(reservation) = &self.reservations[i] {
                let tokens = &reservation.status.reservation_tokens;
                assert(self@.reservations[i as int].tokens() == token_views(tokens@));
                let mut k: usize = 0;
                while k < tokens.len()
                    invariant
                        i < self.reservations.len(),
                        k <= tokens.len(),
                        self@.reservations[i as int].tokens() == token_views(tokens@),
                        forall|l: int|
                            0 <= l < k ==> !is_seat_of_in(
                                self@.reservations,
                                i as int,
                                l,
                                token@,
                            ),
                    decreases tokens.len() - k,
                {
                    if str_eq(tokens[k].token(), token) {
                        return Some((i, k));
                    }
                    k += 1;
                }
            }
            i += 1;
        }
        None
    }
}

impl Database {
    /// The confirmed seat count of the event `event_id`: the sum of the spots
    /// of its confirmed reservations. Pending reservations take no seat.
    pub fn count_event_reservations(&self, event_id: Id) -> (seats: u32)
        requires
            self@.wf(),
        ensures
            seats == self@.seats_taken(event_id),
    {
        let ghost all = self@.reservations;
        proof {
            if self@.has_event(event_id) {
                self@.lemma_event_within_capacity(event_id);
            } else {
                self@.lemma_unknown_event_is_empty(event_id);
            }
        }
        let mut seats: u32 = 0;
        let mut i: usize = 0;
        while i < self.reservations.len()
            invariant
                i <= self.reservations.len(),
                all == self@.reservations,
                confirmed_seats(all, event_id) <= u32::MAX,
                seats == confirmed_seats(all.take(i as int), event_id),
            decreases self.reservations.len() - i,
        {
            proof {
                lemma_seats_step(all, i as int, event_id);
                lemma_seats_prefix(all, i + 1, event_id);
            }
            if let AnyReservation::Confirmed(reservation) = &self.reservations[i] {
                if reservation.event_id == event_id {
                    seats = seats + reservation.spot_count;
                }
            }
            i += 1;
        }
        assert(all.take(i as int) =~= all);
        seats
    }

    /// The event `event_id` in its state at `now`.
    pub fn get_event_by_id(&self, event_id: Id, now: Timestamp) -> (r: Result<
        AnyEvent,
        DatabaseError,
    >)
        requires
            self@.wf(),
        ensures
            match r {
                Ok(event) => {
                    &&& self@.has_event(event_id)
                    &&& event@ == self@.event(event_id)
                    &&& event.status() == self@.status(event_id, now)
                },
                Err(e) => e is EventNotFound && !self@.has_event(event_id),
            },
    {
        match self.find_event(event_id) {
            Some(i) => {
                proof {
                    self@.lemma_event_place(i as int, event_id);
                }
                let seats = self.count_event_reservations(event_id);
                Ok(self.events[i].classify(seats as u64, now))
            },
            None => Err(DatabaseError::EventNotFound),
        }
    }

    /// The event `event_id`, if it is open at `now`: not past its end time and
    /// not full.
    pub fn get_open_event_by_id(&self, event_id: Id, now: Timestamp) -> (r: Result<
        OpenEvent,
        DatabaseError,
    >)
        requires
            self@.wf(),
        ensures
            r is Ok <==> self@.has_event(event_id) && self@.status(event_id, now)
                == EventStatus::Open,
            r matches Ok(event) ==> event@ == self@.event(event_id),
            r matches Err(e) ==> e is EventNotFound,
    {
        match self.get_event_by_id(event_id, now) {
            Ok(AnyEvent::Open(event)) => Ok(event),
            _ => Err(DatabaseError::EventNotFound),
        }
    }

    /// Whether `requested_spots` more seats fit the event `event_id`.
    pub fn has_capacity(&self, event_id: Id, requested_spots: u32) -> (r: Result<
        bool,
        DatabaseError,
    >)
        requires
            self@.wf(),
        ensures
            r is Ok <==> self@.has_event(event_id),
            r matches Ok(ok) ==> ok == fits(
                self@.seats_taken(event_id),
                requested_spots as nat,
                self@.event(event_id).capacity as nat,
            ),
            r matches Err(e) ==> e is EventNotFound,
    {
        match self.find_event(event_id) {
            Some(i) => {
                proof {
                    self@.lemma_event_place(i as int, event_id);
                }
                let seats = self.count_event_reservations(event_id);
                Ok(has_capacity(seats, requested_spots, self.events[i].capacity))
            },
            None => Err(DatabaseError::EventNotFound),
        }
    }

    /// Whether the open event `event_id` has a seat left at `now`. An open
    /// event has one, so that the answer is `true` or an error; for any
    /// number of spots, see `has_capacity`.
    pub fn check_open_event_capacity(&self, event_id: Id, now: Timestamp) -> (r: Result<
        bool,
        DatabaseError,
    >)
        requires
            self@.wf(),
        ensures
            r is Ok <==> self@.has_event(event_id) && self@.status(event_id, now)
                == EventStatus::Open,
            r matches Ok(ok) ==> ok == (self@.seats_taken(event_id) < self@.event(
                event_id,
            ).capacity),
            r matches Err(e) ==> e is EventNotFound,
    {
        match self.get_open_event_by_id(event_id, now) {
            Ok(event) => {
                let seats = self.count_event_reservations(event_id);
                Ok(seats < event.capacity)
            },
            Err(e) => Err(e),
        }
    }

    /// The pending reservation `reservation_id`. A reservation that is
    /// already confirmed is not found.
    pub fn get_pending_reservation_by_id(&self, reservation_id: Id) -> (r: Result<
        PendingReservation,
        DatabaseError,
    >)
        requires
            self@.wf(),
        ensures
            r is Ok <==> self@.has_reservation(reservation_id) && self@.reservation(
                reservation_id,
            ).stage is Pending,
            r matches Ok(pending) ==> pending@ == self@.reservation(reservation_id),
            r matches Err(e) ==> e is ReservationNotFound,
    {
        match self.find_reservation(reservation_id) {
            Some(i) => {
                proof {
                    self@.lemma_reservation_place(i as int, reservation_id);
                }
                match &self.reservations[i] {
                    AnyReservation::Pending(pending) => Ok(pending.clone()),
                    _ => Err(DatabaseError::ReservationNotFound),
                }
            },
            None => Err(DatabaseError::ReservationNotFound),
        }
    }

    /// The confirmed reservation `reservation_id`. A reservation that is
    /// still pending is not found.
    pub fn get_confirmed_reservation_by_id(&self, reservation_id: Id) -> (r: Result<
        ConfirmedReservation,
        DatabaseError,
    >)
        requires
            self@.wf(),
        ensures
            r is Ok <==> self@.has_reservation(reservation_id) && self@.reservation(
                reservation_id,
            ).stage is Confirmed,
            r matches Ok(confirmed) ==> confirmed@ == self@.reservation(reservation_id),
            r matches Err(e) ==> e is ReservationNotFound,
    {
        match self.find_reservation(reservation_id) {
            Some(i) => {
                proof {
                    self@.lemma_reservation_place(i as int, reservation_id);
                }
                match &self.reservations[i] {
                    AnyReservation::Confirmed(confirmed) => Ok(confirmed.clone()),
                    _ => Err(DatabaseError::ReservationNotFound),
                }
            },
            None => Err(DatabaseError::ReservationNotFound),
        }
    }

    /// The pending reservation with the verification token `token`.
    pub fn get_pending_reservation_by_verification_token(&self, token: &str) -> (r: Result<
        PendingReservation,
        DatabaseError,
    >)
        requires
            self@.wf(),
        ensures
            r is Ok <==> self@.has_verification_token(token@) && self@.reservation_verified_by(
                token@,
            ).stage is Pending,
            r matches Ok(pending) ==> pending@ == self@.reservation_verified_by(token@),
            r matches Err(e) ==> e is ReservationNotFound,
    {
        match self.find_verification_token(token) {
            Some(i) => {
                proof {
                    self@.lemma_verification_place(i as int, token@);
                }
                match &self.reservations[i] {
                    AnyReservation::Pending(pending) => Ok(pending.clone()),
                    _ => Err(DatabaseError::ReservationNotFound),
                }
            },
            None => Err(DatabaseError::ReservationNotFound),
        }
    }

    /// The confirmed reservation with the verification token `token`.
    pub fn get_confirmed_reservation_by_verification_token(&self, token: &str) -> (r: Result<
        ConfirmedReservation,
        DatabaseError,
    >)
        requires
            self@.wf(),
        ensures
            r is Ok <==> self@.has_verification_token(token@) && self@.reservation_verified_by(
                token@,
            ).stage is Confirmed,
            r matches Ok(confirmed) ==> confirmed@ == self@.reservation_verified_by(token@),
            r matches Err(e) ==> e is ReservationNotFound,
    {
        match self.find_verification_token(token) {
            Some(i) => {
                proof {
                    self@.lemma_verification_place(i as int, token@);
                }
                match &self.reservations[i] {
                    AnyReservation::Confirmed(confirmed) => Ok(confirmed.clone()),
                    _ => Err(DatabaseError::ReservationNotFound),
                }
            },
            None => Err(DatabaseError::ReservationNotFound),
        }
    }

    /// The pending reservation that owns the seat token `token`. Seat tokens
    /// are minted at confirmation, so none is ever found.
    pub fn get_pending_reservation_by_reservation_token(&self, token: &str) -> (r: Result<
        PendingReservation,
        DatabaseError,
    >)
        requires
            self@.wf(),
        ensures
            r matches Err(e) && e is ReservationNotFound,
    {
        match self.find_seat_token(token) {
            Some((i, k)) => {
                match &self.reservations[i] {
                    AnyReservation::Pending(pending) => Ok(pending.clone()),
                    _ => Err(DatabaseError::ReservationNotFound),
                }
            },
            None => Err(DatabaseError::ReservationNotFound),
        }
    }

    /// The confirmed reservation that owns the seat token `token`, whatever
    /// the token's state.
    pub fn get_confirmed_reservation_by_reservation_token(&self, token: &str) -> (r: Result<
        ConfirmedReservation,
        DatabaseError,
    >)
        requires
            self@.wf(),
        ensures
            r is Ok <==> self@.has_seat_token(token@),
            r matches Ok(confirmed) ==> confirmed@ == self@.reservation_seated_by(token@),
            r matches Err(e) ==> e is ReservationNotFound,
    {
        match self.find_seat_token(token) {
            Some((i, k)) => {
                proof {
                    self@.lemma_seat_place(i as int, k as int, token@);
                }
                match &self.reservations[i] {
                    AnyReservation::Confirmed(confirmed) => Ok(confirmed.clone()),
                    _ => Err(DatabaseError::ReservationNotFound),
                }
            },
            None => Err(DatabaseError::ReservationNotFound),
        }
    }
}

/// The check that belongs in the transaction of a confirmation: whether
/// `event`, with `confirmed_seats` taken as that transaction reads them,
/// still takes `spot_count` more at `now`.
pub fn check_confirmation<State>(
    event: &Event<State>,
    confirmed_seats: u32,
    spot_count: u32,
    now: Timestamp,
) -> (r: Result<(), DatabaseError>)
    ensures
        r is Ok <==> confirmation_refusal(
            event.end_time,
            event.capacity,
            confirmed_seats,
            spot_count,
            now,
        ) is None,
        r matches Err(e) ==> confirmation_refusal(
            event.end_time,
            event.capacity,
            confirmed_seats,
            spot_count,
            now,
        ) == Some(e),
{
    if now >= event.end_time {
        return Err(DatabaseError::EventNotOpen);
    }
    if !has_capacity(confirmed_seats, spot_count, event.capacity) {
        return Err(DatabaseError::CapacityExceeded);
    }
    Ok(())
}

/// The check on an event before it is stored: it has a seat, and it ends
/// after it starts.
pub fn check_event(start_time: Timestamp, end_time: Timestamp, capacity: u32) -> (r: Result<
    (),
    DatabaseError,
>)
    ensures
        r is Ok <==> capacity >= 1 && start_time < end_time,
        r matches Err(e) ==> e is InvalidEvent,
{
    if capacity < 1 || start_time >= end_time {
        return Err(DatabaseError::InvalidEvent);
    }
    Ok(())
}

/// The check on an update of `event`, of which `confirmed_seats` are taken,
/// at `now`: the event is open, what it is to become has a seat and ends
/// after it starts, and it keeps a seat for every one that is confirmed.
pub fn check_update<State>(
    event: &Event<State>,
    confirmed_seats: u32,
    start_time: Timestamp,
    end_time: Timestamp,
    capacity: u32,
    now: Timestamp,
) -> (r: Result<(), DatabaseError>)
    ensures
        r is Ok <==> event_status(event.end_time, event.capacity, confirmed_seats as nat, now)
            == EventStatus::Open && capacity >= 1 && start_time < end_time && confirmed_seats
            <= capacity,
        r matches Err(e) ==> if event_status(
            event.end_time,
            event.capacity,
            confirmed_seats as nat,
            now,
        ) != EventStatus::Open {
            e is EventNotFound
        } else if capacity < 1 || start_time >= end_time {
            e is InvalidEvent
        } else {
            e is CapacityExceeded
        },
{
    match event.status_at(confirmed_seats as u64, now) {
        EventStatus::Open => {},
        _ => {
            return Err(DatabaseError::EventNotFound);
        },
    }
    match check_event(start_time, end_time, capacity) {
        Ok(()) => {},
        Err(refusal) => {
            return Err(refusal);
        },
    }
    if confirmed_seats > capacity {
        return Err(DatabaseError::CapacityExceeded);
    }
    Ok(())
}

/// What a conditional update of a seat token from active to used says of the
/// scan: it succeeded where the update changed a row, and the token was
/// absent or no longer active where it changed none.
pub fn scan_outcome(rows_affected: u64) -> (r: Result<(), DatabaseError>)
    ensures
        r is Ok <==> rows_affected > 0,
        r matches Err(e) ==> e is TokenInvalid,
{
    if rows_affected == 0 {
        return Err(DatabaseError::TokenInvalid);
    }
    Ok(())
}

/// Whether `confirmed` holds one active token of its own for each spot.
fn freshly_minted(confirmed: &ConfirmedReservation) -> (ok: bool)
    ensures
        ok == (confirmed@.tokens_match_spots() && confirmed@.all_tokens_active()),
{
    let tokens = &confirmed.status.reservation_tokens;
    let ghost views = confirmed@.tokens();
    assert(views == token_views(tokens@));
    if tokens.len() != confirmed.spot_count as usize {
        return false;
    }
    let mut k: usize = 0;
    while k < tokens.len()
        invariant
            k <= tokens.len(),
            views == confirmed@.tokens(),
            views == token_views(tokens@),
            forall|l: int|
                0 <= l < k ==> (#[trigger] views[l]).state is Active && views[l].reservation_id
                    == confirmed.id,
        decreases tokens.len() - k,
    {
        if !tokens[k].is_active() || tokens[k].reservation_id() != confirmed.id {
            assert(views[k as int] == tokens[k as int]@);
            return false;
        }
        assert(views[k as int] == tokens[k as int]@);
        k += 1;
    }
    true
}

impl Database {
    /// Whether one of `tokens` reads like a stored seat token or like another
    /// of them.
    fn collides_with(&self, tokens: &Vec<AnyReservationToken>) -> (found: bool)
        ensures
            found == self@.collides(token_views(tokens@)),
    {
        let ghost views = token_views(tokens@);
        let mut k: usize = 0;
        while k < tokens.len()
            invariant
                k <= tokens.len(),
                views == token_views(tokens@),
                forall|a: int| 0 <= a < k ==> !self@.has_seat_token((#[trigger] views[a]).token),
                forall|a: int, b: int|
                    0 <= a < k && a < b < views.len() ==> (#[trigger] views[a]).token != (
                    #[trigger] views[b]).token,
            decreases tokens.len() - k,
        {
            assert(views[k as int] == tokens[k as int]@);
            if self.find_seat_token(tokens[k].token()).is_some() {
                return true;
            }
            let mut l: usize = k + 1;
            while l < tokens.len()
                invariant
                    k < l <= tokens.len(),
                    views == token_views(tokens@),
                    forall|b: int|
                        k < b < l ==> views[k as int].token != (#[trigger] views[b]).token,
                decreases tokens.len() - l,
            {
                assert(views[l as int] == tokens[l as int]@);
                if str_eq(tokens[k].token(), tokens[l].token()) {
                    return true;
                }
                l += 1;
            }
            k += 1;
        }
        false
    }

    /// Stores `creating_reservation` as a pending reservation created at
    /// `now`, and hands back a copy of what was stored.
    ///
    /// Fails, and leaves the store as it was, where the event is unknown
    /// (`EventNotFound`) or where the identifier or the verification token is
    /// already taken (`TokenCollision`: prepare the reservation again).
    pub fn insert_reservation(
        &mut self,
        creating_reservation: CreatingReservation,
        now: Timestamp,
    ) -> (r: Result<PendingReservation, DatabaseError>)
        requires
            old(self)@.wf(),
        ensures
            final(self)@.wf(),
            old(self)@.evolves_to(final(self)@),
            match r {
                Ok(pending) => {
                    &&& old(self)@.insert_refusal(creating_reservation@) is None
                    &&& pending@ == created(creating_reservation@, now)
                    &&& final(self)@ == old(self)@.with_reservation(pending@)
                },
                Err(e) => {
                    &&& old(self)@.insert_refusal(creating_reservation@) == Some(e)
                    &&& final(self)@ == old(self)@
                },
            },
    {
        proof {
            self@.lemma_evolves_reflexive();
        }
        if self.find_event(creating_reservation.event_id).is_none() {
            return Err(DatabaseError::EventNotFound);
        }
        if self.find_reservation(creating_reservation.id).is_some()
            || self.find_verification_token(
            creating_reservation.verification_token.0.as_str(),
        ).is_some() {
            return Err(DatabaseError::TokenCollision);
        }
        let pending = creating_reservation.create(now);
        let stored = pending.clone();
        proof {
            self@.lemma_insert_keeps_wf(pending@);
        }
        self.reservations.push(AnyReservation::Pending(stored));
        assert(self@.reservations =~= old(self)@.reservations.push(pending@));
        Ok(pending)
    }

    /// Commits the confirmation `confirmed` of a stored pending reservation:
    /// the capacity check, the change of state and the minting of the seat
    /// tokens take effect together or not at all.
    ///
    /// Fails, and leaves the store as it was, with the error that
    /// `confirm_refusal` gives.
    pub fn confirm_transactional(&mut self, confirmed: ConfirmedReservation) -> (r: Result<
        ConfirmedReservation,
        DatabaseError,
    >)
        requires
            old(self)@.wf(),
        ensures
            final(self)@.wf(),
            old(self)@.evolves_to(final(self)@),
            match r {
                Ok(stored) => {
                    &&& old(self)@.confirm_refusal(confirmed@) is None
                    &&& stored@ == confirmed@
                    &&& final(self)@ == old(self)@.with_confirmed(confirmed@)
                },
                Err(e) => {
                    &&& old(self)@.confirm_refusal(confirmed@) == Some(e)
                    &&& final(self)@ == old(self)@
                },
            },
    {
        proof {
            self@.lemma_evolves_reflexive();
        }
        let i = match self.find_reservation(confirmed.id) {
            Some(i) => i,
            None => {
                return Err(DatabaseError::ReservationNotFound);
            },
        };
        proof {
            self@.lemma_reservation_place(i as int, confirmed.id);
        }
        let sound = freshly_minted(&confirmed);
        let same = match &self.reservations[i] {
            AnyReservation::Pending(stored) => {
                stored.event_id == confirmed.event_id && stored.spot_count == confirmed.spot_count
                    && stored.status.created_at == confirmed.status.created_at
                    && confirmed.status.updated_at == confirmed.status.verified_at && str_eq(
                    stored.user_name.as_str(),
                    confirmed.user_name.as_str(),
                ) && str_eq(stored.user_email.as_str(), confirmed.user_email.as_str()) && str_eq(
                    stored.verification_token.0.as_str(),
                    confirmed.verification_token.0.as_str(),
                )
            },
            _ => false,
        };
        if !(same && sound) {
            return Err(DatabaseError::ReservationNotFound);
        }
        assert(confirms(self@.reservations[i as int], confirmed@));
        let e = match self.find_event(confirmed.event_id) {
            Some(e) => e,
            None => {
                proof {
                    assert(self@.has_event(self@.reservations[i as int].event_id));
                }
                return Err(DatabaseError::EventNotFound);
            },
        };
        proof {
            self@.lemma_event_place(e as int, confirmed.event_id);
        }
        let seats = self.count_event_reservations(confirmed.event_id);
        match check_confirmation(
            &self.events[e],
            seats,
            confirmed.spot_count,
            confirmed.status.verified_at,
        ) {
            Ok(()) => {},
            Err(refusal) => {
                return Err(refusal);
            },
        }
        if self.collides_with(&confirmed.status.reservation_tokens) {
            return Err(DatabaseError::TokenCollision);
        }
        proof {
            self@.lemma_confirm_keeps_wf(i as int, confirmed@);
        }
        self.reservations.set(i, AnyReservation::Confirmed(confirmed.clone()));
        assert(self@.reservations =~= old(self)@.reservations.update(i as int, confirmed@));
        Ok(confirmed)
    }

    /// Confirms `pending` at `now`: mints its seat tokens and commits the
    /// confirmation.
    ///
    /// Where `confirm_precheck` gives an error, that error comes back. Where
    /// it gives none, the reservation is confirmed, unless a freshly drawn
    /// token is already taken; then the tokens are drawn once more, and
    /// `TokenCollision` comes back where those collide too. On every error
    /// the store is as it was and the reservation is still pending.
    pub fn confirm_reservation(&mut self, pending: PendingReservation, now: Timestamp) -> (r:
        Result<ConfirmedReservation, DatabaseError>)
        requires
            old(self)@.wf(),
        ensures
            final(self)@.wf(),
            old(self)@.evolves_to(final(self)@),
            old(self)@.confirm_precheck(pending@, now) matches Some(e) ==> r == Err::<
                ConfirmedReservation,
                DatabaseError,
            >(e),
            old(self)@.confirm_precheck(pending@, now) is None ==> r is Ok || r == Err::<
                ConfirmedReservation,
                DatabaseError,
            >(DatabaseError::TokenCollision),
            match r {
                Ok(confirmed) => {
                    &&& minted_for(pending@, now, confirmed@.tokens())
                    &&& confirmed@ == confirmed_with(
                        pending@,
                        now,
                        confirmed@.tokens(),
                    )
                    &&& old(self)@.confirm_refusal(confirmed@) is None
                    &&& final(self)@ == old(self)@.with_confirmed(confirmed@)
                },
                Err(e) => {
                    &&& final(self)@ == old(self)@
                    &&& e is TokenCollision ==> pending.spot_count >= 2 || old(
                        self,
                    )@.has_seat_tokens()
                },
            },
    {
        let ghost before = pending@;
        let again = pending.clone();
        let candidate = pending.confirm(now);
        proof {
            let stored = self@.reservation(before.id);
            if self@.has_reservation(before.id) {
                assert(confirms(stored, candidate@) <==> agree(stored, before));
            }
            if self@.collides(candidate@.tokens()) {
                self@.lemma_collision_needs_tokens(candidate@.tokens());
            }
        }
        match self.confirm_transactional(candidate) {
            Err(DatabaseError::TokenCollision) => {
                let second = again.confirm(now);
                proof {
                    let stored = self@.reservation(before.id);
                    if self@.has_reservation(before.id) {
                        assert(confirms(stored, second@) <==> agree(stored, before));
                    }
                    if self@.collides(second@.tokens()) {
                        self@.lemma_collision_needs_tokens(second@.tokens());
                    }
                }
                self.confirm_transactional(second)
            },
            outcome => outcome,
        }
    }

    /// The scan: marks the active seat token that reads `token` used at `now`.
    ///
    /// Fails with `TokenInvalid`, and leaves the store as it was, where no
    /// seat token reads `token` or where the one that does is no longer
    /// active.
    pub fn mark_reservation_token_used(&mut self, token: &str, now: Timestamp) -> (r: Result<
        (),
        DatabaseError,
    >)
        requires
            old(self)@.wf(),
        ensures
            final(self)@.wf(),
            old(self)@.evolves_to(final(self)@),
            r is Ok <==> old(self)@.scannable(token@),
            r is Ok ==> final(self)@ == old(self)@.after_scan(token@, now),
            r is Ok ==> old(self)@.same_but_tokens(final(self)@),
            r matches Err(e) ==> e is TokenInvalid && final(self)@ == old(self)@,
    {
        proof {
            self@.lemma_evolves_reflexive();
        }
        let (i, k) = match self.find_seat_token(token) {
            Some(place) => place,
            None => {
                return Err(DatabaseError::TokenInvalid);
            },
        };
        proof {
            self@.lemma_seat_place(i as int, k as int, token@);
            self@.lemma_seat_change_keeps_states(
                i as int,
                k as int,
                scanned(self@.seat(i as int, k as int), now),
            );
        }
        let active = match &self.reservations[i] {
            AnyReservation::Confirmed(reservation) => {
                assert(reservation@.tokens()[k as int]
                    == reservation.status.reservation_tokens[k as int]@);
                reservation.status.reservation_tokens[k].is_active()
            },
            _ => false,
        };
        if !active {
            return Err(DatabaseError::TokenInvalid);
        }
        proof {
            self@.lemma_scan_keeps_wf(i as int, k as int, now);
        }
        let ghost target = self@.after_scan(token@, now);
        let taken = self.reservations.remove(i);
        let replaced = match taken {
            AnyReservation::Confirmed(reservation) => {
                let Reservation {
                    id,
                    event_id,
                    user_name,
                    user_email,
                    verification_token,
                    spot_count,
                    status,
                } = reservation;
                let Confirmed { created_at, updated_at, verified_at, reservation_tokens } = status;
                let mut tokens = reservation_tokens;
                let seat = tokens.remove(k);
                let used = match seat.scan(now) {
                    Ok(used) => used,
                    Err(same) => same,
                };
                tokens.insert(k, used);
                assert(token_views(tokens@) =~= token_views(
                    reservation_tokens@,
                ).update(k as int, used@));
                AnyReservation::Confirmed(
                    Reservation {
                        id,
                        event_id,
                        user_name,
                        user_email,
                        verification_token,
                        spot_count,
                        status: Confirmed {
                            created_at,
                            updated_at,
                            verified_at,
                            reservation_tokens: tokens,
                        },
                    },
                )
            },
            other => other,
        };
        self.reservations.insert(i, replaced);
        assert(self@.reservations =~= target.reservations);
        Ok(())
    }
}

impl Database {
    /// Stores `event`, and hands back a copy of what was stored.
    ///
    /// Fails, and leaves the store as it was, where the event has no seat or
    /// does not end after it starts (`InvalidEvent`), or where its identifier
    /// is already taken (`TokenCollision`).
    pub fn insert_event(&mut self, event: OpenEvent) -> (r: Result<OpenEvent, DatabaseError>)
        requires
            old(self)@.wf(),
        ensures
            final(self)@.wf(),
            old(self)@.evolves_to(final(self)@),
            match r {
                Ok(stored) => {
                    &&& old(self)@.event_refusal(event@) is None
                    &&& stored@ == event@
                    &&& final(self)@ == old(self)@.with_event(event@)
                },
                Err(e) => {
                    &&& old(self)@.event_refusal(event@) == Some(e)
                    &&& final(self)@ == old(self)@
                },
            },
    {
        proof {
            self@.lemma_evolves_reflexive();
        }
        match check_event(event.start_time, event.end_time, event.capacity) {
            Ok(()) => {},
            Err(refusal) => {
                return Err(refusal);
            },
        }
        if self.find_event(event.id).is_some() {
            return Err(DatabaseError::TokenCollision);
        }
        proof {
            self@.lemma_event_insert_keeps_wf(event@);
        }
        self.events.push(event.copy_as(Open));
        assert(self@.events =~= old(self)@.events.push(event@));
        Ok(event)
    }

    /// Opens an event at `now` under a randomly drawn identifier.
    ///
    /// Fails with `InvalidEvent` exactly where `capacity` is zero or
    /// `end_time` is not after `start_time`. Otherwise the event is stored,
    /// unless the identifier drawn is already taken; then one more is drawn,
    /// and `TokenCollision` comes back where that is taken too. On every
    /// error the store is as it was.
    pub fn create_event(
        &mut self,
        name: &str,
        description: Option<&str>,
        start_time: Timestamp,
        end_time: Timestamp,
        capacity: u32,
        location: Option<&str>,
        now: Timestamp,
    ) -> (r: Result<OpenEvent, DatabaseError>)
        requires
            old(self)@.wf(),
        ensures
            final(self)@.wf(),
            old(self)@.evolves_to(final(self)@),
            match r {
                Ok(event) => {
                    &&& event@ == opened(
                        event.id,
                        name@,
                        borrowed_text_of(description),
                        start_time,
                        end_time,
                        capacity,
                        borrowed_text_of(location),
                        now,
                    )
                    &&& is_random_id(event.id)
                    &&& old(self)@.event_refusal(event@) is None
                    &&& final(self)@ == old(self)@.with_event(event@)
                },
                Err(e) => {
                    &&& final(self)@ == old(self)@
                    &&& e is InvalidEvent || e is TokenCollision
                    &&& e is InvalidEvent <==> capacity < 1 || start_time >= end_time
                    &&& e is TokenCollision ==> old(self)@.events.len() > 0
                },
            },
    {
        let event = Event {
            id: fresh_id(),
            name: name.to_owned(),
            description: owned_text(description),
            start_time,
            end_time,
            capacity,
            location: owned_text(location),
            created_at: now,
            updated_at: now,
            status: Open,
        };
        match self.insert_event(event) {
            Err(DatabaseError::TokenCollision) => {
                let second = Event {
                    id: fresh_id(),
                    name: name.to_owned(),
                    description: owned_text(description),
                    start_time,
                    end_time,
                    capacity,
                    location: owned_text(location),
                    created_at: now,
                    updated_at: now,
                    status: Open,
                };
                self.insert_event(second)
            },
            outcome => outcome,
        }
    }

    /// Updates the open event `event_id` at `now`, and hands back the event
    /// in the state that it then has.
    ///
    /// Fails, and leaves the store as it was, with the error that
    /// `update_refusal` gives.
    pub fn update_event(
        &mut self,
        event_id: Id,
        name: &str,
        description: Option<&str>,
        start_time: Timestamp,
        end_time: Timestamp,
        capacity: u32,
        location: Option<&str>,
        now: Timestamp,
    ) -> (r: Result<AnyEvent, DatabaseError>)
        requires
            old(self)@.wf(),
        ensures
            final(self)@.wf(),
            old(self)@.evolves_to(final(self)@),
            match r {
                Ok(event) => {
                    &&& old(self)@.update_refusal(event_id, start_time, end_time, capacity, now)
                        is None
                    &&& event@ == updated(
                        old(self)@.event(event_id),
                        name@,
                        borrowed_text_of(description),
                        start_time,
                        end_time,
                        capacity,
                        borrowed_text_of(location),
                        now,
                    )
                    &&& event.status() == event_status(
                        end_time,
                        capacity,
                        old(self)@.seats_taken(event_id),
                        now,
                    )
                    &&& final(self)@ == old(self)@.with_event_at(
                        old(self)@.event_place(event_id),
                        event@,
                    )
                },
                Err(e) => {
                    &&& old(self)@.update_refusal(event_id, start_time, end_time, capacity, now)
                        == Some(e)
                    &&& final(self)@ == old(self)@
                },
            },
    {
        proof {
            self@.lemma_evolves_reflexive();
        }
        let i = match self.find_event(event_id) {
            Some(i) => i,
            None => {
                return Err(DatabaseError::EventNotFound);
            },
        };
        proof {
            self@.lemma_event_place(i as int, event_id);
        }
        let seats = self.count_event_reservations(event_id);
        match check_update(&self.events[i], seats, start_time, end_time, capacity, now) {
            Ok(()) => {},
            Err(refusal) => {
                return Err(refusal);
            },
        }
        let event = Event {
            id: event_id,
            name: name.to_owned(),
            description: owned_text(description),
            start_time,
            end_time,
            capacity,
            location: owned_text(location),
            created_at: self.events[i].created_at,
            updated_at: now,
            status: Open,
        };
        let found = event.classify(seats as u64, now);
        proof {
            self@.lemma_event_update_keeps_wf(i as int, event@);
        }
        self.events.set(i, event);
        assert(self@.events =~= old(self)@.events.update(i as int, found@));
        Ok(found)
    }

    /// The open event whose identifier reads `event_id`. A text that is no
    /// identifier finds nothing.
    pub fn get_open_event_by_string_id(&self, event_id: &str, now: Timestamp) -> (r: Result<
        OpenEvent,
        DatabaseError,
    >)
        requires
            self@.wf(),
        ensures
            r is Ok <==> (parsed_uuid(event_id@) matches Some(id) && self@.has_event(
                id,
            ) && self@.status(id, now) == EventStatus::Open),
            r matches Ok(event) ==> event@ == self@.event(
                parsed_uuid(event_id@)->Some_0,
            ),
            r matches Err(e) ==> e is EventNotFound,
    {
        match parse_id(event_id) {
            Ok(id) => self.get_open_event_by_id(id, now),
            Err(_) => Err(DatabaseError::EventNotFound),
        }
    }

    /// Whether the open event whose identifier reads `event_id` has a seat
    /// left. A text that is no identifier finds nothing.
    pub fn check_event_capacity_with_string_id(&self, event_id: &str, now: Timestamp) -> (r:
        Result<bool, DatabaseError>)
        requires
            self@.wf(),
        ensures
            r is Ok <==> (parsed_uuid(event_id@) matches Some(id) && self@.has_event(
                id,
            ) && self@.status(id, now) == EventStatus::Open),
            r matches Ok(ok) ==> ok == (self@.seats_taken(
                parsed_uuid(event_id@)->Some_0,
            ) < self@.event(parsed_uuid(event_id@)->Some_0).capacity),
            r matches Err(e) ==> e is EventNotFound,
    {
        match parse_id(event_id) {
            Ok(id) => self.check_open_event_capacity(id, now),
            Err(_) => Err(DatabaseError::EventNotFound),
        }
    }
}

/// The views of the events in `events`, in their order.
pub open spec fn event_views(events: Seq<OpenEvent>) -> Seq<EventView> {
    events.map_values(|event: OpenEvent| event@)
}

impl Database {
    /// The events that are open at `now`, in the order of their start times,
    /// earliest first: every one of them once, and no other.
    pub fn get_all_open_events(&self, now: Timestamp) -> (events: Vec<OpenEvent>)
        requires
            self@.wf(),
        ensures
            event_views(events@).to_multiset() == self@.open_events(now).to_multiset(),
            by_start_time(event_views(events@)),
    {
        let ghost stored = self@.events;
        let ghost test = self@.is_open_at(now);
        let mut events: Vec<OpenEvent> = Vec::new();
        let mut i: usize = 0;
        proof {
            reveal(Seq::filter);
            assert(stored.take(0).filter(test) =~= Seq::empty());
            assert(event_views(events@) =~= Seq::empty());
        }
        while i < self.events.len()
            invariant
                i <= self.events.len(),
                self@.wf(),
                stored == self@.events,
                test == self@.is_open_at(now),
                by_start_time(event_views(events@)),
                event_views(events@).to_multiset() == stored.take(i as int).filter(
                    test,
                ).to_multiset(),
            decreases self.events.len() - i,
        {
            let event = &self.events[i];
            let seats = self.count_event_reservations(event.id);
            proof {
                assert(stored.take(i + 1) =~= stored.take(i as int).push(stored[i as int]));
                stored.take(i as int).lemma_filter_push(stored[i as int], test);
            }
            match event.status_at(seats as u64, now) {
                EventStatus::Open => {
                    let mut place: usize = 0;
                    while place < events.len() && events[place].start_time <= event.start_time
                        invariant
                            place <= events.len(),
                            by_start_time(event_views(events@)),
                            forall|a: int|
                                0 <= a < place ==> (#[trigger] event_views(events@)[a]).start_time
                                    <= event.start_time,
                        decreases events.len() - place,
                    {
                        place += 1;
                    }
                    let ghost before = event_views(events@);
                    events.insert(place, event.copy_as(Open));
                    proof {
                        let after = event_views(events@);
                        assert(after =~= before.insert(place as int, event@));
                        vstd::seq_lib::to_multiset_insert(before, place as int, event@);
                        vstd::seq_lib::to_multiset_build(
                            stored.take(i as int).filter(test),
                            stored[i as int],
                        );
                        assert forall|a: int, b: int| 0 <= a < b < after.len() implies (
                        #[trigger] after[a]).start_time <= (#[trigger] after[b]).start_time by {
                            if b < place {
                                assert(after[a] == before[a] && after[b] == before[b]);
                            } else if b == place {
                                assert(after[a] == before[a]);
                            } else if a < place {
                                assert(after[a] == before[a] && after[b] == before[b - 1]);
                            } else if a == place {
                                assert(after[b] == before[b - 1]);
                                assert(before[place as int].start_time > event.start_time);
                                if place as int != b - 1 {
                                    assert(before[place as int].start_time <= before[b
                                        - 1].start_time);
                                }
                            } else {
                                assert(after[a] == before[a - 1] && after[b] == before[b - 1]);
                            }
                        }
                    }
                },
                _ => {},
            }
            i += 1;
        }
        assert(stored.take(self.events.len() as int) =~= stored);
        events
    }
}

impl Database {
    /// Withdraws the active seat token that reads `token`: it expires and
    /// can no longer be scanned. When and why tokens are withdrawn is for the
    /// caller to decide.
    ///
    /// Fails with `TokenInvalid`, and leaves the store as it was, where no
    /// seat token reads `token` or where the one that does is no longer
    /// active.
    pub fn expire_reservation_token(&mut self, token: &str) -> (r: Result<(), DatabaseError>)
        requires
            old(self)@.wf(),
        ensures
            final(self)@.wf(),
            old(self)@.evolves_to(final(self)@),
            r is Ok <==> old(self)@.scannable(token@),
            r is Ok ==> final(self)@ == old(self)@.after_expiry(token@),
            r is Ok ==> old(self)@.same_but_tokens(final(self)@),
            r matches Err(e) ==> e is TokenInvalid && final(self)@ == old(self)@,
    {
        proof {
            self@.lemma_evolves_reflexive();
        }
        let (i, k) = match self.find_seat_token(token) {
            Some(place) => place,
            None => {
                return Err(DatabaseError::TokenInvalid);
            },
        };
        proof {
            self@.lemma_seat_place(i as int, k as int, token@);
            self@.lemma_seat_change_keeps_states(
                i as int,
                k as int,
                expired(self@.seat(i as int, k as int)),
            );
        }
        let active = match &self.reservations[i] {
            AnyReservation::Confirmed(reservation) => {
                assert(reservation@.tokens()[k as int]
                    == reservation.status.reservation_tokens[k as int]@);
                reservation.status.reservation_tokens[k].is_active()
            },
            _ => false,
        };
        if !active {
            return Err(DatabaseError::TokenInvalid);
        }
        proof {
            self@.lemma_seat_change_keeps_wf(
                i as int,
                k as int,
                expired(self@.seat(i as int, k as int)),
            );
        }
        let ghost target = self@.after_expiry(token@);
        let taken = self.reservations.remove(i);
        let replaced = match taken {
            AnyReservation::Confirmed(reservation) => {
                let Reservation {
                    id,
                    event_id,
                    user_name,
                    user_email,
                    verification_token,
                    spot_count,
                    status,
                } = reservation;
                let Confirmed { created_at, updated_at, verified_at, reservation_tokens } = status;
                let mut tokens = reservation_tokens;
                let seat = tokens.remove(k);
                let withdrawn = match seat {
                    AnyReservationToken::Active(active) => AnyReservationToken::Expired(
                        active.expire(),
                    ),
                    other => other,
                };
                tokens.insert(k, withdrawn);
                assert(token_views(tokens@) =~= token_views(
                    reservation_tokens@,
                ).update(k as int, withdrawn@));
                AnyReservation::Confirmed(
                    Reservation {
                        id,
                        event_id,
                        user_name,
                        user_email,
                        verification_token,
                        spot_count,
                        status: Confirmed {
                            created_at,
                            updated_at,
                            verified_at,
                            reservation_tokens: tokens,
                        },
                    },
                )
            },
            other => other,
        };
        self.reservations.insert(i, replaced);
        assert(self@.reservations =~= target.reservations);
        Ok(())
    }
}

} // verus!
