//! The capacity ledger: how many seats of an event are taken, and whether a
//! request still fits.
//!
//! Only confirmed reservations take seats. The figures here are stated over
//! the views of stored reservations, so that the store and its laws share
//! them.

use vstd::prelude::*;

use crate::ident::Id;
use crate::models::ReservationView;

verus! {

/// The seats that `reservation` takes from the event `event_id`.
pub open spec fn seats_of(reservation: ReservationView, event_id: Id) -> nat {
    if reservation.event_id == event_id {
        reservation.seats_taken()
    } else {
        0
    }
}

/// The confirmed seat count of the event `event_id`: the sum of the spots of
/// its confirmed reservations among `reservations`.
pub open spec fn confirmed_seats(reservations: Seq<ReservationView>, event_id: Id) -> nat
    decreases reservations.len(),
{
    if reservations.len() == 0 {
        0
    } else {
        confirmed_seats(reservations.drop_last(), event_id) + seats_of(
            reservations.last(),
            event_id,
        )
    }
}

/// Whether `requested` more seats fit an event of `capacity` seats of which
/// `confirmed` are taken.
pub open spec fn fits(confirmed: nat, requested: nat, capacity: nat) -> bool {
    confirmed + requested <= capacity
}

/// Whether `requested_spots` more seats fit an event of `capacity` seats of
/// which `confirmed` are taken.
pub fn has_capacity(confirmed: u32, requested_spots: u32, capacity: u32) -> (ok: bool)
    ensures
        ok == fits(confirmed as nat, requested_spots as nat, capacity as nat),
{
    confirmed as u64 + requested_spots as u64 <= capacity as u64
}

/// One more reservation adds its own seats to the count.
pub proof fn lemma_seats_push(
    reservations: Seq<ReservationView>,
    reservation: ReservationView,
    event_id: Id,
)
    ensures
        confirmed_seats(reservations.push(reservation), event_id) == confirmed_seats(
            reservations,
            event_id,
        ) + seats_of(reservation, event_id),
{
    assert(reservations.push(reservation).drop_last() =~= reservations);
}

/// The count over the first `n` reservations never exceeds the count over
/// all of them.
pub proof fn lemma_seats_prefix(reservations: Seq<ReservationView>, n: int, event_id: Id)
    requires
        0 <= n <= reservations.len(),
    ensures
        confirmed_seats(reservations.take(n), event_id) <= confirmed_seats(reservations, event_id),
    decreases reservations.len(),
{
    if n == reservations.len() {
        assert(reservations.take(n) =~= reservations);
    } else {
        lemma_seats_prefix(reservations.drop_last(), n, event_id);
        assert(reservations.drop_last().take(n) =~= reservations.take(n));
    }
}

/// The count over one more reservation is the count so far plus its seats.
pub proof fn lemma_seats_step(reservations: Seq<ReservationView>, n: int, event_id: Id)
    requires
        0 <= n < reservations.len(),
    ensures
        confirmed_seats(reservations.take(n + 1), event_id) == confirmed_seats(
            reservations.take(n),
            event_id,
        ) + seats_of(reservations[n], event_id),
{
    assert(reservations.take(n + 1).drop_last() =~= reservations.take(n));
}

/// Replacing one reservation changes the count by the difference of the
/// seats that the two take.
pub proof fn lemma_seats_update(
    reservations: Seq<ReservationView>,
    i: int,
    reservation: ReservationView,
    event_id: Id,
)
    requires
        0 <= i < reservations.len(),
    ensures
        confirmed_seats(reservations.update(i, reservation), event_id) + seats_of(
            reservations[i],
            event_id,
        ) == confirmed_seats(reservations, event_id) + seats_of(reservation, event_id),
    decreases reservations.len(),
{
    let updated = reservations.update(i, reservation);
    if i == reservations.len() - 1 {
        assert(updated.drop_last() =~= reservations.drop_last());
    } else {
        lemma_seats_update(reservations.drop_last(), i, reservation, event_id);
        assert(updated.drop_last() =~= reservations.drop_last().update(i, reservation));
    }
}

/// An event that no reservation refers to has no seat taken.
pub proof fn lemma_seats_none(reservations: Seq<ReservationView>, event_id: Id)
    requires
        forall|i: int| 0 <= i < reservations.len() ==> (#[trigger] reservations[i]).event_id != event_id,
    ensures
        confirmed_seats(reservations, event_id) == 0,
    decreases reservations.len(),
{
    if reservations.len() > 0 {
        let rest = reservations.drop_last();
        assert forall|i: int| 0 <= i < rest.len() implies (#[trigger] rest[i]).event_id
            != event_id by {
            assert(rest[i] == reservations[i]);
        }
        lemma_seats_none(rest, event_id);
    }
}

} // verus!
