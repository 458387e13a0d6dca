//! What holds of the reservation lifecycle as a whole.
//!
//! Every operation of the store keeps the store well-formed and lets it
//! evolve forwards only; the statements here say what that means for seats,
//! states and tokens, over any number of operations.

use vstd::prelude::*;

use crate::clock::Timestamp;
use crate::db::DatabaseError;
use crate::db_view::{is_reservation_in, is_seat_of_in, DatabaseView};
use crate::ident::{
    is_secret_text, lemma_prefixed_secret_injective, lemma_secret_text_injective, Draw, Id,
};
use crate::ledger::{fits, lemma_seats_update};
use crate::models::{
    expired, is_reservation_token_text, is_scanner_token_text, minted_tokens, scanned,
    scanner_token_text, seat_token_text, stage_may_become, token_may_become, ReservationView,
    Stage, TokenState,
};

verus! {

/// No event of a well-formed store has more confirmed seats than capacity.
pub proof fn law_capacity(db: DatabaseView, event_id: Id)
    requires
        db.wf(),
        db.has_event(event_id),
    ensures
        db.seats_taken(event_id) <= db.event(event_id).capacity,
{
    db.lemma_event_within_capacity(event_id);
}

/// A committed confirmation takes exactly its spots from its event, and the
/// event is still within its capacity.
pub proof fn law_confirmation_takes_its_spots(db: DatabaseView, candidate: ReservationView)
    requires
        db.wf(),
        db.confirm_refusal(candidate) is None,
    ensures
        db.with_confirmed(candidate).wf(),
        db.with_confirmed(candidate).seats_taken(candidate.event_id) == db.seats_taken(
            candidate.event_id,
        ) + candidate.spot_count,
        db.with_confirmed(candidate).seats_taken(candidate.event_id) <= db.event(
            candidate.event_id,
        ).capacity,
{
    let i = db.reservation_place(candidate.id);
    db.lemma_confirm_keeps_wf(i, candidate);
    lemma_seats_update(db.reservations, i, candidate, candidate.event_id);
}

/// The store after the confirmation `candidate` is tried: committed where
/// the store does not refuse it, and as it was otherwise.
pub open spec fn confirm_step(db: DatabaseView, candidate: ReservationView) -> DatabaseView {
    if db.confirm_refusal(candidate) is None {
        db.with_confirmed(candidate)
    } else {
        db
    }
}

/// The store after the confirmations `candidates` are tried one after
/// another.
pub open spec fn after_confirmations(db: DatabaseView, candidates: Seq<ReservationView>) -> DatabaseView
    decreases candidates.len(),
{
    if candidates.len() == 0 {
        db
    } else {
        after_confirmations(confirm_step(db, candidates[0]), candidates.drop_first())
    }
}

/// How many of the confirmations `candidates`, tried one after another, are
/// committed.
pub open spec fn commits(db: DatabaseView, candidates: Seq<ReservationView>) -> nat
    decreases candidates.len(),
{
    if candidates.len() == 0 {
        0
    } else {
        (if db.confirm_refusal(candidates[0]) is None {
            1nat
        } else {
            0nat
        }) + commits(confirm_step(db, candidates[0]), candidates.drop_first())
    }
}

/// Whether the confirmations `candidates` are each of one seat at the event
/// `event_id` and, tried one after another, meet no refusal but for want of
/// capacity.
pub open spec fn single_seats_refused_for_room_only(
    db: DatabaseView,
    candidates: Seq<ReservationView>,
    event_id: Id,
) -> bool
    decreases candidates.len(),
{
    candidates.len() == 0 || {
        &&& candidates[0].event_id == event_id
        &&& candidates[0].spot_count == 1
        &&& db.confirm_refusal(candidates[0]) is None || db.confirm_refusal(candidates[0]) == Some(
            DatabaseError::CapacityExceeded,
        )
        &&& single_seats_refused_for_room_only(
            confirm_step(db, candidates[0]),
            candidates.drop_first(),
            event_id,
        )
    }
}

/// However many confirmations are tried one after another, the store stays
/// well-formed, so that no event is ever overbooked, and it evolves
/// forwards only.
pub proof fn law_confirmations_keep_capacity(db: DatabaseView, candidates: Seq<ReservationView>)
    requires
        db.wf(),
    ensures
        after_confirmations(db, candidates).wf(),
        db.evolves_to(after_confirmations(db, candidates)),
    decreases candidates.len(),
{
    if candidates.len() > 0 {
        let next = confirm_step(db, candidates[0]);
        if db.confirm_refusal(candidates[0]) is None {
            db.lemma_confirm_keeps_wf(db.reservation_place(candidates[0].id), candidates[0]);
        }
        law_confirmations_keep_capacity(next, candidates.drop_first());
        law_evolution_composes(db, next, after_confirmations(db, candidates));
    }
}

/// Of any number of confirmations of one seat each at one event, tried one
/// after another and refused for nothing but want of capacity, exactly as
/// many are committed as seats were left, and no more: the event is filled
/// to its capacity where there are enough of them, and every one of them
/// takes its seat where there are not.
pub proof fn law_single_seats_fill_exactly(
    db: DatabaseView,
    candidates: Seq<ReservationView>,
    event_id: Id,
)
    requires
        db.wf(),
        db.has_event(event_id),
        single_seats_refused_for_room_only(db, candidates, event_id),
    ensures
        after_confirmations(db, candidates).wf(),
        after_confirmations(db, candidates).event(event_id) == db.event(event_id),
        after_confirmations(db, candidates).seats_taken(event_id) == if db.seats_taken(event_id)
            + candidates.len() <= db.event(event_id).capacity {
            db.seats_taken(event_id) + candidates.len()
        } else {
            db.event(event_id).capacity as nat
        },
        commits(db, candidates) == after_confirmations(db, candidates).seats_taken(event_id)
            - db.seats_taken(event_id),
    decreases candidates.len(),
{
    db.lemma_event_within_capacity(event_id);
    if candidates.len() > 0 {
        let first = candidates[0];
        let next = confirm_step(db, first);
        if db.confirm_refusal(first) is None {
            law_confirmation_takes_its_spots(db, first);
            db.lemma_same_events(next, event_id);
        }
        law_single_seats_fill_exactly(next, candidates.drop_first(), event_id);
    }
}

/// Of two confirmations for one event that do not both fit, the second is
/// refused for want of capacity once the first is committed, and its
/// reservation is still pending.
pub proof fn law_confirmation_race(
    db: DatabaseView,
    first: ReservationView,
    second: ReservationView,
)
    requires
        db.wf(),
        db.confirm_refusal(first) is None,
        db.confirm_refusal(second) is None,
        first.id != second.id,
        first.event_id == second.event_id,
        !fits(
            db.seats_taken(first.event_id),
            first.spot_count as nat + second.spot_count as nat,
            db.event(first.event_id).capacity as nat,
        ),
    ensures
        db.with_confirmed(first).confirm_refusal(second) == Some(DatabaseError::CapacityExceeded),
        db.with_confirmed(first).reservation(second.id).stage is Pending,
{
    let next = db.with_confirmed(first);
    let i = db.reservation_place(first.id);
    let j = db.reservation_place(second.id);
    db.lemma_confirm_keeps_wf(i, first);
    lemma_seats_update(db.reservations, i, first, first.event_id);
    assert(is_reservation_in(next.reservations, j, second.id));
    next.lemma_reservation_place(j, second.id);
    assert(next.event(second.event_id) == db.event(second.event_id));
}

/// Nothing leads back from confirmed, and a token that is no longer active
/// stays what it is.
pub proof fn law_no_way_back(from: Stage, to: Stage, token_from: TokenState, token_to: TokenState)
    ensures
        stage_may_become(from, to) && from is Confirmed ==> to is Confirmed,
        stage_may_become(from, to) && from is Pending ==> !(to is Creating),
        token_may_become(token_from, token_to) && !(token_from is Active) ==> token_to
            == token_from,
{
}

/// However a store evolves, an event keeps its place and identifier: no
/// event is ever deleted.
pub proof fn law_events_stay(before: DatabaseView, after: DatabaseView, i: int)
    requires
        before.evolves_to(after),
        0 <= i < before.events.len(),
    ensures
        i < after.events.len(),
        after.events[i].id == before.events[i].id,
        after.has_event(before.events[i].id),
{
    assert(crate::db_view::is_event_in(after.events, i, before.events[i].id));
}

/// However a store evolves, a reservation keeps its place and identifier, a
/// confirmed reservation is never pending again, and a stored reservation is
/// never taken back to creating.
pub proof fn law_one_way_reservations(before: DatabaseView, after: DatabaseView, i: int)
    requires
        before.evolves_to(after),
        0 <= i < before.reservations.len(),
    ensures
        i < after.reservations.len(),
        after.reservations[i].id == before.reservations[i].id,
        before.reservations[i].stage is Confirmed ==> after.reservations[i].stage is Confirmed,
        before.reservations[i].stage is Pending ==> !(after.reservations[i].stage is Creating),
{
}

/// However a store evolves, a seat token keeps its place and text, and a used
/// or expired token never becomes active.
pub proof fn law_one_way_tokens(before: DatabaseView, after: DatabaseView, i: int, k: int)
    requires
        before.evolves_to(after),
        before.is_seat(i, k),
    ensures
        after.is_seat(i, k),
        after.seat(i, k).token == before.seat(i, k).token,
        !(before.seat(i, k).state is Active) ==> after.seat(i, k).state == before.seat(
            i,
            k,
        ).state,
{
    assert(token_may_become(before.seat(i, k).state, after.seat(i, k).state));
}

/// Evolving is transitive: what holds of one operation holds of any number
/// of them in a row.
pub proof fn law_evolution_composes(a: DatabaseView, b: DatabaseView, c: DatabaseView)
    requires
        a.evolves_to(b),
        b.evolves_to(c),
    ensures
        a.evolves_to(c),
{
    assert forall|i: int| 0 <= i < a.events.len() implies (#[trigger] c.events[i]).id
        == a.events[i].id by {
        assert(b.events[i].id == a.events[i].id);
    }
    assert forall|i: int| 0 <= i < a.reservations.len() implies {
        &&& (#[trigger] c.reservations[i]).id == a.reservations[i].id
        &&& stage_may_become(a.reservations[i].stage, c.reservations[i].stage)
    } by {
        assert(b.reservations[i].id == a.reservations[i].id);
        assert(stage_may_become(a.reservations[i].stage, b.reservations[i].stage));
        assert(stage_may_become(b.reservations[i].stage, c.reservations[i].stage));
    }
    assert forall|i: int, k: int| a.is_seat(i, k) implies {
        &&& c.is_seat(i, k)
        &&& (#[trigger] c.seat(i, k)).token == a.seat(i, k).token
        &&& token_may_become(a.seat(i, k).state, c.seat(i, k).state)
    } by {
        assert(b.seat(i, k).token == a.seat(i, k).token);
        assert(c.seat(i, k).token == b.seat(i, k).token);
    }
}

/// A scan of `token` at `now`: the store afterwards, and whether the scan
/// succeeded.
pub open spec fn scan_step(db: DatabaseView, token: Seq<char>, now: Timestamp) -> (
    DatabaseView,
    bool,
) {
    if db.scannable(token) {
        (db.after_scan(token, now), true)
    } else {
        (db, false)
    }
}

/// How many of the scans of `token` at `times`, made one after another,
/// succeed.
pub open spec fn scan_successes(db: DatabaseView, token: Seq<char>, times: Seq<Timestamp>) -> nat
    decreases times.len(),
{
    if times.len() == 0 {
        0
    } else {
        let (next, ok) = scan_step(db, token, times[0]);
        (if ok {
            1nat
        } else {
            0nat
        }) + scan_successes(next, token, times.drop_first())
    }
}

/// Once a token is scanned it cannot be scanned again.
pub proof fn law_scan_once(db: DatabaseView, token: Seq<char>, now: Timestamp)
    requires
        db.wf(),
        db.scannable(token),
    ensures
        db.after_scan(token, now).wf(),
        !db.after_scan(token, now).scannable(token),
{
    let (i, k) = db.seat_place(token);
    let next = db.after_scan(token, now);
    db.lemma_seat_place_found(token);
    db.lemma_scan_keeps_wf(i, k, now);
    assert(next.seat(i, k) == scanned(db.seat(i, k), now));
    assert(is_seat_of_in(next.reservations, i, k, token));
    next.lemma_seat_place(i, k, token);
}

/// Once a token is withdrawn it cannot be scanned.
pub proof fn law_expired_never_scans(db: DatabaseView, token: Seq<char>)
    requires
        db.wf(),
        db.scannable(token),
    ensures
        db.after_expiry(token).wf(),
        !db.after_expiry(token).scannable(token),
{
    let (i, k) = db.seat_place(token);
    let next = db.after_expiry(token);
    db.lemma_seat_place_found(token);
    db.lemma_seat_change_keeps_wf(i, k, expired(db.seat(i, k)));
    assert(next.seat(i, k) == expired(db.seat(i, k)));
    assert(is_seat_of_in(next.reservations, i, k, token));
    next.lemma_seat_place(i, k, token);
}

/// Of any number of scans of one token, exactly one succeeds where the token
/// is active to begin with, and none where it is not.
pub proof fn law_scan_exactly_once(db: DatabaseView, token: Seq<char>, times: Seq<Timestamp>)
    requires
        db.wf(),
    ensures
        scan_successes(db, token, times) == if db.scannable(token) && times.len() > 0 {
            1nat
        } else {
            0nat
        },
    decreases times.len(),
{
    if times.len() > 0 {
        let (next, ok) = scan_step(db, token, times[0]);
        if ok {
            law_scan_once(db, token, times[0]);
        }
        law_scan_exactly_once(next, token, times.drop_first());
    }
}

/// A verification token is never a seat token or a scanner token, and a seat
/// token is never a scanner token: the three kinds differ in form.
pub proof fn law_token_kinds_differ(verification: Seq<char>, seat: Seq<char>, scanner: Seq<char>)
    requires
        is_secret_text(verification),
        is_reservation_token_text(seat),
        is_scanner_token_text(scanner),
    ensures
        verification != seat,
        verification != scanner,
        seat != scanner,
{
    reveal_strlit("r-");
    reveal_strlit("s-");
    let a = choose|draw: Draw| draw.is_random() && verification == #[trigger] draw.text();
    let b = choose|draw: Draw| draw.is_random() && seat == #[trigger] seat_token_text(draw);
    let c = choose|draw: Draw| draw.is_random() && scanner == #[trigger] scanner_token_text(draw);
    assert(verification.len() == 73);
    assert(seat.len() == 75);
    assert(scanner.len() == 75);
    assert(seat[0] == 'r');
    assert(scanner[0] == 's');
}

/// Tokens tell their secrets: two verification tokens, two seat tokens or
/// two scanner tokens that read alike were made of the same draw. Tokens
/// made of different draws therefore never read alike.
pub proof fn law_different_draws_different_tokens(a: Draw, b: Draw)
    ensures
        a.text() == b.text() ==> a == b,
        seat_token_text(a) == seat_token_text(b) ==> a == b,
        scanner_token_text(a) == scanner_token_text(b) ==> a == b,
{
    if a.text() == b.text() {
        lemma_secret_text_injective(a, b);
    }
    if seat_token_text(a) == seat_token_text(b) {
        lemma_prefixed_secret_injective("r-"@, a, b);
    }
    if scanner_token_text(a) == scanner_token_text(b) {
        lemma_prefixed_secret_injective("s-"@, a, b);
    }
}

/// The seat tokens minted from draws of which no two are the same read
/// differently, seat by seat.
pub proof fn law_minted_tokens_differ(
    reservation_id: Id,
    confirmed_at: Timestamp,
    draws: Seq<Draw>,
    k: int,
    l: int,
)
    requires
        0 <= k < draws.len(),
        0 <= l < draws.len(),
        draws[k] != draws[l],
    ensures
        minted_tokens(reservation_id, confirmed_at, draws)[k].token != minted_tokens(
            reservation_id,
            confirmed_at,
            draws,
        )[l].token,
{
    law_different_draws_different_tokens(draws[k], draws[l]);
}

/// In a well-formed store no two reservations share an identifier or a
/// verification token, and no two seat tokens read alike.
pub proof fn law_stored_tokens_unique(db: DatabaseView, i: int, j: int, k: int, l: int)
    requires
        db.wf(),
    ensures
        0 <= i < j < db.reservations.len() ==> db.reservations[i].id != db.reservations[j].id
            && db.reservations[i].verification_token != db.reservations[j].verification_token,
        db.is_seat(i, k) && db.is_seat(j, l) && (i != j || k != l) ==> db.seat(i, k).token
            != db.seat(j, l).token,
{
}

} // verus!
