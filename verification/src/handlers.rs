//! The requests of the service, each as a flow over the store: reserve,
//! verify, retrieve, scan, look an event up, open an event.
//!
//! A flow reads the clock and draws its tokens once, at the start, and then
//! calls a function that takes them as arguments and decides everything
//! else. The decisions between two accesses to the store are functions of
//! their own, so that a driver of another store can take the same steps.
//! A notification is prepared after the state change is committed and is
//! handed back beside the response: whether it can be sent never decides
//! whether the reservation is stored or confirmed.

use vstd::prelude::*;
use vstd::utf8::encode_utf8;

use crate::api::{
    reserve_failures, reserve_failures_given, reserve_rules_hold, EventStatus,
    OpenEventResponse, ReservationStatus, ReservationTokenResponse, ReserveRequest,
    ReserveResponse, RetrieveReservationEventResponse, RetrieveReservationResponse,
    ScanTokenResponse, VerifyEmailResponse,
};
use crate::clock::{clock_max, clock_min, now_utc, Timestamp};
use crate::config::Config;
use crate::db::{Database, DatabaseError};
use crate::db_view::{is_verified_by_in, verification_place_in, DatabaseView};
use crate::email::{
    confirmation_email, email_acceptable, send_confirmation, send_verification,
    verification_email, EmailError, OutgoingEmail,
};
use crate::error::AppError;
use crate::ident::{is_random_id, is_secret_text, parse_id, parsed_uuid, Id};
use crate::laws::law_scan_once;
use crate::ledger::{fits, has_capacity};
use crate::models::{
    confirmed_with, minted_for, token_state_name, token_views, AnyEvent, ConfirmedReservation,
    CreatingReservation, Event, EventView, OpenEvent, PendingReservation, Reservation,
    ReservationView, Stage, TokenView,
};
use crate::text::{copy_text, text_of};
use crate::validation::{email_syntax_ok, validate_email, validation_message};

verus! {

/// Why a reservation is not admitted.
pub enum Refusal {
    /// The event has more confirmed seats than capacity.
    Overbooked,
    /// The spots asked for do not fit what is left.
    TooMany,
    /// The number of spots is zero.
    NoSpots,
}

/// Why a reservation of `spot_count` spots is not admitted to an event of
/// `capacity` seats of which `current_count` are confirmed, if it is not.
pub open spec fn admission_refusal(capacity: u32, current_count: u32, spot_count: u32) -> Option<
    Refusal,
> {
    if current_count > capacity {
        Some(Refusal::Overbooked)
    } else if !fits(current_count as nat, spot_count as nat, capacity as nat) {
        Some(Refusal::TooMany)
    } else if spot_count < 1 {
        Some(Refusal::NoSpots)
    } else {
        None
    }
}

/// Whether `error` is the answer to the refusal `refusal`.
pub open spec fn answers_refusal(error: AppError, refusal: Refusal) -> bool {
    match refusal {
        Refusal::Overbooked => error matches AppError::Validation(text) && text@
            == "Event is at full capacity"@,
        Refusal::TooMany => error matches AppError::Validation(text) && text@
            == "Cannot reserve this many slots for this event"@,
        Refusal::NoSpots => error is InvalidSpotCount,
    }
}

/// The admission of a request to an event that has not ended: checks that
/// the spots asked for fit beside the `current_count` confirmed seats, and
/// puts the reservation together.
pub fn admission<State>(event: &Event<State>, current_count: u32, payload: ReserveRequest) -> (r:
    Result<CreatingReservation, AppError>)
    ensures
        r is Ok <==> admission_refusal(event.capacity, current_count, payload.spot_count) is None,
        r matches Ok(creating) ==> {
            &&& creating.event_id == payload.event_id
            &&& creating.user_name == payload.user_name
            &&& creating.user_email == payload.user_email
            &&& creating.spot_count == payload.spot_count
            &&& is_random_id(creating.id)
            &&& is_secret_text(creating.verification_token.0@)
        },
        r matches Err(e) ==> answers_refusal(
            e,
            admission_refusal(event.capacity, current_count, payload.spot_count)->Some_0,
        ),
{
    if current_count > event.capacity {
        return Err(AppError::validation("Event is at full capacity"));
    }
    if !has_capacity(current_count, payload.spot_count, event.capacity) {
        return Err(AppError::validation("Cannot reserve this many slots for this event"));
    }
    match Reservation::prepare(
        payload.event_id,
        payload.user_name,
        payload.user_email,
        payload.spot_count,
        event.capacity,
    ) {
        Ok(creating) => Ok(creating),
        Err(e) => Err(AppError::from(e)),
    }
}

/// A copy of the request `payload`.
fn copy_request(payload: &ReserveRequest) -> (copy: ReserveRequest)
    ensures
        copy == *payload,
{
    ReserveRequest {
        event_id: payload.event_id,
        user_name: payload.user_name.clone(),
        user_email: payload.user_email.clone(),
        spot_count: payload.spot_count,
    }
}

/// What callers learn of the stored reservation `pending`.
pub fn reserve_response(pending: &PendingReservation) -> (response: ReserveResponse)
    ensures
        response.reservation_id == pending.id,
        response.status == ReservationStatus::Pending,
{
    ReserveResponse { reservation_id: pending.id, status: ReservationStatus::Pending }
}

/// A stored reservation: what callers learn of it, and the message that
/// asks for verification, or why there is none to send.
#[derive(Debug)]
pub struct Reserved {
    pub response: ReserveResponse,
    pub notification: Result<OutgoingEmail, EmailError>,
}

/// Why a request to reserve is turned down before anything is drawn.
pub enum ReserveRefusal {
    /// The request fails its rules.
    Invalid,
    /// The store has no such event, or the event has ended.
    NoEvent,
    /// The spots asked for do not fit what is left.
    TooMany,
}

/// Why the request `payload` is turned down at `now` before anything is
/// drawn, if it is.
pub open spec fn reserve_refusal(
    db: DatabaseView,
    payload: ReserveRequest,
    email_ok: bool,
    now: Timestamp,
) -> Option<ReserveRefusal> {
    if !reserve_rules_hold(payload.user_name@, email_ok, payload.spot_count) {
        Some(ReserveRefusal::Invalid)
    } else if !(db.has_event(payload.event_id) && now < db.event(payload.event_id).end_time) {
        Some(ReserveRefusal::NoEvent)
    } else if !fits(
        db.seats_taken(payload.event_id),
        payload.spot_count as nat,
        db.event(payload.event_id).capacity as nat,
    ) {
        Some(ReserveRefusal::TooMany)
    } else {
        None
    }
}

/// Whether `error` is the answer to turning `payload` down for `refusal`.
pub open spec fn answers_reserve_refusal(
    error: AppError,
    refusal: ReserveRefusal,
    payload: ReserveRequest,
    email_ok: bool,
) -> bool {
    match refusal {
        ReserveRefusal::Invalid => error matches AppError::Validation(text) && text@
            == validation_message(reserve_failures_given(payload, email_ok)),
        ReserveRefusal::NoEvent => error matches AppError::Database(
            DatabaseError::EventNotFound,
        ),
        ReserveRefusal::TooMany => error matches AppError::Validation(text) && text@
            == "Cannot reserve this many slots for this event"@,
    }
}

/// Whether `stored` is the pending reservation that the request `payload`
/// leaves in the store at `now`.
pub open spec fn stores(payload: ReserveRequest, now: Timestamp, stored: ReservationView) -> bool {
    &&& stored.event_id == payload.event_id
    &&& stored.user_name == payload.user_name@
    &&& stored.user_email == payload.user_email@
    &&& stored.spot_count == payload.spot_count
    &&& stored.stage == (Stage::Pending { created_at: now, updated_at: now })
    &&& is_random_id(stored.id)
    &&& is_secret_text(stored.verification_token)
}

/// The message that asks the owner of `stored` for verification, or the
/// error that says why none can be sent.
pub open spec fn is_verification_notice(
    config: &Config,
    stored: ReservationView,
    notification: Result<OutgoingEmail, EmailError>,
) -> bool {
    &&& notification is Ok <==> email_acceptable(encode_utf8(stored.user_email))
    &&& notification matches Ok(message) ==> message@ == verification_email(
        config.email_from_name@,
        config.email_from@,
        config.app_name@,
        config.base_url@,
        stored.user_email,
        stored.verification_token,
    )
    &&& notification matches Err(e) ==> e matches EmailError::InvalidEmail(address) && address@
        == stored.user_email
}

/// Whether `r` is what the request `payload` comes to at `now`, in a store
/// that holds `before` and is left holding `after`, given whether the email
/// address of the request reads as one.
///
/// Where `reserve_refusal` gives a reason, `r` is the answer to it.
/// Otherwise `r` is a stored reservation, or `TokenCollision` where what was
/// drawn for it was taken, which takes a store that holds a reservation
/// already. On an error the store is as it was. On success the store holds
/// one more reservation, pending since `now`, and `r` carries its identifier
/// and the message that asks for verification.
pub open spec fn reserved_at(
    before: DatabaseView,
    after: DatabaseView,
    config: &Config,
    payload: ReserveRequest,
    email_ok: bool,
    now: Timestamp,
    r: Result<Reserved, AppError>,
) -> bool {
    &&& match reserve_refusal(before, payload, email_ok, now) {
        Some(refusal) => r is Err && answers_reserve_refusal(
            r->Err_0,
            refusal,
            payload,
            email_ok,
        ),
        None => r is Ok || r matches Err(AppError::Database(DatabaseError::TokenCollision)),
    }
    &&& r is Err ==> after == before
    &&& r matches Err(AppError::Database(DatabaseError::TokenCollision)) ==> before.reservations.len()
        > 0
    &&& r matches Ok(reserved) ==> {
        &&& after == before.with_reservation(after.reservations.last())
        &&& stores(payload, now, after.reservations.last())
        &&& reserved.response.reservation_id == after.reservations.last().id
        &&& reserved.response.status == ReservationStatus::Pending
        &&& is_verification_notice(config, after.reservations.last(), reserved.notification)
    }
}

/// The flow of a request to reserve, at `now`, given whether the email
/// address of the request reads as one: what `reserved_at` says.
///
/// Where `reserve_refusal` gives a reason, the request is turned down with
/// the answer to it and the store is as it was: no pending reservation is
/// ever created for a request that is not admitted. An event that is full
/// is turned down by the capacity check, like any request for more than is
/// left. Otherwise a pending reservation is stored, unless the identifier or
/// token drawn for it is already taken; then both are drawn once more, and
/// `TokenCollision` comes back where those are taken too.
pub fn reserve_at(
    db: &mut Database,
    config: &Config,
    payload: ReserveRequest,
    email_ok: bool,
    now: Timestamp,
) -> (r: Result<Reserved, AppError>)
    requires
        old(db)@.wf(),
    ensures
        final(db)@.wf(),
        old(db)@.evolves_to(final(db)@),
        reserved_at(old(db)@, final(db)@, config, payload, email_ok, now, r),
{
    proof {
        db@.lemma_evolves_reflexive();
    }
    match payload.validate_with(email_ok) {
        Ok(()) => {},
        Err(errors) => {
            return Err(AppError::from(errors));
        },
    }
    let event = match db.get_event_by_id(payload.event_id, now) {
        Ok(event) => event,
        Err(e) => {
            return Err(AppError::from(e));
        },
    };
    let current_count = db.count_event_reservations(payload.event_id);
    proof {
        db@.lemma_event_within_capacity(payload.event_id);
    }
    let event = match event {
        AnyEvent::Open(event) => event.with_status(()),
        AnyEvent::Full(event) => event.with_status(()),
        AnyEvent::Finished(_) => {
            return Err(AppError::from(DatabaseError::EventNotFound));
        },
    };
    let again = copy_request(&payload);
    let creating = match admission(&event, current_count, payload) {
        Ok(creating) => creating,
        Err(e) => {
            return Err(e);
        },
    };
    let pending = match db.insert_reservation(creating, now) {
        Ok(pending) => pending,
        Err(DatabaseError::TokenCollision) => {
            // Whatever collided is drawn once more.
            let second = match admission(&event, current_count, again) {
                Ok(second) => second,
                Err(e) => {
                    return Err(e);
                },
            };
            match db.insert_reservation(second, now) {
                Ok(pending) => pending,
                Err(e) => {
                    proof {
                        assert(db@.has_event(second.event_id));
                    }
                    return Err(AppError::from(e));
                },
            }
        },
        Err(e) => {
            proof {
                assert(db@.has_event(creating.event_id));
            }
            return Err(AppError::from(e));
        },
    };
    assert(db@.reservations.last() == pending@);
    let notification = send_verification(
        config,
        pending.user_email.as_str(),
        pending.verification_token.0.as_str(),
    );
    Ok(Reserved { response: reserve_response(&pending), notification })
}

/// The flow of a request to reserve: asks whether the email address reads
/// as one, reads the clock, and goes on as `reserve_at`.
///
/// The outcome is that of `reserve_at` at the time that the clock reports,
/// which is some time of its range. What does not depend on the time is
/// said outright: a request that fails its rules is answered with the
/// record of those, and one for an event that the store does not have with
/// `EventNotFound`. An event that ends after every time of the clock has
/// not ended, so that a request for it that passes its rules and fits is
/// stored, unless what is drawn for it is taken.
pub fn reserve(db: &mut Database, config: &Config, payload: ReserveRequest) -> (r: Result<
    Reserved,
    AppError,
>)
    requires
        old(db)@.wf(),
    ensures
        final(db)@.wf(),
        old(db)@.evolves_to(final(db)@),
        exists|now: Timestamp|
            clock_min() <= now <= clock_max() && #[trigger] reserved_at(
                old(db)@,
                final(db)@,
                config,
                payload,
                email_syntax_ok(payload.user_email@),
                now,
                r,
            ),
        r is Err ==> final(db)@ == old(db)@,
        !reserve_rules_hold(
            payload.user_name@,
            email_syntax_ok(payload.user_email@),
            payload.spot_count,
        ) ==> (r matches Err(AppError::Validation(text)) && text@ == validation_message(
            reserve_failures(payload),
        )),
        reserve_rules_hold(
            payload.user_name@,
            email_syntax_ok(payload.user_email@),
            payload.spot_count,
        ) && !old(db)@.has_event(payload.event_id) ==> r matches Err(
            AppError::Database(DatabaseError::EventNotFound),
        ),
        reserve_rules_hold(
            payload.user_name@,
            email_syntax_ok(payload.user_email@),
            payload.spot_count,
        ) && old(db)@.has_event(payload.event_id) && old(db)@.event(payload.event_id).end_time
            > clock_max() && fits(
            old(db)@.seats_taken(payload.event_id),
            payload.spot_count as nat,
            old(db)@.event(payload.event_id).capacity as nat,
        ) ==> r is Ok || (r matches Err(AppError::Database(DatabaseError::TokenCollision))
            && old(db)@.reservations.len() > 0),
        r matches Ok(reserved) ==> {
            &&& final(db)@.reservations == old(db)@.reservations.push(
                final(db)@.reservations.last(),
            )
            &&& final(db)@.events == old(db)@.events
            &&& final(db)@.reservations.last().event_id == payload.event_id
            &&& final(db)@.reservations.last().user_name == payload.user_name@
            &&& final(db)@.reservations.last().user_email == payload.user_email@
            &&& final(db)@.reservations.last().spot_count == payload.spot_count
            &&& final(db)@.reservations.last().stage is Pending
            &&& reserved.response.reservation_id == final(db)@.reservations.last().id
            &&& reserved.response.status == ReservationStatus::Pending
            &&& is_verification_notice(
                config,
                final(db)@.reservations.last(),
                reserved.notification,
            )
        },
{
    let email_ok = validate_email(payload.user_email.as_str());
    let now = now_utc();
    reserve_at(db, config, payload, email_ok, now)
}

/// The answer to a verification token that finds no pending reservation:
/// the reservation is already confirmed, or there is none.
pub fn missing_pending(confirmed_found: bool) -> (error: AppError)
    ensures
        confirmed_found ==> (error matches AppError::Validation(text) && text@
            == "Reservation already confirmed"@),
        !confirmed_found ==> error is NotFound,
{
    if confirmed_found {
        AppError::validation("Reservation already confirmed")
    } else {
        AppError::not_found()
    }
}

/// What callers learn of the confirmed reservation `confirmed`.
pub fn verify_response(confirmed: &ConfirmedReservation) -> (response: VerifyEmailResponse)
    ensures
        response.event_id == confirmed.event_id,
        response.reservation_id == confirmed.id,
        response.verified_at == confirmed.status.verified_at,
{
    VerifyEmailResponse {
        event_id: confirmed.event_id,
        reservation_id: confirmed.id,
        verified_at: confirmed.status.verified_at,
    }
}

/// A confirmed reservation: what callers learn of it, and the message that
/// tells its owner, or why there is none to send.
#[derive(Debug)]
pub struct Verified {
    pub response: VerifyEmailResponse,
    pub notification: Result<OutgoingEmail, EmailError>,
}

/// Why a verification is turned down before anything is minted.
pub enum VerifyRefusal {
    /// No reservation has this verification token.
    Unknown,
    /// The reservation is already confirmed.
    AlreadyConfirmed,
    /// The store refuses the confirmation: the event has ended, or the
    /// seats do not fit.
    Refused(DatabaseError),
}

/// Why the verification with `token` is turned down at `now` before
/// anything is minted, if it is.
pub open spec fn verify_refusal(db: DatabaseView, token: Seq<char>, now: Timestamp) -> Option<
    VerifyRefusal,
> {
    if !db.has_verification_token(token) {
        Some(VerifyRefusal::Unknown)
    } else if db.reservation_verified_by(token).stage is Confirmed {
        Some(VerifyRefusal::AlreadyConfirmed)
    } else {
        match db.confirm_precheck(db.reservation_verified_by(token), now) {
            Some(e) => Some(VerifyRefusal::Refused(e)),
            None => None,
        }
    }
}

/// Whether `error` is the answer to turning a verification down for
/// `refusal`.
pub open spec fn answers_verify_refusal(error: AppError, refusal: VerifyRefusal) -> bool {
    match refusal {
        VerifyRefusal::Unknown => error is NotFound,
        VerifyRefusal::AlreadyConfirmed => error matches AppError::Validation(text) && text@
            == "Reservation already confirmed"@,
        VerifyRefusal::Refused(e) => error == AppError::Database(e),
    }
}

/// The message that tells the owner of `confirmed` of the confirmation, or
/// the error that says why none can be sent.
pub open spec fn is_confirmation_notice(
    config: &Config,
    confirmed: ReservationView,
    notification: Result<OutgoingEmail, EmailError>,
) -> bool {
    &&& notification is Ok <==> email_acceptable(encode_utf8(confirmed.user_email))
    &&& notification matches Ok(message) ==> message@ == confirmation_email(
        config.email_from_name@,
        config.email_from@,
        config.app_name@,
        config.base_url@,
        confirmed.user_email,
        confirmed,
    )
    &&& notification matches Err(e) ==> e matches EmailError::InvalidEmail(address) && address@
        == confirmed.user_email
}

/// Whether `r` is what the verification with `token` comes to at `now`, in a
/// store that holds `before` and is left holding `after`.
///
/// Where `verify_refusal` gives a reason, `r` is the answer to it. Otherwise
/// `r` is a confirmed reservation, or `TokenCollision` where the tokens
/// drawn for it were taken, which takes two spots or a store that holds a
/// seat token already. On an error the store is as it was, and so the
/// reservation is still what it was. On success the reservation is
/// confirmed at `now` with one active token of its own for each spot, the
/// store is otherwise as it was, and `r` carries the identifiers, the time
/// of verification and the message for the owner.
pub open spec fn verified_at(
    before: DatabaseView,
    after: DatabaseView,
    config: &Config,
    token: Seq<char>,
    now: Timestamp,
    r: Result<Verified, AppError>,
) -> bool {
    let pending = before.reservation_verified_by(token);
    let confirmed = after.reservation_verified_by(token);
    &&& match verify_refusal(before, token, now) {
        Some(refusal) => r is Err && answers_verify_refusal(r->Err_0, refusal),
        None => r is Ok || r matches Err(AppError::Database(DatabaseError::TokenCollision)),
    }
    &&& r is Err ==> after == before
    &&& r matches Err(AppError::Database(DatabaseError::TokenCollision)) ==> pending.spot_count >= 2
        || before.has_seat_tokens()
    &&& r matches Ok(verified) ==> {
        &&& minted_for(pending, now, confirmed.tokens())
        &&& confirmed == confirmed_with(pending, now, confirmed.tokens())
        &&& after == before.with_confirmed(confirmed)
        &&& verified.response.event_id == pending.event_id
        &&& verified.response.reservation_id == pending.id
        &&& verified.response.verified_at == now
        &&& is_confirmation_notice(config, confirmed, verified.notification)
    }
}

/// The flow of a verification with `token` at `now`: what `verified_at`
/// says.
///
/// Where `verify_refusal` gives a reason, the verification is turned down
/// with the answer to it, the store is as it was and the reservation is
/// still what it was. Otherwise the reservation is confirmed with one
/// active token for each of its spots, unless the tokens drawn for it are
/// taken, and those drawn once more are taken too (`TokenCollision`).
pub fn verify_email_at(db: &mut Database, config: &Config, token: &str, now: Timestamp) -> (r:
    Result<Verified, AppError>)
    requires
        old(db)@.wf(),
    ensures
        final(db)@.wf(),
        old(db)@.evolves_to(final(db)@),
        verified_at(old(db)@, final(db)@, config, token@, now, r),
{
    proof {
        db@.lemma_evolves_reflexive();
    }
    let pending = match db.get_pending_reservation_by_verification_token(token) {
        Ok(pending) => pending,
        Err(_) => {
            let confirmed_found = db.get_confirmed_reservation_by_verification_token(
                token,
            ).is_ok();
            proof {
                if db@.has_verification_token(token@) {
                    let i = verification_place_in(db@.reservations, token@);
                    assert(!(db@.reservations[i].stage is Creating));
                }
            }
            return Err(missing_pending(confirmed_found));
        },
    };
    proof {
        let i = verification_place_in(db@.reservations, token@);
        db@.lemma_reservation_place(i, pending.id);
    }
    let user_email = pending.user_email.clone();
    let ghost before = pending@;
    let confirmed = match db.confirm_reservation(pending, now) {
        Ok(confirmed) => confirmed,
        Err(e) => {
            return Err(AppError::from(e));
        },
    };
    proof {
        let i = old(db)@.reservation_place(before.id);
        assert(is_verified_by_in(db@.reservations, i, token@));
        db@.lemma_verification_place(i, token@);
    }
    let notification = send_confirmation(config, user_email.as_str(), &confirmed);
    Ok(Verified { response: verify_response(&confirmed), notification })
}

/// The flow of a verification with `token`: reads the clock and goes on as
/// `verify_email_at`.
///
/// The outcome is that of `verify_email_at` at the time that the clock
/// reports, which is some time of its range. What does not depend on the
/// time is said outright: a token that no reservation has is answered with
/// `NotFound`, and one of a confirmed reservation with the news that it is
/// confirmed. An event that ends after every time of the clock has not
/// ended, so that a pending reservation of it is confirmed where its spots
/// fit, unless the tokens drawn for it are taken, and refused with
/// `CapacityExceeded` where they do not fit. An event that has ended before
/// every time of the clock refuses with `EventNotOpen`.
pub fn verify_email(db: &mut Database, config: &Config, token: &str) -> (r: Result<
    Verified,
    AppError,
>)
    requires
        old(db)@.wf(),
    ensures
        final(db)@.wf(),
        old(db)@.evolves_to(final(db)@),
        exists|now: Timestamp|
            clock_min() <= now <= clock_max() && #[trigger] verified_at(
                old(db)@,
                final(db)@,
                config,
                token@,
                now,
                r,
            ),
        r is Err ==> final(db)@ == old(db)@,
        !old(db)@.has_verification_token(token@) ==> r matches Err(AppError::NotFound),
        old(db)@.has_verification_token(token@) && old(db)@.reservation_verified_by(
            token@,
        ).stage is Confirmed ==> (r matches Err(AppError::Validation(text)) && text@
            == "Reservation already confirmed"@),
        ({
            let pending = old(db)@.reservation_verified_by(token@);
            let event = old(db)@.event(pending.event_id);
            let room = fits(
                old(db)@.seats_taken(pending.event_id),
                pending.spot_count as nat,
                event.capacity as nat,
            );
            old(db)@.has_verification_token(token@) && pending.stage is Pending ==> {
                &&& event.end_time > clock_max() && room ==> r is Ok || (r matches Err(
                    AppError::Database(DatabaseError::TokenCollision),
                ) && (pending.spot_count >= 2 || old(db)@.has_seat_tokens()))
                &&& event.end_time > clock_max() && !room ==> (r matches Err(
                    AppError::Database(DatabaseError::CapacityExceeded),
                ))
                &&& event.end_time <= clock_min() ==> (r matches Err(
                    AppError::Database(DatabaseError::EventNotOpen),
                ))
                &&& r is Err ==> final(db)@.reservation_verified_by(token@) == pending
            }
        }),
        r matches Ok(verified) ==> {
            let pending = old(db)@.reservation_verified_by(token@);
            let confirmed = final(db)@.reservation_verified_by(token@);
            &&& old(db)@.has_verification_token(token@)
            &&& pending.stage is Pending
            &&& confirmed.stage is Confirmed
            &&& clock_min() <= confirmed.stage->Confirmed_verified_at <= clock_max()
            &&& minted_for(pending, confirmed.stage->Confirmed_verified_at, confirmed.tokens())
            &&& confirmed == confirmed_with(
                pending,
                confirmed.stage->Confirmed_verified_at,
                confirmed.tokens(),
            )
            &&& final(db)@ == old(db)@.with_confirmed(confirmed)
            &&& verified.response.event_id == pending.event_id
            &&& verified.response.reservation_id == pending.id
            &&& verified.response.verified_at == confirmed.stage->Confirmed_verified_at
            &&& is_confirmation_notice(config, confirmed, verified.notification)
        },
{
    let now = now_utc();
    proof {
        if db@.has_verification_token(token@) && db@.reservation_verified_by(token@).stage
            is Pending {
            let i = verification_place_in(db@.reservations, token@);
            let pending = db@.reservations[i];
            db@.lemma_reservation_place(i, pending.id);
            assert(crate::db_view::agree(pending, pending));
        }
    }
    verify_email_at(db, config, token, now)
}

/// What the owner of a pending reservation is told on trying to retrieve it.
pub open spec fn advice_to_verify() -> Seq<char> {
    "Reservation must be confirmed before it can be retrieved. Please check your email for the verification link."@
}

/// The answer to an identifier that finds no confirmed reservation: the
/// reservation is still pending, or there is none.
pub fn missing_confirmed(pending_found: bool) -> (error: AppError)
    ensures
        pending_found ==> (error matches AppError::Validation(text) && text@
            == advice_to_verify()),
        !pending_found ==> error is NotFound,
{
    if pending_found {
        AppError::validation(
            "Reservation must be confirmed before it can be retrieved. Please check your email for the verification link.",
        )
    } else {
        AppError::not_found()
    }
}

/// What a response says of the seat token `token`.
pub open spec fn token_shown(token: TokenView) -> (Seq<char>, Seq<char>) {
    (token.token, token_state_name(token.state))
}

/// What the responses `responses` say, in their order.
pub open spec fn tokens_shown(responses: Seq<ReservationTokenResponse>) -> Seq<
    (Seq<char>, Seq<char>),
> {
    responses.map_values(|response: ReservationTokenResponse| (response.token@, response.status@))
}

/// Whether `response` shows the confirmed reservation `reservation` and its
/// event `event`.
pub open spec fn retrieves(
    response: RetrieveReservationResponse,
    reservation: ReservationView,
    event: EventView,
) -> bool {
    &&& response.reservation_id == reservation.id
    &&& response.user_name@ == reservation.user_name
    &&& response.user_email@ == reservation.user_email
    &&& response.status == ReservationStatus::Confirmed
    &&& tokens_shown(response.reservation_tokens@) == reservation.tokens().map_values(
        |token: TokenView| token_shown(token),
    )
    &&& response.created_at == reservation.stage->Confirmed_created_at
    &&& response.updated_at == reservation.stage->Confirmed_updated_at
    &&& response.verified_at == Some(reservation.stage->Confirmed_verified_at)
    &&& response.event.id == event.id
    &&& response.event.name@ == event.name
    &&& text_of(response.event.description) == event.description
    &&& response.event.start_time == event.start_time
    &&& response.event.end_time == event.end_time
    &&& response.event.capacity == event.capacity
    &&& text_of(response.event.location) == event.location
}

/// What callers learn of the confirmed reservation `confirmed` and its
/// event `event`.
pub fn retrieve_response<State>(confirmed: ConfirmedReservation, event: &Event<State>) -> (response:
    RetrieveReservationResponse)
    ensures
        retrieves(response, confirmed@, event@),
{
    let tokens = &confirmed.status.reservation_tokens;
    let ghost views = confirmed@.tokens();
    let mut shown: Vec<ReservationTokenResponse> = Vec::new();
    let mut i: usize = 0;
    while i < tokens.len()
        invariant
            i <= tokens.len(),
            shown.len() == i,
            views == token_views(tokens@),
            forall|k: int|
                0 <= k < i ==> (#[trigger] shown[k]).token@ == views[k].token && shown[k].status@
                    == token_state_name(views[k].state),
        decreases tokens.len() - i,
    {
        assert(views[i as int] == tokens[i as int]@);
        shown.push(
            ReservationTokenResponse {
                token: tokens[i].token().to_owned(),
                status: tokens[i].state_name().to_owned(),
            },
        );
        i += 1;
    }
    assert(tokens_shown(shown@) =~= views.map_values(|token: TokenView| token_shown(token)));
    RetrieveReservationResponse {
        reservation_id: confirmed.id,
        user_name: confirmed.user_name,
        user_email: confirmed.user_email,
        status: ReservationStatus::Confirmed,
        reservation_tokens: shown,
        created_at: confirmed.status.created_at,
        updated_at: confirmed.status.updated_at,
        verified_at: Some(confirmed.status.verified_at),
        event: RetrieveReservationEventResponse {
            id: event.id,
            name: event.name.clone(),
            description: copy_text(&event.description),
            start_time: event.start_time,
            end_time: event.end_time,
            capacity: event.capacity,
            location: copy_text(&event.location),
        },
    }
}

/// The retrieval of the reservation `reservation_id` at `now`: the
/// confirmed reservation with its tokens and its event, whatever state the
/// event is in by then.
///
/// A reservation that is still pending is answered with the advice to
/// verify it, and one that the store does not have with `NotFound`.
pub fn retrieve_reservation(db: &Database, reservation_id: Id, now: Timestamp) -> (r: Result<
    RetrieveReservationResponse,
    AppError,
>)
    requires
        db@.wf(),
    ensures
        r is Ok <==> db@.has_reservation(reservation_id) && db@.reservation(
            reservation_id,
        ).stage is Confirmed,
        r matches Ok(response) ==> retrieves(
            response,
            db@.reservation(reservation_id),
            db@.event(db@.reservation(reservation_id).event_id),
        ),
        r matches Err(e) ==> if db@.has_reservation(reservation_id) {
            e matches AppError::Validation(text) && text@
                == advice_to_verify()
        } else {
            e is NotFound
        },
{
    let confirmed = match db.get_confirmed_reservation_by_id(reservation_id) {
        Ok(confirmed) => confirmed,
        Err(_) => {
            let pending_found = db.get_pending_reservation_by_id(reservation_id).is_ok();
            proof {
                if db@.has_reservation(reservation_id) {
                    let i = db@.reservation_place(reservation_id);
                    assert(!(db@.reservations[i].stage is Creating));
                }
            }
            return Err(missing_confirmed(pending_found));
        },
    };
    proof {
        let i = db@.reservation_place(reservation_id);
        assert(db@.has_event(db@.reservations[i].event_id));
    }
    match db.get_event_by_id(confirmed.event_id, now) {
        Ok(AnyEvent::Open(event)) => Ok(retrieve_response(confirmed, &event)),
        Ok(AnyEvent::Full(event)) => Ok(retrieve_response(confirmed, &event)),
        Ok(AnyEvent::Finished(event)) => Ok(retrieve_response(confirmed, &event)),
        Err(e) => Err(AppError::from(e)),
    }
}

/// The flow of a retrieval by the link that a confirmation carries: reads
/// the identifier from `reservation_id` and the clock, and goes on as
/// `retrieve_reservation`. A text that is no identifier is answered with
/// `InvalidUuid`.
pub fn get_reservation_by_magic_token(db: &Database, reservation_id: &str) -> (r: Result<
    RetrieveReservationResponse,
    AppError,
>)
    requires
        db@.wf(),
    ensures
        r is Ok <==> (parsed_uuid(reservation_id@) matches Some(id) && db@.has_reservation(id)
            && db@.reservation(id).stage is Confirmed),
        r matches Ok(response) ==> retrieves(
            response,
            db@.reservation(parsed_uuid(reservation_id@)->Some_0),
            db@.event(db@.reservation(parsed_uuid(reservation_id@)->Some_0).event_id),
        ),
        r matches Err(e) ==> match parsed_uuid(reservation_id@) {
            None => e is InvalidUuid,
            Some(id) => if db@.has_reservation(id) {
                e matches AppError::Validation(text) && text@
                    == advice_to_verify()
            } else {
                e is NotFound
            },
        },
{
    match parse_id(reservation_id) {
        Ok(id) => {
            let now = now_utc();
            retrieve_reservation(db, id, now)
        },
        Err(e) => Err(AppError::from(e)),
    }
}

/// The flow of a scan of `token` at `now`: the active seat token becomes
/// used, once.
///
/// A token that the store does not have, or one that is no longer active,
/// is answered with `TokenInvalid`, and the store is as it was.
pub fn scan_reservation_token_at(db: &mut Database, token: String, now: Timestamp) -> (r: Result<
    ScanTokenResponse,
    AppError,
>)
    requires
        old(db)@.wf(),
    ensures
        final(db)@.wf(),
        old(db)@.evolves_to(final(db)@),
        r is Ok <==> old(db)@.scannable(token@),
        r matches Ok(response) ==> {
            &&& final(db)@ == old(db)@.after_scan(token@, now)
            &&& old(db)@.same_but_tokens(final(db)@)
            &&& response.token == token
            &&& response.status@ == "used"@
        },
        r matches Err(e) ==> e matches AppError::Database(DatabaseError::TokenInvalid)
            && final(db)@ == old(db)@,
{
    match db.mark_reservation_token_used(token.as_str(), now) {
        Ok(()) => Ok(ScanTokenResponse { token, status: "used".to_owned() }),
        Err(e) => Err(AppError::from(e)),
    }
}

/// The flow of a scan of `token`: reads the clock and goes on as
/// `scan_reservation_token_at`. After a scan the store is what it was but
/// for the one token, which is used since the time that the clock reports;
/// no reservation changes its state.
pub fn scan_reservation_token(db: &mut Database, token: String) -> (r: Result<
    ScanTokenResponse,
    AppError,
>)
    requires
        old(db)@.wf(),
    ensures
        final(db)@.wf(),
        old(db)@.evolves_to(final(db)@),
        r is Ok <==> old(db)@.scannable(token@),
        r is Ok ==> exists|now: Timestamp|
            clock_min() <= now <= clock_max() && final(db)@ == #[trigger] old(db)@.after_scan(
                token@,
                now,
            ),
        r matches Ok(response) ==> {
            &&& old(db)@.same_but_tokens(final(db)@)
            &&& !final(db)@.scannable(token@)
            &&& response.token == token
            &&& response.status@ == "used"@
        },
        r matches Err(e) ==> e matches AppError::Database(DatabaseError::TokenInvalid)
            && final(db)@ == old(db)@,
{
    let now = now_utc();
    proof {
        if db@.scannable(token@) {
            law_scan_once(db@, token@, now);
        }
    }
    scan_reservation_token_at(db, token, now)
}

/// What callers learn of the open event `event`.
pub fn open_event_response(event: OpenEvent) -> (response: OpenEventResponse)
    ensures
        shows_open(response, event@),
{
    OpenEventResponse {
        id: event.id,
        name: event.name,
        description: event.description,
        start_time: event.start_time,
        end_time: event.end_time,
        capacity: event.capacity,
        location: event.location,
        created_at: event.created_at,
        updated_at: event.updated_at,
        status: EventStatus::Open,
    }
}

/// Whether `response` shows the open event `event`.
pub open spec fn shows_open(response: OpenEventResponse, event: EventView) -> bool {
    &&& response.id == event.id
    &&& response.name@ == event.name
    &&& text_of(response.description) == event.description
    &&& response.start_time == event.start_time
    &&& response.end_time == event.end_time
    &&& response.capacity == event.capacity
    &&& text_of(response.location) == event.location
    &&& response.created_at == event.created_at
    &&& response.updated_at == event.updated_at
    &&& response.status == EventStatus::Open
}

/// The lookup of the event `event_id` at `now`: the event, if it is open.
pub fn find_open_event(db: &Database, event_id: Id, now: Timestamp) -> (r: Result<
    OpenEventResponse,
    AppError,
>)
    requires
        db@.wf(),
    ensures
        r is Ok <==> db@.has_event(event_id) && db@.status(event_id, now) == EventStatus::Open,
        r matches Ok(response) ==> shows_open(response, db@.event(event_id)),
        r matches Err(e) ==> e matches AppError::Database(DatabaseError::EventNotFound),
{
    match db.get_open_event_by_id(event_id, now) {
        Ok(event) => Ok(open_event_response(event)),
        Err(e) => Err(AppError::from(e)),
    }
}

/// The flow of a lookup of an event: reads the identifier from `event_id`
/// and the clock, and goes on as `find_open_event`. A text that is no
/// identifier is answered with `NotFound`. An event with a seat left that
/// ends after every time of the clock is open, whatever the clock reports.
pub fn get_event_by_id(db: &Database, event_id: &str) -> (r: Result<OpenEventResponse, AppError>)
    requires
        db@.wf(),
    ensures
        parsed_uuid(event_id@) is None ==> r matches Err(AppError::NotFound),
        parsed_uuid(event_id@) matches Some(id) ==> {
            &&& exists|now: Timestamp|
                clock_min() <= now <= clock_max() && (r is Ok <==> db@.has_event(id)
                    && #[trigger] db@.status(id, now) == EventStatus::Open)
            &&& db@.has_event(id) && db@.event(id).end_time > clock_max() && db@.seats_taken(id)
                < db@.event(id).capacity ==> r is Ok
            &&& !db@.has_event(id) || db@.event(id).end_time <= clock_min() || db@.seats_taken(id)
                >= db@.event(id).capacity ==> r is Err
            &&& r matches Ok(response) ==> shows_open(response, db@.event(id))
            &&& r matches Err(e) ==> (e matches AppError::Database(DatabaseError::EventNotFound))
        },
{
    let id = match parse_id(event_id) {
        Ok(id) => id,
        Err(_) => {
            return Err(AppError::not_found());
        },
    };
    let now = now_utc();
    find_open_event(db, id, now)
}

/// The names that a sample event can have.
pub open spec fn sample_names() -> Seq<Seq<char>> {
    seq![
        "Tech Conference 2024"@,
        "Summer Music Festival"@,
        "Art Exhibition Opening"@,
        "Cooking Workshop"@,
        "Fitness Bootcamp"@,
        "Business Networking Event"@,
        "Photography Meetup"@,
        "Book Club Discussion"@,
        "Wine Tasting Event"@,
        "Startup Pitch Night"@,
    ]
}

/// The places that a sample event can have.
pub open spec fn sample_locations() -> Seq<Seq<char>> {
    seq![
        "Downtown Convention Center"@,
        "City Park Pavilion"@,
        "Community Center Hall"@,
        "Rooftop Venue"@,
        "Beachside Resort"@,
        "Historic Library"@,
        "Modern Art Gallery"@,
        "University Auditorium"@,
        "Hotel Conference Room"@,
        "Outdoor Amphitheater"@,
    ]
}

/// The descriptions that a sample event can have.
pub open spec fn sample_descriptions() -> Seq<Seq<char>> {
    seq![
        "Join us for an amazing experience!"@,
        "Don't miss this exciting opportunity."@,
        "A unique event you won't want to miss."@,
        "Connect with like-minded individuals."@,
        "Learn, grow, and have fun!"@,
        "An unforgettable experience awaits."@,
        "Discover something new today."@,
        "Be part of something special."@,
        "Create lasting memories with us."@,
        "Experience excellence in every detail."@,
    ]
}

/// One of the names that a sample event can have.
fn sample_name(i: u64) -> (name: &'static str)
    requires
        i < 10,
    ensures
        name@ == sample_names()[i as int],
{
    if i == 0 {
        "Tech Conference 2024"
    } else if i == 1 {
        "Summer Music Festival"
    } else if i == 2 {
        "Art Exhibition Opening"
    } else if i == 3 {
        "Cooking Workshop"
    } else if i == 4 {
        "Fitness Bootcamp"
    } else if i == 5 {
        "Business Networking Event"
    } else if i == 6 {
        "Photography Meetup"
    } else if i == 7 {
        "Book Club Discussion"
    } else if i == 8 {
        "Wine Tasting Event"
    } else {
        "Startup Pitch Night"
    }
}

/// One of the places that a sample event can have.
fn sample_location(i: u64) -> (location: &'static str)
    requires
        i < 10,
    ensures
        location@ == sample_locations()[i as int],
{
    if i == 0 {
        "Downtown Convention Center"
    } else if i == 1 {
        "City Park Pavilion"
    } else if i == 2 {
        "Community Center Hall"
    } else if i == 3 {
        "Rooftop Venue"
    } else if i == 4 {
        "Beachside Resort"
    } else if i == 5 {
        "Historic Library"
    } else if i == 6 {
        "Modern Art Gallery"
    } else if i == 7 {
        "University Auditorium"
    } else if i == 8 {
        "Hotel Conference Room"
    } else {
        "Outdoor Amphitheater"
    }
}

/// One of the descriptions that a sample event can have.
fn sample_description(i: u64) -> (description: &'static str)
    requires
        i < 10,
    ensures
        description@ == sample_descriptions()[i as int],
{
    if i == 0 {
        "Join us for an amazing experience!"
    } else if i == 1 {
        "Don't miss this exciting opportunity."
    } else if i == 2 {
        "A unique event you won't want to miss."
    } else if i == 3 {
        "Connect with like-minded individuals."
    } else if i == 4 {
        "Learn, grow, and have fun!"
    } else if i == 5 {
        "An unforgettable experience awaits."
    } else if i == 6 {
        "Discover something new today."
    } else if i == 7 {
        "Be part of something special."
    } else if i == 8 {
        "Create lasting memories with us."
    } else {
        "Experience excellence in every detail."
    }
}

/// The nanoseconds of a second.
pub const SECOND: i128 = 1_000_000_000;

/// The nanoseconds of an hour.
pub const HOUR: i128 = 3_600_000_000_000;

/// The number that a sample event is drawn from: the whole seconds of `now`
/// since the epoch, as an unsigned 64-bit number.
pub open spec fn sample_seed(now: Timestamp) -> int {
    (now / SECOND) % 0x1_0000_0000_0000_0000
}

/// A sample event that is not stored yet.
#[derive(Debug)]
pub struct EventDraft {
    pub name: &'static str,
    pub description: &'static str,
    pub location: &'static str,
    pub start_time: Timestamp,
    pub end_time: Timestamp,
    pub capacity: u32,
}

/// Whether `draft` is the sample event for the time `now`: name, place and
/// description picked by the seed; a start 24 to 47 hours after `now`; a
/// duration of 2 to 4 hours; 20 to 99 seats.
pub open spec fn is_sample_for(draft: EventDraft, now: Timestamp) -> bool {
    let seed = sample_seed(now);
    &&& draft.name@ == sample_names()[seed % 10]
    &&& draft.location@ == sample_locations()[seed % 10]
    &&& draft.description@ == sample_descriptions()[seed % 10]
    &&& draft.start_time == now + (24 + seed % 24) * HOUR
    &&& draft.end_time == draft.start_time + (2 + seed % 3) * HOUR
    &&& draft.capacity == 20 + seed % 80
}

/// The sample event for the time `now`.
pub fn sample_event(now: Timestamp) -> (draft: EventDraft)
    requires
        clock_min() <= now <= clock_max(),
    ensures
        is_sample_for(draft, now),
{
    let seconds: i128 = if now >= 0 {
        now / SECOND
    } else {
        -((SECOND - 1 - now) / SECOND)
    };
    assert(seconds == now / SECOND);
    let seed: u64 = if seconds >= 0 {
        seconds as u64
    } else {
        (seconds + 0x1_0000_0000_0000_0000) as u64
    };
    assert(seed == sample_seed(now));
    let pick: u64 = seed % 10;
    let start_time: i128 = now + (24 + (seed % 24) as i128) * HOUR;
    let end_time: i128 = start_time + (2 + (seed % 3) as i128) * HOUR;
    EventDraft {
        name: sample_name(pick),
        description: sample_description(pick),
        location: sample_location(pick),
        start_time,
        end_time,
        capacity: 20 + (seed % 80) as u32,
    }
}

/// Whether `r` is what opening the sample event comes to at `now`, in a store
/// that holds `before` and is left holding `after`.
///
/// On success the store holds one more event, the sample for `now`, opened
/// at `now` under an identifier that was free, and `r` shows it. The only
/// error is `TokenCollision`, which takes a store that holds an event
/// already, and leaves the store as it was.
pub open spec fn sample_opened_at(
    before: DatabaseView,
    after: DatabaseView,
    now: Timestamp,
    r: Result<OpenEventResponse, AppError>,
) -> bool {
    &&& r matches Ok(response) ==> {
        let event = after.events.last();
        &&& after == before.with_event(event)
        &&& !before.has_event(event.id)
        &&& shows_open(response, event)
        &&& event.created_at == now
        &&& event.updated_at == now
        &&& event.description is Some
        &&& event.location is Some
        &&& exists|draft: EventDraft|
            is_sample_for(draft, now) && event.name == draft.name@ && event.description == Some(
                draft.description@,
            ) && event.location == Some(draft.location@) && event.start_time == draft.start_time
                && event.end_time == draft.end_time && event.capacity == draft.capacity
    }
    &&& r matches Err(e) ==> (e matches AppError::Database(DatabaseError::TokenCollision)) && after
        == before && before.events.len() > 0
}

/// Opens the sample event for the time `now`: what `sample_opened_at` says.
///
/// The event is stored, unless the identifier drawn for it is already taken
/// and the one drawn next is taken too (`TokenCollision`); then the store is
/// as it was.
pub fn open_sample_event(db: &mut Database, now: Timestamp) -> (r: Result<
    OpenEventResponse,
    AppError,
>)
    requires
        old(db)@.wf(),
        clock_min() <= now <= clock_max(),
    ensures
        final(db)@.wf(),
        old(db)@.evolves_to(final(db)@),
        sample_opened_at(old(db)@, final(db)@, now, r),
{
    let draft = sample_event(now);
    match db.create_event(
        draft.name,
        Some(draft.description),
        draft.start_time,
        draft.end_time,
        draft.capacity,
        Some(draft.location),
        now,
    ) {
        Ok(event) => {
            assert(db@.events.last() == event@);
            Ok(open_event_response(event))
        },
        Err(e) => Err(AppError::from(e)),
    }
}

/// The flow of a request for a sample event: reads the clock and goes on as
/// `open_sample_event`.
pub fn generate_random_event(db: &mut Database) -> (r: Result<OpenEventResponse, AppError>)
    requires
        old(db)@.wf(),
    ensures
        final(db)@.wf(),
        old(db)@.evolves_to(final(db)@),
        exists|now: Timestamp|
            clock_min() <= now <= clock_max() && #[trigger] sample_opened_at(
                old(db)@,
                final(db)@,
                now,
                r,
            ),
        old(db)@.events.len() == 0 ==> r is Ok,
        r matches Ok(response) ==> {
            let event = final(db)@.events.last();
            &&& final(db)@ == old(db)@.with_event(event)
            &&& shows_open(response, event)
            &&& clock_min() <= event.created_at <= clock_max()
            &&& event.updated_at == event.created_at
            &&& event.created_at + 24 * HOUR <= event.start_time <= event.created_at + 47 * HOUR
            &&& event.start_time + 2 * HOUR <= event.end_time <= event.start_time + 4 * HOUR
            &&& 20 <= event.capacity <= 99
        },
        r matches Err(e) ==> e matches AppError::Database(DatabaseError::TokenCollision)
            && final(db)@ == old(db)@ && old(db)@.events.len() > 0,
{
    let now = now_utc();
    open_sample_event(db, now)
}

} // verus!
