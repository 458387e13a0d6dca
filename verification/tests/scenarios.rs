use std::collections::HashSet;

use quick_res::api::{ReservationStatus, ReserveRequest};
use quick_res::config::{Config, Environment};
use quick_res::db::{Database, DatabaseError};
use quick_res::error::AppError;
use quick_res::handlers::{reserve_at, scan_reservation_token_at, verify_email_at};
use quick_res::models::{
    AnyReservationToken, Event, Open, PendingReservation, ReservationToken, ScannerToken,
    VerificationToken,
};

const HOUR: i128 = 3_600_000_000_000;
const NOW: i128 = 1_700_000_000_000_000_000;

fn config() -> Config {
    Config::from_env(&Environment::from_pairs(vec![]))
}

fn store_with_event(capacity: u32) -> (Database, Event<Open>) {
    let mut db = Database::new();
    let event = db
        .create_event("Test Event", None, NOW + HOUR, NOW + 3 * HOUR, capacity, None, NOW)
        .unwrap();
    (db, event)
}

fn request(event_id: u128, spots: u32) -> ReserveRequest {
    ReserveRequest {
        event_id,
        user_name: "John Doe".to_string(),
        user_email: "john@example.com".to_string(),
        spot_count: spots,
    }
}

fn reserve_pending(db: &mut Database, event_id: u128, spots: u32) -> PendingReservation {
    let reserved = reserve_at(db, &config(), request(event_id, spots), true, NOW).unwrap();
    db.get_pending_reservation_by_id(reserved.response.reservation_id).unwrap()
}

#[test]
fn scenario_happy_path() {
    let (mut db, event) = store_with_event(2);

    let reserved = reserve_at(&mut db, &config(), request(event.id, 2), true, NOW).unwrap();
    assert_eq!(reserved.response.status, ReservationStatus::Pending);
    let pending = db.get_pending_reservation_by_id(reserved.response.reservation_id).unwrap();
    assert!(!pending.verification_token.0.is_empty());

    verify_email_at(&mut db, &config(), &pending.verification_token.0, NOW + 1).unwrap();
    let confirmed = db.get_confirmed_reservation_by_id(pending.id).unwrap();
    let tokens = &confirmed.status.reservation_tokens;
    assert_eq!(tokens.len(), 2);
    assert!(tokens.iter().all(AnyReservationToken::is_active));
    assert_ne!(tokens[0].token(), tokens[1].token());

    let token1 = tokens[0].token().to_string();
    let response = scan_reservation_token_at(&mut db, token1.clone(), NOW + 2).unwrap();
    assert_eq!(response.status, "used");
    let after = db.get_confirmed_reservation_by_id(pending.id).unwrap();
    assert!(after.status.reservation_tokens[0].is_used());
    assert!(after.status.reservation_tokens[1].is_active());

    assert!(matches!(
        scan_reservation_token_at(&mut db, token1, NOW + 3),
        Err(AppError::Database(DatabaseError::TokenInvalid))
    ));
}

#[test]
fn scenario_overbooking_at_reserve_time() {
    let (mut db, event) = store_with_event(1);
    let first = reserve_pending(&mut db, event.id, 1);
    db.confirm_reservation(first, NOW).unwrap();
    assert_eq!(db.count_event_reservations(event.id), 1);
    assert!(!db.has_capacity(event.id, 1).unwrap());

    // The capacity check turns the request down, and nothing is stored.
    match reserve_at(&mut db, &config(), request(event.id, 1), true, NOW) {
        Err(AppError::Validation(msg)) => {
            assert_eq!(msg, "Cannot reserve this many slots for this event")
        }
        _ => panic!("Expected Validation error"),
    }
    assert_eq!(db.count_event_reservations(event.id), 1);
    assert!(db.get_all_open_events(NOW).is_empty());

    // With a seat left but not enough of them, the request is turned down by
    // the capacity check, and no pending reservation is created either.
    let (mut db, event) = store_with_event(3);
    let first = reserve_pending(&mut db, event.id, 2);
    let first_id = first.id;
    db.confirm_reservation(first, NOW).unwrap();
    match reserve_at(&mut db, &config(), request(event.id, 2), true, NOW) {
        Err(AppError::Validation(msg)) => {
            assert_eq!(msg, "Cannot reserve this many slots for this event")
        }
        _ => panic!("Expected Validation error"),
    }
    let second = reserve_pending(&mut db, event.id, 1);
    assert_ne!(second.id, first_id);
}

#[test]
fn scenario_race_at_confirm_time() {
    let (mut db, event) = store_with_event(1);
    // Both are admitted while the seat is free.
    let first = reserve_pending(&mut db, event.id, 1);
    let second = reserve_pending(&mut db, event.id, 1);

    let winner = db.confirm_reservation(first, NOW).unwrap();
    assert_eq!(winner.status.reservation_tokens.len(), 1);
    assert!(matches!(
        db.confirm_reservation(second.clone(), NOW),
        Err(DatabaseError::CapacityExceeded)
    ));
    // The loser is still pending.
    assert_eq!(db.get_pending_reservation_by_id(second.id).unwrap().id, second.id);
    assert!(db.get_confirmed_reservation_by_id(second.id).is_err());
    assert_eq!(db.count_event_reservations(event.id), 1);

    // In the other order the other one wins.
    let (mut db, event) = store_with_event(1);
    let first = reserve_pending(&mut db, event.id, 1);
    let second = reserve_pending(&mut db, event.id, 1);
    assert!(db.confirm_reservation(second, NOW).is_ok());
    assert!(matches!(
        db.confirm_reservation(first, NOW),
        Err(DatabaseError::CapacityExceeded)
    ));
}

#[test]
fn capacity_is_never_exceeded() {
    for capacity in [1u32, 2, 5, 7, 10] {
        let (mut db, event) = store_with_event(capacity);
        // Admit while nothing is confirmed: spots that sum to well over the
        // capacity.
        let spots: Vec<u32> = (0..12).map(|i| 1 + (i * 7 + capacity) % capacity).collect();
        assert!(spots.iter().sum::<u32>() > capacity);
        let pending: Vec<PendingReservation> =
            spots.iter().map(|s| reserve_pending(&mut db, event.id, *s)).collect();

        let mut taken = 0;
        for reservation in pending {
            let spots = reservation.spot_count;
            match db.confirm_reservation(reservation, NOW) {
                Ok(_) => {
                    assert!(taken + spots <= capacity);
                    taken += spots;
                }
                Err(DatabaseError::CapacityExceeded) => assert!(taken + spots > capacity),
                Err(other) => panic!("Unexpected error: {:?}", other),
            }
            assert_eq!(db.count_event_reservations(event.id), taken);
            assert!(taken <= capacity);
        }
    }
}

#[test]
fn single_seats_fill_an_event_exactly() {
    let (mut db, event) = store_with_event(4);
    let pending: Vec<PendingReservation> =
        (0..9).map(|_| reserve_pending(&mut db, event.id, 1)).collect();
    let outcomes: Vec<bool> = pending
        .into_iter()
        .map(|reservation| db.confirm_reservation(reservation, NOW).is_ok())
        .collect();
    assert_eq!(outcomes.iter().filter(|ok| **ok).count(), 4);
    assert_eq!(outcomes, vec![true, true, true, true, false, false, false, false, false]);
    assert_eq!(db.count_event_reservations(event.id), 4);
}

#[test]
fn issued_tokens_do_not_repeat() {
    let mut seen = HashSet::new();
    for _ in 0..2000 {
        assert!(seen.insert(VerificationToken::new().0));
        assert!(seen.insert(ReservationToken::new(1, 0).token));
        assert!(seen.insert(ScannerToken::new().0));
    }
    assert_eq!(seen.len(), 6000);
}

#[test]
fn stored_tokens_do_not_repeat() {
    let (mut db, event) = store_with_event(200);
    let mut verification = HashSet::new();
    let mut seats = HashSet::new();
    for _ in 0..40 {
        let pending = reserve_pending(&mut db, event.id, 5);
        assert!(verification.insert(pending.verification_token.0.clone()));
        let confirmed = db.confirm_reservation(pending, NOW).unwrap();
        for token in &confirmed.status.reservation_tokens {
            assert!(seats.insert(token.token().to_string()));
        }
    }
    assert_eq!(seats.len(), 200);
    assert!(verification.is_disjoint(&seats));
}

#[test]
fn transitions_are_one_way() {
    let (mut db, event) = store_with_event(5);
    let pending = reserve_pending(&mut db, event.id, 3);
    let id = pending.id;
    let verification = pending.verification_token.0.clone();
    let confirmed = db.confirm_reservation(pending.clone(), NOW).unwrap();
    let names: Vec<String> = confirmed
        .status
        .reservation_tokens
        .iter()
        .map(|t| t.token().to_string())
        .collect();
    db.mark_reservation_token_used(&names[0], NOW + 1).unwrap();
    db.expire_reservation_token(&names[1]).unwrap();

    // Whatever is tried next, the reservation stays confirmed, the used token
    // used, the expired token expired.
    let _ = db.confirm_reservation(pending.clone(), NOW + 2);
    let _ = db.insert_reservation(
        quick_res::models::Reservation {
            id,
            event_id: event.id,
            user_name: "John Doe".to_string(),
            user_email: "john@example.com".to_string(),
            verification_token: VerificationToken(verification.clone()),
            spot_count: 3,
            status: quick_res::models::Creating,
        },
        NOW + 2,
    );
    let _ = db.mark_reservation_token_used(&names[0], NOW + 3);
    let _ = db.mark_reservation_token_used(&names[1], NOW + 3);
    let _ = db.expire_reservation_token(&names[0]);
    let _ = db.expire_reservation_token(&names[1]);
    let _ = db.update_event(event.id, "Renamed", None, NOW, NOW + HOUR, 9, None, NOW);
    let _ = verify_email_at(&mut db, &config(), &verification, NOW + 4);
    let _ = reserve_pending(&mut db, event.id, 1);

    assert!(db.get_pending_reservation_by_id(id).is_err());
    assert!(db.get_pending_reservation_by_verification_token(&verification).is_err());
    let found = db.get_confirmed_reservation_by_id(id).unwrap();
    let tokens = &found.status.reservation_tokens;
    assert_eq!(tokens.len(), 3);
    assert!(tokens[0].is_used());
    assert_eq!(tokens[0].as_used().unwrap().status.used_at, Some(NOW + 1));
    assert!(tokens[1].is_expired());
    assert!(tokens[2].is_active());
    assert_eq!(
        tokens.iter().map(|t| t.token().to_string()).collect::<Vec<_>>(),
        names
    );
}

#[test]
fn of_many_scans_exactly_one_succeeds() {
    let (mut db, event) = store_with_event(5);
    let pending = reserve_pending(&mut db, event.id, 2);
    let confirmed = db.confirm_reservation(pending, NOW).unwrap();
    let token = confirmed.status.reservation_tokens[0].token().to_string();
    let other = confirmed.status.reservation_tokens[1].token().to_string();

    let outcomes: Vec<Result<(), DatabaseError>> = (0..20)
        .map(|i| db.mark_reservation_token_used(&token, NOW + i))
        .collect();
    assert_eq!(outcomes.iter().filter(|r| r.is_ok()).count(), 1);
    assert!(outcomes[0].is_ok());
    assert!(outcomes[1..]
        .iter()
        .all(|r| matches!(r, Err(DatabaseError::TokenInvalid))));

    // The time of the first scan stands, and the other seat is untouched.
    let found = db.get_confirmed_reservation_by_id(confirmed.id).unwrap();
    assert_eq!(
        found.status.reservation_tokens[0].as_used().unwrap().status.used_at,
        Some(NOW)
    );
    assert!(found.status.reservation_tokens[1].is_active());
    assert!(db.mark_reservation_token_used(&other, NOW).is_ok());

    // A token that was never issued is scanned by none.
    assert!((0..5).all(|i| db.mark_reservation_token_used("r-never", NOW + i).is_err()));
}
