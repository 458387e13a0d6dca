use quick_res::api::{EventStatus, ReservationStatus, ReserveRequest};
use quick_res::config::{Config, Environment};
use quick_res::db::{Database, DatabaseError};
use quick_res::email::{EmailError, EmailKind};
use quick_res::error::AppError;
use quick_res::handlers::{
    admission, find_open_event, generate_random_event, get_event_by_id,
    get_reservation_by_magic_token, missing_confirmed, missing_pending, open_sample_event, reserve, reserve_at,
    retrieve_reservation, sample_event, scan_reservation_token, scan_reservation_token_at,
    verify_email, verify_email_at,
};
use quick_res::ident::format_id;
use quick_res::models::{Event, Open};

const HOUR: i128 = 3_600_000_000_000;
const NOW: i128 = 1_700_000_000_000_000_000;

fn config() -> Config {
    Config::from_env(&Environment::from_pairs(vec![(
        "BASE_URL".to_string(),
        "https://res.example".to_string(),
    )]))
}

fn store_with_event(capacity: u32) -> (Database, Event<Open>) {
    let mut db = Database::new();
    let event = db
        .create_event("Test Event", None, NOW + HOUR, NOW + 3 * HOUR, capacity, None, NOW)
        .unwrap();
    (db, event)
}

fn request(event_id: u128, spots: u32) -> ReserveRequest {
    ReserveRequest {
        event_id,
        user_name: "John Doe".to_string(),
        user_email: "john@example.com".to_string(),
        spot_count: spots,
    }
}

#[test]
fn admission_checks_what_is_left() {
    let (_, event) = store_with_event(5);
    let creating = admission(&event, 3, request(event.id, 2)).unwrap();
    assert_eq!(creating.event_id, event.id);
    assert_eq!(creating.spot_count, 2);
    assert_eq!(creating.user_name, "John Doe");

    match admission(&event, 3, request(event.id, 3)) {
        Err(AppError::Validation(msg)) => {
            assert_eq!(msg, "Cannot reserve this many slots for this event")
        }
        _ => panic!("Expected Validation error"),
    }
    match admission(&event, 5, request(event.id, 1)) {
        Err(AppError::Validation(msg)) => {
            assert_eq!(msg, "Cannot reserve this many slots for this event")
        }
        _ => panic!("Expected Validation error"),
    }
    match admission(&event, 6, request(event.id, 1)) {
        Err(AppError::Validation(msg)) => assert_eq!(msg, "Event is at full capacity"),
        _ => panic!("Expected Validation error"),
    }
    assert!(matches!(
        admission(&event, 0, request(event.id, 0)),
        Err(AppError::InvalidSpotCount)
    ));
    // Large numbers do not wrap around.
    let (_, huge) = store_with_event(u32::MAX);
    assert!(admission(&huge, u32::MAX - 1, request(huge.id, 1)).is_ok());
    assert!(admission(&huge, u32::MAX, request(huge.id, u32::MAX)).is_err());
}

#[test]
fn reserve_stores_a_pending_reservation_and_prepares_the_email() {
    let (mut db, event) = store_with_event(5);
    let reserved = reserve_at(&mut db, &config(), request(event.id, 2), true, NOW + 1).unwrap();
    assert_eq!(reserved.response.status, ReservationStatus::Pending);

    let stored = db.get_pending_reservation_by_id(reserved.response.reservation_id).unwrap();
    assert_eq!(stored.event_id, event.id);
    assert_eq!(stored.user_name, "John Doe");
    assert_eq!(stored.user_email, "john@example.com");
    assert_eq!(stored.spot_count, 2);
    assert_eq!(stored.status.created_at, NOW + 1);
    assert_eq!(stored.status.updated_at, NOW + 1);
    assert_eq!(db.count_event_reservations(event.id), 0);

    let message = reserved.notification.unwrap();
    assert_eq!(message.kind, EmailKind::Verification);
    assert_eq!(message.to, "john@example.com");
    assert_eq!(
        message.body[1],
        format!("https://res.example/verify/{}", stored.verification_token.0)
    );
}

#[test]
fn reserve_turns_down_what_fails_the_rules() {
    let (mut db, event) = store_with_event(5);
    match reserve_at(&mut db, &config(), request(event.id, 2), false, NOW) {
        Err(AppError::Validation(msg)) => assert_eq!(msg, "user_email: Invalid email address"),
        _ => panic!("Expected Validation error"),
    }
    match reserve_at(&mut db, &config(), request(event.id, 0), true, NOW) {
        Err(AppError::Validation(msg)) => {
            assert_eq!(msg, "spot_count: Spot count must be between 1 and 10000")
        }
        _ => panic!("Expected Validation error"),
    }
    let mut unnamed = request(event.id, 1);
    unnamed.user_name = String::new();
    assert!(matches!(
        reserve(&mut db, &config(), unnamed),
        Err(AppError::Validation(_))
    ));
    let mut unreachable_address = request(event.id, 1);
    unreachable_address.user_email = "invalid-email".to_string();
    match reserve(&mut db, &config(), unreachable_address) {
        Err(AppError::Validation(msg)) => assert_eq!(msg, "user_email: Invalid email address"),
        _ => panic!("Expected Validation error"),
    }
}

#[test]
fn reserve_needs_an_open_event_with_room() {
    let (mut db, event) = store_with_event(2);
    assert!(matches!(
        reserve_at(&mut db, &config(), request(event.id ^ 1, 1), true, NOW),
        Err(AppError::Database(DatabaseError::EventNotFound))
    ));
    assert!(matches!(
        reserve_at(&mut db, &config(), request(event.id, 1), true, NOW + 3 * HOUR),
        Err(AppError::Database(DatabaseError::EventNotFound))
    ));
    match reserve_at(&mut db, &config(), request(event.id, 3), true, NOW) {
        Err(AppError::Validation(msg)) => {
            assert_eq!(msg, "Cannot reserve this many slots for this event")
        }
        _ => panic!("Expected Validation error"),
    }
    assert!(reserve_at(&mut db, &config(), request(event.id, 2), true, NOW).is_ok());
}

#[test]
fn an_email_that_cannot_be_sent_does_not_undo_the_reservation() {
    let (mut db, event) = store_with_event(5);
    let mut short = request(event.id, 1);
    // Reads as an address, but is too short for the basic test before sending.
    short.user_email = "a@b.c".to_string();
    let reserved = reserve_at(&mut db, &config(), short, true, NOW).unwrap();
    match &reserved.notification {
        Err(EmailError::InvalidEmail(address)) => assert_eq!(address, "a@b.c"),
        _ => panic!("Expected InvalidEmail error"),
    }
    let stored = db.get_pending_reservation_by_id(reserved.response.reservation_id).unwrap();

    let verified = verify_email_at(&mut db, &config(), &stored.verification_token.0, NOW).unwrap();
    assert!(matches!(verified.notification, Err(EmailError::InvalidEmail(_))));
    assert!(db.get_confirmed_reservation_by_id(stored.id).is_ok());
}

#[test]
fn verify_confirms_and_prepares_the_email() {
    let (mut db, event) = store_with_event(5);
    let reserved = reserve_at(&mut db, &config(), request(event.id, 2), true, NOW).unwrap();
    let id = reserved.response.reservation_id;
    let token = db.get_pending_reservation_by_id(id).unwrap().verification_token.0;

    let verified = verify_email_at(&mut db, &config(), &token, NOW + 5).unwrap();
    assert_eq!(verified.response.event_id, event.id);
    assert_eq!(verified.response.reservation_id, id);
    assert_eq!(verified.response.verified_at, NOW + 5);
    assert_eq!(db.count_event_reservations(event.id), 2);

    let message = verified.notification.unwrap();
    assert_eq!(message.kind, EmailKind::Confirmation);
    assert_eq!(message.to, "john@example.com");
    assert_eq!(message.body[0], "Dear John Doe,");
    assert_eq!(message.body[4], format!("- Reservation ID: {}", format_id(id)));
    assert_eq!(message.body[5], format!("- Event ID: {}", format_id(event.id)));
    assert_eq!(
        message.body[10],
        format!("https://res.example/retrieve/{}", format_id(id))
    );
}

#[test]
fn verify_tells_unknown_from_already_confirmed() {
    let (mut db, event) = store_with_event(5);
    assert!(matches!(
        verify_email_at(&mut db, &config(), "no-such-token", NOW),
        Err(AppError::NotFound)
    ));
    assert!(matches!(verify_email(&mut db, &config(), ""), Err(AppError::NotFound)));

    let reserved = reserve_at(&mut db, &config(), request(event.id, 1), true, NOW).unwrap();
    let token = db
        .get_pending_reservation_by_id(reserved.response.reservation_id)
        .unwrap()
        .verification_token
        .0;
    verify_email_at(&mut db, &config(), &token, NOW).unwrap();
    for _ in 0..2 {
        match verify_email_at(&mut db, &config(), &token, NOW) {
            Err(AppError::Validation(msg)) => assert_eq!(msg, "Reservation already confirmed"),
            _ => panic!("Expected Validation error"),
        }
    }
    assert_eq!(db.count_event_reservations(event.id), 1);
    assert!(matches!(missing_pending(false), AppError::NotFound));
    assert!(matches!(missing_pending(true), AppError::Validation(_)));
}

#[test]
fn verify_passes_the_refusals_of_the_store_on() {
    let (mut db, event) = store_with_event(2);
    let mut tokens = vec![];
    for _ in 0..2 {
        let reserved = reserve_at(&mut db, &config(), request(event.id, 2), true, NOW).unwrap();
        tokens.push(
            db.get_pending_reservation_by_id(reserved.response.reservation_id)
                .unwrap()
                .verification_token
                .0,
        );
    }
    assert!(matches!(
        verify_email_at(&mut db, &config(), &tokens[0], NOW + 3 * HOUR),
        Err(AppError::Database(DatabaseError::EventNotOpen))
    ));
    assert!(verify_email_at(&mut db, &config(), &tokens[0], NOW).is_ok());
    assert!(matches!(
        verify_email_at(&mut db, &config(), &tokens[1], NOW),
        Err(AppError::Database(DatabaseError::CapacityExceeded))
    ));
    assert!(db.get_pending_reservation_by_verification_token(&tokens[1]).is_ok());
}

#[test]
fn retrieval_shows_the_confirmed_reservation() {
    let (mut db, event) = store_with_event(2);
    let reserved = reserve_at(&mut db, &config(), request(event.id, 2), true, NOW).unwrap();
    let id = reserved.response.reservation_id;
    let token = db.get_pending_reservation_by_id(id).unwrap().verification_token.0;

    // Still pending: the caller is told to verify first.
    match retrieve_reservation(&db, id, NOW) {
        Err(AppError::Validation(msg)) => assert_eq!(
            msg,
            "Reservation must be confirmed before it can be retrieved. \
             Please check your email for the verification link."
        ),
        _ => panic!("Expected Validation error"),
    }
    assert!(matches!(retrieve_reservation(&db, id ^ 1, NOW), Err(AppError::NotFound)));

    verify_email_at(&mut db, &config(), &token, NOW + 5).unwrap();
    let confirmed = db.get_confirmed_reservation_by_id(id).unwrap();
    let first = confirmed.status.reservation_tokens[0].token().to_string();
    let second = confirmed.status.reservation_tokens[1].token().to_string();
    db.mark_reservation_token_used(&second, NOW + 6).unwrap();

    // The event is full by now, and is shown all the same.
    let response = retrieve_reservation(&db, id, NOW + 7).unwrap();
    assert_eq!(response.reservation_id, id);
    assert_eq!(response.user_name, "John Doe");
    assert_eq!(response.user_email, "john@example.com");
    assert_eq!(response.status, ReservationStatus::Confirmed);
    assert_eq!(response.created_at, NOW);
    assert_eq!(response.updated_at, NOW + 5);
    assert_eq!(response.verified_at, Some(NOW + 5));
    assert_eq!(response.reservation_tokens.len(), 2);
    assert_eq!(response.reservation_tokens[0].token, first);
    assert_eq!(response.reservation_tokens[0].status, "Active");
    assert_eq!(response.reservation_tokens[1].token, second);
    assert_eq!(response.reservation_tokens[1].status, "Used");
    assert_eq!(response.event.id, event.id);
    assert_eq!(response.event.name, "Test Event");
    assert_eq!(response.event.description, None);
    assert_eq!(response.event.start_time, NOW + HOUR);
    assert_eq!(response.event.end_time, NOW + 3 * HOUR);
    assert_eq!(response.event.capacity, 2);
    assert_eq!(response.event.location, None);

    let by_link = get_reservation_by_magic_token(&db, &format_id(id)).unwrap();
    assert_eq!(by_link.reservation_id, id);
    assert!(matches!(
        get_reservation_by_magic_token(&db, "not-an-identifier"),
        Err(AppError::InvalidUuid(_))
    ));
    assert!(matches!(
        get_reservation_by_magic_token(&db, &format_id(id ^ 1)),
        Err(AppError::NotFound)
    ));
    assert!(matches!(missing_confirmed(false), AppError::NotFound));
}

#[test]
fn a_scan_answers_used_once() {
    let (mut db, event) = store_with_event(2);
    let reserved = reserve_at(&mut db, &config(), request(event.id, 1), true, NOW).unwrap();
    let id = reserved.response.reservation_id;
    let token = db.get_pending_reservation_by_id(id).unwrap().verification_token.0;
    verify_email_at(&mut db, &config(), &token, NOW).unwrap();
    let seat = db.get_confirmed_reservation_by_id(id).unwrap().status.reservation_tokens[0]
        .token()
        .to_string();

    let response = scan_reservation_token_at(&mut db, seat.clone(), NOW + 1).unwrap();
    assert_eq!(response.token, seat);
    assert_eq!(response.status, "used");
    assert!(matches!(
        scan_reservation_token_at(&mut db, seat.clone(), NOW + 2),
        Err(AppError::Database(DatabaseError::TokenInvalid))
    ));
    assert!(matches!(
        scan_reservation_token(&mut db, seat),
        Err(AppError::Database(DatabaseError::TokenInvalid))
    ));
    assert!(matches!(
        scan_reservation_token(&mut db, "r-unknown".to_string()),
        Err(AppError::Database(DatabaseError::TokenInvalid))
    ));
}

#[test]
fn events_are_looked_up_while_open() {
    let (mut db, event) = store_with_event(1);
    let response = find_open_event(&db, event.id, NOW).unwrap();
    assert_eq!(response.id, event.id);
    assert_eq!(response.name, "Test Event");
    assert_eq!(response.capacity, 1);
    assert_eq!(response.start_time, NOW + HOUR);
    assert_eq!(response.end_time, NOW + 3 * HOUR);
    assert_eq!(response.created_at, NOW);
    assert_eq!(response.updated_at, NOW);
    assert_eq!(response.status, EventStatus::Open);
    assert!(matches!(
        find_open_event(&db, event.id, NOW + 3 * HOUR),
        Err(AppError::Database(DatabaseError::EventNotFound))
    ));
    assert!(matches!(get_event_by_id(&db, "not-an-identifier"), Err(AppError::NotFound)));
    assert!(matches!(
        get_event_by_id(&db, &format_id(event.id ^ 1)),
        Err(AppError::Database(DatabaseError::EventNotFound))
    ));

    let reserved = reserve_at(&mut db, &config(), request(event.id, 1), true, NOW).unwrap();
    let token = db
        .get_pending_reservation_by_id(reserved.response.reservation_id)
        .unwrap()
        .verification_token
        .0;
    verify_email_at(&mut db, &config(), &token, NOW).unwrap();
    assert!(matches!(
        find_open_event(&db, event.id, NOW),
        Err(AppError::Database(DatabaseError::EventNotFound))
    ));
}

#[test]
fn the_sample_event_follows_from_the_time() {
    let draft = sample_event(NOW);
    // The seed is 1 700 000 000: it leaves 0 over 10, 8 over 24, 2 over 3 and
    // 0 over 80.
    assert_eq!(draft.name, "Tech Conference 2024");
    assert_eq!(draft.location, "Downtown Convention Center");
    assert_eq!(draft.description, "Join us for an amazing experience!");
    assert_eq!(draft.start_time, NOW + 32 * HOUR);
    assert_eq!(draft.end_time, NOW + 36 * HOUR);
    assert_eq!(draft.capacity, 20);

    // The fraction of a second does not count.
    let draft = sample_event(1_700_000_077_999_999_999);
    assert_eq!(draft.name, "Book Club Discussion");
    assert_eq!(draft.location, "University Auditorium");
    assert_eq!(draft.description, "Be part of something special.");
    assert_eq!(draft.start_time, 1_700_000_077_999_999_999 + (24 + 13) * HOUR);
    assert_eq!(draft.end_time, draft.start_time + 3 * HOUR);
    assert_eq!(draft.capacity, 20 + 77);

    let draft = sample_event(0);
    assert_eq!(draft.name, "Tech Conference 2024");
    assert_eq!(draft.start_time, 24 * HOUR);
    assert_eq!(draft.end_time, 26 * HOUR);
    assert_eq!(draft.capacity, 20);

    // Before the epoch the seconds are counted downwards, and the seed wraps
    // around 64 bits: one nanosecond before is second -1, seed 2^64 - 1.
    let draft = sample_event(-1);
    assert_eq!(draft.name, "Business Networking Event");
    assert_eq!(draft.start_time, -1 + (24 + 15) * HOUR);
    assert_eq!(draft.end_time, draft.start_time + 2 * HOUR);
    assert_eq!(draft.capacity, 20 + 15);
}

#[test]
fn sample_events_are_stored_open() {
    let mut db = Database::new();
    let response = open_sample_event(&mut db, NOW).unwrap();
    assert_eq!(response.name, "Tech Conference 2024");
    assert_eq!(response.description, Some("Join us for an amazing experience!".to_string()));
    assert_eq!(response.location, Some("Downtown Convention Center".to_string()));
    assert_eq!(response.capacity, 20);
    assert_eq!(response.created_at, NOW);
    assert_eq!(response.status, EventStatus::Open);
    assert_eq!(db.get_open_event_by_id(response.id, NOW).unwrap().end_time, NOW + 36 * HOUR);

    let random = generate_random_event(&mut db).unwrap();
    assert!((20..=99).contains(&random.capacity));
    assert!(random.start_time < random.end_time);
    assert!(random.created_at > NOW);
    assert!(random.start_time >= random.created_at + 24 * HOUR);
    assert!(random.start_time <= random.created_at + 47 * HOUR);
    assert_ne!(random.id, response.id);
    assert_eq!(get_event_by_id(&db, &format_id(random.id)).unwrap().id, random.id);
}

#[test]
fn the_clock_has_its_range() {
    let least = i128::from(i64::MIN) * 1_000_000_000;
    let most = i128::from(i64::MAX) * 1_000_000_000 + 999_999_999;
    assert!(quick_res::clock::is_clock_time(0));
    assert!(quick_res::clock::is_clock_time(NOW));
    assert!(quick_res::clock::is_clock_time(least));
    assert!(quick_res::clock::is_clock_time(most));
    assert!(!quick_res::clock::is_clock_time(least - 1));
    assert!(!quick_res::clock::is_clock_time(most + 1));
    // The sample event is defined on all of it.
    assert_eq!(sample_event(most).end_time, sample_event(most).start_time + 3 * HOUR);
    assert!(sample_event(least).start_time > least);
}

#[test]
fn reserve_reads_the_clock_and_stores() {
    let mut db = Database::new();
    // An event that ends after every time that the clock can report.
    let end = i128::from(i64::MAX) * 1_000_000_000 + 1_000_000_000;
    let event = db.create_event("Test Event", None, NOW, end, 2, None, NOW).unwrap();

    let reserved = reserve(&mut db, &config(), request(event.id, 2)).unwrap();
    assert_eq!(reserved.response.status, ReservationStatus::Pending);
    let stored = db.get_pending_reservation_by_id(reserved.response.reservation_id).unwrap();
    assert_eq!(stored.event_id, event.id);
    assert_eq!(stored.user_name, "John Doe");
    assert_eq!(stored.user_email, "john@example.com");
    assert_eq!(stored.spot_count, 2);
    assert!(stored.status.created_at > NOW);
    assert_eq!(stored.status.updated_at, stored.status.created_at);
    assert_eq!(reserved.notification.unwrap().to, "john@example.com");

    // What does not depend on the time.
    assert!(matches!(
        reserve(&mut db, &config(), request(event.id ^ 1, 1)),
        Err(AppError::Database(DatabaseError::EventNotFound))
    ));
    match reserve(&mut db, &config(), request(event.id, 3)) {
        Err(AppError::Validation(msg)) => {
            assert_eq!(msg, "Cannot reserve this many slots for this event")
        }
        _ => panic!("Expected Validation error"),
    }
    match reserve(&mut db, &config(), request(event.id, 0)) {
        Err(AppError::Validation(msg)) => {
            assert_eq!(msg, "spot_count: Spot count must be between 1 and 10000")
        }
        _ => panic!("Expected Validation error"),
    }
}
