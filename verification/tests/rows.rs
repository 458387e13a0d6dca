use quick_res::models::{AnyReservation, Event, Full, Open, VerificationToken};
use quick_res::rows::{
    reservation_from_row, tokens_from_rows, EventRow, ReservationRow, ReservationTokenRow,
};

fn token_row(token: &str, status: &str, used_at: Option<i128>) -> ReservationTokenRow {
    ReservationTokenRow {
        id: 1,
        reservation_id: 2,
        token: token.to_string(),
        status: status.to_string(),
        created_at: 3,
        used_at,
    }
}

fn reservation_row(status: &str, verified_at: Option<i128>) -> ReservationRow {
    ReservationRow {
        id: 10,
        event_id: 20,
        user_name: "John Doe".to_string(),
        user_email: "john@example.com".to_string(),
        spot_count: 2,
        status: status.to_string(),
        verification_token: "verification-token-123".to_string(),
        created_at: 100,
        updated_at: 200,
        verified_at,
    }
}

fn event_row() -> EventRow {
    EventRow {
        id: 20,
        name: "Test Event".to_string(),
        description: Some("A test event".to_string()),
        start_time: 1,
        end_time: 2,
        capacity: 50,
        location: Some("Test Location".to_string()),
        status: "open".to_string(),
        created_at: 3,
        updated_at: 4,
    }
}

#[test]
fn token_rows_read_their_status() {
    let active = token_row("r-a", "active", None).to_any_reservation_token();
    assert!(active.is_active());
    assert_eq!(active.token(), "r-a");
    assert_eq!(active.reservation_id(), 2);
    assert_eq!(active.created_at(), 3);

    let used = token_row("r-u", "used", Some(9)).to_any_reservation_token();
    assert!(used.is_used());
    assert_eq!(used.as_used().unwrap().status.used_at, Some(9));

    assert!(token_row("r-e", "expired", None).to_any_reservation_token().is_expired());
    // Any other status reads as expired.
    assert!(token_row("r-x", "revoked", None).to_any_reservation_token().is_expired());
    assert!(token_row("r-x", "", None).to_any_reservation_token().is_expired());
    assert!(token_row("r-x", "Active", None).to_any_reservation_token().is_expired());
}

#[test]
fn token_rows_convert_as_asked() {
    assert_eq!(token_row("r-a", "used", None).to_active_reservation_token().token, "r-a");
    assert_eq!(
        token_row("r-a", "active", Some(4)).to_used_reservation_token().status.used_at,
        Some(4)
    );
    assert_eq!(
        token_row("r-a", "active", None).to_expired_reservation_token().reservation_id,
        2
    );
}

#[test]
fn token_rows_keep_their_order() {
    let tokens = tokens_from_rows(vec![
        token_row("r-1", "active", None),
        token_row("r-2", "used", Some(1)),
        token_row("r-3", "expired", None),
        token_row("r-4", "unheard-of", None),
    ]);
    let shown: Vec<(&str, &str)> = tokens.iter().map(|t| (t.token(), t.state_name())).collect();
    assert_eq!(
        shown,
        vec![("r-1", "Active"), ("r-2", "Used"), ("r-3", "Expired"), ("r-4", "Expired")]
    );
    assert!(tokens_from_rows(vec![]).is_empty());
}

#[test]
fn reservation_rows_read_their_status() {
    assert!(!reservation_row("pending", None).is_confirmed());
    assert!(!reservation_row("pending", Some(1)).is_confirmed());
    assert!(reservation_row("confirmed", Some(1)).is_confirmed());
    // Confirmed without a verification time reads as pending.
    assert!(!reservation_row("confirmed", None).is_confirmed());
    assert!(!reservation_row("cancelled", Some(1)).is_confirmed());
}

#[test]
fn reservations_from_rows() {
    match reservation_from_row(reservation_row("pending", None), vec![]) {
        AnyReservation::Pending(pending) => {
            assert_eq!(pending.id, 10);
            assert_eq!(pending.event_id, 20);
            assert_eq!(pending.user_name, "John Doe");
            assert_eq!(pending.user_email, "john@example.com");
            assert_eq!(pending.spot_count, 2);
            assert_eq!(pending.verification_token.0, "verification-token-123");
            assert_eq!(pending.status.created_at, 100);
            assert_eq!(pending.status.updated_at, 200);
        }
        _ => panic!("Expected a pending reservation"),
    }

    let tokens = tokens_from_rows(vec![
        token_row("r-1", "active", None),
        token_row("r-2", "used", Some(1)),
    ]);
    match reservation_from_row(reservation_row("confirmed", Some(300)), tokens) {
        AnyReservation::Confirmed(confirmed) => {
            assert_eq!(confirmed.id, 10);
            assert_eq!(confirmed.status.created_at, 100);
            assert_eq!(confirmed.status.updated_at, 200);
            assert_eq!(confirmed.status.verified_at, 300);
            assert_eq!(confirmed.status.reservation_tokens.len(), 2);
            assert_eq!(confirmed.status.reservation_tokens[1].token(), "r-2");
        }
        _ => panic!("Expected a confirmed reservation"),
    }

    assert!(reservation_from_row(reservation_row("confirmed", None), vec![]).is_pending());
    assert!(reservation_from_row(reservation_row("anything", Some(1)), vec![]).is_pending());
}

#[test]
fn reservation_rows_convert_as_asked() {
    let pending = reservation_row("confirmed", Some(1)).to_pending_reservation();
    assert_eq!(pending.status.updated_at, 200);
    let confirmed = reservation_row("pending", Some(7)).to_confirmed_reservation(vec![]);
    assert_eq!(confirmed.status.verified_at, 7);
    assert!(confirmed.status.reservation_tokens.is_empty());
}

#[test]
fn events_from_rows() {
    let open: Event<Open> = event_row().into();
    assert_eq!(open.id, 20);
    assert_eq!(open.name, "Test Event");
    assert_eq!(open.description, Some("A test event".to_string()));
    assert_eq!(open.start_time, 1);
    assert_eq!(open.end_time, 2);
    assert_eq!(open.capacity, 50);
    assert_eq!(open.location, Some("Test Location".to_string()));
    assert_eq!(open.created_at, 3);
    assert_eq!(open.updated_at, 4);
    let full: Event<Full> = event_row().into();
    assert_eq!(full.capacity, 50);
    assert_eq!(event_row().into_event(Open).name, "Test Event");
}

#[test]
fn verification_tokens_from_text() {
    let token: VerificationToken = "verification-token-123".to_string().into();
    assert_eq!(token.0, "verification-token-123");
}
