use quick_res::api::{EventStatus, ReservationStatus};
use quick_res::ident::{draw_many, format_id, Draw};
use quick_res::models::{
    mint_tokens, Active, AnyEvent, AnyReservation, AnyReservationToken, Confirmed, Creating,
    CreatingReservation, Event, Expired, Finished, Full, Open, Pending, PrepareError,
    Reservation, ReservationToken, ScannerInvite, ScannerToken, Unknown, Used,
    VerificationToken,
};

const EVENT: u128 = 0x6ba7b8109dad11d180b400c04fd430c8;

fn is_uuid_text(text: &str) -> bool {
    let bytes = text.as_bytes();
    bytes.len() == 36
        && bytes.iter().enumerate().all(|(i, b)| {
            if i == 8 || i == 13 || i == 18 || i == 23 {
                *b == b'-'
            } else {
                b.is_ascii_digit() || (b'a'..=b'f').contains(b)
            }
        })
}

/// A secret reads as two identifiers with a hyphen between.
fn is_secret_text(text: &str) -> bool {
    text.len() == 73
        && text.is_char_boundary(36)
        && text.is_char_boundary(37)
        && is_uuid_text(&text[..36])
        && &text[36..37] == "-"
        && is_uuid_text(&text[37..])
}

const FIRST: Draw = Draw {
    first: 0x550e8400e29b41d4a716446655440000,
    second: 0x6ba7b8109dad41d180b400c04fd430c8,
};

const SECOND: Draw = Draw {
    first: 0x6ba7b8109dad41d180b400c04fd430c8,
    second: 0x550e8400e29b41d4a716446655440000,
};

fn token(text: &str, reservation_id: u128) -> ReservationToken<Active> {
    ReservationToken {
        token: text.to_string(),
        reservation_id,
        created_at: 5,
        status: Active,
    }
}

fn event(capacity: u32, end_time: i128) -> Event<Open> {
    Event {
        id: EVENT,
        name: "Test Event".to_string(),
        description: Some("A test event".to_string()),
        start_time: 0,
        end_time,
        capacity,
        location: None,
        created_at: 0,
        updated_at: 0,
        status: Open,
    }
}

#[test]
fn identifiers_print_hyphenated_in_lower_case() {
    assert_eq!(
        format_id(0x550e8400e29b41d4a716446655440000),
        "550e8400-e29b-41d4-a716-446655440000"
    );
    assert_eq!(format_id(0), "00000000-0000-0000-0000-000000000000");
    assert_eq!(format_id(u128::MAX), "ffffffff-ffff-ffff-ffff-ffffffffffff");
    assert_eq!(
        format_id(0x0123456789abcdef0123456789abcdef),
        "01234567-89ab-cdef-0123-456789abcdef"
    );
}

#[test]
fn secrets_read_as_two_identifiers() {
    assert_eq!(
        FIRST.to_text(),
        "550e8400-e29b-41d4-a716-446655440000-6ba7b810-9dad-41d1-80b4-00c04fd430c8"
    );
    assert_eq!(
        SECOND.to_text(),
        "6ba7b810-9dad-41d1-80b4-00c04fd430c8-550e8400-e29b-41d4-a716-446655440000"
    );
    let draw = Draw::new();
    assert!(is_secret_text(&draw.to_text()));
    assert_ne!(draw.first, draw.second);
    assert_ne!(draw, Draw::new());

    let many = draw_many(50);
    assert_eq!(many.len(), 50);
    for (k, one) in many.iter().enumerate() {
        assert!(many[..k].iter().all(|other| other != one));
    }
    assert!(draw_many(0).is_empty());
}

#[test]
fn verification_tokens_are_secrets() {
    let token = VerificationToken::new();
    assert!(is_secret_text(&token.0), "{}", token.0);
    // Version 4, standard variant, in both halves.
    for start in [0, 37] {
        assert_eq!(token.0.as_bytes()[start + 14], b'4');
        assert!(matches!(token.0.as_bytes()[start + 19], b'8' | b'9' | b'a' | b'b'));
    }
    assert_eq!(token.clone().0, token.0);
    assert_eq!(VerificationToken::from_draw(FIRST).0, FIRST.to_text());
}

#[test]
fn scanner_tokens_carry_their_prefix() {
    let token = ScannerToken::new();
    assert!(token.0.starts_with("s-"));
    assert!(is_secret_text(&token.0[2..]));
    assert_eq!(ScannerToken::from_draw(FIRST).0, format!("s-{}", FIRST.to_text()));
}

#[test]
fn reservation_tokens_carry_their_prefix() {
    let minted = ReservationToken::new(7, 11);
    assert!(minted.token.starts_with("r-"));
    assert!(is_secret_text(&minted.token[2..]));
    assert_eq!(minted.reservation_id, 7);
    assert_eq!(minted.created_at, 11);

    let made = ReservationToken::from_draw(7, 11, SECOND);
    assert_eq!(made.token, format!("r-{}", SECOND.to_text()));
    assert_eq!(made.reservation_id, 7);
    assert_eq!(made.created_at, 11);
}

#[test]
fn tokens_are_minted_from_their_draws() {
    let tokens = mint_tokens(9, 13, &vec![FIRST, SECOND]);
    assert_eq!(tokens.len(), 2);
    assert_eq!(tokens[0].token(), format!("r-{}", FIRST.to_text()));
    assert_eq!(tokens[1].token(), format!("r-{}", SECOND.to_text()));
    assert_ne!(tokens[0].token(), tokens[1].token());
    for token in &tokens {
        assert!(token.is_active());
        assert_eq!(token.reservation_id(), 9);
        assert_eq!(token.created_at(), 13);
    }
    assert!(mint_tokens(9, 13, &vec![]).is_empty());
    // The same draw twice makes the same token twice; it is for the store
    // to refuse that.
    let twins = mint_tokens(9, 13, &vec![FIRST, FIRST]);
    assert_eq!(twins[0].token(), twins[1].token());
}

#[test]
fn reservations_are_prepared_with_what_was_drawn() {
    let prepare = |spots, capacity| {
        CreatingReservation::prepare_with(
            EVENT,
            "John Doe".to_string(),
            "john@example.com".to_string(),
            spots,
            capacity,
            42,
            FIRST,
        )
    };
    let creating = prepare(2, 5).unwrap();
    assert_eq!(creating.id, 42);
    assert_eq!(creating.verification_token.0, FIRST.to_text());
    assert_eq!(creating.event_id, EVENT);
    assert_eq!(creating.user_name, "John Doe");
    assert_eq!(creating.user_email, "john@example.com");
    assert_eq!(creating.spot_count, 2);
    assert_eq!(prepare(0, 5).unwrap_err(), PrepareError::InvalidSpotCount);
    assert_eq!(prepare(6, 5).unwrap_err(), PrepareError::InvalidSpotCount);
    assert!(prepare(5, 5).is_ok());
}

#[test]
fn two_preparations_differ_in_what_is_drawn() {
    let prepare = || {
        CreatingReservation::prepare(
            EVENT,
            "John Doe".to_string(),
            "john@example.com".to_string(),
            2,
            5,
        )
        .unwrap()
    };
    let (first, second) = (prepare(), prepare());
    assert_ne!(first.id, second.id);
    assert_ne!(first.verification_token.0, second.verification_token.0);
    assert_eq!(first.event_id, second.event_id);
    assert_eq!(first.spot_count, second.spot_count);
}

#[test]
fn a_confirmation_with_given_draws() {
    let pending = CreatingReservation::prepare_with(
        EVENT,
        "John Doe".to_string(),
        "john@example.com".to_string(),
        2,
        5,
        42,
        FIRST,
    )
    .unwrap()
    .create(0);
    let hour: i128 = 3_600_000_000_000;
    let confirmed = pending.confirm_with(hour, &vec![FIRST, SECOND]);
    assert_eq!(confirmed.id, 42);
    assert_eq!(confirmed.spot_count, 2);
    assert_eq!(confirmed.status.created_at, 0);
    assert_eq!(confirmed.status.updated_at, hour);
    assert_eq!(confirmed.status.verified_at, hour);
    let tokens = &confirmed.status.reservation_tokens;
    assert_eq!(tokens.len(), 2);
    assert!(tokens[0].is_active() && tokens[1].is_active());
    assert_eq!(tokens[0].token(), format!("r-{}", FIRST.to_text()));
    assert_eq!(tokens[1].token(), format!("r-{}", SECOND.to_text()));
    assert_eq!(tokens[0].reservation_id(), 42);
    assert_eq!(tokens[1].created_at(), hour);
}

#[test]
fn scanner_invites_are_drawn_fresh() {
    let invite = ScannerInvite::new(EVENT, "door@example.com".to_string(), 42);
    assert_eq!(invite.event_id, EVENT);
    assert_eq!(invite.email, "door@example.com");
    assert_eq!(invite.created_at, 42);
    assert!(invite.token.0.starts_with("s-"));
    assert!(is_secret_text(&invite.token.0[2..]));
    let other = ScannerInvite::new(EVENT, "door@example.com".to_string(), 42);
    assert_ne!(invite.id, other.id);
    assert_ne!(invite.token.0, other.token.0);
}

#[test]
fn prepare_checks_the_spot_count_first() {
    let prepare = |spots, capacity| {
        CreatingReservation::prepare(
            EVENT,
            "John Doe".to_string(),
            "john@example.com".to_string(),
            spots,
            capacity,
        )
    };
    assert_eq!(prepare(0, 10).unwrap_err(), PrepareError::InvalidSpotCount);
    assert_eq!(prepare(11, 10).unwrap_err(), PrepareError::InvalidSpotCount);
    assert_eq!(prepare(1, 0).unwrap_err(), PrepareError::InvalidSpotCount);
    assert!(prepare(1, 10).is_ok());
    assert!(prepare(10, 10).is_ok());

    let creating = prepare(3, 10).unwrap();
    assert_eq!(creating.event_id, EVENT);
    assert_eq!(creating.user_name, "John Doe");
    assert_eq!(creating.user_email, "john@example.com");
    assert_eq!(creating.spot_count, 3);
    assert!(is_secret_text(&creating.verification_token.0));
    assert_eq!(creating.status.to_string(), "Creating");
}

#[test]
fn create_stamps_both_times() {
    let creating = CreatingReservation::prepare(
        EVENT,
        "John Doe".to_string(),
        "john@example.com".to_string(),
        2,
        5,
    )
    .unwrap();
    let id = creating.id;
    let token = creating.verification_token.0.clone();
    let pending = creating.create(1_000);
    assert_eq!(pending.id, id);
    assert_eq!(pending.event_id, EVENT);
    assert_eq!(pending.user_name, "John Doe");
    assert_eq!(pending.user_email, "john@example.com");
    assert_eq!(pending.verification_token.0, token);
    assert_eq!(pending.spot_count, 2);
    assert_eq!(pending.status.created_at, 1_000);
    assert_eq!(pending.status.updated_at, 1_000);
    assert_eq!(pending.status.to_string(), "Pending");
}

#[test]
fn confirm_mints_one_active_token_for_each_spot() {
    let pending = CreatingReservation::prepare(
        EVENT,
        "John Doe".to_string(),
        "john@example.com".to_string(),
        3,
        5,
    )
    .unwrap()
    .create(1_000);
    let id = pending.id;
    let confirmed = pending.confirm(2_000);
    assert_eq!(confirmed.id, id);
    assert_eq!(confirmed.spot_count, 3);
    assert_eq!(confirmed.status.created_at, 1_000);
    assert_eq!(confirmed.status.updated_at, 2_000);
    assert_eq!(confirmed.status.verified_at, 2_000);
    assert_eq!(confirmed.status.to_string(), "Confirmed");
    let tokens = &confirmed.status.reservation_tokens;
    assert_eq!(tokens.len(), 3);
    for token in tokens {
        assert!(token.is_active());
        assert_eq!(token.reservation_id(), id);
        assert_eq!(token.created_at(), 2_000);
        assert!(token.token().starts_with("r-"));
    }
    assert_ne!(tokens[0].token(), tokens[1].token());
    assert_ne!(tokens[1].token(), tokens[2].token());
    assert_ne!(tokens[0].token(), tokens[2].token());
    assert_eq!(confirmed.get_active_reservation_tokens().len(), 3);
    assert!(confirmed.get_used_reservation_tokens().is_empty());
    assert!(confirmed.get_expired_reservation_tokens().is_empty());
}

#[test]
fn tokens_in_any_state() {
    let active = AnyReservationToken::from_active(token("r-a", 1));
    let used = AnyReservationToken::from_used(token("r-u", 2).mark_used(9));
    let expired = AnyReservationToken::from_expired(token("r-e", 3).expire());

    assert_eq!(active.token(), "r-a");
    assert_eq!(used.token(), "r-u");
    assert_eq!(expired.token(), "r-e");
    assert_eq!(active.reservation_id(), 1);
    assert_eq!(used.reservation_id(), 2);
    assert_eq!(expired.reservation_id(), 3);
    assert_eq!(used.created_at(), 5);

    assert_eq!(active.state_name(), "Active");
    assert_eq!(used.state_name(), "Used");
    assert_eq!(expired.state_name(), "Expired");

    assert!(active.is_active() && !active.is_used() && !active.is_expired());
    assert!(!used.is_active() && used.is_used() && !used.is_expired());
    assert!(!expired.is_active() && !expired.is_used() && expired.is_expired());

    assert!(active.as_active().is_some() && active.as_used().is_none());
    assert!(active.as_expired().is_none());
    assert_eq!(used.as_used().unwrap().status.used_at, Some(9));
    assert!(used.as_active().is_none());
    assert!(expired.as_expired().is_some() && expired.as_active().is_none());

    assert_eq!(used.clone().token(), "r-u");
    assert!(used.clone().is_used());
}

#[test]
fn a_scan_uses_an_active_token_and_no_other() {
    let scanned = AnyReservationToken::from_active(token("r-a", 1)).scan(77).unwrap();
    assert!(scanned.is_used());
    assert_eq!(scanned.token(), "r-a");
    assert_eq!(scanned.as_used().unwrap().status.used_at, Some(77));

    // Scanned again, the token comes back as it is.
    let again = scanned.scan(99).unwrap_err();
    assert_eq!(again.as_used().unwrap().status.used_at, Some(77));

    let expired = AnyReservationToken::from_expired(token("r-e", 3).expire());
    assert!(expired.scan(99).unwrap_err().is_expired());
}

#[test]
fn tokens_are_selected_by_state_in_their_order() {
    let reservation = Reservation {
        id: 1,
        event_id: EVENT,
        user_name: "John Doe".to_string(),
        user_email: "john@example.com".to_string(),
        verification_token: VerificationToken("v".to_string()),
        spot_count: 5,
        status: Confirmed {
            created_at: 0,
            updated_at: 0,
            verified_at: 0,
            reservation_tokens: vec![
                AnyReservationToken::Active(token("r-1", 1)),
                AnyReservationToken::Used(token("r-2", 1).mark_used(3)),
                AnyReservationToken::Active(token("r-3", 1)),
                AnyReservationToken::Expired(token("r-4", 1).expire()),
                AnyReservationToken::Used(token("r-5", 1).mark_used(4)),
            ],
        },
    };
    let names = |tokens: Vec<String>| tokens;
    assert_eq!(
        names(
            reservation
                .get_active_reservation_tokens()
                .into_iter()
                .map(|t| t.token)
                .collect()
        ),
        vec!["r-1", "r-3"]
    );
    let used = reservation.get_used_reservation_tokens();
    assert_eq!(used.len(), 2);
    assert_eq!(used[0].token, "r-2");
    assert_eq!(used[0].status.used_at, Some(3));
    assert_eq!(used[1].token, "r-5");
    let expired = reservation.get_expired_reservation_tokens();
    assert_eq!(expired.len(), 1);
    assert_eq!(expired[0].token, "r-4");

    let copy = reservation.clone();
    assert_eq!(copy.status.reservation_tokens.len(), 5);
    assert_eq!(copy.status.reservation_tokens[4].token(), "r-5");
}

#[test]
fn state_names() {
    assert_eq!(Creating.to_string(), "Creating");
    assert_eq!(Pending { created_at: 0, updated_at: 0 }.to_string(), "Pending");
    assert_eq!(Active.to_string(), "Active");
    assert_eq!(Used { used_at: None }.to_string(), "Used");
    assert_eq!(Expired.to_string(), "Expired");
    assert_eq!(Unknown.to_string(), "Unknown");
}

#[test]
fn states_show_as_reservation_status() {
    assert_eq!(ReservationStatus::from(Creating), ReservationStatus::Pending);
    assert_eq!(
        ReservationStatus::from(Pending { created_at: 0, updated_at: 0 }),
        ReservationStatus::Pending
    );
    let confirmed = Confirmed {
        created_at: 0,
        updated_at: 0,
        verified_at: 0,
        reservation_tokens: vec![],
    };
    assert_eq!(ReservationStatus::from(confirmed), ReservationStatus::Confirmed);
}

#[test]
fn event_status_is_derived() {
    let subject = event(2, 100);
    // Open while the end time is ahead and seats are left.
    assert_eq!(subject.status_at(0, 99), EventStatus::Open);
    assert_eq!(subject.status_at(1, 0), EventStatus::Open);
    // Full once the confirmed seats reach the capacity.
    assert_eq!(subject.status_at(2, 99), EventStatus::Full);
    assert_eq!(subject.status_at(3, 99), EventStatus::Full);
    // Finished from the end time on, full or not.
    assert_eq!(subject.status_at(0, 100), EventStatus::Finished);
    assert_eq!(subject.status_at(2, 100), EventStatus::Finished);
    assert_eq!(subject.status_at(0, 101), EventStatus::Finished);
}

#[test]
fn events_are_classified_by_their_status() {
    let subject = event(2, 100);
    match subject.classify(0, 50) {
        AnyEvent::Open(found) => assert_eq!(found.name, "Test Event"),
        _ => panic!("Expected an open event"),
    }
    assert_eq!(subject.classify(2, 50).status(), EventStatus::Full);
    assert_eq!(subject.classify(0, 100).status(), EventStatus::Finished);

    let full = subject.copy_as(Full);
    assert_eq!(full.capacity, 2);
    assert_eq!(full.description, Some("A test event".to_string()));
    let finished = subject.with_status(Finished);
    assert_eq!(finished.id, EVENT);
    assert_eq!(finished.end_time, 100);
}

#[test]
fn stored_reservations_in_either_state() {
    let pending = CreatingReservation::prepare(
        EVENT,
        "John Doe".to_string(),
        "john@example.com".to_string(),
        2,
        5,
    )
    .unwrap()
    .create(1);
    let id = pending.id;
    let token = pending.verification_token.0.clone();
    let stored = AnyReservation::Pending(pending.clone());
    assert!(stored.is_pending() && !stored.is_confirmed());
    assert_eq!(stored.id(), id);
    assert_eq!(stored.event_id(), EVENT);
    assert_eq!(stored.spot_count(), 2);
    assert_eq!(stored.verification_token(), token);

    let stored = AnyReservation::Confirmed(pending.confirm(2));
    assert!(stored.is_confirmed() && !stored.is_pending());
    assert_eq!(stored.id(), id);
    assert_eq!(stored.clone().verification_token(), token);
}
