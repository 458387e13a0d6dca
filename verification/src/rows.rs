//! Rows as a relational store hands them over, and how they become values of
//! the model.
//!
//! A row keeps its state as text. The functions here read that text: a
//! reservation is confirmed where its row says `confirmed` and carries a
//! verification time, and pending otherwise; a seat token is active or used
//! where its row says so, and expired otherwise.

use vstd::prelude::*;

use crate::clock::Timestamp;
use crate::ident::Id;
use crate::models::{
    token_views, Active, AnyReservation, AnyReservationToken, Confirmed, ConfirmedReservation,
    Event, EventView, Expired, ExpiredReservationToken, Full, Open, Pending, PendingReservation,
    Reservation, ReservationToken, ReservationView, Stage, TokenState, TokenView, Used,
    UsedReservationToken, VerificationToken,
};
use crate::text::{str_eq, text_of};

verus! {

/// A row of the table of events.
#[derive(Debug)]
pub struct EventRow {
    pub id: Id,
    pub name: String,
    pub description: Option<String>,
    pub start_time: Timestamp,
    pub end_time: Timestamp,
    pub capacity: u32,
    pub location: Option<String>,
    pub status: String,
    pub created_at: Timestamp,
    pub updated_at: Timestamp,
}

impl View for EventRow {
    type V = EventView;

    open spec fn view(&self) -> EventView {
        EventView {
            id: self.id,
            name: self.name@,
            description: text_of(self.description),
            start_time: self.start_time,
            end_time: self.end_time,
            capacity: self.capacity,
            location: text_of(self.location),
            created_at: self.created_at,
            updated_at: self.updated_at,
        }
    }
}

impl EventRow {
    /// The event of this row, tagged `status`.
    pub open spec fn tagged<State>(self, status: State) -> Event<State> {
        Event {
            id: self.id,
            name: self.name,
            description: self.description,
            start_time: self.start_time,
            end_time: self.end_time,
            capacity: self.capacity,
            location: self.location,
            created_at: self.created_at,
            updated_at: self.updated_at,
            status,
        }
    }

    /// The event of this row, tagged `status`.
    pub fn into_event<State>(self, status: State) -> (event: Event<State>)
        ensures
            event == self.tagged(status),
            event@ == self@,
    {
        Event {
            id: self.id,
            name: self.name,
            description: self.description,
            start_time: self.start_time,
            end_time: self.end_time,
            capacity: self.capacity,
            location: self.location,
            created_at: self.created_at,
            updated_at: self.updated_at,
            status,
        }
    }
}

impl From<EventRow> for Event<Open> {
    fn from(row: EventRow) -> (event: Self) {
        row.into_event(Open)
    }
}

impl vstd::std_specs::convert::FromSpecImpl<EventRow> for Event<Open> {
    open spec fn obeys_from_spec() -> bool {
        true
    }

    open spec fn from_spec(row: EventRow) -> Self {
        row.tagged(Open)
    }
}

impl From<EventRow> for Event<Full> {
    fn from(row: EventRow) -> (event: Self) {
        row.into_event(Full)
    }
}

impl vstd::std_specs::convert::FromSpecImpl<EventRow> for Event<Full> {
    open spec fn obeys_from_spec() -> bool {
        true
    }

    open spec fn from_spec(row: EventRow) -> Self {
        row.tagged(Full)
    }
}

impl From<String> for VerificationToken {
    fn from(token: String) -> (r: Self) {
        VerificationToken(token)
    }
}

impl vstd::std_specs::convert::FromSpecImpl<String> for VerificationToken {
    open spec fn obeys_from_spec() -> bool {
        true
    }

    open spec fn from_spec(token: String) -> Self {
        VerificationToken(token)
    }
}

/// A row of the table of seat tokens.
#[derive(Debug)]
pub struct ReservationTokenRow {
    pub id: Id,
    pub reservation_id: Id,
    pub token: String,
    pub status: String,
    pub created_at: Timestamp,
    pub used_at: Option<Timestamp>,
}

/// The state that a seat token's row stands for: active or used where its
/// status says so, expired where it says that or anything else.
pub open spec fn token_state_of(status: Seq<char>, used_at: Option<Timestamp>) -> TokenState {
    if status == "active"@ {
        TokenState::Active
    } else if status == "used"@ {
        TokenState::Used { used_at }
    } else {
        TokenState::Expired
    }
}

impl View for ReservationTokenRow {
    type V = TokenView;

    open spec fn view(&self) -> TokenView {
        TokenView {
            token: self.token@,
            reservation_id: self.reservation_id,
            created_at: self.created_at,
            state: token_state_of(self.status@, self.used_at),
        }
    }
}

impl ReservationTokenRow {
    /// The token of this row as an active one, whatever the row says of its
    /// state.
    pub fn to_active_reservation_token(self) -> (token: ReservationToken<Active>)
        ensures
            token@ == (TokenView { state: TokenState::Active, ..self@ }),
    {
        ReservationToken {
            token: self.token,
            reservation_id: self.reservation_id,
            created_at: self.created_at,
            status: Active,
        }
    }

    /// The token of this row as a used one, whatever the row says of its
    /// state.
    pub fn to_used_reservation_token(self) -> (token: UsedReservationToken)
        ensures
            token@ == (TokenView { state: TokenState::Used { used_at: self.used_at }, ..self@ }),
    {
        ReservationToken {
            token: self.token,
            reservation_id: self.reservation_id,
            created_at: self.created_at,
            status: Used { used_at: self.used_at },
        }
    }

    /// The token of this row as an expired one, whatever the row says of its
    /// state.
    pub fn to_expired_reservation_token(self) -> (token: ExpiredReservationToken)
        ensures
            token@ == (TokenView { state: TokenState::Expired, ..self@ }),
    {
        ReservationToken {
            token: self.token,
            reservation_id: self.reservation_id,
            created_at: self.created_at,
            status: Expired,
        }
    }

    /// The token of this row in the state that the row gives it.
    pub fn to_any_reservation_token(self) -> (token: AnyReservationToken)
        ensures
            token@ == self@,
    {
        if str_eq(self.status.as_str(), "active") {
            AnyReservationToken::Active(self.to_active_reservation_token())
        } else if str_eq(self.status.as_str(), "used") {
            AnyReservationToken::Used(self.to_used_reservation_token())
        } else {
            AnyReservationToken::Expired(self.to_expired_reservation_token())
        }
    }
}

/// The views of the rows in `rows`, in their order.
pub open spec fn row_views(rows: Seq<ReservationTokenRow>) -> Seq<TokenView> {
    rows.map_values(|row: ReservationTokenRow| row@)
}

/// The seat tokens that `rows` stand for, in their order.
pub fn tokens_from_rows(rows: Vec<ReservationTokenRow>) -> (tokens: Vec<AnyReservationToken>)
    ensures
        token_views(tokens@) == row_views(rows@),
{
    let ghost all = rows@;
    let mut rows = rows;
    let mut reversed: Vec<AnyReservationToken> = Vec::new();
    while rows.len() > 0
        invariant
            rows.len() + reversed.len() == all.len(),
            rows@ == all.take(rows.len() as int),
            forall|k: int|
                0 <= k < reversed.len() ==> (#[trigger] reversed[k])@ == all[all.len() - 1 - k]@,
        decreases rows.len(),
    {
        let row = rows.pop().unwrap();
        assert(rows@ =~= all.take(rows.len() as int));
        reversed.push(row.to_any_reservation_token());
    }
    let mut tokens: Vec<AnyReservationToken> = Vec::new();
    while reversed.len() > 0
        invariant
            tokens.len() + reversed.len() == all.len(),
            forall|k: int|
                0 <= k < reversed.len() ==> (#[trigger] reversed[k])@ == all[all.len() - 1 - k]@,
            forall|k: int| 0 <= k < tokens.len() ==> (#[trigger] tokens[k])@ == all[k]@,
        decreases reversed.len(),
    {
        let token = reversed.pop().unwrap();
        tokens.push(token);
    }
    assert(token_views(tokens@) =~= row_views(all));
    tokens
}

/// A row of the table of reservations.
#[derive(Debug)]
pub struct ReservationRow {
    pub id: Id,
    pub event_id: Id,
    pub user_name: String,
    pub user_email: String,
    pub spot_count: u32,
    pub status: String,
    pub verification_token: String,
    pub created_at: Timestamp,
    pub updated_at: Timestamp,
    pub verified_at: Option<Timestamp>,
}

impl ReservationRow {
    /// Whether the row stands for a confirmed reservation: it says so and
    /// carries the time of verification.
    pub open spec fn spec_is_confirmed(&self) -> bool {
        self.status@ == "confirmed"@ && self.verified_at is Some
    }

    /// What the row holds as a pending reservation.
    pub open spec fn as_pending(&self) -> ReservationView {
        ReservationView {
            id: self.id,
            event_id: self.event_id,
            user_name: self.user_name@,
            user_email: self.user_email@,
            verification_token: self.verification_token@,
            spot_count: self.spot_count,
            stage: Stage::Pending { created_at: self.created_at, updated_at: self.updated_at },
        }
    }

    /// What the row holds as a confirmed reservation with the seat tokens
    /// `tokens`, where it carries the time of verification.
    pub open spec fn as_confirmed(&self, tokens: Seq<TokenView>) -> ReservationView {
        ReservationView {
            stage: Stage::Confirmed {
                created_at: self.created_at,
                updated_at: self.updated_at,
                verified_at: self.verified_at->Some_0,
                tokens: tokens,
            },
            ..self.as_pending()
        }
    }

    /// What the row holds: a confirmed reservation with the seat tokens
    /// `tokens` where it stands for one, a pending reservation otherwise.
    pub open spec fn as_reservation(&self, tokens: Seq<TokenView>) -> ReservationView {
        if self.spec_is_confirmed() {
            self.as_confirmed(tokens)
        } else {
            self.as_pending()
        }
    }

    /// Whether the row stands for a confirmed reservation, so that its seat
    /// tokens are to be read as well.
    #[verifier::when_used_as_spec(spec_is_confirmed)]
    pub fn is_confirmed(&self) -> (b: bool)
        ensures
            b == self.spec_is_confirmed(),
    {
        str_eq(self.status.as_str(), "confirmed") && self.verified_at.is_some()
    }

    /// The reservation of this row as a pending one, whatever the row says of
    /// its state.
    pub fn to_pending_reservation(self) -> (pending: PendingReservation)
        ensures
            pending@ == self.as_pending(),
    {
        Reservation {
            id: self.id,
            event_id: self.event_id,
            user_name: self.user_name,
            user_email: self.user_email,
            spot_count: self.spot_count,
            verification_token: VerificationToken(self.verification_token),
            status: Pending { created_at: self.created_at, updated_at: self.updated_at },
        }
    }

    /// The reservation of this row as a confirmed one with the seat tokens
    /// `reservation_tokens`. The row carries the time of verification.
    pub fn to_confirmed_reservation(self, reservation_tokens: Vec<AnyReservationToken>) -> (confirmed:
        ConfirmedReservation)
        requires
            self.verified_at is Some,
        ensures
            confirmed@ == self.as_confirmed(token_views(reservation_tokens@)),
    {
        Reservation {
            id: self.id,
            event_id: self.event_id,
            user_name: self.user_name,
            user_email: self.user_email,
            spot_count: self.spot_count,
            verification_token: VerificationToken(self.verification_token),
            status: Confirmed {
                created_at: self.created_at,
                updated_at: self.updated_at,
                verified_at: self.verified_at.unwrap(),
                reservation_tokens,
            },
        }
    }
}

/// The reservation that `row` stands for, in the state that the row gives it.
/// The seat tokens are those read for the row; a pending reservation has no
/// use for them.
pub fn reservation_from_row(row: ReservationRow, tokens: Vec<AnyReservationToken>) -> (reservation:
    AnyReservation)
    ensures
        reservation@ == row.as_reservation(token_views(tokens@)),
{
    if row.is_confirmed() {
        AnyReservation::Confirmed(row.to_confirmed_reservation(tokens))
    } else {
        AnyReservation::Pending(row.to_pending_reservation())
    }
}

} // verus!
