//! The data model: events, reservations in their three states, and the
//! per-seat tokens of a confirmed reservation.
//!
//! A state is a type. A reservation is `Reservation<Creating>`, then
//! `Reservation<Pending>`, then `Reservation<Confirmed>`, and each transition
//! consumes the value it starts from. The views collapse the states into one
//! tagged model, so that contracts can relate a value to its successor.

use vstd::prelude::*;
use vstd::string::StringExecFns;

use crate::api::{EventStatus, ReservationStatus};
use crate::clock::Timestamp;
use crate::ident::{draw_many, fresh_id, is_random_id, is_secret_text, Draw, Id};
use crate::text::{copy_text, text_of};

verus! {

/// The state of an event that still takes reservations.
#[derive(Debug, Clone, Copy)]
pub struct Open;

/// The state of an event whose seats are all confirmed.
#[derive(Debug, Clone, Copy)]
pub struct Full;

/// The state of an event whose end time has passed.
#[derive(Debug, Clone, Copy)]
pub struct Finished;

/// An event, tagged with the state it was read in.
#[derive(Debug)]
pub struct Event<State> {
    pub id: Id,
    pub name: String,
    pub description: Option<String>,
    pub start_time: Timestamp,
    pub end_time: Timestamp,
    pub capacity: u32,
    pub location: Option<String>,
    pub created_at: Timestamp,
    pub updated_at: Timestamp,
    pub status: State,
}

pub type OpenEvent = Event<Open>;

pub type FullEvent = Event<Full>;

/// What an event holds, whatever state it is tagged with.
pub struct EventView {
    pub id: Id,
    pub name: Seq<char>,
    pub description: Option<Seq<char>>,
    pub start_time: Timestamp,
    pub end_time: Timestamp,
    pub capacity: u32,
    pub location: Option<Seq<char>>,
    pub created_at: Timestamp,
    pub updated_at: Timestamp,
}

impl<State> View for Event<State> {
    type V = EventView;

    open spec fn view(&self) -> EventView {
        EventView {
            id: self.id,
            name: self.name@,
            description: text_of(self.description),
            start_time: self.start_time,
            end_time: self.end_time,
            capacity: self.capacity,
            location: text_of(self.location),
            created_at: self.created_at,
            updated_at: self.updated_at,
        }
    }
}

/// The status of an event that ends at `end_time` and seats `capacity`, when
/// `confirmed_seats` are taken and the time is `now`.
pub open spec fn event_status(
    end_time: Timestamp,
    capacity: u32,
    confirmed_seats: nat,
    now: Timestamp,
) -> EventStatus {
    if now >= end_time {
        EventStatus::Finished
    } else if confirmed_seats >= capacity {
        EventStatus::Full
    } else {
        EventStatus::Open
    }
}

impl<State> Event<State> {
    /// The status of this event at `now`, given the seats confirmed so far.
    pub fn status_at(&self, confirmed_seats: u64, now: Timestamp) -> (status: EventStatus)
        ensures
            status == event_status(self.end_time, self.capacity, confirmed_seats as nat, now),
    {
        if now >= self.end_time {
            EventStatus::Finished
        } else if confirmed_seats >= self.capacity as u64 {
            EventStatus::Full
        } else {
            EventStatus::Open
        }
    }

    /// The same event under another state tag.
    pub fn with_status<Next>(self, status: Next) -> (r: Event<Next>)
        ensures
            r@ == self@,
            r.status == status,
    {
        Event {
            id: self.id,
            name: self.name,
            description: self.description,
            start_time: self.start_time,
            end_time: self.end_time,
            capacity: self.capacity,
            location: self.location,
            created_at: self.created_at,
            updated_at: self.updated_at,
            status,
        }
    }

    /// A copy of this event, tagged `status`.
    pub fn copy_as<Next>(&self, status: Next) -> (r: Event<Next>)
        ensures
            r@ == self@,
            r.status == status,
    {
        Event {
            id: self.id,
            name: self.name.clone(),
            description: copy_text(&self.description),
            start_time: self.start_time,
            end_time: self.end_time,
            capacity: self.capacity,
            location: copy_text(&self.location),
            created_at: self.created_at,
            updated_at: self.updated_at,
            status,
        }
    }
}

/// A token that proves control of the email address given with a reservation.
#[derive(Debug)]
pub struct VerificationToken(pub String);

impl VerificationToken {
    /// Issues a verification token: the text of a secret drawn at random.
    pub fn new() -> (token: Self)
        ensures
            is_secret_text(token.0@),
    {
        Self::from_draw(Draw::new())
    }

    /// The verification token that the secret `draw` makes.
    pub fn from_draw(draw: Draw) -> (token: Self)
        ensures
            token.0@ == draw.text(),
    {
        Self(draw.to_text())
    }
}

impl Clone for VerificationToken {
    fn clone(&self) -> (r: Self)
        ensures
            r.0@ == self.0@,
    {
        VerificationToken(self.0.clone())
    }
}

/// The text of the scanner token that the secret `draw` makes: `s-` and the
/// text of the secret.
pub open spec fn scanner_token_text(draw: Draw) -> Seq<char> {
    "s-"@ + draw.text()
}

/// The text of the per-seat token that the secret `draw` makes: `r-` and the
/// text of the secret.
pub open spec fn seat_token_text(draw: Draw) -> Seq<char> {
    "r-"@ + draw.text()
}

/// Whether `text` has the form of a scanner token.
pub open spec fn is_scanner_token_text(text: Seq<char>) -> bool {
    exists|draw: Draw| draw.is_random() && text == #[trigger] scanner_token_text(draw)
}

/// Whether `text` has the form of a per-seat token.
pub open spec fn is_reservation_token_text(text: Seq<char>) -> bool {
    exists|draw: Draw| draw.is_random() && text == #[trigger] seat_token_text(draw)
}

/// `prefix` followed by the text of the secret `draw`.
fn prefixed_token(prefix: &str, draw: Draw) -> (text: String)
    ensures
        text@ == prefix@ + draw.text(),
{
    let mut text = String::from_str(prefix);
    text.append(draw.to_text().as_str());
    text
}

/// A token that lets a scanner check attendees in.
#[derive(Debug)]
pub struct ScannerToken(pub String);

impl ScannerToken {
    /// Issues a scanner token from a secret drawn at random.
    pub fn new() -> (token: Self)
        ensures
            is_scanner_token_text(token.0@),
    {
        Self::from_draw(Draw::new())
    }

    /// The scanner token that the secret `draw` makes.
    pub fn from_draw(draw: Draw) -> (token: Self)
        ensures
            token.0@ == scanner_token_text(draw),
    {
        Self(prefixed_token("s-", draw))
    }
}

/// An invitation for `email` to scan at an event.
#[derive(Debug)]
pub struct ScannerInvite {
    pub id: Id,
    pub event_id: Id,
    pub email: String,
    pub token: ScannerToken,
    pub created_at: Timestamp,
}

impl ScannerInvite {
    /// An invitation with a randomly drawn identifier and a fresh token.
    pub fn new(event_id: Id, email: String, created_at: Timestamp) -> (invite: Self)
        ensures
            is_random_id(invite.id),
            invite.event_id == event_id,
            invite.email == email,
            invite.created_at == created_at,
            is_scanner_token_text(invite.token.0@),
    {
        Self { id: fresh_id(), event_id, email, token: ScannerToken::new(), created_at }
    }
}

/// The state of a seat token that has not been scanned.
#[derive(Debug, Clone, Copy)]
pub struct Active;

/// The state of a seat token that was scanned, with the time of the scan
/// where the store recorded one.
#[derive(Debug, Clone, Copy)]
pub struct Used {
    pub used_at: Option<Timestamp>,
}

/// The state of a seat token that was withdrawn without being scanned.
#[derive(Debug, Clone, Copy)]
pub struct Expired;

/// The state of a seat token whose state was not read.
#[derive(Debug, Clone, Copy)]
pub struct Unknown;

/// The state of a seat token, as one tagged value.
pub enum TokenState {
    Active,
    Used { used_at: Option<Timestamp> },
    Expired,
}

impl View for Active {
    type V = TokenState;

    open spec fn view(&self) -> TokenState {
        TokenState::Active
    }
}

impl View for Used {
    type V = TokenState;

    open spec fn view(&self) -> TokenState {
        TokenState::Used { used_at: self.used_at }
    }
}

impl View for Expired {
    type V = TokenState;

    open spec fn view(&self) -> TokenState {
        TokenState::Expired
    }
}

/// A per-seat token of a confirmed reservation, in the state `State`.
#[derive(Debug)]
pub struct ReservationToken<State> {
    pub token: String,
    pub reservation_id: Id,
    pub created_at: Timestamp,
    pub status: State,
}

pub type ActiveReservationToken = ReservationToken<Active>;

pub type UsedReservationToken = ReservationToken<Used>;

pub type ExpiredReservationToken = ReservationToken<Expired>;

pub type UnknownReservationToken = ReservationToken<Unknown>;

/// What a seat token holds, whatever type carries its state.
pub struct TokenView {
    pub token: Seq<char>,
    pub reservation_id: Id,
    pub created_at: Timestamp,
    pub state: TokenState,
}

impl<State: View<V = TokenState>> View for ReservationToken<State> {
    type V = TokenView;

    open spec fn view(&self) -> TokenView {
        TokenView {
            token: self.token@,
            reservation_id: self.reservation_id,
            created_at: self.created_at,
            state: self.status@,
        }
    }
}

impl ReservationToken<Active> {
    /// Mints an active token for one seat of `reservation_id` from a secret
    /// drawn at random.
    pub fn new(reservation_id: Id, created_at: Timestamp) -> (token: Self)
        ensures
            token.reservation_id == reservation_id,
            token.created_at == created_at,
            is_reservation_token_text(token.token@),
    {
        Self::from_draw(reservation_id, created_at, Draw::new())
    }

    /// The active token for one seat of `reservation_id` that the secret
    /// `draw` makes.
    pub fn from_draw(reservation_id: Id, created_at: Timestamp, draw: Draw) -> (token: Self)
        ensures
            token@ == minted_token(reservation_id, created_at, draw),
    {
        Self { token: prefixed_token("r-", draw), reservation_id, created_at, status: Active }
    }

    /// The scan: this token, used at `used_at`.
    pub fn mark_used(self, used_at: Timestamp) -> (used: ReservationToken<Used>)
        ensures
            used@ == (TokenView { state: TokenState::Used { used_at: Some(used_at) }, ..self@ }),
    {
        ReservationToken {
            token: self.token,
            reservation_id: self.reservation_id,
            created_at: self.created_at,
            status: Used { used_at: Some(used_at) },
        }
    }

    /// This token, withdrawn.
    pub fn expire(self) -> (withdrawn: ReservationToken<Expired>)
        ensures
            withdrawn@ == expired(self@),
    {
        ReservationToken {
            token: self.token,
            reservation_id: self.reservation_id,
            created_at: self.created_at,
            status: Expired,
        }
    }
}

impl<State: Copy> Clone for ReservationToken<State> {
    fn clone(&self) -> (r: Self)
        ensures
            r.token@ == self.token@,
            r.reservation_id == self.reservation_id,
            r.created_at == self.created_at,
            r.status == self.status,
    {
        ReservationToken {
            token: self.token.clone(),
            reservation_id: self.reservation_id,
            created_at: self.created_at,
            status: self.status,
        }
    }
}

/// A seat token in any of its states.
#[derive(Debug)]
pub enum AnyReservationToken {
    Active(ReservationToken<Active>),
    Used(ReservationToken<Used>),
    Expired(ReservationToken<Expired>),
}

impl View for AnyReservationToken {
    type V = TokenView;

    open spec fn view(&self) -> TokenView {
        match self {
            AnyReservationToken::Active(token) => token@,
            AnyReservationToken::Used(token) => token@,
            AnyReservationToken::Expired(token) => token@,
        }
    }
}

impl Clone for AnyReservationToken {
    fn clone(&self) -> (r: Self)
        ensures
            r@ == self@,
    {
        match self {
            AnyReservationToken::Active(token) => AnyReservationToken::Active(token.clone()),
            AnyReservationToken::Used(token) => AnyReservationToken::Used(token.clone()),
            AnyReservationToken::Expired(token) => AnyReservationToken::Expired(token.clone()),
        }
    }
}

impl AnyReservationToken {
    /// The token's text, whatever its state.
    pub fn token(&self) -> (text: &str)
        ensures
            text@ == self@.token,
    {
        match self {
            AnyReservationToken::Active(token) => token.token.as_str(),
            AnyReservationToken::Used(token) => token.token.as_str(),
            AnyReservationToken::Expired(token) => token.token.as_str(),
        }
    }

    /// The reservation that the token belongs to, whatever its state.
    pub fn reservation_id(&self) -> (id: Id)
        ensures
            id == self@.reservation_id,
    {
        match self {
            AnyReservationToken::Active(token) => token.reservation_id,
            AnyReservationToken::Used(token) => token.reservation_id,
            AnyReservationToken::Expired(token) => token.reservation_id,
        }
    }

    /// When the token was minted, whatever its state.
    pub fn created_at(&self) -> (at: Timestamp)
        ensures
            at == self@.created_at,
    {
        match self {
            AnyReservationToken::Active(token) => token.created_at,
            AnyReservationToken::Used(token) => token.created_at,
            AnyReservationToken::Expired(token) => token.created_at,
        }
    }

    /// An active token as a token in any state.
    pub fn from_active(token: ReservationToken<Active>) -> (any: Self)
        ensures
            any == AnyReservationToken::Active(token),
    {
        AnyReservationToken::Active(token)
    }

    /// A used token as a token in any state.
    pub fn from_used(token: ReservationToken<Used>) -> (any: Self)
        ensures
            any == AnyReservationToken::Used(token),
    {
        AnyReservationToken::Used(token)
    }

    /// An expired token as a token in any state.
    pub fn from_expired(token: ReservationToken<Expired>) -> (any: Self)
        ensures
            any == AnyReservationToken::Expired(token),
    {
        AnyReservationToken::Expired(token)
    }

    /// The token as an active one, or `None` in another state.
    pub fn as_active(&self) -> (r: Option<&ReservationToken<Active>>)
        ensures
            match *self {
                AnyReservationToken::Active(token) => r == Some(&token),
                _ => r is None,
            },
    {
        if let AnyReservationToken::Active(token) = self {
            Some(token)
        } else {
            None
        }
    }

    /// The token as a used one, or `None` in another state.
    pub fn as_used(&self) -> (r: Option<&ReservationToken<Used>>)
        ensures
            match *self {
                AnyReservationToken::Used(token) => r == Some(&token),
                _ => r is None,
            },
    {
        if let AnyReservationToken::Used(token) = self {
            Some(token)
        } else {
            None
        }
    }

    /// The token as an expired one, or `None` in another state.
    pub fn as_expired(&self) -> (r: Option<&ReservationToken<Expired>>)
        ensures
            match *self {
                AnyReservationToken::Expired(token) => r == Some(&token),
                _ => r is None,
            },
    {
        if let AnyReservationToken::Expired(token) = self {
            Some(token)
        } else {
            None
        }
    }

    /// Whether the token can still be scanned.
    pub fn is_active(&self) -> (b: bool)
        ensures
            b == (self@.state is Active),
    {
        matches!(self, AnyReservationToken::Active(_))
    }

    /// Whether the token was scanned.
    pub fn is_used(&self) -> (b: bool)
        ensures
            b == (self@.state is Used),
    {
        matches!(self, AnyReservationToken::Used(_))
    }

    /// Whether the token was withdrawn.
    pub fn is_expired(&self) -> (b: bool)
        ensures
            b == (self@.state is Expired),
    {
        matches!(self, AnyReservationToken::Expired(_))
    }

    /// The name of the token's state.
    pub fn state_name(&self) -> (name: &'static str)
        ensures
            name@ == token_state_name(self@.state),
    {
        match self {
            AnyReservationToken::Active(_) => "Active",
            AnyReservationToken::Used(_) => "Used",
            AnyReservationToken::Expired(_) => "Expired",
        }
    }

    /// The scan of this token at `now`: an active token becomes used, and a
    /// token in any other state is handed back as it is.
    pub fn scan(self, now: Timestamp) -> (r: Result<AnyReservationToken, AnyReservationToken>)
        ensures
            self@.state is Active ==> r is Ok && r->Ok_0@ == scanned(self@, now),
            !(self@.state is Active) ==> r is Err && r->Err_0@ == self@,
    {
        match self {
            AnyReservationToken::Active(token) => Ok(
                AnyReservationToken::Used(token.mark_used(now)),
            ),
            other => Err(other),
        }
    }
}

/// The name of a token state, as responses show it.
pub open spec fn token_state_name(state: TokenState) -> Seq<char> {
    match state {
        TokenState::Active => "Active"@,
        TokenState::Used { .. } => "Used"@,
        TokenState::Expired => "Expired"@,
    }
}

/// An active token after its scan at `now`.
pub open spec fn scanned(token: TokenView, now: Timestamp) -> TokenView {
    TokenView { state: TokenState::Used { used_at: Some(now) }, ..token }
}

/// An active token after it is withdrawn.
pub open spec fn expired(token: TokenView) -> TokenView {
    TokenView { state: TokenState::Expired, ..token }
}

/// Whether a token may pass from state `from` to state `to`: it may stay as
/// it is, and an active token may become used or expired. Nothing leads back
/// to active.
pub open spec fn token_may_become(from: TokenState, to: TokenState) -> bool {
    from == to || (from is Active && !(to is Active))
}

/// The state of a reservation that is being put together and is not stored.
#[derive(Debug, Clone, Copy)]
pub struct Creating;

/// The state of a stored reservation whose email is not verified. It takes
/// no seat.
#[derive(Debug, Clone, Copy)]
pub struct Pending {
    pub created_at: Timestamp,
    pub updated_at: Timestamp,
}

/// The state of a verified reservation, with one token for each of its
/// seats.
#[derive(Debug)]
pub struct Confirmed {
    pub created_at: Timestamp,
    pub updated_at: Timestamp,
    pub verified_at: Timestamp,
    pub reservation_tokens: Vec<AnyReservationToken>,
}

/// The views of the tokens in `tokens`, in their order.
pub open spec fn token_views(tokens: Seq<AnyReservationToken>) -> Seq<TokenView> {
    tokens.map_values(|token: AnyReservationToken| token@)
}

/// The state of a reservation, as one tagged value.
pub enum Stage {
    Creating,
    Pending { created_at: Timestamp, updated_at: Timestamp },
    Confirmed {
        created_at: Timestamp,
        updated_at: Timestamp,
        verified_at: Timestamp,
        tokens: Seq<TokenView>,
    },
}

impl View for Creating {
    type V = Stage;

    open spec fn view(&self) -> Stage {
        Stage::Creating
    }
}

impl View for Pending {
    type V = Stage;

    open spec fn view(&self) -> Stage {
        Stage::Pending { created_at: self.created_at, updated_at: self.updated_at }
    }
}

impl View for Confirmed {
    type V = Stage;

    open spec fn view(&self) -> Stage {
        Stage::Confirmed {
            created_at: self.created_at,
            updated_at: self.updated_at,
            verified_at: self.verified_at,
            tokens: token_views(self.reservation_tokens@),
        }
    }
}

/// A copy of `tokens`.
pub fn copy_tokens(tokens: &Vec<AnyReservationToken>) -> (r: Vec<AnyReservationToken>)
    ensures
        token_views(r@) == token_views(tokens@),
{
    let mut r: Vec<AnyReservationToken> = Vec::new();
    let mut i: usize = 0;
    while i < tokens.len()
        invariant
            i <= tokens.len(),
            r.len() == i,
            forall|k: int| 0 <= k < i ==> r[k]@ == tokens[k]@,
        decreases tokens.len() - i,
    {
        r.push(tokens[i].clone());
        i += 1;
    }
    assert(token_views(r@) =~= token_views(tokens@));
    r
}

impl Clone for Confirmed {
    fn clone(&self) -> (r: Self)
        ensures
            r@ == self@,
    {
        Confirmed {
            created_at: self.created_at,
            updated_at: self.updated_at,
            verified_at: self.verified_at,
            reservation_tokens: copy_tokens(&self.reservation_tokens),
        }
    }
}

/// A reservation in the state `State`.
#[derive(Debug)]
pub struct Reservation<State> {
    pub id: Id,
    pub event_id: Id,
    pub user_name: String,
    pub user_email: String,
    pub verification_token: VerificationToken,
    pub spot_count: u32,
    pub status: State,
}

pub type CreatingReservation = Reservation<Creating>;

pub type PendingReservation = Reservation<Pending>;

pub type ConfirmedReservation = Reservation<Confirmed>;

/// What a reservation holds, with its state as a tagged value.
pub struct ReservationView {
    pub id: Id,
    pub event_id: Id,
    pub user_name: Seq<char>,
    pub user_email: Seq<char>,
    pub verification_token: Seq<char>,
    pub spot_count: u32,
    pub stage: Stage,
}

impl<State: View<V = Stage>> View for Reservation<State> {
    type V = ReservationView;

    open spec fn view(&self) -> ReservationView {
        ReservationView {
            id: self.id,
            event_id: self.event_id,
            user_name: self.user_name@,
            user_email: self.user_email@,
            verification_token: self.verification_token.0@,
            spot_count: self.spot_count,
            stage: self.status@,
        }
    }
}

impl ReservationView {
    /// The reservation with `tokens` for its seat tokens, where it is
    /// confirmed; the reservation itself in any other state.
    pub open spec fn with_tokens(self, tokens: Seq<TokenView>) -> ReservationView {
        match self.stage {
            Stage::Confirmed { created_at, updated_at, verified_at, .. } => ReservationView {
                stage: Stage::Confirmed { created_at, updated_at, verified_at, tokens },
                ..self
            },
            _ => self,
        }
    }

    /// Whether every seat token is active.
    pub open spec fn all_tokens_active(self) -> bool {
        forall|k: int| 0 <= k < self.tokens().len() ==> (#[trigger] self.tokens()[k]).state is Active
    }

    /// The seat tokens of a confirmed reservation; none in any other state.
    pub open spec fn tokens(self) -> Seq<TokenView> {
        match self.stage {
            Stage::Confirmed { tokens, .. } => tokens,
            _ => Seq::empty(),
        }
    }

    /// The seats that the reservation takes from its event's capacity: its
    /// spots once it is confirmed, none before.
    pub open spec fn seats_taken(self) -> nat {
        if self.stage is Confirmed {
            self.spot_count as nat
        } else {
            0
        }
    }

    /// Whether a confirmed reservation holds one token for each of its spots,
    /// every one its own. Holds of every reservation in another state.
    pub open spec fn tokens_match_spots(self) -> bool {
        self.stage is Confirmed ==> {
            &&& self.tokens().len() == self.spot_count
            &&& forall|i: int|
                0 <= i < self.tokens().len() ==> (#[trigger] self.tokens()[i]).reservation_id
                    == self.id
        }
    }
}

/// How far a reservation has come: creating, then pending, then confirmed.
pub open spec fn stage_rank(stage: Stage) -> nat {
    match stage {
        Stage::Creating => 0,
        Stage::Pending { .. } => 1,
        Stage::Confirmed { .. } => 2,
    }
}

/// Whether a reservation in state `from` can later be found in state `to`:
/// it may stay where it is or have moved forwards, never backwards.
pub open spec fn stage_may_become(from: Stage, to: Stage) -> bool {
    stage_rank(from) <= stage_rank(to)
}

/// Whether `spot_count` is a number of spots that an event of `capacity`
/// seats can ever grant: at least one, at most all.
pub open spec fn spot_count_in_range(spot_count: u32, capacity: u32) -> bool {
    1 <= spot_count <= capacity
}

/// Why a reservation could not be prepared.
#[derive(Debug, Clone, Copy, PartialEq, Eq, Structural)]
pub enum PrepareError {
    /// The number of spots is zero or exceeds the event's capacity.
    InvalidSpotCount,
}

/// The reservation that `pending` becomes when it is stored at `created_at`.
pub open spec fn created(creating: ReservationView, created_at: Timestamp) -> ReservationView {
    ReservationView {
        stage: Stage::Pending { created_at: created_at, updated_at: created_at },
        ..creating
    }
}

/// The active token for one seat of `reservation_id`, minted at `created_at`
/// from the secret `draw`.
pub open spec fn minted_token(reservation_id: Id, created_at: Timestamp, draw: Draw) -> TokenView {
    TokenView {
        token: seat_token_text(draw),
        reservation_id,
        created_at,
        state: TokenState::Active,
    }
}

/// The active tokens for the seats of `reservation_id`, minted at
/// `created_at` from the secrets `draws`, one for each in their order.
pub open spec fn minted_tokens(reservation_id: Id, created_at: Timestamp, draws: Seq<Draw>) -> Seq<
    TokenView,
> {
    Seq::new(draws.len(), |k: int| minted_token(reservation_id, created_at, draws[k]))
}

/// Mints the seat tokens of `reservation_id` at `confirmed_at`: one active
/// token from each of `draws`, in their order.
pub fn mint_tokens(reservation_id: Id, confirmed_at: Timestamp, draws: &Vec<Draw>) -> (tokens: Vec<
    AnyReservationToken,
>)
    ensures
        token_views(tokens@) == minted_tokens(reservation_id, confirmed_at, draws@),
{
    let mut tokens: Vec<AnyReservationToken> = Vec::new();
    let mut k: usize = 0;
    while k < draws.len()
        invariant
            k <= draws.len(),
            tokens.len() == k,
            forall|i: int|
                0 <= i < k ==> (#[trigger] tokens[i])@ == minted_token(
                    reservation_id,
                    confirmed_at,
                    draws[i],
                ),
        decreases draws.len() - k,
    {
        let token = ReservationToken::from_draw(reservation_id, confirmed_at, draws[k]);
        tokens.push(AnyReservationToken::from_active(token));
        k += 1;
    }
    assert(token_views(tokens@) =~= minted_tokens(reservation_id, confirmed_at, draws@));
    tokens
}

/// Whether every one of `draws` is a random one.
pub open spec fn all_random(draws: Seq<Draw>) -> bool {
    forall|k: int| 0 <= k < draws.len() ==> (#[trigger] draws[k]).is_random()
}

/// Whether `tokens` are what a confirmation at `confirmed_at` mints for
/// `pending`: one active token for each spot, every one of the reservation,
/// minted at that time and of the form of a seat token.
pub open spec fn minted_for(
    pending: ReservationView,
    confirmed_at: Timestamp,
    tokens: Seq<TokenView>,
) -> bool {
    &&& tokens.len() == pending.spot_count
    &&& forall|i: int|
        0 <= i < tokens.len() ==> {
            &&& (#[trigger] tokens[i]).state is Active
            &&& tokens[i].reservation_id == pending.id
            &&& tokens[i].created_at == confirmed_at
            &&& is_reservation_token_text(tokens[i].token)
        }
}

/// The reservation that `pending` becomes when it is confirmed at
/// `confirmed_at` with the seat tokens `tokens`.
pub open spec fn confirmed_with(
    pending: ReservationView,
    confirmed_at: Timestamp,
    tokens: Seq<TokenView>,
) -> ReservationView {
    ReservationView {
        stage: Stage::Confirmed {
            created_at: pending.stage->Pending_created_at,
            updated_at: confirmed_at,
            verified_at: confirmed_at,
            tokens: tokens,
        },
        ..pending
    }
}

impl CreatingReservation {
    /// Puts a reservation together for an event of `capacity` seats: draws its
    /// identifier and issues its verification token.
    ///
    /// Fails, before anything is drawn, where `spot_count` is zero or more
    /// than `capacity`.
    pub fn prepare(
        event_id: Id,
        user_name: String,
        user_email: String,
        spot_count: u32,
        capacity: u32,
    ) -> (r: Result<Self, PrepareError>)
        ensures
            r is Ok <==> spot_count_in_range(spot_count, capacity),
            r matches Ok(creating) ==> {
                &&& creating.event_id == event_id
                &&& creating.user_name == user_name
                &&& creating.user_email == user_email
                &&& creating.spot_count == spot_count
                &&& is_random_id(creating.id)
                &&& is_secret_text(creating.verification_token.0@)
            },
            r matches Err(e) ==> e == PrepareError::InvalidSpotCount,
    {
        if spot_count < 1 || spot_count > capacity {
            return Err(PrepareError::InvalidSpotCount);
        }
        Self::prepare_with(
            event_id,
            user_name,
            user_email,
            spot_count,
            capacity,
            fresh_id(),
            Draw::new(),
        )
    }

    /// Puts a reservation together for an event of `capacity` seats under
    /// the identifier `id`, with the verification token that `token` makes.
    ///
    /// Fails where `spot_count` is zero or more than `capacity`.
    pub fn prepare_with(
        event_id: Id,
        user_name: String,
        user_email: String,
        spot_count: u32,
        capacity: u32,
        id: Id,
        token: Draw,
    ) -> (r: Result<Self, PrepareError>)
        ensures
            r is Ok <==> spot_count_in_range(spot_count, capacity),
            r matches Ok(creating) ==> {
                &&& creating.id == id
                &&& creating.verification_token.0@ == token.text()
                &&& creating.event_id == event_id
                &&& creating.user_name == user_name
                &&& creating.user_email == user_email
                &&& creating.spot_count == spot_count
            },
            r matches Err(e) ==> e == PrepareError::InvalidSpotCount,
    {
        if spot_count < 1 || spot_count > capacity {
            return Err(PrepareError::InvalidSpotCount);
        }
        Ok(
            Reservation {
                id,
                event_id,
                user_name,
                user_email,
                verification_token: VerificationToken::from_draw(token),
                spot_count,
                status: Creating,
            },
        )
    }

    /// The transition to pending: the reservation as stored at `created_at`.
    pub fn create(self, created_at: Timestamp) -> (pending: Reservation<Pending>)
        ensures
            pending@ == created(self@, created_at),
    {
        Reservation {
            id: self.id,
            event_id: self.event_id,
            user_name: self.user_name,
            user_email: self.user_email,
            verification_token: self.verification_token,
            spot_count: self.spot_count,
            status: Pending { created_at, updated_at: created_at },
        }
    }
}

impl PendingReservation {
    /// The transition to confirmed: draws one secret for each spot, mints an
    /// active token from each, and stamps the reservation verified at
    /// `confirmed_at`.
    ///
    /// The secrets are drawn at random, so the contract fixes everything but
    /// them: the tokens are those that `mint_tokens` makes of some random
    /// draws, one for each spot.
    pub fn confirm(self, confirmed_at: Timestamp) -> (confirmed: Reservation<Confirmed>)
        ensures
            exists|draws: Seq<Draw>|
                draws.len() == self.spot_count && all_random(draws) && confirmed@.tokens()
                    == #[trigger] minted_tokens(self.id, confirmed_at, draws),
            minted_for(self@, confirmed_at, confirmed@.tokens()),
            confirmed@ == confirmed_with(self@, confirmed_at, confirmed@.tokens()),
            confirmed@.tokens_match_spots(),
    {
        let draws = draw_many(self.spot_count);
        self.confirm_with(confirmed_at, &draws)
    }

    /// The transition to confirmed with the seat tokens that `draws` make,
    /// one for each in their order: the reservation, verified at
    /// `confirmed_at`.
    pub fn confirm_with(self, confirmed_at: Timestamp, draws: &Vec<Draw>) -> (confirmed:
        Reservation<Confirmed>)
        ensures
            confirmed@ == confirmed_with(
                self@,
                confirmed_at,
                minted_tokens(self.id, confirmed_at, draws@),
            ),
            draws.len() == self.spot_count && all_random(draws@) ==> minted_for(
                self@,
                confirmed_at,
                confirmed@.tokens(),
            ) && confirmed@.tokens_match_spots(),
    {
        let tokens = mint_tokens(self.id, confirmed_at, draws);
        let confirmed = Reservation {
            id: self.id,
            event_id: self.event_id,
            user_name: self.user_name,
            user_email: self.user_email,
            verification_token: self.verification_token,
            spot_count: self.spot_count,
            status: Confirmed {
                created_at: self.status.created_at,
                updated_at: confirmed_at,
                verified_at: confirmed_at,
                reservation_tokens: tokens,
            },
        };
        proof {
            let views = confirmed@.tokens();
            assert(views == minted_tokens(self.id, confirmed_at, draws@));
            if draws.len() == self.spot_count && all_random(draws@) {
                assert forall|i: int| 0 <= i < views.len() implies {
                    &&& (#[trigger] views[i]).state is Active
                    &&& views[i].reservation_id == self.id
                    &&& views[i].created_at == confirmed_at
                    &&& is_reservation_token_text(views[i].token)
                } by {
                    assert(draws@[i].is_random());
                    assert(views[i].token == seat_token_text(draws@[i]));
                }
            }
        }
        confirmed
    }
}

impl Clone for Reservation<Pending> {
    fn clone(&self) -> (r: Self)
        ensures
            r@ == self@,
    {
        Reservation {
            id: self.id,
            event_id: self.event_id,
            user_name: self.user_name.clone(),
            user_email: self.user_email.clone(),
            verification_token: self.verification_token.clone(),
            spot_count: self.spot_count,
            status: self.status,
        }
    }
}

impl Clone for Reservation<Confirmed> {
    fn clone(&self) -> (r: Self)
        ensures
            r@ == self@,
    {
        Reservation {
            id: self.id,
            event_id: self.event_id,
            user_name: self.user_name.clone(),
            user_email: self.user_email.clone(),
            verification_token: self.verification_token.clone(),
            spot_count: self.spot_count,
            status: self.status.clone(),
        }
    }
}

/// The test for an active token.
pub open spec fn is_active_token() -> spec_fn(TokenView) -> bool {
    |token: TokenView| token.state is Active
}

/// The test for a used token.
pub open spec fn is_used_token() -> spec_fn(TokenView) -> bool {
    |token: TokenView| token.state is Used
}

/// The test for an expired token.
pub open spec fn is_expired_token() -> spec_fn(TokenView) -> bool {
    |token: TokenView| token.state is Expired
}

/// The views of typed tokens, in their order.
pub open spec fn typed_token_views<State: View<V = TokenState>>(
    tokens: Seq<ReservationToken<State>>,
) -> Seq<TokenView> {
    tokens.map_values(|token: ReservationToken<State>| token@)
}

/// Filtering one more token: the step that the three selections below share.
proof fn lemma_select_step(tokens: Seq<TokenView>, i: int, test: spec_fn(TokenView) -> bool)
    requires
        0 <= i < tokens.len(),
    ensures
        tokens.take(i + 1).filter(test) == if test(tokens[i]) {
            tokens.take(i).filter(test).push(tokens[i])
        } else {
            tokens.take(i).filter(test)
        },
{
    assert(tokens.take(i + 1) =~= tokens.take(i).push(tokens[i]));
    tokens.take(i).lemma_filter_push(tokens[i], test);
}

impl ConfirmedReservation {
    /// Whether the reservation holds one token for each spot, every one its
    /// own.
    pub open spec fn wf(&self) -> bool {
        self@.tokens_match_spots()
    }

    /// Copies of the tokens that are still active, in their order.
    pub fn get_active_reservation_tokens(&self) -> (active: Vec<ActiveReservationToken>)
        ensures
            typed_token_views(active@) == self@.tokens().filter(is_active_token()),
    {
        let tokens = &self.status.reservation_tokens;
        let ghost views = self@.tokens();
        let mut active: Vec<ActiveReservationToken> = Vec::new();
        let mut i: usize = 0;
        proof {
            reveal(Seq::filter);
            assert(views.take(0).filter(is_active_token()) =~= Seq::empty());
            assert(typed_token_views(active@) =~= Seq::empty());
        }
        while i < tokens.len()
            invariant
                i <= tokens.len(),
                views == token_views(tokens@),
                typed_token_views(active@) == views.take(i as int).filter(is_active_token()),
            decreases tokens.len() - i,
        {
            proof {
                lemma_select_step(views, i as int, is_active_token());
            }
            if let AnyReservationToken::Active(token) = &tokens[i] {
                let ghost before = typed_token_views(active@);
                active.push(token.clone());
                assert(typed_token_views(active@) =~= before.push(views[i as int]));
            }
            i += 1;
        }
        assert(views.take(tokens.len() as int) =~= views);
        active
    }

    /// Copies of the tokens that were used, in their order.
    pub fn get_used_reservation_tokens(&self) -> (used: Vec<UsedReservationToken>)
        ensures
            typed_token_views(used@) == self@.tokens().filter(is_used_token()),
    {
        let tokens = &self.status.reservation_tokens;
        let ghost views = self@.tokens();
        let mut used: Vec<UsedReservationToken> = Vec::new();
        let mut i: usize = 0;
        proof {
            reveal(Seq::filter);
            assert(views.take(0).filter(is_used_token()) =~= Seq::empty());
            assert(typed_token_views(used@) =~= Seq::empty());
        }
        while i < tokens.len()
            invariant
                i <= tokens.len(),
                views == token_views(tokens@),
                typed_token_views(used@) == views.take(i as int).filter(is_used_token()),
            decreases tokens.len() - i,
        {
            proof {
                lemma_select_step(views, i as int, is_used_token());
            }
            if let AnyReservationToken::Used(token) = &tokens[i] {
                let ghost before = typed_token_views(used@);
                used.push(token.clone());
                assert(typed_token_views(used@) =~= before.push(views[i as int]));
            }
            i += 1;
        }
        assert(views.take(tokens.len() as int) =~= views);
        used
    }

    /// Copies of the tokens that expired, in their order.
    pub fn get_expired_reservation_tokens(&self) -> (expired: Vec<ExpiredReservationToken>)
        ensures
            typed_token_views(expired@) == self@.tokens().filter(is_expired_token()),
    {
        let tokens = &self.status.reservation_tokens;
        let ghost views = self@.tokens();
        let mut expired: Vec<ExpiredReservationToken> = Vec::new();
        let mut i: usize = 0;
        proof {
            reveal(Seq::filter);
            assert(views.take(0).filter(is_expired_token()) =~= Seq::empty());
            assert(typed_token_views(expired@) =~= Seq::empty());
        }
        while i < tokens.len()
            invariant
                i <= tokens.len(),
                views == token_views(tokens@),
                typed_token_views(expired@) == views.take(i as int).filter(is_expired_token()),
            decreases tokens.len() - i,
        {
            proof {
                lemma_select_step(views, i as int, is_expired_token());
            }
            if let AnyReservationToken::Expired(token) = &tokens[i] {
                let ghost before = typed_token_views(expired@);
                expired.push(token.clone());
                assert(typed_token_views(expired@) =~= before.push(views[i as int]));
            }
            i += 1;
        }
        assert(views.take(tokens.len() as int) =~= views);
        expired
    }
}

/// A stored reservation in either of its states.
#[derive(Debug)]
pub enum AnyReservation {
    Pending(Reservation<Pending>),
    Confirmed(Reservation<Confirmed>),
}

impl View for AnyReservation {
    type V = ReservationView;

    open spec fn view(&self) -> ReservationView {
        match self {
            AnyReservation::Pending(reservation) => reservation@,
            AnyReservation::Confirmed(reservation) => reservation@,
        }
    }
}

impl Clone for AnyReservation {
    fn clone(&self) -> (r: Self)
        ensures
            r@ == self@,
    {
        match self {
            AnyReservation::Pending(reservation) => AnyReservation::Pending(reservation.clone()),
            AnyReservation::Confirmed(reservation) => AnyReservation::Confirmed(
                reservation.clone(),
            ),
        }
    }
}

impl AnyReservation {
    /// The identifier of the reservation.
    pub fn id(&self) -> (id: Id)
        ensures
            id == self@.id,
    {
        match self {
            AnyReservation::Pending(reservation) => reservation.id,
            AnyReservation::Confirmed(reservation) => reservation.id,
        }
    }

    /// The event that the reservation belongs to.
    pub fn event_id(&self) -> (id: Id)
        ensures
            id == self@.event_id,
    {
        match self {
            AnyReservation::Pending(reservation) => reservation.event_id,
            AnyReservation::Confirmed(reservation) => reservation.event_id,
        }
    }

    /// The number of spots reserved.
    pub fn spot_count(&self) -> (n: u32)
        ensures
            n == self@.spot_count,
    {
        match self {
            AnyReservation::Pending(reservation) => reservation.spot_count,
            AnyReservation::Confirmed(reservation) => reservation.spot_count,
        }
    }

    /// The verification token of the reservation.
    pub fn verification_token(&self) -> (text: &str)
        ensures
            text@ == self@.verification_token,
    {
        match self {
            AnyReservation::Pending(reservation) => reservation.verification_token.0.as_str(),
            AnyReservation::Confirmed(reservation) => reservation.verification_token.0.as_str(),
        }
    }

    /// Whether the reservation awaits verification.
    pub fn is_pending(&self) -> (b: bool)
        ensures
            b == (self@.stage is Pending),
    {
        matches!(self, AnyReservation::Pending(_))
    }

    /// Whether the reservation is verified and holds its seats.
    pub fn is_confirmed(&self) -> (b: bool)
        ensures
            b == (self@.stage is Confirmed),
    {
        matches!(self, AnyReservation::Confirmed(_))
    }
}

/// An event in whichever state it was found.
#[derive(Debug)]
pub enum AnyEvent {
    Open(Event<Open>),
    Full(Event<Full>),
    Finished(Event<Finished>),
}

impl View for AnyEvent {
    type V = EventView;

    open spec fn view(&self) -> EventView {
        match self {
            AnyEvent::Open(event) => event@,
            AnyEvent::Full(event) => event@,
            AnyEvent::Finished(event) => event@,
        }
    }
}

impl AnyEvent {
    /// The state that the event was found in.
    pub open spec fn spec_status(&self) -> EventStatus {
        match self {
            AnyEvent::Open(_) => EventStatus::Open,
            AnyEvent::Full(_) => EventStatus::Full,
            AnyEvent::Finished(_) => EventStatus::Finished,
        }
    }

    /// The state that the event was found in.
    #[verifier::when_used_as_spec(spec_status)]
    pub fn status(&self) -> (status: EventStatus)
        ensures
            status == self.spec_status(),
    {
        match self {
            AnyEvent::Open(_) => EventStatus::Open,
            AnyEvent::Full(_) => EventStatus::Full,
            AnyEvent::Finished(_) => EventStatus::Finished,
        }
    }
}

impl<State> Event<State> {
    /// A copy of this event, tagged with its status at `now` given the seats
    /// confirmed so far.
    pub fn classify(&self, confirmed_seats: u64, now: Timestamp) -> (any: AnyEvent)
        ensures
            any@ == self@,
            any.status() == event_status(
                self.end_time,
                self.capacity,
                confirmed_seats as nat,
                now,
            ),
    {
        match self.status_at(confirmed_seats, now) {
            EventStatus::Open => AnyEvent::Open(self.copy_as(Open)),
            EventStatus::Full => AnyEvent::Full(self.copy_as(Full)),
            EventStatus::Finished => AnyEvent::Finished(self.copy_as(Finished)),
        }
    }
}

impl Creating {
    /// The name of the state.
    pub fn to_string(&self) -> (name: String)
        ensures
            name@ == "Creating"@,
    {
        "Creating".to_owned()
    }
}

impl Pending {
    /// The name of the state.
    pub fn to_string(&self) -> (name: String)
        ensures
            name@ == "Pending"@,
    {
        "Pending".to_owned()
    }
}

impl Confirmed {
    /// The name of the state.
    pub fn to_string(&self) -> (name: String)
        ensures
            name@ == "Confirmed"@,
    {
        "Confirmed".to_owned()
    }
}

impl Active {
    /// The name of the state.
    pub fn to_string(&self) -> (name: String)
        ensures
            name@ == "Active"@,
    {
        "Active".to_owned()
    }
}

impl Used {
    /// The name of the state.
    pub fn to_string(&self) -> (name: String)
        ensures
            name@ == "Used"@,
    {
        "Used".to_owned()
    }
}

impl Expired {
    /// The name of the state.
    pub fn to_string(&self) -> (name: String)
        ensures
            name@ == "Expired"@,
    {
        "Expired".to_owned()
    }
}

impl Unknown {
    /// The name of the state.
    pub fn to_string(&self) -> (name: String)
        ensures
            name@ == "Unknown"@,
    {
        "Unknown".to_owned()
    }
}

impl From<Creating> for ReservationStatus {
    /// A reservation that is being put together shows as pending.
    fn from(status: Creating) -> (r: Self) {
        ReservationStatus::Pending
    }
}

impl vstd::std_specs::convert::FromSpecImpl<Creating> for ReservationStatus {
    open spec fn obeys_from_spec() -> bool {
        true
    }

    open spec fn from_spec(status: Creating) -> Self {
        ReservationStatus::Pending
    }
}

impl From<Pending> for ReservationStatus {
    fn from(status: Pending) -> (r: Self) {
        ReservationStatus::Pending
    }
}

impl vstd::std_specs::convert::FromSpecImpl<Pending> for ReservationStatus {
    open spec fn obeys_from_spec() -> bool {
        true
    }

    open spec fn from_spec(status: Pending) -> Self {
        ReservationStatus::Pending
    }
}

impl From<Confirmed> for ReservationStatus {
    fn from(status: Confirmed) -> (r: Self) {
        ReservationStatus::Confirmed
    }
}

impl vstd::std_specs::convert::FromSpecImpl<Confirmed> for ReservationStatus {
    open spec fn obeys_from_spec() -> bool {
        true
    }

    open spec fn from_spec(status: Confirmed) -> Self {
        ReservationStatus::Confirmed
    }
}

} // verus!
