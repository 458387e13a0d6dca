//! The shapes that cross the service boundary: requests and responses.

use vstd::prelude::*;

use crate::clock::Timestamp;
use crate::ident::Id;
use crate::validation::{
    email_syntax_ok, failure, failure_if, validate_email, validate_length, FieldView, RuleView,
    ValidationError, ValidationErrors,
};

verus! {

/// A request to open an event.
#[derive(Debug)]
pub struct OpenEventRequest {
    pub name: String,
    pub description: Option<String>,
    pub location: Option<String>,
    pub capacity: u32,
    pub start_time: Timestamp,
    pub end_time: Timestamp,
}

/// Whether an optional text has more than `max` characters.
pub open spec fn exceeds(text: Option<String>, max: nat) -> bool {
    text matches Some(s) && s@.len() > max
}

/// The rules that the fields of a request to open an event fail: the name
/// has 1 to 255 characters, the description at most 1000, the location at
/// most 255, and the capacity is between 1 and 10000.
pub open spec fn open_event_field_failures(request: OpenEventRequest) -> Seq<FieldView> {
    failure_if(
        !(1 <= request.name@.len() <= 255),
        failure("name"@, "length"@, "Event name must be between 1 and 255 characters"@),
    ) + failure_if(
        exceeds(request.description, 1000),
        failure("description"@, "length"@, "Description must be less than 1000 characters"@),
    ) + failure_if(
        exceeds(request.location, 255),
        failure("location"@, "length"@, "Location must be less than 255 characters"@),
    ) + failure_if(
        !(1 <= request.capacity <= 10000),
        failure("capacity"@, "range"@, "Capacity must be between 1 and 10000"@),
    )
}

/// The rules that a request to open an event fails: those of its fields,
/// and, where all of those hold, that the event ends after it starts.
pub open spec fn open_event_failures(request: OpenEventRequest) -> Seq<FieldView> {
    if open_event_field_failures(request).len() > 0 {
        open_event_field_failures(request)
    } else {
        failure_if(
            request.end_time <= request.start_time,
            failure("__all__"@, "invalid_time_range"@, "End time must be after start time"@),
        )
    }
}

/// Whether the event of `event` ends after it starts.
pub fn validate_event_times(event: &OpenEventRequest) -> (r: Result<(), ValidationError>)
    ensures
        r is Ok <==> event.start_time < event.end_time,
        r matches Err(e) ==> e@ == (RuleView { code: "invalid_time_range"@, message: None }),
{
    if event.end_time <= event.start_time {
        return Err(ValidationError::new("invalid_time_range"));
    }
    Ok(())
}

/// Whether an optional text has at most `max` characters.
fn within(text: &Option<String>, max: usize) -> (ok: bool)
    ensures
        ok == !exceeds(*text, max as nat),
{
    match text {
        Some(s) => validate_length(s.as_str(), 0, max),
        None => true,
    }
}

impl OpenEventRequest {
    /// Holds the request to its rules.
    pub fn validate(&self) -> (r: Result<(), ValidationErrors>)
        ensures
            r is Ok <==> open_event_failures(*self).len() == 0,
            r matches Err(errors) ==> errors@ == open_event_failures(*self),
    {
        let mut errors = ValidationErrors::new();
        proof {
            reveal_strlit("name");
            reveal_strlit("description");
            reveal_strlit("location");
            reveal_strlit("capacity");
            reveal_strlit("__all__");
        }
        if !validate_length(self.name.as_str(), 1, 255) {
            errors.add_first(
                "name",
                ValidationError::new("length").with_message(
                    "Event name must be between 1 and 255 characters",
                ),
            );
        }
        let ghost first = errors@;
        assert(first =~= failure_if(
            !(1 <= self.name@.len() <= 255),
            failure("name"@, "length"@, "Event name must be between 1 and 255 characters"@),
        ));
        assert("name"@ != "description"@ && "name"@ != "location"@ && "name"@ != "capacity"@) by {
            assert("name"@.len() == 4);
            assert("description"@.len() == 11);
            assert("location"@.len() == 8);
            assert("capacity"@.len() == 8);
        }
        assert("description"@ != "location"@ && "description"@ != "capacity"@) by {
            assert("description"@.len() == 11);
            assert("location"@.len() == 8);
            assert("capacity"@.len() == 8);
        }
        assert("location"@ != "capacity"@) by {
            assert("location"@[0] == 'l');
            assert("capacity"@[0] == 'c');
        }
        assert forall|j: int| 0 <= j < first.len() implies (#[trigger] first[j]).field == "name"@ by {}
        if !within(&self.description, 1000) {
            errors.add_first(
                "description",
                ValidationError::new("length").with_message(
                    "Description must be less than 1000 characters",
                ),
            );
        }
        let ghost second = errors@;
        assert(second =~= first + failure_if(
            exceeds(self.description, 1000),
            failure("description"@, "length"@, "Description must be less than 1000 characters"@),
        ));
        assert forall|j: int| 0 <= j < second.len() implies (#[trigger] second[j]).field == "name"@
            || second[j].field == "description"@ by {}
        if !within(&self.location, 255) {
            errors.add_first(
                "location",
                ValidationError::new("length").with_message(
                    "Location must be less than 255 characters",
                ),
            );
        }
        let ghost third = errors@;
        assert(third =~= second + failure_if(
            exceeds(self.location, 255),
            failure("location"@, "length"@, "Location must be less than 255 characters"@),
        ));
        assert forall|j: int| 0 <= j < third.len() implies (#[trigger] third[j]).field == "name"@
            || third[j].field == "description"@ || third[j].field == "location"@ by {}
        if self.capacity < 1 || self.capacity > 10000 {
            errors.add_first(
                "capacity",
                ValidationError::new("range").with_message("Capacity must be between 1 and 10000"),
            );
        }
        assert(errors@ =~= third + failure_if(
            !(1 <= self.capacity <= 10000),
            failure("capacity"@, "range"@, "Capacity must be between 1 and 10000"@),
        ));
        if errors.is_empty() {
            match validate_event_times(self) {
                Ok(()) => {},
                Err(error) => {
                    errors.add_first(
                        "__all__",
                        error.with_message("End time must be after start time"),
                    );
                },
            }
        }
        assert(errors@ =~= open_event_failures(*self));
        if errors.is_empty() {
            Ok(())
        } else {
            Err(errors)
        }
    }
}

/// Where an event stands: derived on every read from its end time, its
/// capacity and the seats confirmed so far, never stored.
#[derive(Debug, Clone, Copy, PartialEq, Eq, Structural)]
pub enum EventStatus {
    Open,
    Full,
    Finished,
}

/// The state of a stored reservation as callers see it.
#[derive(Debug, Clone, Copy, PartialEq, Eq, Structural)]
pub enum ReservationStatus {
    Pending,
    Confirmed,
}

/// What callers learn of an event that was opened or looked up.
#[derive(Debug)]
pub struct OpenEventResponse {
    pub id: Id,
    pub name: String,
    pub description: Option<String>,
    pub start_time: Timestamp,
    pub end_time: Timestamp,
    pub capacity: u32,
    pub location: Option<String>,
    pub created_at: Timestamp,
    pub updated_at: Timestamp,
    pub status: EventStatus,
}

/// A request to reserve spots at an event.
#[derive(Debug)]
pub struct ReserveRequest {
    pub event_id: Id,
    pub user_name: String,
    pub user_email: String,
    pub spot_count: u32,
}

/// The rules that a request to reserve fails, given whether its email
/// address reads as one: the name has 1 to 255 characters, the address
/// reads as one, and the number of spots is between 1 and 10000.
pub open spec fn reserve_failures_given(request: ReserveRequest, email_ok: bool) -> Seq<
    FieldView,
> {
    failure_if(
        !(1 <= request.user_name@.len() <= 255),
        failure("user_name"@, "length"@, "Name must be between 1 and 255 characters"@),
    ) + failure_if(!email_ok, failure("user_email"@, "email"@, "Invalid email address"@))
        + failure_if(
        !(1 <= request.spot_count <= 10000),
        failure("spot_count"@, "range"@, "Spot count must be between 1 and 10000"@),
    )
}

/// The rules that a request to reserve fails.
pub open spec fn reserve_failures(request: ReserveRequest) -> Seq<FieldView> {
    reserve_failures_given(request, email_syntax_ok(request.user_email@))
}

/// Whether a name and a number of spots pass their rules and the email
/// address was found to read as one.
pub open spec fn reserve_rules_hold(
    user_name: Seq<char>,
    email_ok: bool,
    spot_count: u32,
) -> bool {
    1 <= user_name.len() <= 255 && email_ok && 1 <= spot_count <= 10000
}

impl ReserveRequest {
    /// Holds the request to its rules. Whether the email address reads as
    /// one is for `validator` to say.
    pub fn validate(&self) -> (r: Result<(), ValidationErrors>)
        ensures
            r is Ok <==> reserve_failures(*self).len() == 0,
            r is Ok <==> reserve_rules_hold(
                self.user_name@,
                email_syntax_ok(self.user_email@),
                self.spot_count,
            ),
            r matches Err(errors) ==> errors@ == reserve_failures(*self),
    {
        let email_ok = validate_email(self.user_email.as_str());
        self.validate_with(email_ok)
    }

    /// Holds the request to its rules, given whether its email address reads
    /// as one.
    pub fn validate_with(&self, email_ok: bool) -> (r: Result<(), ValidationErrors>)
        ensures
            r is Ok <==> reserve_rules_hold(self.user_name@, email_ok, self.spot_count),
            r matches Err(errors) ==> errors@ == reserve_failures_given(*self, email_ok),
    {
        let mut errors = ValidationErrors::new();
        proof {
            reveal_strlit("user_name");
            reveal_strlit("user_email");
            reveal_strlit("spot_count");
        }
        assert("user_name"@ != "user_email"@ && "user_name"@ != "spot_count"@ && "user_email"@
            != "spot_count"@) by {
            assert("user_name"@.len() == 9);
            assert("user_email"@.len() == 10);
            assert("spot_count"@.len() == 10);
            assert("user_email"@[0] == 'u');
            assert("spot_count"@[0] == 's');
        }
        if !validate_length(self.user_name.as_str(), 1, 255) {
            errors.add_first(
                "user_name",
                ValidationError::new("length").with_message(
                    "Name must be between 1 and 255 characters",
                ),
            );
        }
        let ghost first = errors@;
        assert(first =~= failure_if(
            !(1 <= self.user_name@.len() <= 255),
            failure("user_name"@, "length"@, "Name must be between 1 and 255 characters"@),
        ));
        assert forall|j: int| 0 <= j < first.len() implies (#[trigger] first[j]).field
            == "user_name"@ by {}
        if !email_ok {
            errors.add_first(
                "user_email",
                ValidationError::new("email").with_message("Invalid email address"),
            );
        }
        let ghost second = errors@;
        assert(second =~= first + failure_if(
            !email_ok,
            failure("user_email"@, "email"@, "Invalid email address"@),
        ));
        assert forall|j: int| 0 <= j < second.len() implies (#[trigger] second[j]).field
            == "user_name"@ || second[j].field == "user_email"@ by {}
        if self.spot_count < 1 || self.spot_count > 10000 {
            errors.add_first(
                "spot_count",
                ValidationError::new("range").with_message(
                    "Spot count must be between 1 and 10000",
                ),
            );
        }
        assert(errors@ =~= second + failure_if(
            !(1 <= self.spot_count <= 10000),
            failure("spot_count"@, "range"@, "Spot count must be between 1 and 10000"@),
        ));
        if errors.is_empty() {
            Ok(())
        } else {
            Err(errors)
        }
    }
}

/// What callers learn of a reservation that was stored.
#[derive(Debug)]
pub struct ReserveResponse {
    pub reservation_id: Id,
    pub status: ReservationStatus,
}

/// What callers learn of a reservation that was confirmed.
#[derive(Debug)]
pub struct VerifyEmailResponse {
    pub event_id: Id,
    pub reservation_id: Id,
    pub verified_at: Timestamp,
}

/// What callers learn of one seat token.
#[derive(Debug)]
pub struct ReservationTokenResponse {
    pub token: String,
    pub status: String,
}

/// What callers learn of the event of a reservation that they retrieve.
#[derive(Debug)]
pub struct RetrieveReservationEventResponse {
    pub id: Id,
    pub name: String,
    pub description: Option<String>,
    pub start_time: Timestamp,
    pub end_time: Timestamp,
    pub capacity: u32,
    pub location: Option<String>,
}

/// What callers learn of a confirmed reservation that they retrieve.
#[derive(Debug)]
pub struct RetrieveReservationResponse {
    pub reservation_id: Id,
    pub user_name: String,
    pub user_email: String,
    pub status: ReservationStatus,
    pub reservation_tokens: Vec<ReservationTokenResponse>,
    pub created_at: Timestamp,
    pub updated_at: Timestamp,
    pub verified_at: Option<Timestamp>,
    pub event: RetrieveReservationEventResponse,
}

/// What callers learn of a scan.
#[derive(Debug)]
pub struct ScanTokenResponse {
    pub token: String,
    pub status: String,
}

} // verus!
