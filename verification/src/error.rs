//! The errors of the service and what callers are told of each.
//!
//! Every kind of error maps to one status and one class of message. What a
//! storage engine reports is never passed on: callers learn of a failure,
//! not of its cause.

use vstd::prelude::*;

use crate::db::DatabaseError;
use crate::email::EmailError;
use crate::models::PrepareError;
use crate::text::concat;
use crate::validation::{validation_message, ValidationErrors};

verus! {

/// Makes `serde_json::Error` known as a type, so that a failure to read a
/// body can be carried in an `AppError`. Nothing is said of what such a
/// value holds.
#[verifier::external_type_specification]
#[verifier::external_body]
pub struct ExJsonError(serde_json::Error);

/// Why a request failed.
#[derive(Debug)]
pub enum AppError {
    /// The store refused or failed.
    Database(DatabaseError),
    /// A message could not be sent.
    Email(EmailError),
    /// The request broke a rule; the text says which.
    Validation(String),
    /// A text that should be an identifier is none.
    InvalidUuid(uuid::Error),
    /// A body that should be JSON is not.
    JsonParsing(serde_json::Error),
    NotFound,
    Unauthorized,
    Forbidden,
    /// The request is at odds with what is stored; the text says how.
    Conflict(String),
    InternalServerError,
    /// The number of spots is zero or exceeds the event's capacity.
    InvalidSpotCount,
}

impl From<DatabaseError> for AppError {
    fn from(error: DatabaseError) -> (r: Self) {
        AppError::Database(error)
    }
}

impl vstd::std_specs::convert::FromSpecImpl<DatabaseError> for AppError {
    open spec fn obeys_from_spec() -> bool {
        true
    }

    open spec fn from_spec(error: DatabaseError) -> Self {
        AppError::Database(error)
    }
}

impl From<EmailError> for AppError {
    fn from(error: EmailError) -> (r: Self) {
        AppError::Email(error)
    }
}

impl vstd::std_specs::convert::FromSpecImpl<EmailError> for AppError {
    open spec fn obeys_from_spec() -> bool {
        true
    }

    open spec fn from_spec(error: EmailError) -> Self {
        AppError::Email(error)
    }
}

impl From<uuid::Error> for AppError {
    fn from(error: uuid::Error) -> (r: Self) {
        AppError::InvalidUuid(error)
    }
}

impl vstd::std_specs::convert::FromSpecImpl<uuid::Error> for AppError {
    open spec fn obeys_from_spec() -> bool {
        true
    }

    open spec fn from_spec(error: uuid::Error) -> Self {
        AppError::InvalidUuid(error)
    }
}

impl From<serde_json::Error> for AppError {
    fn from(error: serde_json::Error) -> (r: Self) {
        AppError::JsonParsing(error)
    }
}

impl vstd::std_specs::convert::FromSpecImpl<serde_json::Error> for AppError {
    open spec fn obeys_from_spec() -> bool {
        true
    }

    open spec fn from_spec(error: serde_json::Error) -> Self {
        AppError::JsonParsing(error)
    }
}

impl From<PrepareError> for AppError {
    fn from(error: PrepareError) -> (r: Self) {
        AppError::InvalidSpotCount
    }
}

impl vstd::std_specs::convert::FromSpecImpl<PrepareError> for AppError {
    open spec fn obeys_from_spec() -> bool {
        true
    }

    open spec fn from_spec(error: PrepareError) -> Self {
        AppError::InvalidSpotCount
    }
}

impl From<ValidationErrors> for AppError {
    /// The failed rules as one validation error, with the record as its text.
    fn from(errors: ValidationErrors) -> (r: Self)
        ensures
            r matches AppError::Validation(text) && text@ == validation_message(errors@),
    {
        AppError::Validation(errors.message())
    }
}

impl vstd::std_specs::convert::FromSpecImpl<ValidationErrors> for AppError {
    open spec fn obeys_from_spec() -> bool {
        false
    }

    open spec fn from_spec(errors: ValidationErrors) -> Self {
        AppError::InternalServerError
    }
}

impl AppError {
    /// A validation error that says `msg`.
    pub fn validation(msg: &str) -> (r: Self)
        ensures
            r matches AppError::Validation(text) && text@ == msg@,
    {
        AppError::Validation(msg.to_owned())
    }

    /// A conflict that says `msg`.
    pub fn conflict(msg: &str) -> (r: Self)
        ensures
            r matches AppError::Conflict(text) && text@ == msg@,
    {
        AppError::Conflict(msg.to_owned())
    }

    /// The error for what is not there.
    pub fn not_found() -> (r: Self)
        ensures
            r is NotFound,
    {
        AppError::NotFound
    }

    /// The error for a caller who is not known.
    pub fn unauthorized() -> (r: Self)
        ensures
            r is Unauthorized,
    {
        AppError::Unauthorized
    }

    /// The error for a caller who may not do this.
    pub fn forbidden() -> (r: Self)
        ensures
            r is Forbidden,
    {
        AppError::Forbidden
    }

    /// The error for a failure of the service itself.
    pub fn internal_server_error() -> (r: Self)
        ensures
            r is InternalServerError,
    {
        AppError::InternalServerError
    }
}

/// What a caller is told of a failure.
#[derive(Debug)]
pub struct ErrorResponse {
    pub status: u16,
    pub error: String,
}

impl ErrorResponse {
    /// The status of the response.
    pub fn status(&self) -> (code: u16)
        ensures
            code == self.status,
    {
        self.status
    }
}

/// The status that answers `error`. Every kind of error has its own: what
/// the caller asked for is not there (404), breaks a rule (400) or is at
/// odds with what is stored (409); a collision of drawn tokens is worth
/// another try (503); only a failure of the storage engine or of the mail
/// transport is the service's own (500).
pub open spec fn status_of(error: AppError) -> u16 {
    match error {
        AppError::Database(DatabaseError::EventNotFound) => 404,
        AppError::Database(DatabaseError::ReservationNotFound) => 404,
        AppError::Database(DatabaseError::CapacityExceeded) => 409,
        AppError::Database(DatabaseError::EventNotOpen) => 409,
        AppError::Database(DatabaseError::InvalidEvent) => 400,
        AppError::Database(DatabaseError::TokenInvalid) => 404,
        AppError::Database(DatabaseError::TokenCollision) => 503,
        AppError::Database(_) => 500,
        AppError::Email(EmailError::InvalidEmail(_)) => 400,
        AppError::Email(_) => 500,
        AppError::Validation(_) => 400,
        AppError::InvalidUuid(_) => 400,
        AppError::JsonParsing(_) => 400,
        AppError::NotFound => 404,
        AppError::Unauthorized => 401,
        AppError::Forbidden => 403,
        AppError::Conflict(_) => 409,
        AppError::InternalServerError => 500,
        AppError::InvalidSpotCount => 400,
    }
}

/// The message that answers `error`. A failure of the storage engine or of
/// the mail transport is answered without its cause.
pub open spec fn message_of(error: AppError) -> Seq<char> {
    match error {
        AppError::Database(DatabaseError::EventNotFound) => "Event not found"@,
        AppError::Database(DatabaseError::ReservationNotFound) => "Reservation not found"@,
        AppError::Database(DatabaseError::CapacityExceeded) => "Event capacity exceeded"@,
        AppError::Database(DatabaseError::EventNotOpen) => "Event is not open"@,
        AppError::Database(DatabaseError::InvalidEvent) => "Invalid event"@,
        AppError::Database(DatabaseError::TokenInvalid) => "Reservation token not found or already used"@,
        AppError::Database(DatabaseError::TokenCollision) => "Token collision, please try again"@,
        AppError::Database(_) => "Internal server error"@,
        AppError::Email(EmailError::InvalidEmail(email)) => "Invalid email address: "@ + email@,
        AppError::Email(_) => "Failed to send email"@,
        AppError::Validation(msg) => msg@,
        AppError::InvalidUuid(_) => "Invalid UUID format"@,
        AppError::JsonParsing(_) => "Invalid JSON format"@,
        AppError::NotFound => "Resource not found"@,
        AppError::Unauthorized => "Unauthorized"@,
        AppError::Forbidden => "Forbidden"@,
        AppError::Conflict(msg) => msg@,
        AppError::InternalServerError => "Internal server error"@,
        AppError::InvalidSpotCount => "Spot count must be between 1 and the event capacity"@,
    }
}

impl AppError {
    /// What a caller is told of this error: its status and its message.
    pub fn into_response(self) -> (response: ErrorResponse)
        ensures
            response.status == status_of(self),
            response.error@ == message_of(self),
    {
        match self {
            AppError::Database(DatabaseError::EventNotFound) => ErrorResponse {
                status: 404,
                error: "Event not found".to_owned(),
            },
            AppError::Database(DatabaseError::ReservationNotFound) => ErrorResponse {
                status: 404,
                error: "Reservation not found".to_owned(),
            },
            AppError::Database(DatabaseError::CapacityExceeded) => ErrorResponse {
                status: 409,
                error: "Event capacity exceeded".to_owned(),
            },
            AppError::Database(DatabaseError::EventNotOpen) => ErrorResponse {
                status: 409,
                error: "Event is not open".to_owned(),
            },
            AppError::Database(DatabaseError::InvalidEvent) => ErrorResponse {
                status: 400,
                error: "Invalid event".to_owned(),
            },
            AppError::Database(DatabaseError::TokenInvalid) => ErrorResponse {
                status: 404,
                error: "Reservation token not found or already used".to_owned(),
            },
            AppError::Database(DatabaseError::TokenCollision) => ErrorResponse {
                status: 503,
                error: "Token collision, please try again".to_owned(),
            },
            AppError::Database(_) => ErrorResponse {
                status: 500,
                error: "Internal server error".to_owned(),
            },
            AppError::Email(EmailError::InvalidEmail(email)) => ErrorResponse {
                status: 400,
                error: concat("Invalid email address: ", email.as_str()),
            },
            AppError::Email(_) => ErrorResponse {
                status: 500,
                error: "Failed to send email".to_owned(),
            },
            AppError::Validation(msg) => ErrorResponse { status: 400, error: msg },
            AppError::InvalidUuid(_) => ErrorResponse {
                status: 400,
                error: "Invalid UUID format".to_owned(),
            },
            AppError::JsonParsing(_) => ErrorResponse {
                status: 400,
                error: "Invalid JSON format".to_owned(),
            },
            AppError::NotFound => ErrorResponse {
                status: 404,
                error: "Resource not found".to_owned(),
            },
            AppError::Unauthorized => ErrorResponse {
                status: 401,
                error: "Unauthorized".to_owned(),
            },
            AppError::Forbidden => ErrorResponse { status: 403, error: "Forbidden".to_owned() },
            AppError::Conflict(msg) => ErrorResponse { status: 409, error: msg },
            AppError::InternalServerError => ErrorResponse {
                status: 500,
                error: "Internal server error".to_owned(),
            },
            AppError::InvalidSpotCount => ErrorResponse {
                status: 400,
                error: "Spot count must be between 1 and the event capacity".to_owned(),
            },
        }
    }
}

} // verus!
