use quick_res::api::ReserveRequest;
use quick_res::db::DatabaseError;
use quick_res::email::EmailError;
use quick_res::error::AppError;
use quick_res::models::PrepareError;
use quick_res::validation::{ValidationError, ValidationErrors};

#[test]
fn test_validation_error_conversion() {
    let mut validation_errors = ValidationErrors::new();
    validation_errors.add("name", ValidationError::new("length").with_message("Name is required"));
    validation_errors.add(
        "email",
        ValidationError::new("email").with_message("Invalid email format"),
    );
    let app_error: AppError = validation_errors.into();

    match app_error {
        AppError::Validation(msg) => {
            assert!(msg.contains("Name is required"));
            assert!(msg.contains("Invalid email format"));
        }
        _ => panic!("Expected Validation error"),
    }
}

#[test]
fn test_database_error_conversion() {
    let db_error = DatabaseError::EventNotFound;
    let app_error: AppError = db_error.into();

    match app_error {
        AppError::Database(DatabaseError::EventNotFound) => {}
        _ => panic!("Expected Database error"),
    }
}

#[test]
fn test_uuid_error_conversion() {
    let uuid_error = uuid::Uuid::parse_str("invalid-uuid").unwrap_err();
    let app_error: AppError = uuid_error.into();

    match app_error {
        AppError::InvalidUuid(_) => {}
        _ => panic!("Expected InvalidUuid error"),
    }
}

#[test]
fn test_json_error_conversion() {
    let invalid_json = "{invalid json";
    let json_error = serde_json::from_str::<serde_json::Value>(invalid_json).unwrap_err();
    let app_error: AppError = json_error.into();

    match app_error {
        AppError::JsonParsing(_) => {}
        _ => panic!("Expected JsonParsing error"),
    }
}

#[test]
fn test_into_response_status_codes() {
    // Test validation error
    let validation_error = AppError::validation("Test validation error");
    let response = validation_error.into_response();
    assert_eq!(response.status(), axum::http::StatusCode::BAD_REQUEST.as_u16());

    // Test not found error
    let not_found_error = AppError::not_found();
    let response = not_found_error.into_response();
    assert_eq!(response.status(), axum::http::StatusCode::NOT_FOUND.as_u16());

    // Test unauthorized error
    let unauthorized_error = AppError::unauthorized();
    let response = unauthorized_error.into_response();
    assert_eq!(response.status(), axum::http::StatusCode::UNAUTHORIZED.as_u16());

    // Test forbidden error
    let forbidden_error = AppError::forbidden();
    let response = forbidden_error.into_response();
    assert_eq!(response.status(), axum::http::StatusCode::FORBIDDEN.as_u16());

    // Test conflict error
    let conflict_error = AppError::conflict("Resource conflict");
    let response = conflict_error.into_response();
    assert_eq!(response.status(), axum::http::StatusCode::CONFLICT.as_u16());

    // Test internal server error
    let internal_error = AppError::internal_server_error();
    let response = internal_error.into_response();
    assert_eq!(
        response.status(),
        axum::http::StatusCode::INTERNAL_SERVER_ERROR.as_u16()
    );
}

#[test]
fn test_helper_methods() {
    // Test validation helper
    let error = AppError::validation("Test message");
    match error {
        AppError::Validation(msg) => assert_eq!(msg, "Test message"),
        _ => panic!("Expected Validation error"),
    }

    // Test conflict helper
    let error = AppError::conflict("Resource exists");
    match error {
        AppError::Conflict(msg) => assert_eq!(msg, "Resource exists"),
        _ => panic!("Expected Conflict error"),
    }
}

fn answer(error: AppError) -> (u16, String) {
    let response = error.into_response();
    (response.status, response.error)
}

#[test]
fn every_error_has_its_status_and_message() {
    let db = |e| AppError::Database(e);
    assert_eq!(answer(db(DatabaseError::EventNotFound)), (404, "Event not found".into()));
    assert_eq!(
        answer(db(DatabaseError::ReservationNotFound)),
        (404, "Reservation not found".into())
    );
    assert_eq!(
        answer(db(DatabaseError::CapacityExceeded)),
        (409, "Event capacity exceeded".into())
    );
    assert_eq!(answer(db(DatabaseError::EventNotOpen)), (409, "Event is not open".into()));
    assert_eq!(answer(db(DatabaseError::InvalidEvent)), (400, "Invalid event".into()));
    assert_eq!(
        answer(db(DatabaseError::TokenInvalid)),
        (404, "Reservation token not found or already used".into())
    );
    assert_eq!(
        answer(db(DatabaseError::TokenCollision)),
        (503, "Token collision, please try again".into())
    );
    assert_eq!(
        answer(AppError::Email(EmailError::InvalidEmail("a@b".into()))),
        (400, "Invalid email address: a@b".into())
    );
    assert_eq!(
        answer(AppError::Email(EmailError::SendFailure("connection reset".into()))),
        (500, "Failed to send email".into())
    );
    assert_eq!(answer(AppError::Validation("broken".into())), (400, "broken".into()));
    assert_eq!(answer(AppError::NotFound), (404, "Resource not found".into()));
    assert_eq!(answer(AppError::Unauthorized), (401, "Unauthorized".into()));
    assert_eq!(answer(AppError::Forbidden), (403, "Forbidden".into()));
    assert_eq!(answer(AppError::Conflict("taken".into())), (409, "taken".into()));
    assert_eq!(
        answer(AppError::InternalServerError),
        (500, "Internal server error".into())
    );
    assert_eq!(
        answer(AppError::InvalidSpotCount),
        (400, "Spot count must be between 1 and the event capacity".into())
    );
    assert_eq!(
        answer(uuid::Uuid::parse_str("invalid-uuid").unwrap_err().into()),
        (400, "Invalid UUID format".into())
    );
    assert_eq!(
        answer(
            serde_json::from_str::<serde_json::Value>("{invalid json")
                .unwrap_err()
                .into()
        ),
        (400, "Invalid JSON format".into())
    );
}

#[test]
fn a_failing_store_is_answered_without_its_cause() {
    let failure = sqlx::Error::Protocol("secret table name".to_string());
    let (status, message) = answer(AppError::from(DatabaseError::SqlxError(failure)));
    assert_eq!(status, 500);
    assert_eq!(message, "Internal server error");
}

#[test]
fn errors_convert_by_kind() {
    assert!(matches!(
        AppError::from(EmailError::SendFailure("x".into())),
        AppError::Email(EmailError::SendFailure(_))
    ));
    assert!(matches!(
        AppError::from(PrepareError::InvalidSpotCount),
        AppError::InvalidSpotCount
    ));
    assert!(matches!(
        AppError::from(DatabaseError::TokenInvalid),
        AppError::Database(DatabaseError::TokenInvalid)
    ));
}

#[test]
fn validation_errors_read_as_one_line() {
    let mut errors = ValidationErrors::new();
    assert!(errors.is_empty());
    assert_eq!(errors.message(), "");
    errors.add("name", ValidationError::new("length").with_message("Name is required"));
    assert_eq!(errors.message(), "name: Name is required");
    errors.add("name", ValidationError::new("length"));
    errors.add("email", ValidationError::new("email").with_message("Invalid email format"));
    errors.add("name", ValidationError::new("other").with_message("Again"));
    assert!(!errors.is_empty());
    assert_eq!(errors.fields.len(), 2);
    assert_eq!(errors.fields[0].field, "name");
    assert_eq!(errors.fields[0].errors.len(), 3);
    assert_eq!(errors.fields[0].errors[1].code, "length");
    assert_eq!(errors.fields[0].errors[1].message, None);
    assert_eq!(
        errors.message(),
        "name: Name is required, name: validation failed, name: Again; email: Invalid email format"
    );
    match AppError::from(errors) {
        AppError::Validation(msg) => assert_eq!(
            msg,
            "name: Name is required, name: validation failed, name: Again; email: Invalid email format"
        ),
        _ => panic!("Expected Validation error"),
    }
}

#[test]
fn a_request_that_fails_its_rules_is_a_validation_error() {
    let request = ReserveRequest {
        event_id: 1,
        user_name: "".to_string(),
        user_email: "invalid-email".to_string(),
        spot_count: 0,
    };
    let app_error: AppError = request.validate().unwrap_err().into();
    let (status, message) = answer(app_error);
    assert_eq!(status, 400);
    assert_eq!(
        message,
        "user_name: Name must be between 1 and 255 characters; \
         user_email: Invalid email address; \
         spot_count: Spot count must be between 1 and 10000"
    );
}
