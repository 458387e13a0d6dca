use quick_res::api::{validate_event_times, OpenEventRequest, ReserveRequest};
use quick_res::validation::validate_length;

fn open_event_request() -> OpenEventRequest {
    OpenEventRequest {
        name: "Test Event".to_string(),
        description: Some("A test event".to_string()),
        location: Some("Test Location".to_string()),
        capacity: 50,
        start_time: 100,
        end_time: 200,
    }
}

fn reserve_request() -> ReserveRequest {
    ReserveRequest {
        event_id: 1,
        user_name: "John Doe".to_string(),
        user_email: "john@example.com".to_string(),
        spot_count: 2,
    }
}

fn failed_fields(request: &OpenEventRequest) -> Vec<(String, String, Option<String>)> {
    match request.validate() {
        Ok(()) => vec![],
        Err(errors) => errors
            .fields
            .into_iter()
            .flat_map(|f| {
                let field = f.field;
                f.errors
                    .into_iter()
                    .map(move |e| (field.clone(), e.code, e.message))
            })
            .collect(),
    }
}

#[test]
fn lengths_count_characters() {
    assert!(validate_length("abc", 1, 3));
    assert!(!validate_length("abcd", 1, 3));
    assert!(!validate_length("", 1, 3));
    assert!(validate_length("", 0, 3));
    // Three characters, six bytes.
    assert!(validate_length("äöü", 3, 3));
}

#[test]
fn event_times_must_be_in_order() {
    let mut request = open_event_request();
    assert!(validate_event_times(&request).is_ok());
    request.end_time = 100;
    let error = validate_event_times(&request).unwrap_err();
    assert_eq!(error.code, "invalid_time_range");
    assert_eq!(error.message, None);
    request.end_time = 99;
    assert!(validate_event_times(&request).is_err());
}

#[test]
fn a_sound_request_to_open_an_event_passes() {
    assert!(open_event_request().validate().is_ok());
    let mut request = open_event_request();
    request.description = None;
    request.location = None;
    request.capacity = 1;
    request.name = "x".repeat(255);
    assert!(request.validate().is_ok());
    request.capacity = 10000;
    request.description = Some("d".repeat(1000));
    request.location = Some("l".repeat(255));
    assert!(request.validate().is_ok());
}

#[test]
fn each_rule_of_a_request_to_open_an_event() {
    let mut request = open_event_request();
    request.name = String::new();
    assert_eq!(
        failed_fields(&request),
        vec![(
            "name".to_string(),
            "length".to_string(),
            Some("Event name must be between 1 and 255 characters".to_string())
        )]
    );
    request.name = "x".repeat(256);
    assert_eq!(failed_fields(&request)[0].0, "name");

    let mut request = open_event_request();
    request.description = Some("d".repeat(1001));
    assert_eq!(
        failed_fields(&request),
        vec![(
            "description".to_string(),
            "length".to_string(),
            Some("Description must be less than 1000 characters".to_string())
        )]
    );

    let mut request = open_event_request();
    request.location = Some("l".repeat(256));
    assert_eq!(
        failed_fields(&request),
        vec![(
            "location".to_string(),
            "length".to_string(),
            Some("Location must be less than 255 characters".to_string())
        )]
    );

    for capacity in [0, 10001] {
        let mut request = open_event_request();
        request.capacity = capacity;
        assert_eq!(
            failed_fields(&request),
            vec![(
                "capacity".to_string(),
                "range".to_string(),
                Some("Capacity must be between 1 and 10000".to_string())
            )]
        );
    }

    let mut request = open_event_request();
    request.end_time = request.start_time;
    assert_eq!(
        failed_fields(&request),
        vec![(
            "__all__".to_string(),
            "invalid_time_range".to_string(),
            Some("End time must be after start time".to_string())
        )]
    );
}

#[test]
fn the_times_are_checked_only_where_the_fields_pass() {
    let mut request = open_event_request();
    request.name = String::new();
    request.capacity = 0;
    request.end_time = 0;
    let fields: Vec<String> = failed_fields(&request).into_iter().map(|f| f.0).collect();
    assert_eq!(fields, vec!["name", "capacity"]);
    assert_eq!(
        request.validate().unwrap_err().message(),
        "name: Event name must be between 1 and 255 characters; \
         capacity: Capacity must be between 1 and 10000"
    );
}

#[test]
fn a_sound_request_to_reserve_passes() {
    assert!(reserve_request().validate().is_ok());
    let mut request = reserve_request();
    request.spot_count = 10000;
    request.user_name = "x".repeat(255);
    assert!(request.validate().is_ok());
}

#[test]
fn each_rule_of_a_request_to_reserve() {
    let mut request = reserve_request();
    request.user_name = String::new();
    assert_eq!(
        request.validate().unwrap_err().message(),
        "user_name: Name must be between 1 and 255 characters"
    );
    request.user_name = "x".repeat(256);
    assert!(request.validate().is_err());

    for address in ["invalid-email", "", "user@", "@domain.com", "a b@example.com"] {
        let mut request = reserve_request();
        request.user_email = address.to_string();
        let errors = request.validate().unwrap_err();
        assert_eq!(errors.fields.len(), 1);
        assert_eq!(errors.fields[0].field, "user_email");
        assert_eq!(errors.fields[0].errors[0].code, "email");
        assert_eq!(errors.message(), "user_email: Invalid email address");
    }

    for spots in [0, 10001] {
        let mut request = reserve_request();
        request.spot_count = spots;
        assert_eq!(
            request.validate().unwrap_err().message(),
            "spot_count: Spot count must be between 1 and 10000"
        );
    }
}

#[test]
fn the_answer_on_the_address_can_be_handed_in() {
    let request = reserve_request();
    assert!(request.validate_with(true).is_ok());
    assert_eq!(
        request.validate_with(false).unwrap_err().message(),
        "user_email: Invalid email address"
    );
}
