use quick_res::config::{Config, Environment};

fn env(pairs: &[(&str, &str)]) -> Environment {
    Environment::from_pairs(
        pairs
            .iter()
            .map(|(name, value)| (name.to_string(), value.to_string()))
            .collect(),
    )
}

#[test]
fn test_config_from_env_with_defaults() {
    let config = Config::from_env(&env(&[]));

    assert_eq!(config.database_url, "sqlite:quick-res.db");
    assert_eq!(config.base_url, "http://localhost:8000");
    assert_eq!(config.app_name, "Quick Reservations");
    assert_eq!(config.port, 8000);
    assert_eq!(config.email_provider, "console");
}

#[test]
fn test_config_from_env_with_custom_values() {
    let config = Config::from_env(&env(&[
        ("DATABASE_URL", "sqlite:test.db"),
        ("BASE_URL", "https://example.com"),
        ("APP_NAME", "Test App"),
        ("PORT", "3000"),
    ]));

    assert_eq!(config.database_url, "sqlite:test.db");
    assert_eq!(config.base_url, "https://example.com");
    assert_eq!(config.app_name, "Test App");
    assert_eq!(config.port, 3000);
}

#[test]
fn test_smtp_config() {
    let environment = env(&[
        ("EMAIL_PROVIDER", "smtp"),
        ("SMTP_HOST", "smtp.example.com"),
        ("SMTP_PORT", "465"),
        ("SMTP_USERNAME", "user@example.com"),
        ("SMTP_PASSWORD", "password123"),
    ]);

    let config = Config::from_env(&environment);
    let smtp_config = config.smtp_config(&environment).unwrap();

    assert_eq!(smtp_config.host, "smtp.example.com");
    assert_eq!(smtp_config.port, 465);
    assert_eq!(smtp_config.username, Some("user@example.com".to_string()));
    assert_eq!(smtp_config.password, Some("password123".to_string()));
}

#[test]
fn test_environment_detection() {
    let config = Config::from_env(&env(&[("APP_ENVIRONMENT", "production")]));
    assert!(config.is_production());
    assert!(!config.is_development());

    let config = Config::from_env(&env(&[("APP_ENVIRONMENT", "development")]));
    assert!(!config.is_production());
    assert!(config.is_development());
}

#[test]
fn environment_detection_ignores_case() {
    let config = Config::from_env(&env(&[("APP_ENVIRONMENT", "PRODUCTION")]));
    assert!(config.is_production());
    let config = Config::from_env(&env(&[("APP_ENVIRONMENT", "Development")]));
    assert!(config.is_development());
    let config = Config::from_env(&env(&[("APP_ENVIRONMENT", "staging")]));
    assert!(!config.is_production());
    assert!(!config.is_development());
    // Unset, the environment is development.
    assert!(Config::from_env(&env(&[])).is_development());
}

#[test]
fn every_default_is_as_documented() {
    let config = Config::from_env(&env(&[]));
    assert_eq!(config.app_environment, "development");
    assert_eq!(config.email_from, "noreply@quick-res.example.com");
    assert_eq!(config.email_from_name, "Quick Reservations");
    assert_eq!(config.rate_limit_requests_per_minute, 60);
    assert_eq!(config.rate_limit_burst, 10);
    assert_eq!(config.log_level, "info");
    assert_eq!(config.log_format, "json");
    assert_eq!(
        config.cors_allowed_origins,
        vec!["http://localhost:3000".to_string(), "http://localhost:8080".to_string()]
    );
    assert_eq!(
        config.cors_allowed_methods,
        vec!["GET", "POST", "PUT", "DELETE", "OPTIONS"]
    );
    assert_eq!(
        config.cors_allowed_headers,
        vec!["Content-Type", "Authorization", "X-Requested-With"]
    );
}

#[test]
fn numbers_that_do_not_read_fall_back() {
    let config = Config::from_env(&env(&[
        ("PORT", "eighty"),
        ("RATE_LIMIT_REQUESTS_PER_MINUTE", "-1"),
        ("RATE_LIMIT_BURST", "25"),
    ]));
    assert_eq!(config.port, 8000);
    assert_eq!(config.rate_limit_requests_per_minute, 60);
    assert_eq!(config.rate_limit_burst, 25);
    // A port beyond 16 bits does not read either.
    assert_eq!(Config::from_env(&env(&[("PORT", "65536")])).port, 8000);
    assert_eq!(Config::from_env(&env(&[("PORT", "65535")])).port, 65535);
}

#[test]
fn lists_are_cut_at_commas_and_trimmed() {
    let config = Config::from_env(&env(&[
        ("CORS_ALLOWED_ORIGINS", " https://a.example , https://b.example,,"),
        ("CORS_ALLOWED_METHODS", "GET"),
        ("CORS_ALLOWED_HEADERS", ""),
    ]));
    assert_eq!(
        config.cors_allowed_origins,
        vec!["https://a.example", "https://b.example", "", ""]
    );
    assert_eq!(config.cors_allowed_methods, vec!["GET"]);
    assert_eq!(config.cors_allowed_headers, vec![""]);
}

#[test]
fn the_first_of_two_variables_counts() {
    let environment = env(&[("PORT", "1"), ("PORT", "2")]);
    assert_eq!(environment.get("PORT"), Some("1"));
    assert_eq!(environment.get("HOST"), None);
    assert_eq!(Config::from_env(&environment).port, 1);
}

#[test]
fn smtp_config_only_for_smtp() {
    let environment = env(&[("EMAIL_PROVIDER", "SMTP"), ("SMTP_TLS", "false")]);
    let config = Config::from_env(&environment);
    let smtp = config.smtp_config(&environment).unwrap();
    assert_eq!(smtp.host, "localhost");
    assert_eq!(smtp.port, 587);
    assert_eq!(smtp.username, None);
    assert_eq!(smtp.password, None);
    assert!(!smtp.tls);

    let environment = env(&[("EMAIL_PROVIDER", "smtp"), ("SMTP_TLS", "yes")]);
    let config = Config::from_env(&environment);
    assert!(config.smtp_config(&environment).unwrap().tls);

    let environment = env(&[("SMTP_HOST", "smtp.example.com")]);
    let config = Config::from_env(&environment);
    assert!(config.smtp_config(&environment).is_none());
}

#[test]
fn sendgrid_key_only_for_sendgrid() {
    let environment = env(&[("EMAIL_PROVIDER", "SendGrid"), ("SENDGRID_API_KEY", "key-1")]);
    let config = Config::from_env(&environment);
    assert_eq!(config.sendgrid_api_key(&environment), Some("key-1".to_string()));

    let environment = env(&[("EMAIL_PROVIDER", "sendgrid")]);
    let config = Config::from_env(&environment);
    assert_eq!(config.sendgrid_api_key(&environment), None);

    let environment = env(&[("EMAIL_PROVIDER", "smtp"), ("SENDGRID_API_KEY", "key-1")]);
    let config = Config::from_env(&environment);
    assert_eq!(config.sendgrid_api_key(&environment), None);
}

#[test]
fn numbers_read_in_decimal_with_an_optional_plus() {
    let port = |text: &str| Config::from_env(&env(&[("PORT", text)])).port;
    assert_eq!(port("465"), 465);
    assert_eq!(port("+465"), 465);
    assert_eq!(port("0000465"), 465);
    assert_eq!(port("0"), 0);
    // Anything else falls back.
    for text in ["", "+", "-1", "++1", " 465", "465 ", "4 65", "4.65", "0x1f", "٤٦٥", "65536"] {
        assert_eq!(port(text), 8000, "{:?}", text);
    }
    let burst = |text: &str| Config::from_env(&env(&[("RATE_LIMIT_BURST", text)])).rate_limit_burst;
    assert_eq!(burst("4294967295"), u32::MAX);
    assert_eq!(burst("4294967296"), 10);
    assert_eq!(burst("+25"), 25);
}
