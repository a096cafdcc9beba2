use mmog_microtx::{
    AppError, Config, Currency, ErrorResponse, PurchaseRequest, RequestField, TransactionStatus,
    Uid, default_limit, default_quantity, health_report, HealthStatus,
};

fn request(price_cents: i64, quantity: i32) -> PurchaseRequest {
    PurchaseRequest {
        player_id: Uid::new_v4(),
        item_id: "sword_001".to_string(),
        item_name: "Iron Sword".to_string(),
        price_cents,
        currency: "USD".to_string(),
        quantity,
        metadata: None,
    }
}

#[test]
fn test_config_validation() {
    let config = Config::from_settings(
        Some("postgres://localhost/tx".to_string()),
        Some("sk_test_xxx".to_string()),
        None,
        None,
        None,
    )
    .unwrap();
    assert_eq!(config.max_transaction_cents, 99_999_999);
    assert_eq!(config.max_quantity, 100);
    assert!(!config.use_mock_payments);
    assert_eq!(config.stripe_api_key, "sk_test_xxx");
}

#[test]
fn config_requires_a_payment_key_without_the_double() {
    let err = Config::from_settings(Some("db".to_string()), None, None, None, None).unwrap_err();
    assert!(matches!(err, AppError::Configuration(ref m) if m == "STRIPE_API_KEY not set"));
    let err = Config::from_settings(Some("db".to_string()), None, Some("false".to_string()), None, None)
        .unwrap_err();
    assert!(matches!(err, AppError::Configuration(_)));
    let mock = Config::from_settings(Some("db".to_string()), None, Some("True".to_string()), None, None)
        .unwrap();
    assert!(mock.use_mock_payments);
    assert_eq!(mock.stripe_api_key, "");
}

#[test]
fn config_requires_database_url() {
    let err = Config::from_settings(None, None, None, None, None).unwrap_err();
    assert!(matches!(err, AppError::Configuration(ref m) if m == "DATABASE_URL not set"));
    assert_eq!(err.status_code(), 500);
}

#[test]
fn config_reads_mock_flag_in_any_case() {
    let config = Config::from_settings(
        Some("db".to_string()),
        Some("SECRET-REDACTED".to_string()),
        Some("TRUE".to_string()),
        Some("5000".to_string()),
        Some("7".to_string()),
    )
    .unwrap();
    assert!(config.use_mock_payments);
    assert_eq!(config.max_transaction_cents, 5000);
    assert_eq!(config.max_quantity, 7);
    let off = Config::from_settings(
        Some("db".to_string()),
        Some("k".to_string()),
        Some("yes".to_string()),
        None,
        None,
    )
    .unwrap();
    assert!(!off.use_mock_payments);
}

#[test]
fn config_rejects_bad_ceilings() {
    let bad = Config::from_settings(Some("db".to_string()), None, None, Some("12x".to_string()), None)
        .unwrap_err();
    assert!(matches!(bad, AppError::Configuration(ref m) if m == "MAX_TRANSACTION_CENTS must be a valid integer"));
    let zero = Config::from_settings(Some("db".to_string()), None, None, Some("0".to_string()), None)
        .unwrap_err();
    assert!(matches!(zero, AppError::Configuration(ref m) if m == "MAX_TRANSACTION_CENTS must be positive"));
    let qty = Config::from_settings(Some("db".to_string()), None, None, None, Some("+".to_string()))
        .unwrap_err();
    assert!(matches!(qty, AppError::Configuration(ref m) if m == "MAX_QUANTITY must be a valid integer"));
    let signed =
        Config::from_settings(Some("db".to_string()), Some("k".to_string()), None, Some("+250".to_string()), None)
            .unwrap();
    assert_eq!(signed.max_transaction_cents, 250);
}

#[test]
fn test_purchase_request_validation() {
    let valid_request = request(999, 1);
    assert!(valid_request.validate_request().is_ok());
}

#[test]
fn test_invalid_price_rejected() {
    let invalid_request = request(-100, 1);
    assert!(invalid_request.validate_request().is_err());
}

#[test]
fn validation_lists_every_broken_field() {
    let mut r = request(0, 101);
    r.item_name = String::new();
    r.currency = "US".to_string();
    let errors = r.validate_request().unwrap_err();
    assert_eq!(
        errors.fields,
        vec![RequestField::ItemName, RequestField::PriceCents, RequestField::Currency, RequestField::Quantity]
    );
    let err = errors.into_app_error();
    assert_eq!(err.status_code(), 400);
    assert_eq!(
        err.message(),
        "Validation error: item_name: invalid, price_cents: invalid, currency: invalid, quantity: invalid"
    );
}

#[test]
fn validation_bounds_are_inclusive() {
    assert!(request(99_999_999, 100).validate_request().is_ok());
    assert!(request(1, 1).validate_request().is_ok());
    assert!(request(100_000_000, 1).validate_request().is_err());
    assert!(request(5, 0).validate_request().is_err());
    let mut long = request(5, 1);
    long.item_id = "x".repeat(255);
    assert!(long.validate_request().is_ok());
    long.item_id = "x".repeat(256);
    assert!(long.validate_request().is_err());
}

#[test]
fn totals_multiply_price_and_quantity() {
    assert_eq!(request(999, 3).total_price_cents(), 2997);
    assert_eq!(request(i64::MAX, 2).checked_total_cents(), None);
    assert_eq!(request(250, 4).checked_total_cents(), Some(1000));
}

#[test]
fn defaults() {
    assert_eq!(default_quantity(), 1);
    assert_eq!(default_limit(), 100);
}

#[test]
fn status_helpers_follow_the_transition_table() {
    assert!(!TransactionStatus::Pending.is_terminal());
    assert!(TransactionStatus::Completed.is_terminal());
    assert!(TransactionStatus::Failed.is_terminal());
    assert!(TransactionStatus::Refunded.is_terminal());
    assert!(TransactionStatus::Completed.can_refund());
    assert!(!TransactionStatus::Failed.can_refund());
    assert!(!TransactionStatus::Pending.can_refund());
    assert_eq!(TransactionStatus::Refunded.as_str(), "refunded");
    assert_eq!(TransactionStatus::from_name("completed"), Some(TransactionStatus::Completed));
    assert_eq!(TransactionStatus::from_name("Completed"), None);
}

#[test]
fn currency_codes() {
    assert_eq!(Currency::EUR.as_str(), "EUR");
    assert_eq!(Currency::JPY.decimal_places(), 0);
    assert_eq!(Currency::USD.decimal_places(), 2);
    assert_eq!("gbp".parse::<Currency>(), Ok(Currency::GBP));
    assert_eq!(Currency::parse_code("aud"), Ok(Currency::AUD));
    assert_eq!(Currency::parse_code("usdd"), Err("Invalid currency: usdd".to_string()));
}

#[test]
fn test_error_status_codes() {
    assert_eq!(AppError::Validation("test".into()).status_code(), 400);
    assert_eq!(AppError::NotFound("test".into()).status_code(), 404);
    assert_eq!(AppError::RateLimited.status_code(), 429);
}

#[test]
fn test_error_conversion() {
    let json_error: AppError = serde_json::from_str::<String>("invalid").unwrap_err().into();
    assert_eq!(json_error.status_code(), 400);
}

#[test]
fn every_error_kind_has_a_status_and_code() {
    let cases: Vec<(AppError, u16, &str)> = vec![
        (AppError::Configuration("c".into()), 500, "CONFIGURATION_ERROR"),
        (AppError::Validation("v".into()), 400, "VALIDATION_ERROR"),
        (AppError::Database(sqlx::Error::RowNotFound), 503, "DATABASE_ERROR"),
        (AppError::Payment("p".into()), 402, "PAYMENT_ERROR"),
        (AppError::NotFound("n".into()), 404, "NOT_FOUND"),
        (AppError::Conflict("d".into()), 409, "CONFLICT"),
        (AppError::RateLimited, 429, "RATE_LIMITED"),
        (AppError::Internal("i".into()), 500, "INTERNAL_ERROR"),
    ];
    for (err, status, code) in cases {
        assert_eq!(err.status_code(), status);
        assert_eq!(err.error_code(), code);
    }
    assert_eq!(AppError::Payment("card".into()).message(), "Payment error: card");
    assert_eq!(AppError::RateLimited.message(), "Rate limit exceeded");
    let db: AppError = sqlx::Error::RowNotFound.into();
    assert!(db.message().starts_with("Database error: "));
}

#[test]
fn error_response_builder() {
    let body = ErrorResponse::new("boom".to_string())
        .with_code("INTERNAL_ERROR")
        .with_details(vec!["a".to_string()]);
    assert_eq!(body.error, "boom");
    assert_eq!(body.code.as_deref(), Some("INTERNAL_ERROR"));
    assert_eq!(body.details, vec!["a".to_string()]);
}

#[test]
fn health_follows_the_store_probe() {
    let up = health_report(Some(12), "now".to_string());
    assert_eq!(up.status, HealthStatus::Healthy);
    assert_eq!(up.status_code(), 200);
    assert_eq!(up.database.unwrap().latency_ms, Some(12));
    let down = health_report(None, "now".to_string());
    assert_eq!(down.status, HealthStatus::Unhealthy);
    assert_eq!(down.status_code(), 503);
}
