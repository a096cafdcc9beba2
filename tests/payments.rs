use std::sync::Arc;
use mmog_microtx::{
    AppError, MockPaymentStrategy, PaymentRequest, PaymentService, PaymentStrategy,
    StripePaymentStrategy, Uid, idempotency_key,
};

fn charge(amount_cents: i64, player_id: Uid) -> PaymentRequest {
    PaymentRequest {
        amount_cents,
        currency: "USD".to_string(),
        player_id,
        transaction_id: Uid::new_v4(),
        idempotency_key: Uid::new_v4().to_text(),
    }
}

/// A player whose identifier starts with the given byte.
fn player_starting_with(byte: u8) -> Uid {
    Uid(((byte as u128) << 120) | 0x1234)
}

#[test]
fn test_mock_strategy_success() {
    let strategy = MockPaymentStrategy::new();
    let result = strategy.process_payment(charge(1000, Uid::new_v4())).unwrap();
    assert!(result.success);
    assert!(result.processor_id.starts_with("mock_"));
    assert!(result.error_code.is_none());
}

#[test]
fn test_strategy_polymorphism() {
    let strategies: Vec<Box<dyn PaymentStrategy>> = vec![
        Box::new(MockPaymentStrategy::new()),
        Box::new(StripePaymentStrategy::new("sk_test_xxx")),
    ];
    for strategy in strategies {
        let name = strategy.name();
        assert!(!name.is_empty());
    }
}

#[test]
fn test_payment_service_with_mock() {
    let mock_strategy = Arc::new(MockPaymentStrategy::new());
    let service = PaymentService::new(mock_strategy);
    let result = service.process_purchase(Uid::new_v4(), Uid::new_v4(), 1000, "USD").unwrap();
    assert!(result.success);
}

#[test]
fn test_validation_error() {
    let mock_strategy = Arc::new(MockPaymentStrategy::new());
    let service = PaymentService::new(mock_strategy);
    let result = service.process_purchase(Uid::new_v4(), Uid::new_v4(), -100, "USD");
    assert!(matches!(result, Err(AppError::Validation(_))));
}

#[test]
fn refund_needs_a_positive_amount() {
    let service = PaymentService::new(Arc::new(MockPaymentStrategy::new()));
    assert!(matches!(service.process_refund("mock_x", 0), Err(AppError::Validation(_))));
    let refund = service.process_refund("mock_x", 50).unwrap();
    assert!(refund.success);
    assert!(refund.processor_id.starts_with("mock_refund_"));
    assert_eq!(service.strategy_name(), "mock");
}

#[test]
fn stripe_checks_amounts_before_charging() {
    let stripe = StripePaymentStrategy::new("sk_test_xxx");
    assert_eq!(stripe.api_key(), "sk_test_xxx");
    assert!(matches!(stripe.process_payment(charge(0, Uid::new_v4())), Err(AppError::Payment(ref m)) if m == "Amount must be positive"));
    assert!(matches!(stripe.process_payment(charge(100_000_000, Uid::new_v4())), Err(AppError::Payment(ref m)) if m == "Amount exceeds maximum"));
}

#[test]
fn stripe_ceiling_is_configurable() {
    let stripe = StripePaymentStrategy::with_ceiling("sk_test_xxx", 500);
    assert_eq!(stripe.max_cents(), 500);
    assert!(matches!(stripe.process_payment(charge(501, Uid::new_v4())), Err(AppError::Payment(ref m)) if m == "Amount exceeds maximum"));
    assert!(stripe.process_payment(charge(500, Uid::new_v4())).unwrap().success);
    assert_eq!(StripePaymentStrategy::new("k").max_cents(), 99_999_999);
}

#[test]
fn stripe_approves_small_and_declines_large_amounts() {
    let stripe = StripePaymentStrategy::new("sk_test_xxx");
    let ok = stripe.process_payment(charge(99_999, Uid::new_v4())).unwrap();
    assert!(ok.success);
    assert!(ok.processor_id.starts_with("pi_"));
    assert_eq!(ok.processor_id.len(), 27);
    assert!(ok.processor_id[3..].chars().all(|c| c.is_ascii_hexdigit()));
    let declined = stripe.process_payment(charge(100_000, Uid::new_v4())).unwrap();
    assert!(!declined.success);
    assert_eq!(declined.error_code.as_deref(), Some("card_declined"));
    assert_eq!(
        declined.error_message.as_deref(),
        Some("Your card was declined. Please try a different payment method.")
    );
    let refund = stripe.refund_payment(&ok.processor_id, 10).unwrap();
    assert!(refund.success && refund.processor_id.starts_with("re_"));
    assert_eq!(stripe.name(), "stripe");
}

#[test]
fn mock_declines_by_player_and_rate() {
    let always = MockPaymentStrategy::with_failure_rate(1_000_000);
    let declined = always.process_payment(charge(100, player_starting_with(254))).unwrap();
    assert!(!declined.success);
    assert_eq!(declined.error_code.as_deref(), Some("mock_decline"));
    assert!(declined.processor_id.starts_with("mock_"));
    // byte 255 reads as 1.0, which is not below a rate of 1.0
    assert!(always.process_payment(charge(100, player_starting_with(255))).unwrap().success);
    let half = MockPaymentStrategy::with_failure_rate(500_000);
    assert!(half.declines(player_starting_with(127)));
    assert!(!half.declines(player_starting_with(128)));
    assert_eq!(MockPaymentStrategy::with_failure_rate(7_000_000).failure_rate_ppm(), 1_000_000);
    assert_eq!(MockPaymentStrategy::default().delay_ms(), 10);
}

#[test]
fn idempotency_key_depends_on_the_transaction_only() {
    let a = Uid(0x0123_4567_89ab_cdef_0123_4567_89ab_cdef);
    let b = Uid(0x0123_4567_89ab_cdef_0123_4567_89ab_cdee);
    assert_eq!(idempotency_key(a), "purchase_01234567-89ab-cdef-0123-456789abcdef");
    assert_eq!(idempotency_key(a), idempotency_key(a));
    assert_ne!(idempotency_key(a), idempotency_key(b));
}

#[test]
fn uid_text_round_trips() {
    let id = Uid(0x0123_4567_89ab_cdef_0123_4567_89ab_cdef);
    let text = id.to_text();
    assert_eq!(text, "01234567-89ab-cdef-0123-456789abcdef");
    assert_eq!(Uid::parse(&text), Some(id));
    assert_eq!(Uid::parse("0123456789abcdef0123456789abcdef"), Some(id));
    assert_eq!(Uid::parse("not-a-uuid"), None);
    let fresh = Uid::new_v4();
    assert_eq!((fresh.0 >> 76) & 0xf, 4);
    assert_eq!((fresh.0 >> 62) & 0x3, 2);
}
