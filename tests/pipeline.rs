use std::sync::Arc;
use mmog_microtx::{
    AppError, MockPaymentStrategy, NewTransaction, PaymentResult, PaymentService,
    PurchaseAction, PurchaseEvent, PurchaseRequest, PurchaseStage, StripePaymentStrategy,
    TransactionListResponse, TransactionStatus, TransactionStore, Uid, clamp_limit,
    prepare_purchase, process_purchase, purchase_reply, purchase_step, settle_payment,
};

/// A backend that reports success without a reference.
struct Broken;
impl mmog_microtx::PaymentStrategy for Broken {
    fn process_payment(&self, _r: mmog_microtx::PaymentRequest) -> Result<PaymentResult, AppError> {
        Ok(PaymentResult::success(String::new()))
    }
    fn refund_payment(&self, _p: &str, _a: i64) -> Result<PaymentResult, AppError> {
        Ok(PaymentResult::success(String::new()))
    }
    fn name(&self) -> &'static str {
        "broken"
    }
}

fn purchase(player_id: Uid, price_cents: i64, quantity: i32) -> PurchaseRequest {
    PurchaseRequest {
        player_id,
        item_id: "sword_001".to_string(),
        item_name: "Iron Sword".to_string(),
        price_cents,
        currency: "USD".to_string(),
        quantity,
        metadata: Some("{\"level\":3}".to_string()),
    }
}

fn new_record(player_id: Uid, price_cents: i64) -> NewTransaction {
    NewTransaction::new(
        player_id,
        "gem".to_string(),
        "Gem".to_string(),
        price_cents,
        "EUR".to_string(),
        1,
        "null".to_string(),
    )
}

#[test]
fn purchase_with_the_double_completes() {
    let mut store = TransactionStore::new();
    let payments = PaymentService::new(Arc::new(MockPaymentStrategy::new()));
    let response = process_purchase(&mut store, &payments, purchase(Uid::new_v4(), 999, 1), 99_999_999)
        .unwrap();
    assert_eq!(response.status, TransactionStatus::Completed);
    assert_eq!(response.payment.amount_cents, 999);
    assert_eq!(response.payment.currency, "USD");
    assert_eq!(response.item.id, "sword_001");
    let stored = store.get(response.transaction_id).unwrap();
    assert_eq!(stored.status, TransactionStatus::Completed);
    assert!(stored.processor_id.as_deref().unwrap().starts_with("mock_"));
    assert_eq!(stored.metadata, "{\"level\":3}");
    assert!(stored.updated_at >= stored.created_at);
}

#[test]
fn negative_price_is_rejected_without_a_record() {
    let mut store = TransactionStore::new();
    let payments = PaymentService::new(Arc::new(MockPaymentStrategy::new()));
    let err = process_purchase(&mut store, &payments, purchase(Uid::new_v4(), -100, 1), 99_999_999)
        .unwrap_err();
    assert!(matches!(err, AppError::Validation(_)));
    assert_eq!(err.status_code(), 400);
    assert_eq!(store.len(), 0);
}

#[test]
fn out_of_range_quantity_is_rejected_without_a_record() {
    let mut store = TransactionStore::new();
    let payments = PaymentService::new(Arc::new(MockPaymentStrategy::new()));
    for q in [0, 101] {
        let err = process_purchase(&mut store, &payments, purchase(Uid::new_v4(), 10, q), 99_999_999)
            .unwrap_err();
        assert_eq!(err.status_code(), 400);
    }
    assert_eq!(store.len(), 0);
}

#[test]
fn total_above_the_configured_ceiling_is_rejected() {
    let mut store = TransactionStore::new();
    let payments = PaymentService::new(Arc::new(MockPaymentStrategy::new()));
    let err = process_purchase(&mut store, &payments, purchase(Uid::new_v4(), 600, 2), 1000)
        .unwrap_err();
    assert!(matches!(err, AppError::Validation(ref m) if m == "Total exceeds the maximum transaction amount"));
    assert_eq!(store.len(), 0);
}

#[test]
fn declined_payment_fails_the_record_and_answers_402() {
    let mut store = TransactionStore::new();
    let payments = PaymentService::new(Arc::new(MockPaymentStrategy::with_failure_rate(1_000_000)));
    let player = Uid(0x0100_0000_0000_0000_0000_0000_0000_0000);
    let err = process_purchase(&mut store, &payments, purchase(player, 500, 2), 99_999_999).unwrap_err();
    assert!(matches!(err, AppError::Payment(_)));
    assert_eq!(err.status_code(), 402);
    assert_eq!(store.len(), 1);
    let page = store.list_for_player(player, 10, None);
    assert_eq!(page[0].status, TransactionStatus::Failed);
    assert!(page[0].processor_id.as_deref().unwrap().starts_with("mock_"));
}

#[test]
fn gateway_error_leaves_the_record_pending() {
    let mut store = TransactionStore::new();
    let payments = PaymentService::new(Arc::new(StripePaymentStrategy::new("sk_test_xxx")));
    let player = Uid::new_v4();
    // 100 x 100 passes validation but exceeds what the gateway accepts
    let err = process_purchase(&mut store, &payments, purchase(player, 99_999_999, 100), i64::MAX)
        .unwrap_err();
    assert!(matches!(err, AppError::Payment(ref m) if m == "Amount exceeds maximum"));
    let page = store.list_for_player(player, 10, None);
    assert_eq!(page.len(), 1);
    assert_eq!(page[0].status, TransactionStatus::Pending);
    assert_eq!(page[0].processor_id, None);
}

#[test]
fn gateway_charges_the_total() {
    let mut store = TransactionStore::new();
    let payments = PaymentService::new(Arc::new(StripePaymentStrategy::new("sk_test_xxx")));
    let response = process_purchase(&mut store, &payments, purchase(Uid::new_v4(), 250, 4), 99_999_999)
        .unwrap();
    assert_eq!(response.payment.amount_cents, 1000);
    assert!(response.payment.processor_id.as_deref().unwrap().starts_with("pi_"));
}

#[test]
fn create_then_get_returns_the_input() {
    let mut store = TransactionStore::new();
    let n = new_record(Uid::new_v4(), 300);
    let id = n.transaction_id;
    let created = store.create(n).unwrap();
    let got = store.get(id).unwrap();
    assert_eq!(got.transaction_id, id);
    assert_eq!(got.item_id, "gem");
    assert_eq!(got.item_name, "Gem");
    assert_eq!(got.price_cents, 300);
    assert_eq!(got.currency, "EUR");
    assert_eq!(got.quantity, 1);
    assert_eq!(got.metadata, "null");
    assert_eq!(got.status, TransactionStatus::Pending);
    assert_eq!(got.processor_id, None);
    assert_eq!(got.created_at, got.updated_at);
    assert_eq!(got.created_at, created.created_at);
    assert!(store.get(Uid(7)).is_none());
}

#[test]
fn duplicate_identifier_is_a_conflict() {
    let mut store = TransactionStore::new();
    let n = new_record(Uid::new_v4(), 300);
    let copy = NewTransaction { item_id: "other".to_string(), ..new_record(n.player_id, 1) };
    let copy = NewTransaction { transaction_id: n.transaction_id, ..copy };
    store.create(n).unwrap();
    let err = store.create(copy).unwrap_err();
    assert!(matches!(err, AppError::Conflict(_)));
    assert_eq!(err.status_code(), 409);
    assert_eq!(store.len(), 1);
}

#[test]
fn overflowing_total_is_not_stored() {
    let mut store = TransactionStore::new();
    let mut n = new_record(Uid::new_v4(), i64::MAX);
    n.quantity = 2;
    assert!(matches!(store.create(n), Err(AppError::Validation(_))));
    assert_eq!(store.len(), 0);
}

#[test]
fn update_of_unknown_record_is_not_found() {
    let mut store = TransactionStore::new();
    let err = store.update_status(Uid(42), TransactionStatus::Completed, None).unwrap_err();
    assert!(matches!(err, AppError::NotFound(_)));
    assert_eq!(err.status_code(), 404);
}

#[test]
fn update_sets_status_and_reference() {
    let mut store = TransactionStore::new();
    let n = new_record(Uid::new_v4(), 300);
    let id = n.transaction_id;
    let created = store.create(n).unwrap();
    let updated = store
        .update_status(id, TransactionStatus::Completed, Some("pi_abc".to_string()))
        .unwrap();
    assert_eq!(updated.status, TransactionStatus::Completed);
    assert_eq!(updated.processor_id.as_deref(), Some("pi_abc"));
    assert!(updated.updated_at >= created.updated_at);
    assert_eq!(updated.price_cents, 300);
    assert_eq!(store.get(id).unwrap().status, TransactionStatus::Completed);
}

#[test]
fn success_without_a_reference_is_internal() {
    let mut store = TransactionStore::new();
    let payments = PaymentService::new(Arc::new(Broken));
    let player = Uid::new_v4();
    let err = process_purchase(&mut store, &payments, purchase(player, 10, 1), 99_999_999).unwrap_err();
    assert!(matches!(err, AppError::Internal(_)));
    let page = store.list_for_player(player, 10, None);
    assert_eq!(page[0].status, TransactionStatus::Pending);
    assert_eq!(page[0].processor_id, None);
}

#[test]
fn history_is_newest_first_by_creation_time() {
    let mut store = TransactionStore::new();
    let player = Uid::new_v4();
    for price in 1..=4 {
        store.create(new_record(player, price)).unwrap();
    }
    let page = store.list_for_player(player, 10, None);
    for w in page.windows(2) {
        assert!(w[0].created_at >= w[1].created_at);
    }
    assert_eq!(page[0].price_cents, 4);
}

#[test]
fn history_pages_with_a_cursor() {
    let mut store = TransactionStore::new();
    let player = Uid::new_v4();
    let mut ids = Vec::new();
    for price in [100, 200, 300] {
        let n = new_record(player, price);
        ids.push(n.transaction_id);
        store.create(n).unwrap();
    }
    store.create(new_record(Uid::new_v4(), 999)).unwrap();
    let first = TransactionListResponse::new(store.list_for_player(player, 2, None), 2);
    assert_eq!(first.count, 2);
    assert_eq!(first.transactions[0].transaction_id, ids[2]);
    assert_eq!(first.transactions[1].transaction_id, ids[1]);
    assert_eq!(first.next_cursor, Some(ids[1]));
    let second = TransactionListResponse::new(store.list_for_player(player, 2, first.next_cursor), 2);
    assert_eq!(second.count, 1);
    assert_eq!(second.transactions[0].transaction_id, ids[0]);
    assert_eq!(second.next_cursor, None);
}

#[test]
fn paging_never_repeats_and_ends() {
    let mut store = TransactionStore::new();
    let player = Uid::new_v4();
    for price in 1..=5 {
        store.create(new_record(player, price)).unwrap();
    }
    let mut seen: Vec<Uid> = Vec::new();
    let mut cursor = None;
    let mut rounds = 0;
    loop {
        let page = store.list_for_player(player, 2, cursor);
        if page.is_empty() {
            break;
        }
        for t in &page {
            assert!(!seen.contains(&t.transaction_id));
            seen.push(t.transaction_id);
        }
        cursor = Some(page[page.len() - 1].transaction_id);
        rounds += 1;
        assert!(rounds <= 5);
    }
    assert_eq!(seen.len(), 5);
    assert!(store.list_for_player(player, 2, Some(Uid(3))).is_empty());
}

#[test]
fn page_size_is_clamped() {
    assert_eq!(clamp_limit(0), 1);
    assert_eq!(clamp_limit(-5), 1);
    assert_eq!(clamp_limit(1000), 1000);
    assert_eq!(clamp_limit(5000), 1000);
    let mut store = TransactionStore::new();
    let player = Uid::new_v4();
    store.create(new_record(player, 1)).unwrap();
    store.create(new_record(player, 2)).unwrap();
    assert_eq!(store.list_for_player(player, 0, None).len(), 1);
}

#[test]
fn settle_maps_outcomes() {
    let ok = settle_payment(Ok(PaymentResult::success("pi_1".to_string()))).unwrap();
    assert_eq!(ok.0, TransactionStatus::Completed);
    let declined = settle_payment(Ok(PaymentResult::failure("pi_2".to_string(), "x", "y"))).unwrap();
    assert_eq!(declined.0, TransactionStatus::Failed);
    assert_eq!(declined.1.processor_id, "pi_2");
    let empty = settle_payment(Ok(PaymentResult::success(String::new()))).unwrap_err();
    assert!(matches!(empty, AppError::Internal(_)));
    let infra = settle_payment(Err(AppError::Payment("down".into()))).unwrap_err();
    assert!(matches!(infra, AppError::Payment(ref m) if m == "down"));
}

#[test]
fn reply_for_a_declined_record_names_it() {
    let mut store = TransactionStore::new();
    let n = new_record(Uid::new_v4(), 10);
    let id = n.transaction_id;
    store.create(n).unwrap();
    let failed = store.update_status(id, TransactionStatus::Failed, Some("pi_9".to_string())).unwrap();
    let err = purchase_reply(failed, PaymentResult::failure("pi_9".to_string(), "card_declined", "no funds"))
        .unwrap_err();
    let expected = format!("Transaction {} declined: no funds", id.to_text());
    assert!(matches!(err, AppError::Payment(ref m) if *m == expected));
}

#[test]
fn prepare_keeps_the_request_data() {
    let n = prepare_purchase(purchase(Uid(5), 20, 3), 100).unwrap();
    assert_eq!(n.player_id, Uid(5));
    assert_eq!(n.price_cents, 20);
    assert_eq!(n.quantity, 3);
    assert_eq!(n.metadata, "{\"level\":3}");
    let mut bare = purchase(Uid(5), 20, 3);
    bare.metadata = None;
    assert_eq!(prepare_purchase(bare, 100).unwrap().metadata, "null");
}

#[test]
fn step_machine_runs_a_purchase() {
    let mut store = TransactionStore::new();
    let payments = PaymentService::new(Arc::new(MockPaymentStrategy::new()));
    let (mut stage, mut action) =
        purchase_step(PurchaseStage::Start, PurchaseEvent::Submitted(purchase(Uid::new_v4(), 40, 2)), 99_999_999);
    let mut charged = 0;
    let reply = loop {
        let event = match action {
            PurchaseAction::Create(n) => PurchaseEvent::Created(store.create(n)),
            PurchaseAction::Charge { transaction_id, player_id, amount_cents, currency } => {
                charged = amount_cents;
                PurchaseEvent::Charged(payments.process_purchase(transaction_id, player_id, amount_cents, &currency))
            }
            PurchaseAction::UpdateStatus { transaction_id, status, processor_id } => {
                PurchaseEvent::Updated(store.update_status(transaction_id, status, processor_id))
            }
            PurchaseAction::Reply(r) => break r,
        };
        let next = purchase_step(stage, event, 99_999_999);
        stage = next.0;
        action = next.1;
    };
    assert_eq!(charged, 80);
    let response = reply.unwrap();
    assert_eq!(response.status, TransactionStatus::Completed);
    assert!(matches!(stage, PurchaseStage::Finished));
}

#[test]
fn step_machine_answers_invalid_requests_at_once() {
    let (stage, action) =
        purchase_step(PurchaseStage::Start, PurchaseEvent::Submitted(purchase(Uid::new_v4(), -100, 1)), 99_999_999);
    assert!(matches!(stage, PurchaseStage::Finished));
    assert!(matches!(action, PurchaseAction::Reply(Err(AppError::Validation(_)))));
    let (stage, action) = purchase_step(PurchaseStage::Creating, PurchaseEvent::Updated(Err(AppError::RateLimited)), 10);
    assert!(matches!(stage, PurchaseStage::Finished));
    assert!(matches!(action, PurchaseAction::Reply(Err(AppError::Internal(_)))));
}
