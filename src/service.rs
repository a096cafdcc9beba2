//! The payment coordinator: checks amounts, derives the idempotency key and
//! hands each charge to the configured strategy.
use std::sync::Arc;
use vstd::prelude::*;
use crate::errors::AppError;
use crate::ids::{Uid, uuid_parse_of, uuid_text_of};
use crate::payment::{PaymentRequest, PaymentResult, PaymentStrategy};

verus! {

/// The idempotency key of a charge: it depends on the transaction alone.
pub open spec fn idempotency_key_of(transaction_id: Uid) -> Seq<char> {
    "purchase_"@ + uuid_text_of(transaction_id.0)
}

/// The text of the identifier reads back as the identifier.
pub open spec fn text_round_trips(id: Uid) -> bool {
    uuid_parse_of(uuid_text_of(id.0)) == Some(id.0)
}

/// The idempotency key for charges of `transaction_id`.
pub fn idempotency_key(transaction_id: Uid) -> (r: String)
    ensures
        r@ == idempotency_key_of(transaction_id),
        text_round_trips(transaction_id),
{
    let text = transaction_id.to_text();
    let mut key = String::from_str("purchase_");
    key.append(text.as_str());
    key
}

/// Two charges get the same idempotency key exactly when they are for the
/// same transaction, for identifiers whose text reads back.
pub proof fn lemma_idempotency_key_identifies(a: Uid, b: Uid)
    requires
        text_round_trips(a),
        text_round_trips(b),
    ensures
        idempotency_key_of(a) == idempotency_key_of(b) <==> a == b,
{
    if idempotency_key_of(a) == idempotency_key_of(b) {
        let p = "purchase_"@;
        let ka = idempotency_key_of(a);
        let kb = idempotency_key_of(b);
        assert(ka.subrange(p.len() as int, ka.len() as int) =~= uuid_text_of(a.0));
        assert(kb.subrange(p.len() as int, kb.len() as int) =~= uuid_text_of(b.0));
    }
}

/// The request that a charge hands to the strategy.
pub fn payment_request(
    transaction_id: Uid,
    player_id: Uid,
    amount_cents: i64,
    currency: &str,
) -> (r: PaymentRequest)
    ensures
        r.transaction_id == transaction_id,
        r.player_id == player_id,
        r.amount_cents == amount_cents,
        r.currency@ == currency@,
        r.idempotency_key@ == idempotency_key_of(transaction_id),
        text_round_trips(transaction_id),
{
    PaymentRequest {
        amount_cents,
        currency: String::from_str(currency),
        player_id,
        transaction_id,
        idempotency_key: idempotency_key(transaction_id),
    }
}

/// Charges and refunds through one strategy chosen at startup. It does not
/// retry: a retry is the caller's decision.
pub struct PaymentService<S: PaymentStrategy> {
    strategy: Arc<S>,
}

impl<S: PaymentStrategy> PaymentService<S> {
    pub fn new(strategy: Arc<S>) -> (r: PaymentService<S>)
        ensures
            r.backend() == *strategy,
    {
        PaymentService { strategy }
    }

    pub closed spec fn backend(&self) -> S {
        *self.strategy
    }

    /// Charges `amount_cents` for a transaction. A non-positive amount is a
    /// validation error and reaches no strategy.
    pub fn process_purchase(
        &self,
        transaction_id: Uid,
        player_id: Uid,
        amount_cents: i64,
        currency: &str,
    ) -> (r: Result<PaymentResult, AppError>)
        ensures
            amount_cents <= 0 ==> (r matches Err(AppError::Validation(m)) && m@
                == "Amount must be positive"@),
            amount_cents > 0 ==> text_round_trips(transaction_id),
            amount_cents > 0 ==> exists|request: PaymentRequest|
                {
                    &&& request.transaction_id == transaction_id
                    &&& request.player_id == player_id
                    &&& request.amount_cents == amount_cents
                    &&& request.currency@ == currency@
                    &&& request.idempotency_key@ == idempotency_key_of(transaction_id)
                    &&& #[trigger] call_ensures(S::process_payment, (&self.backend(), request), r)
                },
    {
        if amount_cents <= 0 {
            return Err(AppError::Validation(String::from_str("Amount must be positive")));
        }
        let request = payment_request(transaction_id, player_id, amount_cents, currency);
        let ghost handed = request;
        let charge = S::process_payment;
        let r = charge(&*self.strategy, request);
        assert(call_ensures(S::process_payment, (&self.backend(), handed), r));
        r
    }

    /// Refunds part or all of an earlier charge.
    pub fn process_refund(&self, processor_id: &str, amount_cents: i64) -> (r: Result<
        PaymentResult,
        AppError,
    >)
        ensures
            amount_cents <= 0 ==> (r matches Err(AppError::Validation(m)) && m@
                == "Refund amount must be positive"@),
            amount_cents > 0 ==> call_ensures(
                S::refund_payment,
                (&self.backend(), processor_id, amount_cents),
                r,
            ),
    {
        if amount_cents <= 0 {
            return Err(AppError::Validation(String::from_str("Refund amount must be positive")));
        }
        let refund = S::refund_payment;
        refund(&*self.strategy, processor_id, amount_cents)
    }

    /// The name of the strategy in use.
    pub fn strategy_name(&self) -> (r: &'static str)
        ensures
            call_ensures(S::name, (&self.backend(),), r),
    {
        let name = S::name;
        name(&*self.strategy)
    }
}

} // verus!
