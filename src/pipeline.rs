//! The purchase pipeline: validate, record as pending, charge, settle the
//! record, answer. Each decision is a verified function of plain values, so
//! the same steps drive the in-memory store here and an external store
//! elsewhere.
use vstd::prelude::*;
use crate::errors::AppError;
use crate::ids::Uid;
use crate::payment::{PaymentRequest, PaymentResult, PaymentStrategy};
use crate::request::{PurchaseRequest, violations_text};
use crate::response::PurchaseResponse;
use crate::service::{PaymentService, idempotency_key_of};
use crate::status::{TransactionStatus, pipeline_transition};
use crate::store::{TransactionStore, holds_id, position_of, restamped, stored};
use crate::transaction::{NewTransaction, Transaction, total_fits};

verus! {

/// The metadata text that a purchase stores: its own, or JSON `null`.
pub open spec fn metadata_text(m: Option<String>) -> Seq<char> {
    match m {
        Some(t) => t@,
        None => "null"@,
    }
}

/// The request passes every field rule and its total stays within the
/// configured maximum.
pub open spec fn accepted(request: PurchaseRequest, max_total_cents: i64) -> bool {
    request.valid() && request.price_cents * request.quantity <= max_total_cents
}

/// A new record made from the request.
pub open spec fn drawn_from(n: NewTransaction, request: PurchaseRequest) -> bool {
    &&& n.player_id == request.player_id
    &&& n.item_id@ == request.item_id@
    &&& n.item_name@ == request.item_name@
    &&& n.price_cents == request.price_cents
    &&& n.currency@ == request.currency@
    &&& n.quantity == request.quantity
    &&& n.metadata@ == metadata_text(request.metadata)
}

/// A stored record holds the request's data.
pub open spec fn records_request(t: Transaction, request: PurchaseRequest) -> bool {
    &&& t.player_id == request.player_id
    &&& t.item_id@ == request.item_id@
    &&& t.item_name@ == request.item_name@
    &&& t.price_cents == request.price_cents
    &&& t.currency@ == request.currency@
    &&& t.quantity == request.quantity
    &&& t.metadata@ == metadata_text(request.metadata)
}

/// Validation and the total: a new pending record for an accepted request,
/// a validation error otherwise.
pub fn prepare_purchase(request: PurchaseRequest, max_total_cents: i64) -> (r: Result<
    NewTransaction,
    AppError,
>)
    ensures
        !request.valid() ==> (r matches Err(AppError::Validation(m)) && m@ == violations_text(
            request.violations(),
        )),
        request.valid() && !accepted(request, max_total_cents) ==> (r matches Err(
            AppError::Validation(m),
        ) && m@ == "Total exceeds the maximum transaction amount"@),
        accepted(request, max_total_cents) ==> (r matches Ok(n) && drawn_from(n, request)),
{
    match request.validate_request() {
        Err(e) => {
            return Err(e.into_app_error());
        },
        Ok(()) => {},
    }
    assert(request.price_cents * request.quantity <= 99_999_999 * 100) by (nonlinear_arith)
        requires
            1 <= request.price_cents <= 99_999_999,
            1 <= request.quantity <= 100,
    ;
    let total = request.total_price_cents();
    if total > max_total_cents {
        return Err(
            AppError::Validation(String::from_str("Total exceeds the maximum transaction amount")),
        );
    }
    let metadata = match request.metadata {
        Some(m) => m,
        None => String::from_str("null"),
    };
    Ok(
        NewTransaction::new(
            request.player_id,
            request.item_id,
            request.item_name,
            request.price_cents,
            request.currency,
            request.quantity,
            metadata,
        ),
    )
}

/// A price outside `(0, 99 999 999]` or a quantity outside `[1, 100]` is
/// never accepted, so the pipeline answers it at once with a validation
/// error: no record is written and nothing is charged.
pub proof fn lemma_out_of_range_is_rejected(request: PurchaseRequest, max_total_cents: i64)
    requires
        request.price_cents <= 0 || request.price_cents > 99_999_999 || request.quantity < 1
            || request.quantity > 100,
    ensures
        !request.valid(),
        !accepted(request, max_total_cents),
{
}

/// The status that a payment answer settles a pending record to: completed
/// for a success with a reference, failed for a decline, none for a success
/// without a reference, which breaks the strategy's contract.
pub open spec fn settled_status(p: PaymentResult) -> Option<TransactionStatus> {
    if p.success {
        if p.processor_id@.len() > 0 {
            Some(TransactionStatus::Completed)
        } else {
            None
        }
    } else {
        Some(TransactionStatus::Failed)
    }
}

/// Maps a payment outcome to a terminal status. A failure of the backend is
/// passed on unchanged: the record then stays pending for reconciliation.
pub fn settle_payment(outcome: Result<PaymentResult, AppError>) -> (r: Result<
    (TransactionStatus, PaymentResult),
    AppError,
>)
    ensures
        match outcome {
            Err(e) => r == Err::<(TransactionStatus, PaymentResult), AppError>(e),
            Ok(p) => match settled_status(p) {
                Some(st) => r == Ok::<(TransactionStatus, PaymentResult), AppError>((st, p)),
                None => r matches Err(AppError::Internal(_)),
            },
        },
{
    match outcome {
        Err(e) => Err(e),
        Ok(p) => {
            if p.success {
                if p.processor_id.as_str().unicode_len() > 0 {
                    Ok((TransactionStatus::Completed, p))
                } else {
                    Err(
                        AppError::Internal(
                            String::from_str(
                                "Payment reported success without a processor reference",
                            ),
                        ),
                    )
                }
            } else {
                Ok((TransactionStatus::Failed, p))
            }
        },
    }
}

/// The error text of a declined purchase.
pub open spec fn decline_text(id: Uid, p: PaymentResult) -> Seq<char> {
    "Transaction "@ + id.text() + " declined: "@ + match p.error_message {
        Some(m) => m@,
        None => "no reason given"@,
    }
}

/// The answer for a settled record: a receipt when completed, a payment
/// error when declined.
pub fn purchase_reply(updated: Transaction, payment: PaymentResult) -> (r: Result<
    PurchaseResponse,
    AppError,
>)
    ensures
        updated.status is Completed && total_fits(updated.price_cents, updated.quantity) ==> (
        r matches Ok(resp) && resp.describes(updated, Some(payment.processor_id))),
        updated.status is Completed && !total_fits(updated.price_cents, updated.quantity) ==> (
        r matches Err(AppError::Internal(_))),
        updated.status is Failed ==> (r matches Err(AppError::Payment(m)) && m@ == decline_text(
            updated.transaction_id,
            payment,
        )),
        updated.status is Pending || updated.status is Refunded ==> (r matches Err(
            AppError::Internal(_),
        )),
{
    match updated.status {
        TransactionStatus::Completed => {
            if updated.price_cents.checked_mul(updated.quantity as i64).is_none() {
                return Err(AppError::Internal(String::from_str("Stored total overflows")));
            }
            Ok(PurchaseResponse::from_transaction(&updated, Some(payment.processor_id)))
        },
        TransactionStatus::Failed => {
            let mut m = String::from_str("Transaction ");
            let id = updated.transaction_id.to_text();
            m.append(id.as_str());
            m.append(" declined: ");
            match &payment.error_message {
                Some(e) => m.append(e.as_str()),
                None => m.append("no reason given"),
            }
            Err(AppError::Payment(m))
        },
        _ => Err(AppError::Internal(String::from_str("Record is not settled"))),
    }
}

/// The charge handed to the strategy for a stored record: its identifier,
/// player, total and currency, under the record's idempotency key.
pub open spec fn charges(charge: PaymentRequest, t: Transaction) -> bool {
    &&& charge.transaction_id == t.transaction_id
    &&& charge.player_id == t.player_id
    &&& charge.amount_cents == t.total()
    &&& charge.currency@ == t.currency@
    &&& charge.idempotency_key@ == idempotency_key_of(t.transaction_id)
}

/// What the strategy's answer makes of the record and the reply. A failure
/// of the backend is passed on and leaves the record pending without a
/// reference; an answer settles it with the answer's reference, except a
/// success without one, which is an internal error.
pub open spec fn settles_as(
    t: Transaction,
    outcome: Result<PaymentResult, AppError>,
    r: Result<PurchaseResponse, AppError>,
) -> bool {
    match outcome {
        Err(e) => r == Err::<PurchaseResponse, AppError>(e) && t.status is Pending
            && t.processor_id is None,
        Ok(p) => match settled_status(p) {
            Some(st) => {
                &&& t.status == st
                &&& t.processor_id == Some(p.processor_id)
                &&& st is Completed ==> (r matches Ok(resp) && resp.describes(
                    t,
                    Some(p.processor_id),
                ))
                &&& st is Failed ==> (r matches Err(AppError::Payment(m)) && m@ == decline_text(
                    t.transaction_id,
                    p,
                ))
            },
            None => (r matches Err(AppError::Internal(_))) && t.status is Pending
                && t.processor_id is None,
        },
    }
}

/// The store after a purchase that got past creation: one more record with
/// the request's data, either still pending with an error answer, completed
/// with a non-empty reference and a receipt, or failed with a payment error.
pub open spec fn recorded(
    before: Seq<Transaction>,
    after: Seq<Transaction>,
    request: PurchaseRequest,
    r: Result<PurchaseResponse, AppError>,
) -> bool {
    let t = after.last();
    &&& after.len() == before.len() + 1
    &&& after.subrange(0, before.len() as int) == before
    &&& records_request(t, request)
    &&& !(t.status is Refunded)
    &&& t.status is Pending ==> r is Err
    &&& t.status is Completed ==> (t.processor_id matches Some(p) && p@.len() > 0)
    &&& t.status is Completed ==> (r matches Ok(resp) && resp.describes(t, t.processor_id))
    &&& t.status is Failed ==> (t.processor_id is Some && r matches Err(AppError::Payment(_)))
}

/// Runs one purchase against the in-memory store and a payment service.
/// A rejected request leaves the store as it was; an accepted one adds one
/// record, settled by the payment outcome or left pending when the backend
/// itself failed.
pub fn process_purchase<S: PaymentStrategy>(
    store: &mut TransactionStore,
    payments: &PaymentService<S>,
    request: PurchaseRequest,
    max_total_cents: i64,
) -> (r: Result<PurchaseResponse, AppError>)
    requires
        old(store).wf(),
    ensures
        final(store).wf(),
        !accepted(request, max_total_cents) ==> (r matches Err(AppError::Validation(_))
            && final(store)@ == old(store)@),
        accepted(request, max_total_cents) ==> (final(store)@.len() == old(store)@.len() + 1 || (
        r matches Err(AppError::Conflict(_)) && final(store)@ == old(store)@)),
        final(store)@ == old(store)@ ==> r is Err,
        final(store)@ != old(store)@ ==> recorded(old(store)@, final(store)@, request, r),
        final(store)@ != old(store)@ ==> exists|
            charge: PaymentRequest,
            outcome: Result<PaymentResult, AppError>,
        |
            {
                &&& #[trigger] call_ensures(
                    S::process_payment,
                    (&payments.backend(), charge),
                    outcome,
                )
                &&& charges(charge, final(store)@.last())
                &&& settles_as(final(store)@.last(), outcome, r)
            },
        accepted(request, max_total_cents) && old(store)@.len() == 0 ==> final(store)@.len() == 1,
        (r matches Err(AppError::Conflict(_))) && final(store)@ == old(store)@ ==> old(store)@.len()
            > 0,
{
    let ghost req = request;
    let n = match prepare_purchase(request, max_total_cents) {
        Ok(n) => n,
        Err(e) => {
            return Err(e);
        },
    };
    let ghost nt = n;
    let t = match store.create(n) {
        Ok(t) => t,
        Err(e) => {
            return Err(e);
        },
    };
    let ghost before = old(store)@;
    let ghost created = store@;
    proof {
        assert(created.last() == t);
        assert(t.wf());
        assert(created.subrange(0, before.len() as int) =~= before);
    }
    let total = t.total_cents();
    assert(total > 0) by (nonlinear_arith)
        requires
            total == t.price_cents * t.quantity,
            t.price_cents >= 1,
            t.quantity >= 1,
    ;
    let outcome = payments.process_purchase(
        t.transaction_id,
        t.player_id,
        total,
        t.currency.as_str(),
    );
    let ghost paid = outcome;
    let ghost charge = choose|charge: PaymentRequest|
        {
            &&& charge.transaction_id == t.transaction_id
            &&& charge.player_id == t.player_id
            &&& charge.amount_cents == total
            &&& charge.currency@ == t.currency@
            &&& charge.idempotency_key@ == idempotency_key_of(t.transaction_id)
            &&& #[trigger] call_ensures(S::process_payment, (&payments.backend(), charge), paid)
        };
    proof {
        assert(call_ensures(S::process_payment, (&payments.backend(), charge), paid));
        assert(charges(charge, t));
    }
    let (status, payment) = match settle_payment(outcome) {
        Ok(s) => s,
        Err(e) => {
            assert(settles_as(t, paid, Err::<PurchaseResponse, AppError>(e)));
            return Err(e);
        },
    };
    let pid = payment.processor_id.clone();
    proof {
        lemma_fresh_position(before, t);
    }
    let updated = match store.update_status(t.transaction_id, status, Some(pid)) {
        Ok(u) => u,
        Err(e) => {
            return Err(e);
        },
    };
    proof {
        let after = store@;
        assert(after =~= created.update(before.len() as int, updated));
        assert(after.subrange(0, before.len() as int) =~= before);
        assert(after.last() == updated);
        assert(call_ensures(S::process_payment, (&payments.backend(), charge), paid));
        assert(charges(charge, updated));
    }
    let r = purchase_reply(updated, payment);
    assert(settles_as(store@.last(), paid, r));
    r
}

/// Where a purchase driven by outside work stands.
#[derive(Debug)]
pub enum PurchaseStage {
    Start,
    /// Waiting for the store to record the new transaction.
    Creating,
    /// Waiting for the payment outcome of this transaction.
    Charging { transaction_id: Uid },
    /// Waiting for the store to settle the record.
    Recording { payment: PaymentResult },
    Finished,
}

/// What the outside world reports back.
#[derive(Debug)]
pub enum PurchaseEvent {
    Submitted(PurchaseRequest),
    Created(Result<Transaction, AppError>),
    Charged(Result<PaymentResult, AppError>),
    Updated(Result<Transaction, AppError>),
}

/// The next piece of outside work, or the answer.
#[derive(Debug)]
pub enum PurchaseAction {
    Create(NewTransaction),
    Charge { transaction_id: Uid, player_id: Uid, amount_cents: i64, currency: String },
    UpdateStatus { transaction_id: Uid, status: TransactionStatus, processor_id: Option<String> },
    Reply(Result<PurchaseResponse, AppError>),
}

/// One decision of the pipeline: from the stage and what just happened to
/// the next stage and the work to do. A rejected request is answered at
/// once, with no store write and no charge; an event that does not fit the
/// stage is an internal error.
pub fn purchase_step(stage: PurchaseStage, event: PurchaseEvent, max_total_cents: i64) -> (r: (
    PurchaseStage,
    PurchaseAction,
))
    ensures
        event matches PurchaseEvent::Submitted(req) ==> (stage is Start ==> (!accepted(
            req,
            max_total_cents,
        ) ==> (r.1 matches PurchaseAction::Reply(Err(AppError::Validation(_))) && r.0 is Finished))),
        event matches PurchaseEvent::Submitted(req) ==> (stage is Start ==> (accepted(
            req,
            max_total_cents,
        ) ==> (r.1 matches PurchaseAction::Create(n) && drawn_from(n, req) && r.0 is Creating))),
        event matches PurchaseEvent::Created(Ok(t)) ==> (stage is Creating ==> (total_fits(
            t.price_cents,
            t.quantity,
        ) ==> (r.1 matches PurchaseAction::Charge { transaction_id, player_id, amount_cents, currency }
            && transaction_id == t.transaction_id && player_id == t.player_id && amount_cents
            == t.total() && currency@ == t.currency@ && r.0 == PurchaseStage::Charging {
            transaction_id: t.transaction_id,
        }))),
        event matches PurchaseEvent::Created(Ok(t)) ==> (stage is Creating ==> (!total_fits(
            t.price_cents,
            t.quantity,
        ) ==> (r.1 matches PurchaseAction::Reply(Err(AppError::Internal(_))) && r.0 is Finished))),
        event matches PurchaseEvent::Charged(Ok(p)) ==> (stage matches PurchaseStage::Charging {
            transaction_id,
        } ==> (settled_status(p) is Some ==> (r.1 matches PurchaseAction::UpdateStatus {
            transaction_id: id,
            status,
            processor_id: Some(pid),
        } && id == transaction_id && status == settled_status(p)->0 && pid@ == p.processor_id@
            && r.0 == PurchaseStage::Recording { payment: p }))),
        event matches PurchaseEvent::Charged(Ok(p)) ==> (stage is Charging ==> (settled_status(
            p,
        ) is None ==> (r.1 matches PurchaseAction::Reply(Err(AppError::Internal(_))) && r.0 is Finished))),
        event matches PurchaseEvent::Updated(Ok(t)) ==> (stage matches PurchaseStage::Recording {
            payment,
        } ==> (t.status is Completed && total_fits(t.price_cents, t.quantity) ==> (r.1 matches PurchaseAction::Reply(
            Ok(resp),
        ) && resp.describes(t, Some(payment.processor_id)) && r.0 is Finished))),
        event matches PurchaseEvent::Updated(Ok(t)) ==> (stage matches PurchaseStage::Recording {
            payment,
        } ==> (t.status is Failed ==> (r.1 matches PurchaseAction::Reply(
            Err(AppError::Payment(m)),
        ) && m@ == decline_text(t.transaction_id, payment) && r.0 is Finished))),
        event matches PurchaseEvent::Updated(Ok(t)) ==> (stage is Recording ==> ((t.status is Pending
            || t.status is Refunded || (t.status is Completed && !total_fits(
            t.price_cents,
            t.quantity,
        ))) ==> (r.1 matches PurchaseAction::Reply(Err(AppError::Internal(_))) && r.0 is Finished))),
        event matches PurchaseEvent::Created(Err(e)) ==> (stage is Creating ==> (r.1
            == PurchaseAction::Reply(Err(e)) && r.0 is Finished)),
        event matches PurchaseEvent::Charged(Err(e)) ==> (stage is Charging ==> (r.1
            == PurchaseAction::Reply(Err(e)) && r.0 is Finished)),
        event matches PurchaseEvent::Updated(Err(e)) ==> (stage is Recording ==> (r.1
            == PurchaseAction::Reply(Err(e)) && r.0 is Finished)),
        !(stage is Start && event is Submitted) && !(stage is Creating && event is Created) && !(
        stage is Charging && event is Charged) && !(stage is Recording && event is Updated) ==> (
        r.1 matches PurchaseAction::Reply(Err(AppError::Internal(_))) && r.0 is Finished),
{
    match (stage, event) {
        (PurchaseStage::Start, PurchaseEvent::Submitted(request)) => {
            match prepare_purchase(request, max_total_cents) {
                Ok(n) => (PurchaseStage::Creating, PurchaseAction::Create(n)),
                Err(e) => (PurchaseStage::Finished, PurchaseAction::Reply(Err(e))),
            }
        },
        (PurchaseStage::Creating, PurchaseEvent::Created(created)) => match created {
            Err(e) => (PurchaseStage::Finished, PurchaseAction::Reply(Err(e))),
            Ok(t) => match t.price_cents.checked_mul(t.quantity as i64) {
                Some(total) => (
                    PurchaseStage::Charging { transaction_id: t.transaction_id },
                    PurchaseAction::Charge {
                        transaction_id: t.transaction_id,
                        player_id: t.player_id,
                        amount_cents: total,
                        currency: t.currency,
                    },
                ),
                None => (
                    PurchaseStage::Finished,
                    PurchaseAction::Reply(
                        Err(AppError::Internal(String::from_str("Stored total overflows"))),
                    ),
                ),
            },
        },
        (PurchaseStage::Charging { transaction_id }, PurchaseEvent::Charged(outcome)) => {
            match settle_payment(outcome) {
                Ok((status, payment)) => {
                    let pid = payment.processor_id.clone();
                    (
                        PurchaseStage::Recording { payment },
                        PurchaseAction::UpdateStatus {
                            transaction_id,
                            status,
                            processor_id: Some(pid),
                        },
                    )
                },
                Err(e) => (PurchaseStage::Finished, PurchaseAction::Reply(Err(e))),
            }
        },
        (PurchaseStage::Recording { payment }, PurchaseEvent::Updated(updated)) => match updated {
            Err(e) => (PurchaseStage::Finished, PurchaseAction::Reply(Err(e))),
            Ok(t) => (PurchaseStage::Finished, PurchaseAction::Reply(purchase_reply(t, payment))),
        },
        _ => (
            PurchaseStage::Finished,
            PurchaseAction::Reply(
                Err(AppError::Internal(String::from_str("Event does not fit the purchase stage"))),
            ),
        ),
    }
}

/// The record appended to a store whose identifiers are unique stands last.
proof fn lemma_fresh_position(before: Seq<Transaction>, t: Transaction)
    requires
        !holds_id(before, t.transaction_id),
    ensures
        holds_id(before.push(t), t.transaction_id),
        position_of(before.push(t), t.transaction_id) == before.len(),
{
    let after = before.push(t);
    assert(after[before.len() as int].transaction_id == t.transaction_id);
    let k = position_of(after, t.transaction_id);
    if k != before.len() {
        assert(before[k].transaction_id == t.transaction_id);
    }
}

/// A charge that the backend answered settles the purchase exactly once:
/// for a backend whose successes carry a reference, the record ends
/// completed when the charge succeeded and failed when it was declined,
/// both terminal and reached from pending; a completed record holds a
/// non-empty reference, and a declined one keeps the decline's reference.
pub proof fn lemma_answered_charge_settles(
    t: Transaction,
    p: PaymentResult,
    r: Result<PurchaseResponse, AppError>,
)
    requires
        settles_as(t, Ok(p), r),
        p.success ==> p.processor_id@.len() > 0,
    ensures
        t.status is Completed || t.status is Failed,
        pipeline_transition(TransactionStatus::Pending, t.status),
        t.status.terminal(),
        t.status is Completed <==> p.success,
        t.status is Completed ==> (t.processor_id matches Some(id) && id@.len() > 0),
        t.status is Failed ==> t.processor_id == Some(p.processor_id),
{
    assert forall|to: TransactionStatus| !#[trigger] pipeline_transition(t.status, to) by {}
}

} // verus!
