//! What the service answers: purchase receipts, history pages, errors and
//! health reports.
use vstd::prelude::*;
use crate::ids::Uid;
use crate::status::TransactionStatus;
use crate::store::clamp_page;
use crate::transaction::{Transaction, total_fits};

verus! {

/// The receipt of a completed purchase. `created_at` is in microseconds
/// since the Unix epoch, UTC.
#[derive(Debug)]
pub struct PurchaseResponse {
    pub transaction_id: Uid,
    pub status: TransactionStatus,
    pub item: ItemInfo,
    pub payment: PaymentInfo,
    pub created_at: i64,
}

#[derive(Debug)]
pub struct ItemInfo {
    pub id: String,
    pub name: String,
    pub quantity: i32,
}

#[derive(Debug)]
pub struct PaymentInfo {
    pub amount_cents: i64,
    pub currency: String,
    pub processor_id: Option<String>,
}

impl PurchaseResponse {
    /// The receipt for a record: its item, the total charged and the
    /// processor reference.
    pub open spec fn describes(&self, tx: Transaction, processor_id: Option<String>) -> bool {
        &&& self.transaction_id == tx.transaction_id
        &&& self.status == tx.status
        &&& self.item.id@ == tx.item_id@
        &&& self.item.name@ == tx.item_name@
        &&& self.item.quantity == tx.quantity
        &&& self.payment.amount_cents == tx.total()
        &&& self.payment.currency@ == tx.currency@
        &&& self.payment.processor_id == processor_id
        &&& self.created_at == tx.created_at
    }

    pub fn from_transaction(tx: &Transaction, processor_id: Option<String>) -> (r:
        PurchaseResponse)
        requires
            total_fits(tx.price_cents, tx.quantity),
        ensures
            r.describes(*tx, processor_id),
    {
        PurchaseResponse {
            transaction_id: tx.transaction_id,
            status: tx.status,
            item: ItemInfo {
                id: tx.item_id.clone(),
                name: tx.item_name.clone(),
                quantity: tx.quantity,
            },
            payment: PaymentInfo {
                amount_cents: tx.total_cents(),
                currency: tx.currency.clone(),
                processor_id,
            },
            created_at: tx.created_at,
        }
    }
}

/// One page of a player's history and the cursor for the next page.
#[derive(Debug)]
pub struct TransactionListResponse {
    pub transactions: Vec<Transaction>,
    pub count: usize,
    pub next_cursor: Option<Uid>,
}

impl TransactionListResponse {
    /// A page asked for with `limit`. Only a full page may have more behind
    /// it, so only a full page names a next cursor: its last record.
    pub fn new(transactions: Vec<Transaction>, limit: i32) -> (r: TransactionListResponse)
        ensures
            r.transactions@ == transactions@,
            r.count == transactions@.len(),
            r.next_cursor == (if transactions@.len() > 0 && transactions@.len() >= clamp_page(
                limit as int,
            ) {
                Some(transactions@.last().transaction_id)
            } else {
                None::<Uid>
            }),
    {
        let count = transactions.len();
        let full = if limit < 1 {
            1usize
        } else if limit > 1000 {
            1000usize
        } else {
            limit as usize
        };
        let next_cursor = if count > 0 && count >= full {
            Some(transactions[count - 1].transaction_id)
        } else {
            None
        };
        TransactionListResponse { transactions, count, next_cursor }
    }
}

/// The body of an error answer.
#[derive(Debug)]
pub struct ErrorResponse {
    pub error: String,
    pub code: Option<String>,
    pub details: Vec<String>,
}

impl ErrorResponse {
    pub fn new(error: String) -> (r: ErrorResponse)
        ensures
            r.error == error,
            r.code is None,
            r.details@.len() == 0,
    {
        ErrorResponse { error, code: None, details: Vec::new() }
    }

    pub fn with_code(self, code: &str) -> (r: ErrorResponse)
        ensures
            r.error == self.error,
            r.code matches Some(c) && c@ == code@,
            r.details == self.details,
    {
        ErrorResponse { code: Some(String::from_str(code)), ..self }
    }

    pub fn with_details(self, details: Vec<String>) -> (r: ErrorResponse)
        ensures
            r.error == self.error,
            r.code == self.code,
            r.details == details,
    {
        ErrorResponse { details, ..self }
    }
}

#[derive(Clone, Copy, Debug, PartialEq, Eq, Structural)]
pub enum HealthStatus {
    Healthy,
    Degraded,
    Unhealthy,
}

#[derive(Clone, Copy, Debug, PartialEq, Eq, Structural)]
pub struct ComponentHealth {
    pub status: HealthStatus,
    pub latency_ms: Option<u64>,
}

#[derive(Debug)]
pub struct HealthResponse {
    pub status: HealthStatus,
    pub timestamp: String,
    pub database: Option<ComponentHealth>,
}

/// The health report for a store probe: the probe's latency when it
/// answered, `None` when it failed. The service is as healthy as its store.
pub fn health_report(db_latency_ms: Option<u64>, timestamp: String) -> (r: HealthResponse)
    ensures
        r.timestamp == timestamp,
        r.database == Some(
            match db_latency_ms {
                Some(l) => ComponentHealth { status: HealthStatus::Healthy, latency_ms: Some(l) },
                None => ComponentHealth { status: HealthStatus::Unhealthy, latency_ms: None },
            },
        ),
        r.status == (if db_latency_ms is Some {
            HealthStatus::Healthy
        } else {
            HealthStatus::Unhealthy
        }),
{
    let db = match db_latency_ms {
        Some(l) => ComponentHealth { status: HealthStatus::Healthy, latency_ms: Some(l) },
        None => ComponentHealth { status: HealthStatus::Unhealthy, latency_ms: None },
    };
    let status = db.status;
    HealthResponse { status, timestamp, database: Some(db) }
}

impl HealthResponse {
    /// 200 unless the service is unhealthy, then 503.
    pub fn status_code(&self) -> (r: u16)
        ensures
            r == (if self.status is Unhealthy {
                503u16
            } else {
                200u16
            }),
    {
        match self.status {
            HealthStatus::Unhealthy => 503,
            _ => 200,
        }
    }
}

} // verus!
