//! The durable record of one purchase attempt.
use vstd::prelude::*;
use crate::ids::{Uid, is_v4_shaped};
use crate::status::TransactionStatus;

verus! {

/// One stored purchase attempt. Times are microseconds since the Unix epoch,
/// UTC; `metadata` is an opaque JSON text passed through unchanged.
#[derive(Debug)]
pub struct Transaction {
    pub transaction_id: Uid,
    pub player_id: Uid,
    pub item_id: String,
    pub item_name: String,
    pub price_cents: i64,
    pub currency: String,
    pub quantity: i32,
    pub status: TransactionStatus,
    pub metadata: String,
    pub processor_id: Option<String>,
    pub created_at: i64,
    pub updated_at: i64,
}

/// `price * quantity` fits a signed 64-bit integer.
pub open spec fn total_fits(price_cents: i64, quantity: i32) -> bool {
    i64::MIN <= price_cents * quantity <= i64::MAX
}

impl Transaction {
    /// The record invariants: the total does not overflow and the record
    /// was never updated before it was created.
    pub open spec fn wf(&self) -> bool {
        &&& total_fits(self.price_cents, self.quantity)
        &&& self.updated_at >= self.created_at
    }

    pub open spec fn total(&self) -> int {
        self.price_cents * self.quantity
    }

    /// The fields that the purchaser supplied agree with `n`.
    pub open spec fn carries(&self, n: NewTransaction) -> bool {
        &&& self.transaction_id == n.transaction_id
        &&& self.player_id == n.player_id
        &&& self.item_id@ == n.item_id@
        &&& self.item_name@ == n.item_name@
        &&& self.price_cents == n.price_cents
        &&& self.currency@ == n.currency@
        &&& self.quantity == n.quantity
        &&& self.metadata@ == n.metadata@
    }

    /// Total charged for this record, `price_cents * quantity`.
    pub fn total_cents(&self) -> (r: i64)
        requires
            total_fits(self.price_cents, self.quantity),
        ensures
            r == self.total(),
    {
        self.price_cents * (self.quantity as i64)
    }
}

impl Clone for Transaction {
    fn clone(&self) -> (r: Transaction)
        ensures
            r == *self,
    {
        let processor_id = match &self.processor_id {
            Some(p) => Some(p.clone()),
            None => None,
        };
        Transaction {
            transaction_id: self.transaction_id,
            player_id: self.player_id,
            item_id: self.item_id.clone(),
            item_name: self.item_name.clone(),
            price_cents: self.price_cents,
            currency: self.currency.clone(),
            quantity: self.quantity,
            status: self.status,
            metadata: self.metadata.clone(),
            processor_id,
            created_at: self.created_at,
            updated_at: self.updated_at,
        }
    }
}

/// A purchase attempt before it is stored.
#[derive(Debug)]
pub struct NewTransaction {
    pub transaction_id: Uid,
    pub player_id: Uid,
    pub item_id: String,
    pub item_name: String,
    pub price_cents: i64,
    pub currency: String,
    pub quantity: i32,
    pub metadata: String,
}

impl NewTransaction {
    /// A new attempt under a fresh random identifier.
    pub fn new(
        player_id: Uid,
        item_id: String,
        item_name: String,
        price_cents: i64,
        currency: String,
        quantity: i32,
        metadata: String,
    ) -> (r: NewTransaction)
        ensures
            is_v4_shaped(r.transaction_id.0),
            r.player_id == player_id,
            r.item_id == item_id,
            r.item_name == item_name,
            r.price_cents == price_cents,
            r.currency == currency,
            r.quantity == quantity,
            r.metadata == metadata,
    {
        NewTransaction {
            transaction_id: Uid::new_v4(),
            player_id,
            item_id,
            item_name,
            price_cents,
            currency,
            quantity,
            metadata,
        }
    }
}

} // verus!
