//! Incoming requests and their validation rules.
use vstd::prelude::*;
use crate::errors::AppError;
use crate::ids::Uid;
use crate::status::TransactionStatus;
use crate::transaction::total_fits;

verus! {

/// Largest accepted unit price, in cents.
pub const MAX_PRICE_CENTS: i64 = 99_999_999;

/// Largest accepted quantity.
pub const MAX_QUANTITY: i32 = 100;

/// Longest accepted item identifier or name, in characters.
pub const MAX_ITEM_TEXT: usize = 255;

/// A purchase as the player submits it. `metadata` is an optional JSON text.
#[derive(Debug)]
pub struct PurchaseRequest {
    pub player_id: Uid,
    pub item_id: String,
    pub item_name: String,
    pub price_cents: i64,
    pub currency: String,
    pub quantity: i32,
    pub metadata: Option<String>,
}

/// The quantity of a purchase that names none.
pub fn default_quantity() -> (r: i32)
    ensures
        r == 1,
{
    1
}

/// A field of a purchase request that a rule applies to.
#[derive(Clone, Copy, Debug, PartialEq, Eq, Structural)]
pub enum RequestField {
    ItemId,
    ItemName,
    PriceCents,
    Currency,
    Quantity,
}

impl RequestField {
    pub open spec fn name(self) -> Seq<char> {
        match self {
            RequestField::ItemId => "item_id"@,
            RequestField::ItemName => "item_name"@,
            RequestField::PriceCents => "price_cents"@,
            RequestField::Currency => "currency"@,
            RequestField::Quantity => "quantity"@,
        }
    }

    pub fn as_str(&self) -> (r: &'static str)
        ensures
            r@ == self.name(),
    {
        match self {
            RequestField::ItemId => "item_id",
            RequestField::ItemName => "item_name",
            RequestField::PriceCents => "price_cents",
            RequestField::Currency => "currency",
            RequestField::Quantity => "quantity",
        }
    }
}

/// The fields of a request that break their rule, in declaration order.
#[derive(Debug)]
pub struct ValidationErrors {
    pub fields: Vec<RequestField>,
}

pub open spec fn text_len_ok(s: Seq<char>) -> bool {
    1 <= s.len() <= MAX_ITEM_TEXT
}

pub open spec fn price_ok(price_cents: int) -> bool {
    1 <= price_cents <= MAX_PRICE_CENTS
}

pub open spec fn quantity_ok(quantity: int) -> bool {
    1 <= quantity <= MAX_QUANTITY
}

pub open spec fn flag(broken: bool, f: RequestField) -> Seq<RequestField> {
    if broken {
        seq![f]
    } else {
        Seq::empty()
    }
}

impl PurchaseRequest {
    /// Every field rule holds.
    pub open spec fn valid(&self) -> bool {
        &&& text_len_ok(self.item_id@)
        &&& text_len_ok(self.item_name@)
        &&& price_ok(self.price_cents as int)
        &&& self.currency@.len() == 3
        &&& quantity_ok(self.quantity as int)
    }

    /// The fields whose rule fails, in declaration order.
    pub open spec fn violations(&self) -> Seq<RequestField> {
        flag(!text_len_ok(self.item_id@), RequestField::ItemId)
            + flag(!text_len_ok(self.item_name@), RequestField::ItemName)
            + flag(!price_ok(self.price_cents as int), RequestField::PriceCents)
            + flag(self.currency@.len() != 3, RequestField::Currency)
            + flag(!quantity_ok(self.quantity as int), RequestField::Quantity)
    }

    /// Checks each field rule: item texts of 1 to 255 characters, a price of
    /// 1 to 99 999 999 cents, a three-character currency and a quantity of
    /// 1 to 100.
    pub fn validate_request(&self) -> (r: Result<(), ValidationErrors>)
        ensures
            r is Ok <==> self.valid(),
            r matches Err(e) ==> e.fields@ == self.violations() && e.fields@.len() > 0,
    {
        let mut fields: Vec<RequestField> = Vec::new();
        let id_len = self.item_id.as_str().unicode_len();
        if !(1 <= id_len && id_len <= MAX_ITEM_TEXT) {
            fields.push(RequestField::ItemId);
        }
        let name_len = self.item_name.as_str().unicode_len();
        if !(1 <= name_len && name_len <= MAX_ITEM_TEXT) {
            fields.push(RequestField::ItemName);
        }
        if !(1 <= self.price_cents && self.price_cents <= MAX_PRICE_CENTS) {
            fields.push(RequestField::PriceCents);
        }
        if self.currency.as_str().unicode_len() != 3 {
            fields.push(RequestField::Currency);
        }
        if !(1 <= self.quantity && self.quantity <= MAX_QUANTITY) {
            fields.push(RequestField::Quantity);
        }
        assert(fields@ =~= self.violations());
        if fields.len() == 0 {
            Ok(())
        } else {
            Err(ValidationErrors { fields })
        }
    }

    /// `price_cents * quantity`; the caller rules out overflow.
    pub fn total_price_cents(&self) -> (r: i64)
        requires
            total_fits(self.price_cents, self.quantity),
        ensures
            r == self.price_cents * self.quantity,
    {
        self.price_cents * (self.quantity as i64)
    }

    /// `price_cents * quantity`, or `None` where it overflows.
    pub fn checked_total_cents(&self) -> (r: Option<i64>)
        ensures
            r matches Some(t) ==> t == self.price_cents * self.quantity,
            r is None <==> !total_fits(self.price_cents, self.quantity),
    {
        self.price_cents.checked_mul(self.quantity as i64)
    }
}

/// The text that lists the broken fields: `field: invalid`, comma-separated.
pub open spec fn violations_text(fields: Seq<RequestField>) -> Seq<char>
    decreases fields.len(),
{
    if fields.len() == 0 {
        Seq::empty()
    } else if fields.len() == 1 {
        fields[0].name() + ": invalid"@
    } else {
        violations_text(fields.drop_last()) + ", "@ + fields.last().name() + ": invalid"@
    }
}

impl ValidationErrors {
    pub fn describe(&self) -> (r: String)
        ensures
            r@ == violations_text(self.fields@),
    {
        let mut out = String::new();
        let mut i: usize = 0;
        while i < self.fields.len()
            invariant
                0 <= i <= self.fields@.len(),
                out@ == violations_text(self.fields@.subrange(0, i as int)),
            decreases self.fields@.len() - i,
        {
            let ghost before = self.fields@.subrange(0, i as int);
            if i > 0 {
                out.append(", ");
            }
            out.append(self.fields[i].as_str());
            out.append(": invalid");
            proof {
                let after = self.fields@.subrange(0, i + 1);
                assert(after.drop_last() =~= before);
                if i == 0 {
                    assert(out@ =~= violations_text(after));
                } else {
                    assert(out@ =~= violations_text(after));
                }
            }
            i += 1;
        }
        assert(self.fields@.subrange(0, self.fields@.len() as int) =~= self.fields@);
        out
    }
}

impl ValidationErrors {
    /// The validation error that reports these fields.
    pub fn into_app_error(self) -> (r: AppError)
        ensures
            r matches AppError::Validation(m) && m@ == violations_text(self.fields@),
    {
        AppError::Validation(self.describe())
    }
}

/// Query of a player's history: page size and cursor.
#[derive(Debug)]
pub struct GetTransactionsRequest {
    pub limit: i32,
    pub cursor: Option<Uid>,
    pub status: Option<TransactionStatus>,
}

/// The page size of a history query that names none.
pub fn default_limit() -> (r: i32)
    ensures
        r == 100,
{
    100
}

} // verus!
