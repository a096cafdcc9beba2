//! Payment strategies: the capability that charges and refunds a player,
//! with a gateway implementation and a deterministic test double.
use vstd::prelude::*;
use crate::errors::AppError;
use crate::ids::{Uid, uuid_text_of};

verus! {

/// The highest amount, in cents, that the gateway accepts unless configured
/// otherwise.
pub const GATEWAY_MAX_CENTS: i64 = 99_999_999;

/// Amounts from this many cents up are declined by the gateway.
pub const GATEWAY_DECLINE_FROM_CENTS: i64 = 100_000;

/// A decline rate of one, in parts per million.
pub const RATE_SCALE: u32 = 1_000_000;

/// One charge as handed to a strategy.
#[derive(Debug)]
pub struct PaymentRequest {
    pub amount_cents: i64,
    pub currency: String,
    pub player_id: Uid,
    pub transaction_id: Uid,
    pub idempotency_key: String,
}

/// The outcome of a charge that reached the backend: a success, or a
/// decline with a code and a message.
#[derive(Debug)]
pub struct PaymentResult {
    pub success: bool,
    pub processor_id: String,
    pub processor_response: Option<String>,
    pub error_code: Option<String>,
    pub error_message: Option<String>,
}

impl PaymentResult {
    /// Success and failure data are never mixed.
    pub open spec fn wf(&self) -> bool {
        if self.success {
            self.error_code is None && self.error_message is None
        } else {
            self.error_code is Some && self.error_message is Some
        }
    }

    pub open spec fn succeeded_as(&self, processor_id: Seq<char>) -> bool {
        &&& self.success
        &&& self.processor_id@ == processor_id
        &&& self.processor_response is None
        &&& self.error_code is None
        &&& self.error_message is None
    }

    pub open spec fn declined_as(
        &self,
        processor_id: Seq<char>,
        code: Seq<char>,
        message: Seq<char>,
    ) -> bool {
        &&& !self.success
        &&& self.processor_id@ == processor_id
        &&& self.processor_response is None
        &&& self.error_code matches Some(c) && c@ == code
        &&& self.error_message matches Some(m) && m@ == message
    }

    pub fn success(processor_id: String) -> (r: PaymentResult)
        ensures
            r.succeeded_as(processor_id@),
            r.wf(),
    {
        PaymentResult {
            success: true,
            processor_id,
            processor_response: None,
            error_code: None,
            error_message: None,
        }
    }

    pub fn failure(processor_id: String, error_code: &str, error_message: &str) -> (r:
        PaymentResult)
        ensures
            r.declined_as(processor_id@, error_code@, error_message@),
            r.wf(),
    {
        PaymentResult {
            success: false,
            processor_id,
            processor_response: None,
            error_code: Some(String::from_str(error_code)),
            error_message: Some(String::from_str(error_message)),
        }
    }
}

/// A payment backend. Implementations hold no unsynchronised mutable state,
/// so one instance serves concurrent purchases.
pub trait PaymentStrategy: Send + Sync {
    /// Charges the request. A decline is an `Ok` result; an `Err` is a
    /// failure of the backend itself.
    fn process_payment(&self, request: PaymentRequest) -> Result<PaymentResult, AppError>;

    fn refund_payment(&self, processor_id: &str, amount_cents: i64) -> Result<
        PaymentResult,
        AppError,
    >;

    fn name(&self) -> &'static str;
}

/// `s` with every `-` removed.
pub open spec fn strip_hyphens(s: Seq<char>) -> Seq<char>
    decreases s.len(),
{
    if s.len() == 0 {
        s
    } else if s.last() == '-' {
        strip_hyphens(s.drop_last())
    } else {
        strip_hyphens(s.drop_last()).push(s.last())
    }
}

/// At most the first `n` characters of `s`.
pub open spec fn prefix_upto(s: Seq<char>, n: nat) -> Seq<char> {
    if s.len() <= n {
        s
    } else {
        s.subrange(0, n as int)
    }
}

/// The short gateway reference drawn from a UUID: its first 24 hex digits.
pub open spec fn short_reference(prefix: Seq<char>, id: u128) -> Seq<char> {
    prefix + prefix_upto(strip_hyphens(uuid_text_of(id)), 24)
}

/// A gateway reference: `prefix` and the start of the hex digits of some UUID.
pub open spec fn is_short_reference(s: Seq<char>, prefix: Seq<char>) -> bool {
    exists|id: u128| s == #[trigger] short_reference(prefix, id)
}

/// A test double's reference: `prefix` and the hyphenated text of some UUID.
pub open spec fn is_long_reference(s: Seq<char>, prefix: Seq<char>) -> bool {
    exists|id: u128| s == prefix + #[trigger] uuid_text_of(id)
}

fn short_reference_text(prefix: &str, id: Uid) -> (r: String)
    ensures
        r@ == short_reference(prefix@, id.0),
{
    let text = id.to_text();
    let t = text.as_str();
    let n = t.unicode_len();
    let mut digits = String::new();
    let mut i: usize = 0;
    while i < n
        invariant
            n == t@.len(),
            t@ == uuid_text_of(id.0),
            0 <= i <= n,
            digits@ == strip_hyphens(t@.subrange(0, i as int)),
        decreases n - i,
    {
        let c = t.substring_char(i, i + 1);
        proof {
            assert(t@.subrange(0, i + 1).drop_last() =~= t@.subrange(0, i as int));
        }
        if t.get_char(i) != '-' {
            digits.append(c);
            assert(digits@ =~= strip_hyphens(t@.subrange(0, i + 1)));
        }
        i += 1;
    }
    assert(t@.subrange(0, n as int) =~= t@);
    let mut out = String::from_str(prefix);
    let d = digits.as_str();
    if d.unicode_len() <= 24 {
        out.append(d);
    } else {
        out.append(d.substring_char(0, 24));
    }
    out
}

fn long_reference_text(prefix: &str, id: Uid) -> (r: String)
    ensures
        r@ == prefix@ + uuid_text_of(id.0),
{
    let text = id.to_text();
    let mut out = String::from_str(prefix);
    out.append(text.as_str());
    out
}

/// Charges through the card gateway.
pub struct StripePaymentStrategy {
    api_key: String,
    max_cents: i64,
}

impl StripePaymentStrategy {
    /// A gateway client with the default ceiling of 99 999 999 cents.
    pub fn new(api_key: &str) -> (r: StripePaymentStrategy)
        ensures
            r.key() == api_key@,
            r.ceiling() == GATEWAY_MAX_CENTS,
    {
        StripePaymentStrategy { api_key: String::from_str(api_key), max_cents: GATEWAY_MAX_CENTS }
    }

    /// A gateway client that rejects amounts above `max_cents`.
    pub fn with_ceiling(api_key: &str, max_cents: i64) -> (r: StripePaymentStrategy)
        ensures
            r.key() == api_key@,
            r.ceiling() == max_cents,
    {
        StripePaymentStrategy { api_key: String::from_str(api_key), max_cents }
    }

    pub closed spec fn key(&self) -> Seq<char> {
        self.api_key@
    }

    pub closed spec fn ceiling(&self) -> i64 {
        self.max_cents
    }

    pub fn max_cents(&self) -> (r: i64)
        ensures
            r == self.ceiling(),
    {
        self.max_cents
    }

    pub fn api_key(&self) -> (r: &str)
        ensures
            r@ == self.key(),
    {
        self.api_key.as_str()
    }

    /// The gateway's answer for an amount under a ceiling.
    pub open spec fn charge_outcome(
        amount_cents: i64,
        max_cents: i64,
        r: Result<PaymentResult, AppError>,
    ) -> bool {
        if amount_cents <= 0 {
            r matches Err(AppError::Payment(m)) && m@ == "Amount must be positive"@
        } else if amount_cents > max_cents {
            r matches Err(AppError::Payment(m)) && m@ == "Amount exceeds maximum"@
        } else {
            &&& r matches Ok(res)
            &&& is_short_reference(res.processor_id@, "pi_"@)
            &&& res.processor_id@.len() > 0
            &&& res.wf()
            &&& amount_cents < GATEWAY_DECLINE_FROM_CENTS ==> res.succeeded_as(res.processor_id@)
            &&& amount_cents >= GATEWAY_DECLINE_FROM_CENTS ==> res.declined_as(
                res.processor_id@,
                "card_declined"@,
                "Your card was declined. Please try a different payment method."@,
            )
        }
    }
}

impl PaymentStrategy for StripePaymentStrategy {
    /// Rejects amounts outside `1..=ceiling` before any call; accepted
    /// amounts from 100 000 cents are declined.
    fn process_payment(&self, request: PaymentRequest) -> (r: Result<PaymentResult, AppError>)
        ensures
            StripePaymentStrategy::charge_outcome(request.amount_cents, self.ceiling(), r),
    {
        if request.amount_cents <= 0 {
            return Err(AppError::Payment(String::from_str("Amount must be positive")));
        }
        if request.amount_cents > self.max_cents {
            return Err(AppError::Payment(String::from_str("Amount exceeds maximum")));
        }
        let id = Uid::new_v4();
        let processor_id = short_reference_text("pi_", id);
        assert(processor_id@ == short_reference("pi_"@, id.0));
        proof {
            reveal_strlit("pi_");
        }
        if request.amount_cents < GATEWAY_DECLINE_FROM_CENTS {
            Ok(PaymentResult::success(processor_id))
        } else {
            Ok(
                PaymentResult::failure(
                    processor_id,
                    "card_declined",
                    "Your card was declined. Please try a different payment method.",
                ),
            )
        }
    }

    fn refund_payment(&self, processor_id: &str, amount_cents: i64) -> (r: Result<
        PaymentResult,
        AppError,
    >)
        ensures
            r matches Ok(res) && res.succeeded_as(res.processor_id@) && is_short_reference(
                res.processor_id@,
                "re_"@,
            ),
    {
        let id = Uid::new_v4();
        let refund_id = short_reference_text("re_", id);
        assert(refund_id@ == short_reference("re_"@, id.0));
        Ok(PaymentResult::success(refund_id))
    }

    fn name(&self) -> (r: &'static str)
        ensures
            r@ == "stripe"@,
    {
        "stripe"
    }
}

/// A payment double with no network calls. Whether it declines depends only
/// on its rate and the player: the first byte of the player identifier,
/// read as a fraction of 255, is compared with the rate.
pub struct MockPaymentStrategy {
    failure_rate_ppm: u32,
    delay_ms: u64,
}

/// The double declines the player whose identifier starts with `first_byte`.
pub open spec fn mock_declines(first_byte: int, failure_rate_ppm: int) -> bool {
    first_byte * RATE_SCALE < failure_rate_ppm * 255
}

/// The first byte of an identifier in its big-endian layout.
pub open spec fn first_byte(id: Uid) -> int {
    (id.0 >> 120u32) as int
}

impl MockPaymentStrategy {
    pub closed spec fn rate(&self) -> int {
        self.failure_rate_ppm as int
    }

    pub closed spec fn delay(&self) -> int {
        self.delay_ms as int
    }

    /// A double that never declines, with a 10 ms simulated delay.
    pub fn new() -> (r: MockPaymentStrategy)
        ensures
            r.rate() == 0,
            r.delay() == 10,
    {
        MockPaymentStrategy { failure_rate_ppm: 0, delay_ms: 10 }
    }

    /// A double with a decline rate in parts per million, capped at one.
    pub fn with_failure_rate(failure_rate_ppm: u32) -> (r: MockPaymentStrategy)
        ensures
            r.rate() == (if failure_rate_ppm > RATE_SCALE {
                RATE_SCALE
            } else {
                failure_rate_ppm
            }),
            r.delay() == 10,
    {
        let rate = if failure_rate_ppm > RATE_SCALE {
            RATE_SCALE
        } else {
            failure_rate_ppm
        };
        MockPaymentStrategy { failure_rate_ppm: rate, delay_ms: 10 }
    }

    pub fn failure_rate_ppm(&self) -> (r: u32)
        ensures
            r == self.rate(),
    {
        self.failure_rate_ppm
    }

    /// The simulated processing time that callers wait before an answer.
    pub fn delay_ms(&self) -> (r: u64)
        ensures
            r == self.delay(),
    {
        self.delay_ms
    }

    /// Whether the double declines this player.
    pub fn declines(&self, player_id: Uid) -> (r: bool)
        ensures
            r == mock_declines(first_byte(player_id), self.rate()),
    {
        let v: u128 = player_id.0;
        let first: u128 = v >> 120u32;
        assert(first < 256) by (bit_vector)
            requires
                first == v >> 120u32,
        ;
        let scale: u128 = RATE_SCALE as u128;
        assert(first * scale < 256 * 1_000_000) by (nonlinear_arith)
            requires
                first < 256,
                scale == 1_000_000,
        ;
        first * scale < (self.failure_rate_ppm as u128) * 255
    }
}

impl Default for MockPaymentStrategy {
    fn default() -> (r: MockPaymentStrategy)
        ensures
            r.rate() == 0,
            r.delay() == 10,
    {
        MockPaymentStrategy::new()
    }
}

impl PaymentStrategy for MockPaymentStrategy {
    /// Never fails; declines exactly the players that its rate selects.
    fn process_payment(&self, request: PaymentRequest) -> (r: Result<PaymentResult, AppError>)
        ensures
            r matches Ok(res) && res.wf() && is_long_reference(res.processor_id@, "mock_"@)
                && res.processor_id@.len() > 0 && (
            if mock_declines(first_byte(request.player_id), self.rate()) {
                res.declined_as(
                    res.processor_id@,
                    "mock_decline"@,
                    "Mock payment declined for testing"@,
                )
            } else {
                res.succeeded_as(res.processor_id@)
            }),
    {
        let id = Uid::new_v4();
        let processor_id = long_reference_text("mock_", id);
        assert(processor_id@ == "mock_"@ + uuid_text_of(id.0));
        proof {
            reveal_strlit("mock_");
        }
        if self.declines(request.player_id) {
            Ok(
                PaymentResult::failure(
                    processor_id,
                    "mock_decline",
                    "Mock payment declined for testing",
                ),
            )
        } else {
            Ok(PaymentResult::success(processor_id))
        }
    }

    fn refund_payment(&self, processor_id: &str, amount_cents: i64) -> (r: Result<
        PaymentResult,
        AppError,
    >)
        ensures
            r matches Ok(res) && res.succeeded_as(res.processor_id@) && is_long_reference(
                res.processor_id@,
                "mock_refund_"@,
            ),
    {
        let id = Uid::new_v4();
        let refund_id = long_reference_text("mock_refund_", id);
        assert(refund_id@ == "mock_refund_"@ + uuid_text_of(id.0));
        Ok(PaymentResult::success(refund_id))
    }

    fn name(&self) -> (r: &'static str)
        ensures
            r@ == "mock"@,
    {
        "mock"
    }
}

} // verus!
