//! Identifiers: 128-bit UUID values and their text form.
use vstd::prelude::*;

verus! {

/// A UUID held as its 128-bit big-endian value.
#[derive(Clone, Copy, Debug, PartialEq, Eq, Structural, Hash)]
pub struct Uid(pub u128);

/// The lowercase hexadecimal digit of `n`, for `0 <= n < 16`.
pub open spec fn hex_digit(n: int) -> char {
    seq!['0', '1', '2', '3', '4', '5', '6', '7', '8', '9', 'a', 'b', 'c', 'd', 'e', 'f'][n]
}

/// The last `digits` hexadecimal digits of `value`, most significant first.
pub open spec fn hex_text(value: int, digits: nat) -> Seq<char>
    decreases digits,
{
    if digits == 0 {
        Seq::empty()
    } else {
        hex_text(value / 16, (digits - 1) as nat).push(hex_digit(value % 16))
    }
}

/// The hyphenated form of a UUID: 32 lowercase hex digits in groups of
/// 8, 4, 4, 4 and 12, joined by `-`.
pub open spec fn uuid_text_of(value: u128) -> Seq<char> {
    let h = hex_text(value as int, 32);
    h.subrange(0, 8) + "-"@ + h.subrange(8, 12) + "-"@ + h.subrange(12, 16) + "-"@ + h.subrange(
        16,
        20,
    ) + "-"@ + h.subrange(20, 32)
}

proof fn lemma_hex_text_len(value: int, digits: nat)
    ensures
        hex_text(value, digits).len() == digits,
    decreases digits,
{
    if digits > 0 {
        lemma_hex_text_len(value / 16, (digits - 1) as nat);
    }
}

/// What `uuid` parses a text into, if it accepts it.
pub uninterp spec fn uuid_parse_of(text: Seq<char>) -> Option<u128>;

/// A version 4 UUID has version nibble 4 and the RFC 4122 variant bits `10`.
pub open spec fn is_v4_shaped(value: u128) -> bool {
    &&& (value >> 76u128) & 0xfu128 == 4u128
    &&& (value >> 62u128) & 0x3u128 == 2u128
}

/// Relies on `uuid::Uuid::new_v4`: a random value with the version and
/// variant bits of a version 4 UUID set.
#[verifier::external_body]
fn random_v4() -> (r: u128)
    ensures
        is_v4_shaped(r),
{
    uuid::Uuid::new_v4().as_u128()
}

/// Relies on `Display` for `uuid::Uuid`: the hyphenated lowercase form,
/// which `Uuid::parse_str` reads back to the same value.
#[verifier::external_body]
fn uuid_text(value: u128) -> (r: String)
    ensures
        r@ == uuid_text_of(value),
        uuid_parse_of(r@) == Some(value),
{
    uuid::Uuid::from_u128(value).to_string()
}

/// Relies on `uuid::Uuid::parse_str`, which accepts the simple, hyphenated,
/// braced and URN forms.
#[verifier::external_body]
fn uuid_parse(text: &str) -> (r: Option<u128>)
    ensures
        r == uuid_parse_of(text@),
{
    match uuid::Uuid::parse_str(text) {
        Ok(u) => Some(u.as_u128()),
        Err(_) => None,
    }
}

impl Uid {
    /// A fresh random version 4 identifier.
    pub fn new_v4() -> (r: Uid)
        ensures
            is_v4_shaped(r.0),
    {
        Uid(random_v4())
    }

    /// The hyphenated text of this identifier.
    pub open spec fn text(self) -> Seq<char> {
        uuid_text_of(self.0)
    }

    pub fn to_text(&self) -> (r: String)
        ensures
            r@ == self.text(),
            r@.len() == 36,
            uuid_parse_of(r@) == Some(self.0),
    {
        proof {
            lemma_hex_text_len(self.0 as int, 32);
            reveal_strlit("-");
        }
        uuid_text(self.0)
    }

    /// Parses any text form of a UUID.
    pub fn parse(text: &str) -> (r: Option<Uid>)
        ensures
            r == (match uuid_parse_of(text@) {
                Some(v) => Some(Uid(v)),
                None => None::<Uid>,
            }),
    {
        match uuid_parse(text) {
            Some(v) => Some(Uid(v)),
            None => None,
        }
    }
}

} // verus!
