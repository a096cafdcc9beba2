//! ISO 4217 currencies that purchases may be priced in.
use vstd::prelude::*;
use crate::text::{join2, same_text, to_upper, upper_of};

verus! {

#[derive(Clone, Copy, Debug, PartialEq, Eq, Structural, Hash)]
pub enum Currency {
    USD,
    EUR,
    GBP,
    JPY,
    CAD,
    AUD,
}

impl Currency {
    /// The three-letter code.
    pub open spec fn code(self) -> Seq<char> {
        match self {
            Currency::USD => "USD"@,
            Currency::EUR => "EUR"@,
            Currency::GBP => "GBP"@,
            Currency::JPY => "JPY"@,
            Currency::CAD => "CAD"@,
            Currency::AUD => "AUD"@,
        }
    }

    pub fn as_str(&self) -> (r: &'static str)
        ensures
            r@ == self.code(),
    {
        match self {
            Currency::USD => "USD",
            Currency::EUR => "EUR",
            Currency::GBP => "GBP",
            Currency::JPY => "JPY",
            Currency::CAD => "CAD",
            Currency::AUD => "AUD",
        }
    }

    /// Digits after the decimal point of the minor unit.
    pub fn decimal_places(&self) -> (r: u8)
        ensures
            r == (if *self is JPY { 0u8 } else { 2u8 }),
    {
        match self {
            Currency::JPY => 0,
            _ => 2,
        }
    }

    /// The currency whose code is exactly `code`.
    pub fn from_upper(code: &str) -> (r: Option<Currency>)
        ensures
            r matches Some(c) ==> c.code() == code@,
            r is None ==> forall|c: Currency| #[trigger] c.code() != code@,
    {
        if same_text(code, "USD") {
            Some(Currency::USD)
        } else if same_text(code, "EUR") {
            Some(Currency::EUR)
        } else if same_text(code, "GBP") {
            Some(Currency::GBP)
        } else if same_text(code, "JPY") {
            Some(Currency::JPY)
        } else if same_text(code, "CAD") {
            Some(Currency::CAD)
        } else if same_text(code, "AUD") {
            Some(Currency::AUD)
        } else {
            assert forall|c: Currency| #[trigger] c.code() != code@ by {
                match c {
                    Currency::USD => {},
                    Currency::EUR => {},
                    Currency::GBP => {},
                    Currency::JPY => {},
                    Currency::CAD => {},
                    Currency::AUD => {},
                }
            }
            None
        }
    }

    /// Reads a code in any letter case.
    pub fn parse_code(s: &str) -> (r: Result<Currency, String>)
        ensures
            r matches Ok(c) ==> c.code() == upper_of(s@),
            r matches Err(msg) ==> (forall|c: Currency| #[trigger] c.code() != upper_of(s@))
                && msg@ == "Invalid currency: "@ + s@,
    {
        let upper = to_upper(s);
        match Currency::from_upper(upper.as_str()) {
            Some(c) => Ok(c),
            None => Err(join2("Invalid currency: ", s)),
        }
    }
}

impl std::str::FromStr for Currency {
    type Err = String;

    fn from_str(s: &str) -> Result<Currency, String> {
        Currency::parse_code(s)
    }
}

} // verus!
