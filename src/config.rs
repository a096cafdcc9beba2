//! Service settings, read once at startup.
use vstd::prelude::*;
use crate::errors::AppError;
use crate::text::{decimal_of, lower_of, parse_i32, parse_i64, same_text, to_lower};

verus! {

/// Default ceiling of one transaction, in cents.
pub const DEFAULT_MAX_TRANSACTION_CENTS: i64 = 99_999_999;

/// Default ceiling of one purchase's quantity.
pub const DEFAULT_MAX_QUANTITY: i32 = 100;

#[derive(Debug)]
pub struct Config {
    pub database_url: String,
    pub stripe_api_key: String,
    pub use_mock_payments: bool,
    pub max_transaction_cents: i64,
    pub max_quantity: i32,
}

/// A setting read as an integer of the given range, if it is one.
pub open spec fn setting_int(text: Seq<char>, lo: int, hi: int) -> Option<int> {
    match decimal_of(text) {
        Some(v) if lo <= v <= hi => Some(v),
        _ => None,
    }
}

/// The transaction ceiling that a setting asks for: the default when unset.
pub open spec fn ceiling_setting(text: Option<String>) -> Option<int> {
    match text {
        Some(t) => setting_int(t@, i64::MIN as int, i64::MAX as int),
        None => Some(DEFAULT_MAX_TRANSACTION_CENTS as int),
    }
}

/// The quantity ceiling that a setting asks for: the default when unset.
pub open spec fn quantity_setting(text: Option<String>) -> Option<int> {
    match text {
        Some(t) => setting_int(t@, i32::MIN as int, i32::MAX as int),
        None => Some(DEFAULT_MAX_QUANTITY as int),
    }
}

/// The flag selects the payment double: it reads `true` in any case.
pub open spec fn mock_selected(flag: Option<String>) -> bool {
    match flag {
        Some(f) => lower_of(f@) == "true"@,
        None => false,
    }
}

impl Config {
    /// Builds the settings from the raw values of `DATABASE_URL`,
    /// `STRIPE_API_KEY`, `USE_MOCK_PAYMENTS`, `MAX_TRANSACTION_CENTS` and
    /// `MAX_QUANTITY`, each absent when unset. The store address is required;
    /// the double is off unless the flag reads `true` in any case, and the
    /// payment key is required unless the double is on (it then defaults to
    /// empty); the ceilings default to 99 999 999 cents and 100.
    pub fn from_settings(
        database_url: Option<String>,
        stripe_api_key: Option<String>,
        use_mock_payments: Option<String>,
        max_transaction_cents: Option<String>,
        max_quantity: Option<String>,
    ) -> (r: Result<Config, AppError>)
        ensures
            database_url is None ==> (r matches Err(AppError::Configuration(m)) && m@
                == "DATABASE_URL not set"@),
            database_url is Some && ceiling_setting(max_transaction_cents) is None ==> (r matches Err(
                AppError::Configuration(m),
            ) && m@ == "MAX_TRANSACTION_CENTS must be a valid integer"@),
            database_url is Some && ceiling_setting(max_transaction_cents) is Some
                && quantity_setting(max_quantity) is None ==> (r matches Err(
                AppError::Configuration(m),
            ) && m@ == "MAX_QUANTITY must be a valid integer"@),
            ceiling_setting(max_transaction_cents) matches Some(v) ==> (database_url is Some && v <= 0
                && quantity_setting(max_quantity) is Some ==> (r matches Err(
                AppError::Configuration(m),
            ) && m@ == "MAX_TRANSACTION_CENTS must be positive"@)),
            database_url is Some && ceiling_setting(max_transaction_cents) is Some && quantity_setting(
                max_quantity,
            ) is Some && ceiling_setting(max_transaction_cents)->0 > 0 && !mock_selected(
                use_mock_payments,
            ) && stripe_api_key is None ==> (r matches Err(AppError::Configuration(m)) && m@
                == "STRIPE_API_KEY not set"@),
            database_url matches Some(u) ==> (ceiling_setting(max_transaction_cents) matches Some(v)
                ==> (quantity_setting(max_quantity) matches Some(q) ==> (v > 0 && (mock_selected(
                use_mock_payments,
            ) || stripe_api_key is Some) ==> (r matches Ok(c) && {
                &&& c.database_url == u
                &&& c.stripe_api_key@ == (match stripe_api_key {
                    Some(k) => k@,
                    None => Seq::<char>::empty(),
                })
                &&& c.use_mock_payments == mock_selected(use_mock_payments)
                &&& c.max_transaction_cents == v
                &&& c.max_quantity == q
            })))),
    {
        let database_url = match database_url {
            Some(u) => u,
            None => {
                return Err(AppError::Configuration(String::from_str("DATABASE_URL not set")));
            },
        };
        let use_mock_payments = match use_mock_payments {
            Some(v) => {
                let lower = to_lower(v.as_str());
                same_text(lower.as_str(), "true")
            },
            None => false,
        };
        let max_transaction_cents = match max_transaction_cents {
            Some(t) => match parse_i64(t.as_str()) {
                Some(v) => v,
                None => {
                    return Err(
                        AppError::Configuration(
                            String::from_str("MAX_TRANSACTION_CENTS must be a valid integer"),
                        ),
                    );
                },
            },
            None => DEFAULT_MAX_TRANSACTION_CENTS,
        };
        let max_quantity = match max_quantity {
            Some(t) => match parse_i32(t.as_str()) {
                Some(v) => v,
                None => {
                    return Err(
                        AppError::Configuration(
                            String::from_str("MAX_QUANTITY must be a valid integer"),
                        ),
                    );
                },
            },
            None => DEFAULT_MAX_QUANTITY,
        };
        if max_transaction_cents <= 0 {
            return Err(
                AppError::Configuration(String::from_str("MAX_TRANSACTION_CENTS must be positive")),
            );
        }
        let stripe_api_key = match stripe_api_key {
            Some(k) => k,
            None => {
                if !use_mock_payments {
                    return Err(
                        AppError::Configuration(String::from_str("STRIPE_API_KEY not set")),
                    );
                }
                String::new()
            },
        };
        Ok(
            Config {
                database_url,
                stripe_api_key,
                use_mock_payments,
                max_transaction_cents,
                max_quantity,
            },
        )
    }
}

} // verus!
