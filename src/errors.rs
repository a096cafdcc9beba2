//! The error taxonomy shared by every component.
use vstd::prelude::*;
use crate::text::join2;

verus! {

/// A failure reported by `sqlx` against the relational store, carried as is.
#[verifier::external_type_specification]
#[verifier::external_body]
pub struct ExSqlxError(sqlx::Error);

/// A failure reported by `serde_json` on a request body, carried as is.
#[verifier::external_type_specification]
#[verifier::external_body]
pub struct ExJsonError(serde_json::Error);

#[derive(Debug)]
pub enum AppError {
    /// Missing or invalid settings at startup.
    Configuration(String),
    /// Invalid request data; no side effect took place.
    Validation(String),
    /// The store could not be reached or the statement failed.
    Database(sqlx::Error),
    /// The payment backend failed or declined.
    Payment(String),
    NotFound(String),
    /// A duplicate identifier.
    Conflict(String),
    RateLimited,
    Internal(String),
    /// A body that is not the expected JSON.
    Json(serde_json::Error),
}

impl AppError {
    /// The HTTP status that each kind of error maps to.
    pub open spec fn status_of(&self) -> u16 {
        match self {
            AppError::Validation(_) => 400,
            AppError::Configuration(_) => 500,
            AppError::Database(_) => 503,
            AppError::Payment(_) => 402,
            AppError::NotFound(_) => 404,
            AppError::Conflict(_) => 409,
            AppError::RateLimited => 429,
            AppError::Internal(_) => 500,
            AppError::Json(_) => 400,
        }
    }

    pub open spec fn code_of(&self) -> Seq<char> {
        match self {
            AppError::Validation(_) => "VALIDATION_ERROR"@,
            AppError::Configuration(_) => "CONFIGURATION_ERROR"@,
            AppError::Database(_) => "DATABASE_ERROR"@,
            AppError::Payment(_) => "PAYMENT_ERROR"@,
            AppError::NotFound(_) => "NOT_FOUND"@,
            AppError::Conflict(_) => "CONFLICT"@,
            AppError::RateLimited => "RATE_LIMITED"@,
            AppError::Internal(_) => "INTERNAL_ERROR"@,
            AppError::Json(_) => "INVALID_JSON"@,
        }
    }

    pub fn status_code(&self) -> (r: u16)
        ensures
            r == self.status_of(),
    {
        match self {
            AppError::Validation(_) => 400,
            AppError::Configuration(_) => 500,
            AppError::Database(_) => 503,
            AppError::Payment(_) => 402,
            AppError::NotFound(_) => 404,
            AppError::Conflict(_) => 409,
            AppError::RateLimited => 429,
            AppError::Internal(_) => 500,
            AppError::Json(_) => 400,
        }
    }

    pub fn error_code(&self) -> (r: &'static str)
        ensures
            r@ == self.code_of(),
    {
        match self {
            AppError::Validation(_) => "VALIDATION_ERROR",
            AppError::Configuration(_) => "CONFIGURATION_ERROR",
            AppError::Database(_) => "DATABASE_ERROR",
            AppError::Payment(_) => "PAYMENT_ERROR",
            AppError::NotFound(_) => "NOT_FOUND",
            AppError::Conflict(_) => "CONFLICT",
            AppError::RateLimited => "RATE_LIMITED",
            AppError::Internal(_) => "INTERNAL_ERROR",
            AppError::Json(_) => "INVALID_JSON",
        }
    }

    /// The human-readable text of the error: a prefix naming the kind,
    /// then the detail.
    pub fn message(&self) -> (r: String)
        ensures
            self matches AppError::Configuration(d) ==> r@ == "Configuration error: "@ + d@,
            self matches AppError::Validation(d) ==> r@ == "Validation error: "@ + d@,
            self matches AppError::Payment(d) ==> r@ == "Payment error: "@ + d@,
            self matches AppError::NotFound(d) ==> r@ == "Not found: "@ + d@,
            self matches AppError::Conflict(d) ==> r@ == "Conflict: "@ + d@,
            self is RateLimited ==> r@ == "Rate limit exceeded"@,
            self matches AppError::Internal(d) ==> r@ == "Internal error: "@ + d@,
    {
        match self {
            AppError::Configuration(d) => join2("Configuration error: ", d.as_str()),
            AppError::Validation(d) => join2("Validation error: ", d.as_str()),
            AppError::Database(e) => join2("Database error: ", e.to_string().as_str()),
            AppError::Payment(d) => join2("Payment error: ", d.as_str()),
            AppError::NotFound(d) => join2("Not found: ", d.as_str()),
            AppError::Conflict(d) => join2("Conflict: ", d.as_str()),
            AppError::RateLimited => String::from_str("Rate limit exceeded"),
            AppError::Internal(d) => join2("Internal error: ", d.as_str()),
            AppError::Json(e) => join2("JSON error: ", e.to_string().as_str()),
        }
    }
}

impl From<sqlx::Error> for AppError {
    fn from(e: sqlx::Error) -> AppError {
        AppError::Database(e)
    }
}

impl vstd::std_specs::convert::FromSpecImpl<sqlx::Error> for AppError {
    open spec fn obeys_from_spec() -> bool {
        true
    }

    open spec fn from_spec(e: sqlx::Error) -> AppError {
        AppError::Database(e)
    }
}

impl From<serde_json::Error> for AppError {
    fn from(e: serde_json::Error) -> AppError {
        AppError::Json(e)
    }
}

impl vstd::std_specs::convert::FromSpecImpl<serde_json::Error> for AppError {
    open spec fn obeys_from_spec() -> bool {
        true
    }

    open spec fn from_spec(e: serde_json::Error) -> AppError {
        AppError::Json(e)
    }
}

} // verus!
