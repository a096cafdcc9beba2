//! In-game purchase transactions: request validation, the transaction
//! lifecycle, a pluggable payment backend and the transaction store.
pub mod config;
pub mod currency;
pub mod errors;
pub mod ids;
pub mod payment;
pub mod pipeline;
pub mod query;
pub mod request;
pub mod response;
pub mod service;
pub mod status;
pub mod store;
pub mod text;
pub mod transaction;

pub use config::Config;
pub use currency::Currency;
pub use errors::AppError;
pub use ids::Uid;
pub use payment::{
    MockPaymentStrategy, PaymentRequest, PaymentResult, PaymentStrategy, StripePaymentStrategy,
};
pub use pipeline::{
    PurchaseAction, PurchaseEvent, PurchaseStage, prepare_purchase, process_purchase,
    purchase_reply, purchase_step, settle_payment,
};
pub use query::{HttpMethod, ListQuery, Route, parse_list_query, parse_query_params, route_for};
pub use request::{
    GetTransactionsRequest, PurchaseRequest, RequestField, ValidationErrors, default_limit,
    default_quantity,
};
pub use response::{
    ComponentHealth, ErrorResponse, HealthResponse, HealthStatus, ItemInfo, PaymentInfo,
    PurchaseResponse, TransactionListResponse, health_report,
};
pub use service::{PaymentService, idempotency_key};
pub use status::TransactionStatus;
pub use store::{TransactionStore, clamp_limit};
pub use transaction::{NewTransaction, Transaction};
