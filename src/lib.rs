//! Connector routing validation, routing configuration storage steps and
//! the payment status synchronisation retry workflow.
pub mod bitpay;
mod clock;
pub mod dictionary;
pub mod enums;
pub mod errors;
pub mod helpers;
pub mod hipay;
pub mod hipay_request;
pub mod organization;
pub mod router_data;
pub mod routing;
pub mod schedule;
pub mod workflow;
