//! Connector-neutral results of a connector's response.
use vstd::prelude::*;
use vstd::string::*;

use crate::enums::{AttemptStatus, RefundStatus};

verus! {

pub open spec fn spec_no_error_code() -> Seq<char> {
    "No error code"@
}

pub open spec fn spec_no_error_message() -> Seq<char> {
    "No error message"@
}

/// The code recorded when a connector gives none.
pub fn no_error_code() -> (r: String)
    ensures
        r@ == spec_no_error_code(),
{
    String::from_str("No error code")
}

/// The message recorded when a connector gives none.
pub fn no_error_message() -> (r: String)
    ensures
        r@ == spec_no_error_message(),
{
    String::from_str("No error message")
}

/// A connector's error, in the vocabulary shared by all connectors.
#[derive(Debug, Clone, PartialEq, Eq)]
pub struct ErrorResponse {
    pub code: String,
    pub message: String,
    pub reason: Option<String>,
    pub status_code: u16,
    pub attempt_status: Option<AttemptStatus>,
    pub connector_transaction_id: Option<String>,
}

/// How the connector identifies the transaction.
#[derive(Debug, Clone, PartialEq, Eq)]
pub enum ResponseId {
    ConnectorTransactionId(String),
    NoResponseId,
}

/// HTTP method of a redirection.
#[derive(Debug, Clone, Copy, PartialEq, Eq, Structural)]
pub enum Method {
    Get,
    Post,
}

/// An HTTP request to a connector, without its body.
#[derive(Debug, Clone, PartialEq, Eq)]
pub struct Request {
    pub method: Method,
    pub url: String,
    pub headers: Vec<(String, String)>,
}

/// Where to send the customer next.
#[derive(Debug, Clone, PartialEq, Eq)]
pub struct RedirectForm {
    pub endpoint: String,
    pub method: Method,
}

/// A transaction the connector accepted.
#[derive(Debug, Clone, PartialEq, Eq)]
pub struct TransactionResponse {
    pub resource_id: ResponseId,
    pub redirection_data: Option<RedirectForm>,
}

/// The attempt status and the response a payment call leaves.
#[derive(Debug, PartialEq, Eq)]
pub struct PaymentsOutcome {
    pub status: AttemptStatus,
    pub response: Result<TransactionResponse, ErrorResponse>,
}

/// The refund a connector reported.
#[derive(Debug, Clone, PartialEq, Eq)]
pub struct RefundsResponseData {
    pub connector_refund_id: String,
    pub refund_status: RefundStatus,
}

/// The decimal digits of `n`, most significant first.
pub open spec fn decimal_digits(n: nat) -> Seq<char>
    decreases n,
{
    if n < 10 {
        seq![seq!['0', '1', '2', '3', '4', '5', '6', '7', '8', '9'][n as int]]
    } else {
        decimal_digits(n / 10) + seq![seq!['0', '1', '2', '3', '4', '5', '6', '7', '8', '9'][(n % 10) as int]]
    }
}

/// The decimal rendering of `n`.
///
/// Relies on `ToString` for `u64` (std's `Display` for integers): the
/// decimal digits, with no sign and no padding.
#[verifier::external_body]
pub(crate) fn decimal(n: u64) -> (r: String)
    ensures
        r@ == decimal_digits(n as nat),
{
    n.to_string()
}

/// Payment methods a connector cannot carry.
#[derive(Debug, Clone, Copy, PartialEq, Eq, Structural)]
pub enum UnsupportedMethod {
    PaymentMethod,
    ApplePay,
    Paze,
    GooglePay,
}

/// Fields a connector request needs from the payment.
#[derive(Debug, Clone, Copy, PartialEq, Eq, Structural)]
pub enum RequiredField {
    PaymentMethodToken,
    BillingAddress,
    Email,
    BrowserInfo,
    BillingName,
}

impl RequiredField {
    pub open spec fn spec_name(self) -> Seq<char> {
        match self {
            RequiredField::PaymentMethodToken => "payment_method_token"@,
            RequiredField::BillingAddress => "billing.address"@,
            RequiredField::Email => "email"@,
            RequiredField::BrowserInfo => "browser_info"@,
            RequiredField::BillingName => "billing.address.first_name"@,
        }
    }

    /// The field's path in the payment data.
    pub fn name(&self) -> (r: &'static str)
        ensures
            r@ == self.spec_name(),
    {
        match self {
            RequiredField::PaymentMethodToken => "payment_method_token",
            RequiredField::BillingAddress => "billing.address",
            RequiredField::Email => "email",
            RequiredField::BrowserInfo => "browser_info",
            RequiredField::BillingName => "billing.address.first_name",
        }
    }
}

/// Errors of building a connector request or reading its credentials.
#[derive(Debug, Clone, Copy, PartialEq, Eq, Structural)]
pub enum ConnectorError {
    NotImplemented(UnsupportedMethod),
    FailedToObtainAuthType,
    MissingRequiredField(RequiredField),
    MissingConnectorTransactionID,
}

/// How a connector account's credentials are shaped.
#[derive(Debug, Clone, PartialEq, Eq)]
pub enum ConnectorAuthType {
    HeaderKey { api_key: String },
    BodyKey { api_key: String, key1: String },
    SignatureKey { api_key: String, key1: String, api_secret: String },
    NoKey,
}

} // verus!
