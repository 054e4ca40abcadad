//! Hipay's wire vocabulary and how its responses map to attempt and refund
//! statuses.
use vstd::prelude::*;
use vstd::string::*;

use crate::enums;
use crate::enums::AttemptStatus;
use crate::router_data::{
    decimal, decimal_digits, no_error_code, no_error_message, spec_no_error_code, spec_no_error_message,
    ErrorResponse, Method, PaymentsOutcome, RedirectForm, RefundsResponseData, ResponseId, TransactionResponse,
};

verus! {

/// The operation of a Hipay order or maintenance request.
#[derive(Debug, Clone, Copy, PartialEq, Eq, Structural)]
pub enum Operation {
    Authorization,
    Sale,
    Capture,
    Refund,
    Cancel,
}

/// An error body returned by Hipay.
#[derive(Debug, Clone, PartialEq, Eq)]
pub struct HipayErrorResponse {
    pub code: u8,
    pub message: String,
    pub description: Option<String>,
}

/// The order Hipay created.
#[derive(Debug, Clone, PartialEq, Eq)]
pub struct PaymentOrder {
    pub id: String,
}

/// Hipay's answer to an order request.
#[derive(Debug, Clone, PartialEq, Eq)]
pub struct HipayPaymentsResponse {
    pub status: HipayPaymentStatus,
    pub message: String,
    pub order: PaymentOrder,
    pub forward_url: String,
    pub transaction_reference: String,
}

/// Hipay's answer to a capture, cancel or refund request.
#[derive(Debug, Clone, PartialEq, Eq)]
pub struct HipayMaintenanceResponse<S> {
    pub status: S,
    pub message: String,
    pub transaction_reference: String,
}

/// Refund statuses Hipay reports.
#[derive(Debug, Clone, Copy, PartialEq, Eq, Structural)]
pub enum RefundStatus {
    RefundRequested,
    Refunded,
    PartiallyRefunded,
    RefundRefused,
}

/// Transaction statuses Hipay reports.
#[derive(Debug, Clone, Copy, PartialEq, Eq, Structural)]
pub enum HipayPaymentStatus {
    AuthenticationFailed,
    Blocked,
    Denied,
    AuthorizedAndPending,
    Refused,
    Expired,
    Cancelled,
    Authorized,
    CaptureRequested,
    Captured,
    PartiallyCaptured,
    ChargedBack,
    CaptureRefused,
    AwaitingTerminal,
    AuthorizationCancellationRequested,
    ChallengeRequested,
    SoftDeclined,
    PendingPayment,
    Created,
    UnableToAuthenticate,
    CardholderAuthenticated,
    AuthenticationAttempted,
    CouldNotAuthenticate,
    Collected,
    PartiallyCollected,
    Settled,
    PartiallySettled,
    AuthenticationRequested,
    Authenticated,
    AcquirerNotFound,
    RiskAccepted,
    AuthorizationRefused,
}

/// Hipay's answer to a refund status request.
#[derive(Debug, Clone, Copy, PartialEq, Eq, Structural)]
pub struct RefundResponse {
    pub id: u64,
    pub status: u16,
}

/// Why a synchronised transaction stands as it does.
#[derive(Debug, Clone, PartialEq, Eq)]
pub struct Reason {
    pub reason: Option<String>,
    pub code: Option<u64>,
}

/// Hipay's answer to a transaction status request.
#[derive(Debug, Clone, PartialEq, Eq)]
pub enum HipaySyncResponse {
    Response { status: i32, reason: Reason },
    Error { message: String, code: u32 },
}

pub open spec fn spec_refund_status(status: RefundStatus) -> enums::RefundStatus {
    match status {
        RefundStatus::RefundRequested => enums::RefundStatus::Pending,
        RefundStatus::Refunded | RefundStatus::PartiallyRefunded => enums::RefundStatus::Success,
        RefundStatus::RefundRefused => enums::RefundStatus::Failure,
    }
}

impl From<RefundStatus> for enums::RefundStatus {
    fn from(item: RefundStatus) -> (r: enums::RefundStatus) {
        match item {
            RefundStatus::RefundRequested => enums::RefundStatus::Pending,
            RefundStatus::Refunded | RefundStatus::PartiallyRefunded => enums::RefundStatus::Success,
            RefundStatus::RefundRefused => enums::RefundStatus::Failure,
        }
    }
}

impl vstd::std_specs::convert::FromSpecImpl<RefundStatus> for enums::RefundStatus {
    open spec fn obeys_from_spec() -> bool {
        true
    }

    open spec fn from_spec(v: RefundStatus) -> enums::RefundStatus {
        spec_refund_status(v)
    }
}

/// The attempt status a Hipay transaction status stands for.
pub open spec fn spec_attempt_status(status: HipayPaymentStatus) -> AttemptStatus {
    match status {
        HipayPaymentStatus::AuthenticationFailed => AttemptStatus::AuthenticationFailed,
        HipayPaymentStatus::Blocked | HipayPaymentStatus::Refused | HipayPaymentStatus::Expired
        | HipayPaymentStatus::Denied => AttemptStatus::Failure,
        HipayPaymentStatus::AuthorizedAndPending => AttemptStatus::Pending,
        HipayPaymentStatus::Cancelled => AttemptStatus::Voided,
        HipayPaymentStatus::Authorized => AttemptStatus::Authorized,
        HipayPaymentStatus::CaptureRequested => AttemptStatus::CaptureInitiated,
        HipayPaymentStatus::Captured => AttemptStatus::Charged,
        HipayPaymentStatus::PartiallyCaptured => AttemptStatus::PartialCharged,
        HipayPaymentStatus::CaptureRefused => AttemptStatus::CaptureFailed,
        HipayPaymentStatus::AwaitingTerminal => AttemptStatus::Pending,
        HipayPaymentStatus::AuthorizationCancellationRequested => AttemptStatus::VoidInitiated,
        HipayPaymentStatus::ChallengeRequested => AttemptStatus::AuthenticationPending,
        HipayPaymentStatus::SoftDeclined => AttemptStatus::Failure,
        HipayPaymentStatus::PendingPayment => AttemptStatus::Pending,
        HipayPaymentStatus::ChargedBack => AttemptStatus::Failure,
        HipayPaymentStatus::Created => AttemptStatus::Started,
        HipayPaymentStatus::UnableToAuthenticate | HipayPaymentStatus::CouldNotAuthenticate => {
            AttemptStatus::AuthenticationFailed
        },
        HipayPaymentStatus::CardholderAuthenticated => AttemptStatus::Pending,
        HipayPaymentStatus::AuthenticationAttempted => AttemptStatus::AuthenticationPending,
        HipayPaymentStatus::Collected | HipayPaymentStatus::PartiallySettled
        | HipayPaymentStatus::PartiallyCollected | HipayPaymentStatus::Settled => AttemptStatus::Charged,
        HipayPaymentStatus::AuthenticationRequested => AttemptStatus::AuthenticationPending,
        HipayPaymentStatus::Authenticated => AttemptStatus::AuthenticationSuccessful,
        HipayPaymentStatus::AcquirerNotFound => AttemptStatus::Failure,
        HipayPaymentStatus::RiskAccepted => AttemptStatus::Pending,
        HipayPaymentStatus::AuthorizationRefused => AttemptStatus::Failure,
    }
}

impl From<HipayPaymentStatus> for AttemptStatus {
    fn from(status: HipayPaymentStatus) -> (r: AttemptStatus) {
        match status {
            HipayPaymentStatus::AuthenticationFailed => AttemptStatus::AuthenticationFailed,
            HipayPaymentStatus::Blocked | HipayPaymentStatus::Refused | HipayPaymentStatus::Expired
            | HipayPaymentStatus::Denied => AttemptStatus::Failure,
            HipayPaymentStatus::AuthorizedAndPending => AttemptStatus::Pending,
            HipayPaymentStatus::Cancelled => AttemptStatus::Voided,
            HipayPaymentStatus::Authorized => AttemptStatus::Authorized,
            HipayPaymentStatus::CaptureRequested => AttemptStatus::CaptureInitiated,
            HipayPaymentStatus::Captured => AttemptStatus::Charged,
            HipayPaymentStatus::PartiallyCaptured => AttemptStatus::PartialCharged,
            HipayPaymentStatus::CaptureRefused => AttemptStatus::CaptureFailed,
            HipayPaymentStatus::AwaitingTerminal => AttemptStatus::Pending,
            HipayPaymentStatus::AuthorizationCancellationRequested => AttemptStatus::VoidInitiated,
            HipayPaymentStatus::ChallengeRequested => AttemptStatus::AuthenticationPending,
            HipayPaymentStatus::SoftDeclined => AttemptStatus::Failure,
            HipayPaymentStatus::PendingPayment => AttemptStatus::Pending,
            HipayPaymentStatus::ChargedBack => AttemptStatus::Failure,
            HipayPaymentStatus::Created => AttemptStatus::Started,
            HipayPaymentStatus::UnableToAuthenticate | HipayPaymentStatus::CouldNotAuthenticate => {
                AttemptStatus::AuthenticationFailed
            },
            HipayPaymentStatus::CardholderAuthenticated => AttemptStatus::Pending,
            HipayPaymentStatus::AuthenticationAttempted => AttemptStatus::AuthenticationPending,
            HipayPaymentStatus::Collected | HipayPaymentStatus::PartiallySettled
            | HipayPaymentStatus::PartiallyCollected | HipayPaymentStatus::Settled => AttemptStatus::Charged,
            HipayPaymentStatus::AuthenticationRequested => AttemptStatus::AuthenticationPending,
            HipayPaymentStatus::Authenticated => AttemptStatus::AuthenticationSuccessful,
            HipayPaymentStatus::AcquirerNotFound => AttemptStatus::Failure,
            HipayPaymentStatus::RiskAccepted => AttemptStatus::Pending,
            HipayPaymentStatus::AuthorizationRefused => AttemptStatus::Failure,
        }
    }
}

impl vstd::std_specs::convert::FromSpecImpl<HipayPaymentStatus> for AttemptStatus {
    open spec fn obeys_from_spec() -> bool {
        true
    }

    open spec fn from_spec(v: HipayPaymentStatus) -> AttemptStatus {
        spec_attempt_status(v)
    }
}

/// The attempt status a numeric Hipay status code stands for; unknown codes
/// count as failures.
pub open spec fn spec_sync_status(state: i32) -> AttemptStatus {
    match state {
        9 => AttemptStatus::AuthenticationFailed,
        10 => AttemptStatus::Failure,
        11 => AttemptStatus::Failure,
        12 => AttemptStatus::Pending,
        13 => AttemptStatus::Failure,
        14 => AttemptStatus::Failure,
        15 => AttemptStatus::Voided,
        16 => AttemptStatus::Authorized,
        17 => AttemptStatus::CaptureInitiated,
        18 => AttemptStatus::Charged,
        19 => AttemptStatus::PartialCharged,
        29 => AttemptStatus::Failure,
        73 => AttemptStatus::CaptureFailed,
        74 => AttemptStatus::Pending,
        75 => AttemptStatus::VoidInitiated,
        77 => AttemptStatus::AuthenticationPending,
        78 => AttemptStatus::Failure,
        200 => AttemptStatus::Pending,
        1 => AttemptStatus::Started,
        5 => AttemptStatus::AuthenticationFailed,
        6 => AttemptStatus::Pending,
        7 => AttemptStatus::AuthenticationPending,
        8 => AttemptStatus::AuthenticationFailed,
        20 => AttemptStatus::Charged,
        21 => AttemptStatus::Charged,
        22 => AttemptStatus::Charged,
        23 => AttemptStatus::Charged,
        40 => AttemptStatus::AuthenticationPending,
        41 => AttemptStatus::AuthenticationSuccessful,
        51 => AttemptStatus::Failure,
        61 => AttemptStatus::Pending,
        63 => AttemptStatus::Failure,
        _ => AttemptStatus::Failure,
    }
}

/// The attempt status a numeric Hipay status code stands for.
pub fn get_sync_status(state: i32) -> (r: AttemptStatus)
    ensures
        r == spec_sync_status(state),
{
    match state {
        9 => AttemptStatus::AuthenticationFailed,
        10 => AttemptStatus::Failure,
        11 => AttemptStatus::Failure,
        12 => AttemptStatus::Pending,
        13 => AttemptStatus::Failure,
        14 => AttemptStatus::Failure,
        15 => AttemptStatus::Voided,
        16 => AttemptStatus::Authorized,
        17 => AttemptStatus::CaptureInitiated,
        18 => AttemptStatus::Charged,
        19 => AttemptStatus::PartialCharged,
        29 => AttemptStatus::Failure,
        73 => AttemptStatus::CaptureFailed,
        74 => AttemptStatus::Pending,
        75 => AttemptStatus::VoidInitiated,
        77 => AttemptStatus::AuthenticationPending,
        78 => AttemptStatus::Failure,
        200 => AttemptStatus::Pending,
        1 => AttemptStatus::Started,
        5 => AttemptStatus::AuthenticationFailed,
        6 => AttemptStatus::Pending,
        7 => AttemptStatus::AuthenticationPending,
        8 => AttemptStatus::AuthenticationFailed,
        20 => AttemptStatus::Charged,
        21 => AttemptStatus::Charged,
        22 => AttemptStatus::Charged,
        23 => AttemptStatus::Charged,
        40 => AttemptStatus::AuthenticationPending,
        41 => AttemptStatus::AuthenticationSuccessful,
        51 => AttemptStatus::Failure,
        61 => AttemptStatus::Pending,
        63 => AttemptStatus::Failure,
        _ => AttemptStatus::Failure,
    }
}

/// The error carries this code and message, the message again as its
/// reason, the HTTP status, no attempt status, and this transaction id.
pub open spec fn error_response_is(
    e: ErrorResponse,
    code: Seq<char>,
    message: Seq<char>,
    status_code: u16,
    connector_transaction_id: Option<Seq<char>>,
) -> bool {
    &&& e.code@ == code
    &&& e.message@ == message
    &&& e.reason matches Some(r) && r@ == message
    &&& e.status_code == status_code
    &&& e.attempt_status is None
    &&& match (e.connector_transaction_id, connector_transaction_id) {
        (Some(a), Some(b)) => a@ == b,
        (None, None) => true,
        _ => false,
    }
}

/// The error a failed Hipay transaction leaves.
fn error_response(code: String, message: &String, status_code: u16, connector_transaction_id: Option<String>) -> (r:
    ErrorResponse)
    ensures
        r.code == code,
        r.message@ == message@,
        r.reason matches Some(m) && m@ == message@,
        r.status_code == status_code,
        r.attempt_status is None,
        r.connector_transaction_id == connector_transaction_id,
{
    ErrorResponse {
        code,
        message: message.clone(),
        reason: Some(message.clone()),
        status_code,
        attempt_status: None,
        connector_transaction_id,
    }
}

/// The outcome of an order request: the mapped status; for a failure, an
/// error with Hipay's message and transaction reference; otherwise the
/// transaction reference, with a redirection to Hipay's forward URL for a
/// 3-D Secure payment.
pub fn payments_response_outcome(response: HipayPaymentsResponse, http_code: u16, is_three_ds: bool) -> (r:
    PaymentsOutcome)
    ensures
        r.status == spec_attempt_status(response.status),
        r.status == AttemptStatus::Failure ==> (r.response matches Err(e) && error_response_is(
            e,
            spec_no_error_code(),
            response.message@,
            http_code,
            Some(response.transaction_reference@),
        )),
        r.status != AttemptStatus::Failure ==> (r.response matches Ok(t)
            && t.resource_id == ResponseId::ConnectorTransactionId(response.transaction_reference)
            && (is_three_ds ==> t.redirection_data == Some(
            RedirectForm { endpoint: response.forward_url, method: Method::Get },
        )) && (!is_three_ds ==> t.redirection_data is None)),
{
    let status = AttemptStatus::from(response.status);
    let response = if status == AttemptStatus::Failure {
        Err(
            error_response(
                no_error_code(),
                &response.message,
                http_code,
                Some(response.transaction_reference),
            ),
        )
    } else {
        let redirection_data = if is_three_ds {
            Some(RedirectForm { endpoint: response.forward_url, method: Method::Get })
        } else {
            None
        };
        Ok(
            TransactionResponse {
                resource_id: ResponseId::ConnectorTransactionId(response.transaction_reference),
                redirection_data,
            },
        )
    };
    PaymentsOutcome { status, response }
}

/// The outcome of a capture or cancel request: the mapped status and the
/// transaction reference.
pub fn maintenance_response_outcome(response: HipayMaintenanceResponse<HipayPaymentStatus>) -> (r: PaymentsOutcome)
    ensures
        r.status == spec_attempt_status(response.status),
        r.response == Ok::<TransactionResponse, ErrorResponse>(
            TransactionResponse {
                resource_id: ResponseId::ConnectorTransactionId(response.transaction_reference),
                redirection_data: None,
            },
        ),
{
    PaymentsOutcome {
        status: AttemptStatus::from(response.status),
        response: Ok(
            TransactionResponse {
                resource_id: ResponseId::ConnectorTransactionId(response.transaction_reference),
                redirection_data: None,
            },
        ),
    }
}

/// The refund a refund request leaves: Hipay's transaction reference and the
/// mapped status.
pub fn refund_execute_outcome(response: HipayMaintenanceResponse<RefundStatus>) -> (r: RefundsResponseData)
    ensures
        r.connector_refund_id == response.transaction_reference,
        r.refund_status == spec_refund_status(response.status),
{
    RefundsResponseData {
        connector_refund_id: response.transaction_reference,
        refund_status: enums::RefundStatus::from(response.status),
    }
}

/// The refund status a numeric Hipay refund status code stands for.
pub open spec fn spec_refund_sync_status(status: u16) -> enums::RefundStatus {
    if status == 25 || status == 26 {
        enums::RefundStatus::Success
    } else if status == 65 {
        enums::RefundStatus::Failure
    } else {
        enums::RefundStatus::Pending
    }
}

/// The refund a refund status request reports: its id in decimal, and the
/// status its code stands for.
pub fn refund_sync_outcome(response: RefundResponse) -> (r: RefundsResponseData)
    ensures
        r.connector_refund_id@ == decimal_digits(response.id as nat),
        r.refund_status == spec_refund_sync_status(response.status),
{
    let refund_status = match response.status {
        25 | 26 => enums::RefundStatus::Success,
        65 => enums::RefundStatus::Failure,
        _ => enums::RefundStatus::Pending,
    };
    RefundsResponseData { connector_refund_id: decimal(response.id), refund_status }
}

/// The outcome of a transaction status request. An error body fails the
/// attempt with Hipay's code and message; a status maps by its code, and a
/// failure carries the reason's code and text, or placeholders where Hipay
/// gave none.
pub fn sync_response_outcome(response: HipaySyncResponse, http_code: u16) -> (r: PaymentsOutcome)
    ensures
        response matches HipaySyncResponse::Error { message, code } ==> {
            &&& r.status == AttemptStatus::Failure
            &&& r.response matches Err(e) && error_response_is(
                e,
                decimal_digits(code as nat),
                message@,
                http_code,
                None,
            )
        },
        response matches HipaySyncResponse::Response { status, reason } ==> {
            &&& r.status == spec_sync_status(status)
            &&& r.status == AttemptStatus::Failure ==> (r.response matches Err(e) && error_response_is(
                e,
                match reason.code {
                    Some(c) => decimal_digits(c as nat),
                    None => spec_no_error_code(),
                },
                match reason.reason {
                    Some(m) => m@,
                    None => spec_no_error_message(),
                },
                http_code,
                None,
            ))
            &&& r.status != AttemptStatus::Failure ==> r.response == Ok::<TransactionResponse, ErrorResponse>(
                TransactionResponse { resource_id: ResponseId::NoResponseId, redirection_data: None },
            )
        },
{
    match response {
        HipaySyncResponse::Error { message, code } => {
            let e = error_response(decimal(code as u64), &message, http_code, None);
            PaymentsOutcome { status: AttemptStatus::Failure, response: Err(e) }
        },
        HipaySyncResponse::Response { status, reason } => {
            let status = get_sync_status(status);
            let response = if status == AttemptStatus::Failure {
                let code = match reason.code {
                    Some(c) => decimal(c),
                    None => no_error_code(),
                };
                let message = match reason.reason {
                    Some(m) => m,
                    None => no_error_message(),
                };
                Err(error_response(code, &message, http_code, None))
            } else {
                Ok(TransactionResponse { resource_id: ResponseId::NoResponseId, redirection_data: None })
            };
            PaymentsOutcome { status, response }
        },
    }
}

} // verus!
