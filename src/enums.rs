//! Status vocabularies shared by the workflow and the connector mappings.
use vstd::prelude::*;

verus! {

/// Status of a payment attempt.
#[derive(Debug, Clone, Copy, PartialEq, Eq, Structural)]
pub enum AttemptStatus {
    Started,
    AuthenticationFailed,
    RouterDeclined,
    AuthenticationPending,
    AuthenticationSuccessful,
    Authorized,
    AuthorizationFailed,
    Charged,
    Authorizing,
    CodInitiated,
    Voided,
    VoidInitiated,
    CaptureInitiated,
    CaptureFailed,
    VoidFailed,
    AutoRefunded,
    PartialCharged,
    PartialChargedAndChargeable,
    Unresolved,
    Pending,
    Failure,
    PaymentMethodAwaited,
    ConfirmationAwaited,
    DeviceDataCollectionPending,
}

/// Status of a payment intent.
#[derive(Debug, Clone, Copy, PartialEq, Eq, Structural)]
pub enum IntentStatus {
    Succeeded,
    Failed,
    Cancelled,
    Processing,
    RequiresCustomerAction,
    RequiresMerchantAction,
    RequiresPaymentMethod,
    RequiresConfirmation,
    RequiresCapture,
    PartiallyCaptured,
    PartiallyCapturedAndCapturable,
}

/// Status of a refund.
#[derive(Debug, Clone, Copy, PartialEq, Eq, Structural)]
pub enum RefundStatus {
    Failure,
    ManualReview,
    Pending,
    Success,
    TransactionFailure,
}

} // verus!
