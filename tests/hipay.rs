use router::enums::{self, AttemptStatus};
use router::hipay::{
    get_sync_status, maintenance_response_outcome, payments_response_outcome, refund_execute_outcome,
    refund_sync_outcome, sync_response_outcome, HipayMaintenanceResponse, HipayPaymentStatus,
    HipayPaymentsResponse, HipaySyncResponse, PaymentOrder, Reason, RefundResponse, RefundStatus,
};
use router::hipay::Operation;
use router::hipay_request::{
    expiry_year_4_digit, payment_product, BillingAddress, BrowserInformation, CardNetwork, HiPayTokenRequest,
    HipayAuthType, HipayAuthorizeData, HipayMaintenanceRequest, HipayPaymentsRequest, HipayRouterData,
    HipayTokenResponse, HipayTokenizationData, PaymentMethodToken,
};
use router::router_data::{
    ConnectorAuthType, ConnectorError, Method, RedirectForm, RequiredField, ResponseId, UnsupportedMethod,
};

#[test]
fn payment_status_mapping() {
    assert_eq!(AttemptStatus::from(HipayPaymentStatus::Captured), AttemptStatus::Charged);
    assert_eq!(AttemptStatus::from(HipayPaymentStatus::Blocked), AttemptStatus::Failure);
    assert_eq!(AttemptStatus::from(HipayPaymentStatus::AuthorizedAndPending), AttemptStatus::Pending);
    assert_eq!(AttemptStatus::from(HipayPaymentStatus::Cancelled), AttemptStatus::Voided);
    assert_eq!(AttemptStatus::from(HipayPaymentStatus::Authenticated), AttemptStatus::AuthenticationSuccessful);
    assert_eq!(AttemptStatus::from(HipayPaymentStatus::Created), AttemptStatus::Started);
    assert_eq!(AttemptStatus::from(HipayPaymentStatus::PartiallySettled), AttemptStatus::Charged);
}

#[test]
fn refund_status_mapping() {
    assert_eq!(enums::RefundStatus::from(RefundStatus::RefundRequested), enums::RefundStatus::Pending);
    assert_eq!(enums::RefundStatus::from(RefundStatus::PartiallyRefunded), enums::RefundStatus::Success);
    assert_eq!(enums::RefundStatus::from(RefundStatus::RefundRefused), enums::RefundStatus::Failure);
}

#[test]
fn sync_status_codes() {
    assert_eq!(get_sync_status(18), AttemptStatus::Charged);
    assert_eq!(get_sync_status(12), AttemptStatus::Pending);
    assert_eq!(get_sync_status(73), AttemptStatus::CaptureFailed);
    assert_eq!(get_sync_status(41), AttemptStatus::AuthenticationSuccessful);
    assert_eq!(get_sync_status(999), AttemptStatus::Failure);
}

fn payments_response(status: HipayPaymentStatus) -> HipayPaymentsResponse {
    HipayPaymentsResponse {
        status,
        message: "Declined".to_string(),
        order: PaymentOrder { id: "ord_1".to_string() },
        forward_url: "https://hipay.example/3ds".to_string(),
        transaction_reference: "800000001".to_string(),
    }
}

#[test]
fn authorize_response_success_with_redirect() {
    let out = payments_response_outcome(payments_response(HipayPaymentStatus::Authorized), 200, true);
    assert_eq!(out.status, AttemptStatus::Authorized);
    let t = out.response.unwrap();
    assert_eq!(t.resource_id, ResponseId::ConnectorTransactionId("800000001".to_string()));
    assert_eq!(
        t.redirection_data,
        Some(RedirectForm { endpoint: "https://hipay.example/3ds".to_string(), method: Method::Get })
    );
    let out = payments_response_outcome(payments_response(HipayPaymentStatus::Authorized), 200, false);
    assert_eq!(out.response.unwrap().redirection_data, None);
}

#[test]
fn authorize_response_failure() {
    let out = payments_response_outcome(payments_response(HipayPaymentStatus::Refused), 402, false);
    assert_eq!(out.status, AttemptStatus::Failure);
    let e = out.response.unwrap_err();
    assert_eq!(e.code, "No error code");
    assert_eq!(e.message, "Declined");
    assert_eq!(e.reason, Some("Declined".to_string()));
    assert_eq!(e.status_code, 402);
    assert_eq!(e.connector_transaction_id, Some("800000001".to_string()));
}

#[test]
fn capture_and_refund_responses() {
    let out = maintenance_response_outcome(HipayMaintenanceResponse {
        status: HipayPaymentStatus::CaptureRequested,
        message: "ok".to_string(),
        transaction_reference: "800000002".to_string(),
    });
    assert_eq!(out.status, AttemptStatus::CaptureInitiated);
    assert_eq!(out.response.unwrap().resource_id, ResponseId::ConnectorTransactionId("800000002".to_string()));
    let r = refund_execute_outcome(HipayMaintenanceResponse {
        status: RefundStatus::Refunded,
        message: "ok".to_string(),
        transaction_reference: "800000003".to_string(),
    });
    assert_eq!(r.connector_refund_id, "800000003");
    assert_eq!(r.refund_status, enums::RefundStatus::Success);
}

#[test]
fn refund_sync_renders_id_and_maps_code() {
    let r = refund_sync_outcome(RefundResponse { id: 1234567, status: 26 });
    assert_eq!(r.connector_refund_id, "1234567");
    assert_eq!(r.refund_status, enums::RefundStatus::Success);
    assert_eq!(refund_sync_outcome(RefundResponse { id: 0, status: 65 }).refund_status, enums::RefundStatus::Failure);
    assert_eq!(refund_sync_outcome(RefundResponse { id: 1, status: 24 }).refund_status, enums::RefundStatus::Pending);
    assert_eq!(refund_sync_outcome(RefundResponse { id: 1, status: 7 }).refund_status, enums::RefundStatus::Pending);
}

#[test]
fn sync_error_body_fails_attempt() {
    let out = sync_response_outcome(HipaySyncResponse::Error { message: "bad".to_string(), code: 4010201 }, 400);
    assert_eq!(out.status, AttemptStatus::Failure);
    let e = out.response.unwrap_err();
    assert_eq!(e.code, "4010201");
    assert_eq!(e.message, "bad");
    assert_eq!(e.reason, Some("bad".to_string()));
    assert_eq!(e.status_code, 400);
}

#[test]
fn sync_failure_uses_reason_or_placeholders() {
    let out = sync_response_outcome(
        HipaySyncResponse::Response { status: 13, reason: Reason { reason: Some("refused".to_string()), code: Some(42) } },
        200,
    );
    let e = out.response.unwrap_err();
    assert_eq!(e.code, "42");
    assert_eq!(e.message, "refused");
    let out = sync_response_outcome(
        HipaySyncResponse::Response { status: 10, reason: Reason { reason: None, code: None } },
        200,
    );
    let e = out.response.unwrap_err();
    assert_eq!(e.code, "No error code");
    assert_eq!(e.message, "No error message");
}

#[test]
fn sync_success_has_no_response_id() {
    let out = sync_response_outcome(
        HipaySyncResponse::Response { status: 18, reason: Reason { reason: None, code: None } },
        200,
    );
    assert_eq!(out.status, AttemptStatus::Charged);
    assert_eq!(out.response.unwrap().resource_id, ResponseId::NoResponseId);
}

#[test]
fn payment_product_precedence() {
    assert_eq!(payment_product(Some("cb".to_string()), Some("VISA".to_string()), Some(CardNetwork::Visa)), "cb");
    assert_eq!(payment_product(None, Some("AMERICAN EXPRESS".to_string()), None), "american-express");
    assert_eq!(payment_product(None, Some("BCMC".to_string()), Some(CardNetwork::Visa)), "bcmc");
    assert_eq!(payment_product(None, Some("UNKNOWN".to_string()), Some(CardNetwork::DinersClub)), "diners");
    assert_eq!(payment_product(None, None, Some(CardNetwork::CartesBancaires)), "cb");
    assert_eq!(payment_product(None, None, Some(CardNetwork::Star)), "");
    assert_eq!(payment_product(None, None, None), "");
}

fn authorize_data() -> HipayAuthorizeData {
    HipayAuthorizeData {
        amount: "10.50".to_string(),
        currency: "EUR".to_string(),
        is_card: true,
        card_network: Some(CardNetwork::Mastercard),
        auto_capture: true,
        is_three_ds: false,
        payment_method_token: Some(PaymentMethodToken::Token("tok_1".to_string())),
        connector_request_reference_id: "ref_1".to_string(),
        connector_card_network: None,
        domestic_network: None,
        description: None,
        router_return_url: Some("https://merchant.example/return".to_string()),
        billing_address: None,
        billing_email: None,
        email: Some("a@b.example".to_string()),
        browser_info: None,
    }
}

#[test]
fn order_request_without_three_ds() {
    let r = HipayPaymentsRequest::from_authorize_data(authorize_data()).unwrap();
    assert_eq!(r.operation, Operation::Sale);
    assert_eq!(r.authentication_indicator, 0);
    assert_eq!(r.cardtoken, "tok_1");
    assert_eq!(r.orderid, "ref_1");
    assert_eq!(r.payment_product, "mastercard");
    assert_eq!(r.description, "Short Description");
    assert_eq!(r.notify_url, Some("https://merchant.example/return".to_string()));
    assert_eq!(r.decline_url, r.accept_url);
    assert_eq!(r.three_ds_data, None);
}

#[test]
fn order_request_with_three_ds() {
    let mut d = authorize_data();
    d.auto_capture = false;
    d.is_three_ds = true;
    d.description = Some("Shoes".to_string());
    d.billing_address = Some(BillingAddress {
        first_name: Some("Ada".to_string()),
        last_name: Some("Lovelace".to_string()),
        line1: Some("1 Main St".to_string()),
        city: Some("Paris".to_string()),
        zip: Some("75001".to_string()),
        state: None,
        country: Some("FR".to_string()),
    });
    d.browser_info = Some(BrowserInformation {
        java_enabled: Some(false),
        java_script_enabled: Some(true),
        ip_address: Some("127.0.0.1".to_string()),
        user_agent: None,
        language: Some("fr".to_string()),
        color_depth: Some(24),
        screen_height: Some(1080),
        screen_width: Some(1920),
        time_zone: Some(-60),
    });
    let r = HipayPaymentsRequest::from_authorize_data(d).unwrap();
    assert_eq!(r.operation, Operation::Authorization);
    assert_eq!(r.authentication_indicator, 2);
    assert_eq!(r.description, "Shoes");
    let t = r.three_ds_data.unwrap();
    assert_eq!(t.firstname, Some("Ada".to_string()));
    assert_eq!(t.email, Some("a@b.example".to_string()));
    let b = t.browser_info.unwrap();
    assert_eq!(b.http_accept, "*/*");
    assert_eq!(b.javascript_enabled, Some(true));
    assert_eq!(b.timezone, Some(-60));
}

#[test]
fn order_request_errors() {
    let mut d = authorize_data();
    d.is_card = false;
    assert_eq!(
        HipayPaymentsRequest::from_authorize_data(d),
        Err(ConnectorError::NotImplemented(UnsupportedMethod::PaymentMethod))
    );
    let mut d = authorize_data();
    d.payment_method_token = Some(PaymentMethodToken::GooglePayDecrypt);
    assert_eq!(
        HipayPaymentsRequest::from_authorize_data(d),
        Err(ConnectorError::NotImplemented(UnsupportedMethod::GooglePay))
    );
    let mut d = authorize_data();
    d.payment_method_token = None;
    assert_eq!(
        HipayPaymentsRequest::from_authorize_data(d),
        Err(ConnectorError::MissingRequiredField(RequiredField::PaymentMethodToken))
    );
    let mut d = authorize_data();
    d.is_three_ds = true;
    assert_eq!(
        HipayPaymentsRequest::from_authorize_data(d),
        Err(ConnectorError::MissingRequiredField(RequiredField::BillingAddress))
    );
    assert_eq!(RequiredField::BillingAddress.name(), "billing.address");
}

#[test]
fn auth_type_needs_body_key() {
    let ok = HipayAuthType::from_auth_type(&ConnectorAuthType::BodyKey {
        api_key: "key_0".to_string(),
        key1: "k1".to_string(),
    })
    .unwrap();
    assert_eq!(ok.key1, "k1");
    assert_eq!(
        HipayAuthType::from_auth_type(&ConnectorAuthType::HeaderKey { api_key: "x".to_string() }),
        Err(ConnectorError::FailedToObtainAuthType)
    );
}

#[test]
fn maintenance_requests() {
    let r = HipayMaintenanceRequest::refund("5.00".to_string(), "EUR".to_string());
    assert_eq!(r.operation, Operation::Refund);
    assert_eq!(r.amount, Some("5.00".to_string()));
    let c = HipayMaintenanceRequest::cancel(None);
    assert_eq!(c.operation, Operation::Cancel);
    assert_eq!(c.amount, None);
    assert_eq!(HipayMaintenanceRequest::capture("1".to_string(), "EUR".to_string()).operation, Operation::Capture);
    let rd = HipayRouterData::from(("9.99".to_string(), 7u8));
    assert_eq!(rd.amount, "9.99");
    assert_eq!(rd.router_data, 7);
}

#[test]
fn tokenization_request() {
    assert_eq!(expiry_year_4_digit("27"), "2027");
    assert_eq!(expiry_year_4_digit("2031"), "2031");
    let d = HipayTokenizationData {
        is_card: true,
        card_number: "4111111111111111".to_string(),
        card_exp_month: "03".to_string(),
        card_exp_year: "30".to_string(),
        card_cvc: "123".to_string(),
        billing_full_name: Some("Ada Lovelace".to_string()),
    };
    let t = HiPayTokenRequest::from_tokenization_data(d.clone()).unwrap();
    assert_eq!(t.card_expiry_year, "2030");
    assert_eq!(t.card_holder, "Ada Lovelace");
    let mut missing = d;
    missing.billing_full_name = None;
    assert_eq!(
        HiPayTokenRequest::from_tokenization_data(missing),
        Err(ConnectorError::MissingRequiredField(RequiredField::BillingName))
    );
    let details = HipayTokenResponse {
        token: "tok".to_string(),
        brand: "VISA".to_string(),
        domestic_network: Some("cb".to_string()),
    }
    .card_details();
    assert_eq!(details.card_network, Some("VISA".to_string()));
    assert_eq!(details.domestic_network, Some("cb".to_string()));
}
