use router::bitpay::{Bitpay, BitpayErrorResponse, CurrencyUnit, IncomingWebhookEvent, WebhookEventType};
use router::router_data::{ConnectorAuthType, ConnectorError, Method, ResponseId};

#[test]
fn bitpay_basics() {
    let b = Bitpay::new();
    assert_eq!(b.id(), "bitpay");
    assert_eq!(b.get_currency_unit(), CurrencyUnit::Minor);
    assert_eq!(b.common_get_content_type(), "application/json");
    let h = b.build_headers();
    assert_eq!(
        h,
        vec![
            ("Content-Type".to_string(), "application/json".to_string()),
            ("X-Accept-Version".to_string(), "2.0.0".to_string()),
        ]
    );
}

#[test]
fn bitpay_auth_header() {
    let b = Bitpay::new();
    let h = b.get_auth_header(&ConnectorAuthType::HeaderKey { api_key: "tok_9".to_string() }).unwrap();
    assert_eq!(h, vec![("Authorization".to_string(), "tok_9".to_string())]);
    assert_eq!(b.get_auth_header(&ConnectorAuthType::NoKey), Err(ConnectorError::FailedToObtainAuthType));
}

#[test]
fn bitpay_urls() {
    let b = Bitpay::new();
    assert_eq!(b.authorize_url("https://test.bitpay.com"), "https://test.bitpay.com/invoices");
    let auth = ConnectorAuthType::HeaderKey { api_key: "tok_9".to_string() };
    assert_eq!(
        b.sync_url("https://test.bitpay.com", &auth, &ResponseId::ConnectorTransactionId("inv_1".to_string())),
        Ok("https://test.bitpay.com/invoices/inv_1?token=tok_9".to_string())
    );
    assert_eq!(
        b.sync_url("https://test.bitpay.com", &auth, &ResponseId::NoResponseId),
        Err(ConnectorError::MissingConnectorTransactionID)
    );
    assert_eq!(
        b.sync_url("https://test.bitpay.com", &ConnectorAuthType::NoKey, &ResponseId::NoResponseId),
        Err(ConnectorError::FailedToObtainAuthType)
    );
}

#[test]
fn bitpay_error_response() {
    let b = Bitpay::new();
    let e = b.build_error_response(
        400,
        BitpayErrorResponse { error: "Invalid token".to_string(), code: None, message: Some("expired".to_string()) },
    );
    assert_eq!(e.code, "No error code");
    assert_eq!(e.message, "Invalid token");
    assert_eq!(e.reason, Some("expired".to_string()));
    assert_eq!(e.status_code, 400);
    let e = b.build_error_response(
        500,
        BitpayErrorResponse { error: "x".to_string(), code: Some("E1".to_string()), message: None },
    );
    assert_eq!(e.code, "E1");
}

#[test]
fn bitpay_webhooks() {
    let b = Bitpay::new();
    assert_eq!(b.get_webhook_event_type(WebhookEventType::Confirmed), IncomingWebhookEvent::PaymentIntentSuccess);
    assert_eq!(b.get_webhook_event_type(WebhookEventType::Completed), IncomingWebhookEvent::PaymentIntentSuccess);
    assert_eq!(b.get_webhook_event_type(WebhookEventType::Paid), IncomingWebhookEvent::PaymentIntentProcessing);
    assert_eq!(b.get_webhook_event_type(WebhookEventType::Declined), IncomingWebhookEvent::PaymentIntentFailure);
    assert_eq!(b.get_webhook_event_type(WebhookEventType::Refunded), IncomingWebhookEvent::EventNotSupported);
    assert_eq!(
        b.get_webhook_object_reference_id("inv_1".to_string()),
        ResponseId::ConnectorTransactionId("inv_1".to_string())
    );
}

#[test]
fn bitpay_sync_request() {
    let b = Bitpay::new();
    let auth = ConnectorAuthType::HeaderKey { api_key: "tok_9".to_string() };
    let req = b
        .sync_request("https://test.bitpay.com", &auth, &ResponseId::ConnectorTransactionId("inv_2".to_string()))
        .unwrap();
    assert_eq!(req.method, Method::Get);
    assert_eq!(req.url, "https://test.bitpay.com/invoices/inv_2?token=tok_9");
    assert_eq!(req.headers, b.build_headers());
    assert_eq!(
        b.sync_request("https://test.bitpay.com", &auth, &ResponseId::NoResponseId),
        Err(ConnectorError::MissingConnectorTransactionID)
    );
}
