//! The Bitpay connector's request shapes, credentials and webhook events.
use vstd::prelude::*;
use vstd::string::*;

use crate::router_data::{
    no_error_code, spec_no_error_code, ConnectorAuthType, ConnectorError, ErrorResponse, Method, Request, ResponseId,
};

verus! {

/// Currency unit a connector takes amounts in.
#[derive(Debug, Clone, Copy, PartialEq, Eq, Structural)]
pub enum CurrencyUnit {
    Base,
    Minor,
}

/// Bitpay's credentials: an API token.
#[derive(Debug, Clone, PartialEq, Eq)]
pub struct BitpayAuthType {
    pub api_key: String,
}

impl BitpayAuthType {
    /// Bitpay takes header-key credentials only.
    pub fn from_auth_type(auth_type: &ConnectorAuthType) -> (r: Result<BitpayAuthType, ConnectorError>)
        ensures
            match *auth_type {
                ConnectorAuthType::HeaderKey { api_key } => r == Ok::<BitpayAuthType, ConnectorError>(
                    BitpayAuthType { api_key },
                ),
                _ => r == Err::<BitpayAuthType, ConnectorError>(ConnectorError::FailedToObtainAuthType),
            },
    {
        match auth_type {
            ConnectorAuthType::HeaderKey { api_key } => Ok(BitpayAuthType { api_key: api_key.clone() }),
            _ => Err(ConnectorError::FailedToObtainAuthType),
        }
    }
}

/// An error body returned by Bitpay.
#[derive(Debug, Clone, PartialEq, Eq)]
pub struct BitpayErrorResponse {
    pub error: String,
    pub code: Option<String>,
    pub message: Option<String>,
}

/// Events Bitpay's webhooks announce.
#[derive(Debug, Clone, Copy, PartialEq, Eq, Structural)]
pub enum WebhookEventType {
    Paid,
    Confirmed,
    Completed,
    Expired,
    Invalid,
    Declined,
    Refunded,
    Resent,
    Unknown,
}

/// Incoming webhook events, in the vocabulary shared by all connectors.
#[derive(Debug, Clone, Copy, PartialEq, Eq, Structural)]
pub enum IncomingWebhookEvent {
    PaymentIntentSuccess,
    PaymentIntentProcessing,
    PaymentIntentFailure,
    EventNotSupported,
}

pub open spec fn spec_webhook_event(event: WebhookEventType) -> IncomingWebhookEvent {
    match event {
        WebhookEventType::Confirmed | WebhookEventType::Completed => IncomingWebhookEvent::PaymentIntentSuccess,
        WebhookEventType::Paid => IncomingWebhookEvent::PaymentIntentProcessing,
        WebhookEventType::Declined => IncomingWebhookEvent::PaymentIntentFailure,
        _ => IncomingWebhookEvent::EventNotSupported,
    }
}

/// The Bitpay connector.
#[derive(Debug, Clone, Copy, PartialEq, Eq, Structural)]
pub struct Bitpay;

pub open spec fn spec_sync_url(base_url: Seq<char>, connector_transaction_id: Seq<char>, token: Seq<char>) -> Seq<char> {
    base_url + "/invoices/"@ + connector_transaction_id + "?token="@ + token
}

impl Bitpay {
    /// The connector.
    pub fn new() -> (r: Bitpay) {
        Bitpay
    }

    /// The connector's identifier.
    pub fn id(&self) -> (r: &'static str)
        ensures
            r@ == "bitpay"@,
    {
        "bitpay"
    }

    /// Bitpay takes amounts in minor units.
    pub fn get_currency_unit(&self) -> (r: CurrencyUnit)
        ensures
            r == CurrencyUnit::Minor,
    {
        CurrencyUnit::Minor
    }

    /// Bitpay's request bodies are JSON.
    pub fn common_get_content_type(&self) -> (r: &'static str)
        ensures
            r@ == "application/json"@,
    {
        "application/json"
    }

    /// The headers of every request: the content type and the API version.
    pub fn build_headers(&self) -> (r: Vec<(String, String)>)
        ensures
            r@.len() == 2,
            r@[0].0@ == "Content-Type"@,
            r@[0].1@ == "application/json"@,
            r@[1].0@ == "X-Accept-Version"@,
            r@[1].1@ == "2.0.0"@,
    {
        let mut headers: Vec<(String, String)> = Vec::new();
        headers.push((String::from_str("Content-Type"), String::from_str(self.common_get_content_type())));
        headers.push((String::from_str("X-Accept-Version"), String::from_str("2.0.0")));
        headers
    }

    /// The authorisation header carrying the API token.
    pub fn get_auth_header(&self, auth_type: &ConnectorAuthType) -> (r: Result<Vec<(String, String)>, ConnectorError>)
        ensures
            match *auth_type {
                ConnectorAuthType::HeaderKey { api_key } => r matches Ok(h) && h@.len() == 1 && h@[0].0@
                    == "Authorization"@ && h@[0].1 == api_key,
                _ => r == Err::<Vec<(String, String)>, ConnectorError>(ConnectorError::FailedToObtainAuthType),
            },
    {
        let auth = match BitpayAuthType::from_auth_type(auth_type) {
            Ok(a) => a,
            Err(e) => {
                return Err(e);
            },
        };
        let mut headers: Vec<(String, String)> = Vec::new();
        headers.push((String::from_str("Authorization"), auth.api_key));
        Ok(headers)
    }

    /// The error a Bitpay error body stands for: its code, or a placeholder
    /// where it has none; its error as the message; its message as the
    /// reason.
    pub fn build_error_response(&self, status_code: u16, response: BitpayErrorResponse) -> (r: ErrorResponse)
        ensures
            r.status_code == status_code,
            match response.code {
                Some(c) => r.code == c,
                None => r.code@ == spec_no_error_code(),
            },
            r.message == response.error,
            r.reason == response.message,
            r.attempt_status is None,
            r.connector_transaction_id is None,
    {
        let code = match response.code {
            Some(c) => c,
            None => no_error_code(),
        };
        ErrorResponse {
            status_code,
            code,
            message: response.error,
            reason: response.message,
            attempt_status: None,
            connector_transaction_id: None,
        }
    }

    /// Where invoices are created.
    pub fn authorize_url(&self, base_url: &str) -> (r: String)
        ensures
            r@ == base_url@ + "/invoices"@,
    {
        let mut url = String::from_str(base_url);
        url.append("/invoices");
        url
    }

    /// Where an invoice's status is read: its connector transaction id and
    /// the API token are needed.
    pub fn sync_url(&self, base_url: &str, auth_type: &ConnectorAuthType, resource_id: &ResponseId) -> (r: Result<
        String,
        ConnectorError,
    >)
        ensures
            !(auth_type is HeaderKey) ==> r == Err::<String, ConnectorError>(ConnectorError::FailedToObtainAuthType),
            auth_type is HeaderKey && *resource_id == ResponseId::NoResponseId ==> r == Err::<String, ConnectorError>(
                ConnectorError::MissingConnectorTransactionID,
            ),
            match (*auth_type, *resource_id) {
                (ConnectorAuthType::HeaderKey { api_key }, ResponseId::ConnectorTransactionId(id)) => r matches Ok(
                    u,
                ) && u@ == spec_sync_url(base_url@, id@, api_key@),
                _ => true,
            },
    {
        let auth = match BitpayAuthType::from_auth_type(auth_type) {
            Ok(a) => a,
            Err(e) => {
                return Err(e);
            },
        };
        let id = match resource_id {
            ResponseId::ConnectorTransactionId(id) => id,
            ResponseId::NoResponseId => {
                return Err(ConnectorError::MissingConnectorTransactionID);
            },
        };
        let mut url = String::from_str(base_url);
        url.append("/invoices/");
        url.append(id.as_str());
        url.append("?token=");
        url.append(auth.api_key.as_str());
        Ok(url)
    }

    /// The request that reads an invoice's status: a GET of its URL with the
    /// common headers.
    pub fn sync_request(&self, base_url: &str, auth_type: &ConnectorAuthType, resource_id: &ResponseId) -> (r: Result<
        Request,
        ConnectorError,
    >)
        ensures
            match (*auth_type, *resource_id) {
                (ConnectorAuthType::HeaderKey { api_key }, ResponseId::ConnectorTransactionId(id)) => r matches Ok(
                    req,
                ) && req.method == Method::Get && req.url@ == spec_sync_url(base_url@, id@, api_key@)
                    && req.headers@.len() == 2,
                (ConnectorAuthType::HeaderKey { .. }, ResponseId::NoResponseId) => r == Err::<Request, ConnectorError>(
                    ConnectorError::MissingConnectorTransactionID,
                ),
                _ => r == Err::<Request, ConnectorError>(ConnectorError::FailedToObtainAuthType),
            },
    {
        let url = match self.sync_url(base_url, auth_type, resource_id) {
            Ok(u) => u,
            Err(e) => {
                return Err(e);
            },
        };
        Ok(Request { method: Method::Get, url, headers: self.build_headers() })
    }

    /// The payment a webhook refers to: the invoice id, as the connector
    /// transaction id.
    pub fn get_webhook_object_reference_id(&self, invoice_id: String) -> (r: ResponseId)
        ensures
            r == ResponseId::ConnectorTransactionId(invoice_id),
    {
        ResponseId::ConnectorTransactionId(invoice_id)
    }

    /// The event a webhook announces.
    pub fn get_webhook_event_type(&self, event: WebhookEventType) -> (r: IncomingWebhookEvent)
        ensures
            r == spec_webhook_event(event),
    {
        match event {
            WebhookEventType::Confirmed | WebhookEventType::Completed => IncomingWebhookEvent::PaymentIntentSuccess,
            WebhookEventType::Paid => IncomingWebhookEvent::PaymentIntentProcessing,
            WebhookEventType::Declined => IncomingWebhookEvent::PaymentIntentFailure,
            WebhookEventType::Unknown | WebhookEventType::Expired | WebhookEventType::Invalid
            | WebhookEventType::Refunded | WebhookEventType::Resent => IncomingWebhookEvent::EventNotSupported,
        }
    }
}

} // verus!
