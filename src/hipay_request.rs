//! Building Hipay's order, maintenance and tokenisation requests.
use vstd::prelude::*;
use vstd::string::*;

use crate::hipay::Operation;
use crate::router_data::{ConnectorAuthType, ConnectorError, RequiredField, UnsupportedMethod};

verus! {

/// Card networks as the payment data names them.
#[derive(Debug, Clone, Copy, PartialEq, Eq, Structural)]
pub enum CardNetwork {
    Visa,
    Mastercard,
    AmericanExpress,
    JCB,
    DinersClub,
    Discover,
    CartesBancaires,
    UnionPay,
    Interac,
    RuPay,
    Maestro,
    Star,
    Accel,
    Pulse,
    Nyce,
}

/// Hipay's product code for a card network named by the payment data.
pub open spec fn spec_card_network_product(network: Option<CardNetwork>) -> Seq<char> {
    match network {
        Some(CardNetwork::Visa) => "visa"@,
        Some(CardNetwork::Mastercard) => "mastercard"@,
        Some(CardNetwork::AmericanExpress) => "american-express"@,
        Some(CardNetwork::JCB) => "jcb"@,
        Some(CardNetwork::DinersClub) => "diners"@,
        Some(CardNetwork::Discover) => "discover"@,
        Some(CardNetwork::CartesBancaires) => "cb"@,
        Some(CardNetwork::UnionPay) => "unionpay"@,
        Some(CardNetwork::Interac) => "interac"@,
        Some(CardNetwork::RuPay) => "rupay"@,
        Some(CardNetwork::Maestro) => "maestro"@,
        _ => ""@,
    }
}

/// Hipay's product code for a brand name Hipay reported at tokenisation,
/// where it knows one.
pub open spec fn spec_brand_product(brand: Seq<char>) -> Option<Seq<char>> {
    if brand == "VISA"@ {
        Some("visa"@)
    } else if brand == "MASTERCARD"@ {
        Some("mastercard"@)
    } else if brand == "MAESTRO"@ {
        Some("maestro"@)
    } else if brand == "AMERICAN EXPRESS"@ {
        Some("american-express"@)
    } else if brand == "CB"@ {
        Some("cb"@)
    } else if brand == "BCMC"@ {
        Some("bcmc"@)
    } else {
        None
    }
}

/// The product of an order: the domestic network where tokenisation gave
/// one, else the brand tokenisation gave where Hipay knows it, else the
/// card network of the payment data.
pub open spec fn spec_payment_product(
    domestic_network: Option<String>,
    brand: Option<String>,
    card_network: Option<CardNetwork>,
) -> Seq<char> {
    match domestic_network {
        Some(d) => d@,
        None => match brand {
            Some(b) => match spec_brand_product(b@) {
                Some(p) => p,
                None => spec_card_network_product(card_network),
            },
            None => spec_card_network_product(card_network),
        },
    }
}

fn card_network_product(network: Option<CardNetwork>) -> (r: String)
    ensures
        r@ == spec_card_network_product(network),
{
    match network {
        Some(CardNetwork::Visa) => String::from_str("visa"),
        Some(CardNetwork::Mastercard) => String::from_str("mastercard"),
        Some(CardNetwork::AmericanExpress) => String::from_str("american-express"),
        Some(CardNetwork::JCB) => String::from_str("jcb"),
        Some(CardNetwork::DinersClub) => String::from_str("diners"),
        Some(CardNetwork::Discover) => String::from_str("discover"),
        Some(CardNetwork::CartesBancaires) => String::from_str("cb"),
        Some(CardNetwork::UnionPay) => String::from_str("unionpay"),
        Some(CardNetwork::Interac) => String::from_str("interac"),
        Some(CardNetwork::RuPay) => String::from_str("rupay"),
        Some(CardNetwork::Maestro) => String::from_str("maestro"),
        _ => {
            proof {
                reveal_strlit("");
            }
            String::new()
        },
    }
}

fn brand_product(brand: &String) -> (r: Option<String>)
    ensures
        match (r, spec_brand_product(brand@)) {
            (Some(a), Some(b)) => a@ == b,
            (None, None) => true,
            _ => false,
        },
{
    if *brand == String::from_str("VISA") {
        Some(String::from_str("visa"))
    } else if *brand == String::from_str("MASTERCARD") {
        Some(String::from_str("mastercard"))
    } else if *brand == String::from_str("MAESTRO") {
        Some(String::from_str("maestro"))
    } else if *brand == String::from_str("AMERICAN EXPRESS") {
        Some(String::from_str("american-express"))
    } else if *brand == String::from_str("CB") {
        Some(String::from_str("cb"))
    } else if *brand == String::from_str("BCMC") {
        Some(String::from_str("bcmc"))
    } else {
        None
    }
}

/// The product code of an order.
pub fn payment_product(domestic_network: Option<String>, brand: Option<String>, card_network: Option<CardNetwork>) -> (r:
    String)
    ensures
        r@ == spec_payment_product(domestic_network, brand, card_network),
{
    match domestic_network {
        Some(d) => d,
        None => match &brand {
            Some(b) => match brand_product(b) {
                Some(p) => p,
                None => card_network_product(card_network),
            },
            None => card_network_product(card_network),
        },
    }
}

/// The token the vault holds for the payment method.
#[derive(Debug, Clone, PartialEq, Eq)]
pub enum PaymentMethodToken {
    Token(String),
    ApplePayDecrypt,
    PazeDecrypt,
    GooglePayDecrypt,
}

/// The customer's browser, as the payment records it.
#[derive(Debug, Clone, PartialEq, Eq)]
pub struct BrowserInformation {
    pub java_enabled: Option<bool>,
    pub java_script_enabled: Option<bool>,
    pub ip_address: Option<String>,
    pub user_agent: Option<String>,
    pub language: Option<String>,
    pub color_depth: Option<u8>,
    pub screen_height: Option<u32>,
    pub screen_width: Option<u32>,
    pub time_zone: Option<i32>,
}

/// The customer's browser, as Hipay takes it.
#[derive(Debug, Clone, PartialEq, Eq)]
pub struct HipayBrowserInfo {
    pub java_enabled: Option<bool>,
    pub javascript_enabled: Option<bool>,
    pub ipaddr: Option<String>,
    pub http_accept: String,
    pub http_user_agent: Option<String>,
    pub language: Option<String>,
    pub color_depth: Option<u8>,
    pub screen_height: Option<u32>,
    pub screen_width: Option<u32>,
    pub timezone: Option<i32>,
}

pub open spec fn browser_info_from(b: BrowserInformation, r: HipayBrowserInfo) -> bool {
    &&& r.java_enabled == b.java_enabled
    &&& r.javascript_enabled == b.java_script_enabled
    &&& r.ipaddr == b.ip_address
    &&& r.http_accept@ == "*/*"@
    &&& r.http_user_agent == b.user_agent
    &&& r.language == b.language
    &&& r.color_depth == b.color_depth
    &&& r.screen_height == b.screen_height
    &&& r.screen_width == b.screen_width
    &&& r.timezone == b.time_zone
}

impl HipayBrowserInfo {
    /// The browser as Hipay takes it; any content type is accepted.
    pub fn from_browser_information(b: BrowserInformation) -> (r: HipayBrowserInfo)
        ensures
            browser_info_from(b, r),
    {
        HipayBrowserInfo {
            java_enabled: b.java_enabled,
            javascript_enabled: b.java_script_enabled,
            ipaddr: b.ip_address,
            http_accept: String::from_str("*/*"),
            http_user_agent: b.user_agent,
            language: b.language,
            color_depth: b.color_depth,
            screen_height: b.screen_height,
            screen_width: b.screen_width,
            timezone: b.time_zone,
        }
    }
}

/// The billing address of the payment.
#[derive(Debug, Clone, PartialEq, Eq)]
pub struct BillingAddress {
    pub first_name: Option<String>,
    pub last_name: Option<String>,
    pub line1: Option<String>,
    pub city: Option<String>,
    pub zip: Option<String>,
    pub state: Option<String>,
    pub country: Option<String>,
}

/// The 3-D Secure details of an order.
#[derive(Debug, Clone, PartialEq, Eq)]
pub struct ThreeDSPaymentData {
    pub firstname: Option<String>,
    pub lastname: Option<String>,
    pub email: Option<String>,
    pub streetaddress: Option<String>,
    pub city: Option<String>,
    pub zipcode: Option<String>,
    pub state: Option<String>,
    pub country: Option<String>,
    pub browser_info: Option<HipayBrowserInfo>,
}

/// What an authorisation reads from the payment.
#[derive(Debug, Clone, PartialEq, Eq)]
pub struct HipayAuthorizeData {
    /// The amount in major units, as Hipay writes it.
    pub amount: String,
    pub currency: String,
    /// The payment method is a card.
    pub is_card: bool,
    pub card_network: Option<CardNetwork>,
    pub auto_capture: bool,
    pub is_three_ds: bool,
    pub payment_method_token: Option<PaymentMethodToken>,
    pub connector_request_reference_id: String,
    /// The brand Hipay reported when the card was tokenised.
    pub connector_card_network: Option<String>,
    /// The domestic network Hipay reported when the card was tokenised.
    pub domestic_network: Option<String>,
    pub description: Option<String>,
    pub router_return_url: Option<String>,
    pub billing_address: Option<BillingAddress>,
    pub billing_email: Option<String>,
    pub email: Option<String>,
    pub browser_info: Option<BrowserInformation>,
}

/// A Hipay order request.
#[derive(Debug, Clone, PartialEq, Eq)]
pub struct HipayPaymentsRequest {
    pub operation: Operation,
    pub authentication_indicator: u8,
    pub cardtoken: String,
    pub orderid: String,
    pub currency: String,
    pub payment_product: String,
    pub amount: String,
    pub description: String,
    pub decline_url: Option<String>,
    pub pending_url: Option<String>,
    pub cancel_url: Option<String>,
    pub accept_url: Option<String>,
    pub notify_url: Option<String>,
    pub three_ds_data: Option<ThreeDSPaymentData>,
}

/// Why an order cannot be built from the payment, checked in this order:
/// a payment method other than a card, a missing or unsupported token, then,
/// for 3-D Secure, a missing billing address, email or browser.
pub open spec fn spec_authorize_failure(d: HipayAuthorizeData) -> Option<ConnectorError> {
    if !d.is_card {
        Some(ConnectorError::NotImplemented(UnsupportedMethod::PaymentMethod))
    } else {
        match d.payment_method_token {
            None => Some(ConnectorError::MissingRequiredField(RequiredField::PaymentMethodToken)),
            Some(PaymentMethodToken::ApplePayDecrypt) => Some(ConnectorError::NotImplemented(UnsupportedMethod::ApplePay)),
            Some(PaymentMethodToken::PazeDecrypt) => Some(ConnectorError::NotImplemented(UnsupportedMethod::Paze)),
            Some(PaymentMethodToken::GooglePayDecrypt) => Some(
                ConnectorError::NotImplemented(UnsupportedMethod::GooglePay),
            ),
            Some(PaymentMethodToken::Token(_)) => if !d.is_three_ds {
                None
            } else if d.billing_address is None {
                Some(ConnectorError::MissingRequiredField(RequiredField::BillingAddress))
            } else if d.billing_email is None && d.email is None {
                Some(ConnectorError::MissingRequiredField(RequiredField::Email))
            } else if d.browser_info is None {
                Some(ConnectorError::MissingRequiredField(RequiredField::BrowserInfo))
            } else {
                None
            },
        }
    }
}

/// The 3-D Secure details: the billing address, the billing email or else
/// the customer's, and the browser.
pub open spec fn three_ds_data_from(d: HipayAuthorizeData, t: ThreeDSPaymentData) -> bool {
    let a = d.billing_address->Some_0;
    &&& t.firstname == a.first_name
    &&& t.lastname == a.last_name
    &&& t.email == (if d.billing_email is Some { d.billing_email } else { d.email })
    &&& t.streetaddress == a.line1
    &&& t.city == a.city
    &&& t.zipcode == a.zip
    &&& t.state == a.state
    &&& t.country == a.country
    &&& t.browser_info matches Some(b) && browser_info_from(d.browser_info->Some_0, b)
}

/// The order built from a payment that passes every check.
pub open spec fn request_from(d: HipayAuthorizeData, r: HipayPaymentsRequest) -> bool {
    &&& r.operation == (if d.auto_capture { Operation::Sale } else { Operation::Authorization })
    &&& r.authentication_indicator == (if d.is_three_ds { 2u8 } else { 0u8 })
    &&& d.payment_method_token == Some(PaymentMethodToken::Token(r.cardtoken))
    &&& r.orderid == d.connector_request_reference_id
    &&& r.currency == d.currency
    &&& r.payment_product@ == spec_payment_product(d.domestic_network, d.connector_card_network, d.card_network)
    &&& r.amount == d.amount
    &&& r.description@ == (match d.description {
        Some(s) => s@,
        None => "Short Description"@,
    })
    &&& r.decline_url == d.router_return_url
    &&& r.pending_url == d.router_return_url
    &&& r.cancel_url == d.router_return_url
    &&& r.accept_url == d.router_return_url
    &&& r.notify_url == d.router_return_url
    &&& (d.is_three_ds ==> (r.three_ds_data matches Some(t) && three_ds_data_from(d, t)))
    &&& (!d.is_three_ds ==> r.three_ds_data is None)
}

fn copy_text(o: &Option<String>) -> (r: Option<String>)
    ensures
        r == *o,
{
    match o {
        Some(s) => Some(s.clone()),
        None => None,
    }
}

impl HipayPaymentsRequest {
    /// Builds the order request of an authorisation.
    pub fn from_authorize_data(d: HipayAuthorizeData) -> (r: Result<HipayPaymentsRequest, ConnectorError>)
        ensures
            match spec_authorize_failure(d) {
                Some(e) => r == Err::<HipayPaymentsRequest, ConnectorError>(e),
                None => r matches Ok(req) && request_from(d, req),
            },
    {
        let ghost d0 = d;
        if !d.is_card {
            return Err(ConnectorError::NotImplemented(UnsupportedMethod::PaymentMethod));
        }
        let cardtoken = match d.payment_method_token {
            None => {
                return Err(ConnectorError::MissingRequiredField(RequiredField::PaymentMethodToken));
            },
            Some(PaymentMethodToken::Token(token)) => token,
            Some(PaymentMethodToken::ApplePayDecrypt) => {
                return Err(ConnectorError::NotImplemented(UnsupportedMethod::ApplePay));
            },
            Some(PaymentMethodToken::PazeDecrypt) => {
                return Err(ConnectorError::NotImplemented(UnsupportedMethod::Paze));
            },
            Some(PaymentMethodToken::GooglePayDecrypt) => {
                return Err(ConnectorError::NotImplemented(UnsupportedMethod::GooglePay));
            },
        };
        let three_ds_data = if d.is_three_ds {
            let billing = match d.billing_address {
                Some(a) => a,
                None => {
                    return Err(ConnectorError::MissingRequiredField(RequiredField::BillingAddress));
                },
            };
            let email = match d.billing_email {
                Some(e) => e,
                None => match d.email {
                    Some(e) => e,
                    None => {
                        return Err(ConnectorError::MissingRequiredField(RequiredField::Email));
                    },
                },
            };
            let browser = match d.browser_info {
                Some(b) => b,
                None => {
                    return Err(ConnectorError::MissingRequiredField(RequiredField::BrowserInfo));
                },
            };
            Some(
                ThreeDSPaymentData {
                    firstname: billing.first_name,
                    lastname: billing.last_name,
                    email: Some(email),
                    streetaddress: billing.line1,
                    city: billing.city,
                    zipcode: billing.zip,
                    state: billing.state,
                    country: billing.country,
                    browser_info: Some(HipayBrowserInfo::from_browser_information(browser)),
                },
            )
        } else {
            None
        };
        let description = match d.description {
            Some(s) => s,
            None => String::from_str("Short Description"),
        };
        Ok(
            HipayPaymentsRequest {
                operation: if d.auto_capture {
                    Operation::Sale
                } else {
                    Operation::Authorization
                },
                authentication_indicator: if d.is_three_ds {
                    2
                } else {
                    0
                },
                cardtoken,
                orderid: d.connector_request_reference_id,
                currency: d.currency,
                payment_product: payment_product(d.domestic_network, d.connector_card_network, d.card_network),
                amount: d.amount,
                description,
                decline_url: copy_text(&d.router_return_url),
                pending_url: copy_text(&d.router_return_url),
                cancel_url: copy_text(&d.router_return_url),
                accept_url: copy_text(&d.router_return_url),
                notify_url: d.router_return_url,
                three_ds_data,
            },
        )
    }
}

/// An amount in Hipay's units paired with the data of a request.
#[derive(Debug, Clone, PartialEq, Eq)]
pub struct HipayRouterData<T> {
    pub amount: String,
    pub router_data: T,
}

impl<T> From<(String, T)> for HipayRouterData<T> {
    fn from(pair: (String, T)) -> (r: HipayRouterData<T>) {
        let (amount, router_data) = pair;
        HipayRouterData { amount, router_data }
    }
}

impl<T> vstd::std_specs::convert::FromSpecImpl<(String, T)> for HipayRouterData<T> {
    open spec fn obeys_from_spec() -> bool {
        true
    }

    open spec fn from_spec(v: (String, T)) -> HipayRouterData<T> {
        HipayRouterData { amount: v.0, router_data: v.1 }
    }
}

/// Hipay's credentials: an API key and a second key.
#[derive(Debug, Clone, PartialEq, Eq)]
pub struct HipayAuthType {
    pub api_key: String,
    pub key1: String,
}

impl HipayAuthType {
    /// Hipay takes body-key credentials only.
    pub fn from_auth_type(auth_type: &ConnectorAuthType) -> (r: Result<HipayAuthType, ConnectorError>)
        ensures
            match *auth_type {
                ConnectorAuthType::BodyKey { api_key, key1 } => r == Ok::<HipayAuthType, ConnectorError>(
                    HipayAuthType { api_key, key1 },
                ),
                _ => r == Err::<HipayAuthType, ConnectorError>(ConnectorError::FailedToObtainAuthType),
            },
    {
        match auth_type {
            ConnectorAuthType::BodyKey { api_key, key1 } => Ok(
                HipayAuthType { api_key: api_key.clone(), key1: key1.clone() },
            ),
            _ => Err(ConnectorError::FailedToObtainAuthType),
        }
    }
}

/// A Hipay capture, cancel or refund request.
#[derive(Debug, Clone, PartialEq, Eq)]
pub struct HipayMaintenanceRequest {
    pub operation: Operation,
    pub currency: Option<String>,
    pub amount: Option<String>,
}

impl HipayMaintenanceRequest {
    /// A refund of `amount`.
    pub fn refund(amount: String, currency: String) -> (r: HipayMaintenanceRequest)
        ensures
            r == (HipayMaintenanceRequest { operation: Operation::Refund, currency: Some(currency), amount: Some(amount) }),
    {
        HipayMaintenanceRequest { operation: Operation::Refund, currency: Some(currency), amount: Some(amount) }
    }

    /// A capture of `amount`.
    pub fn capture(amount: String, currency: String) -> (r: HipayMaintenanceRequest)
        ensures
            r == (HipayMaintenanceRequest { operation: Operation::Capture, currency: Some(currency), amount: Some(amount) }),
    {
        HipayMaintenanceRequest { operation: Operation::Capture, currency: Some(currency), amount: Some(amount) }
    }

    /// A cancellation; it carries no amount.
    pub fn cancel(currency: Option<String>) -> (r: HipayMaintenanceRequest)
        ensures
            r == (HipayMaintenanceRequest { operation: Operation::Cancel, currency, amount: None }),
    {
        HipayMaintenanceRequest { operation: Operation::Cancel, currency, amount: None }
    }
}

/// Hipay's answer to a tokenisation request.
#[derive(Debug, Clone, PartialEq, Eq)]
pub struct HipayTokenResponse {
    pub token: String,
    pub brand: String,
    pub domestic_network: Option<String>,
}

/// Card details learnt from the connector.
#[derive(Debug, Clone, PartialEq, Eq)]
pub struct CardNetworkDetails {
    pub card_network: Option<String>,
    pub domestic_network: Option<String>,
}

impl HipayTokenResponse {
    /// The card details a tokenisation reports: its brand and domestic
    /// network.
    pub fn card_details(&self) -> (r: CardNetworkDetails)
        ensures
            r == (CardNetworkDetails { card_network: Some(self.brand), domestic_network: self.domestic_network }),
    {
        CardNetworkDetails { card_network: Some(self.brand.clone()), domestic_network: copy_text(&self.domestic_network) }
    }
}

/// What a tokenisation reads from the payment.
#[derive(Debug, Clone, PartialEq, Eq)]
pub struct HipayTokenizationData {
    /// The payment method is a card.
    pub is_card: bool,
    pub card_number: String,
    pub card_exp_month: String,
    pub card_exp_year: String,
    pub card_cvc: String,
    pub billing_full_name: Option<String>,
}

/// A Hipay tokenisation request.
#[derive(Debug, Clone, PartialEq, Eq)]
pub struct HiPayTokenRequest {
    pub card_number: String,
    pub card_expiry_month: String,
    pub card_expiry_year: String,
    pub card_holder: String,
    pub cvc: String,
}

/// A card's expiry year with four digits: a two-digit year is taken to be
/// in the 2000s.
pub open spec fn spec_expiry_year_4_digit(year: Seq<char>) -> Seq<char> {
    if year.len() == 2 {
        "20"@ + year
    } else {
        year
    }
}

/// The expiry year with four digits.
pub fn expiry_year_4_digit(year: &str) -> (r: String)
    ensures
        r@ == spec_expiry_year_4_digit(year@),
{
    if year.unicode_len() == 2 {
        let mut full = String::from_str("20");
        full.append(year);
        full
    } else {
        year.to_owned()
    }
}

impl HiPayTokenRequest {
    /// Builds the tokenisation request of a card payment.
    pub fn from_tokenization_data(d: HipayTokenizationData) -> (r: Result<HiPayTokenRequest, ConnectorError>)
        ensures
            !d.is_card ==> r == Err::<HiPayTokenRequest, ConnectorError>(
                ConnectorError::NotImplemented(UnsupportedMethod::PaymentMethod),
            ),
            d.is_card && d.billing_full_name is None ==> r == Err::<HiPayTokenRequest, ConnectorError>(
                ConnectorError::MissingRequiredField(RequiredField::BillingName),
            ),
            d.is_card && d.billing_full_name is Some ==> (r matches Ok(t) && t.card_number == d.card_number
                && t.card_expiry_month == d.card_exp_month && t.card_expiry_year@ == spec_expiry_year_4_digit(
                d.card_exp_year@,
            ) && Some(t.card_holder) == d.billing_full_name && t.cvc == d.card_cvc),
    {
        if !d.is_card {
            return Err(ConnectorError::NotImplemented(UnsupportedMethod::PaymentMethod));
        }
        let card_expiry_year = expiry_year_4_digit(d.card_exp_year.as_str());
        let card_holder = match d.billing_full_name {
            Some(n) => n,
            None => {
                return Err(ConnectorError::MissingRequiredField(RequiredField::BillingName));
            },
        };
        Ok(
            HiPayTokenRequest {
                card_number: d.card_number,
                card_expiry_month: d.card_exp_month,
                card_expiry_year,
                card_holder,
                cvc: d.card_cvc,
            },
        )
    }
}

} // verus!
