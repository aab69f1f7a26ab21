//! Revolut Merchant API integration: request signing, order building and
//! webhook verification.
//!
//! Revolut authenticates outgoing calls with a bearer token plus an
//! `revolut-api-version` header, and signs its webhooks in the versioned
//! format: a `revolut-signature` header of `version=hexcode` candidates
//! and a separate `revolut-request-timestamp` header.

use vstd::prelude::*;
use vstd::string::StringExecFns;
use vstd::string::StringSliceAdditionalSpecFns;
use crate::currency::{Currency, CurrencyAmount};
use crate::fiat::FiatError;
use crate::json_api::{ApiError, ApiRequest, HttpMethod, JsonApi, TokenGen};
use crate::webhook::WebhookMessage;
use crate::webhook_auth::{spec_verify_versioned, verify_versioned, WebhookAuthError};

verus! {

/// Configuration for the Revolut Merchant API.
#[derive(Debug, Clone)]
pub struct RevolutConfig {
    /// Base URL; the production API when absent.
    pub url: Option<String>,
    /// Value of the API-version header, a date string.
    pub api_version: String,
    /// Bearer token.
    pub token: String,
    /// Public key, used by front-end checkout widgets.
    pub public_key: String,
}

/// Revolut's signing strategy: a bearer token and the API-version header
/// on every request.
pub struct RevolutTokenGen {
    pub token: String,
    pub api_version: String,
}

impl TokenGen for RevolutTokenGen {
    /// Appends `authorization: Bearer <token>` and the
    /// `revolut-api-version` header, and changes nothing else.
    fn generate_token(
        &self,
        method: HttpMethod,
        url: &str,
        body: Option<&str>,
        req: ApiRequest,
    ) -> (r: Result<ApiRequest, ApiError>)
        ensures
            r matches Ok(q) && q.method == req.method && q.url == req.url && q.body == req.body
                && q.headers@.len() == req.headers@.len() + 2 && q.headers@.subrange(
                0,
                req.headers@.len() as int,
            ) == req.headers@ && q.headers@[q.headers@.len() - 2].0@ == "authorization"@
                && q.headers@[q.headers@.len() - 2].1@ == "Bearer "@ + self.token@
                && q.headers@.last().0@ == "revolut-api-version"@ && q.headers@.last().1@
                == self.api_version@,
    {
        let mut req = req;
        let bearer = "Bearer ".to_owned().concat(self.token.as_str());
        req.headers.push(("authorization".to_owned(), bearer));
        req.headers.push(("revolut-api-version".to_owned(), self.api_version.clone()));
        Ok(req)
    }
}

/// The Revolut Merchant API client: a [`JsonApi`] configured with the
/// Revolut signing strategy.
pub struct RevolutApi {
    pub api: JsonApi,
}

impl RevolutApi {
    /// The production base URL, used when the configuration names none.
    pub open spec fn spec_default_url() -> Seq<char> {
        "https://merchant.revolut.com"@
    }

    /// Build the client from its configuration; fails when the base URL
    /// does not parse.
    pub fn new(config: RevolutConfig) -> (r: Result<Self, ApiError>)
        ensures
            ({
                let base = match config.url {
                    Some(u) => u@,
                    None => Self::spec_default_url(),
                };
                &&& r is Ok <==> crate::json_api::spec_url_normalize(base) is Some
                &&& r matches Ok(c) ==> crate::json_api::spec_url_normalize(base) == Some(
                    c.api.spec_base(),
                ) && c.api.spec_has_token_gen()
            }),
    {
        let token_gen = RevolutTokenGen { token: config.token, api_version: config.api_version };
        let base = match config.url {
            Some(u) => u,
            None => "https://merchant.revolut.com".to_owned(),
        };
        let api = match JsonApi::token_gen(base.as_str(), false, token_gen) {
            Ok(a) => a,
            Err(e) => return Err(e),
        };
        Ok(RevolutApi { api })
    }

    /// The collection path for webhook registrations.
    pub fn webhooks_path() -> (r: &'static str)
        ensures
            r@ == "/api/1.0/webhooks"@,
    {
        "/api/1.0/webhooks"
    }

    /// The path of one webhook registration.
    pub fn webhook_path(webhook_id: &str) -> (r: String)
        ensures
            r@ == "/api/1.0/webhooks/"@ + webhook_id@,
    {
        "/api/1.0/webhooks/".to_owned().concat(webhook_id)
    }

    /// The collection path for orders.
    pub fn orders_path() -> (r: &'static str)
        ensures
            r@ == "/api/orders"@,
    {
        "/api/orders"
    }

    /// The path of one order.
    pub fn order_path(order_id: &str) -> (r: String)
        ensures
            r@ == "/api/orders/"@ + order_id@,
    {
        "/api/orders/".to_owned().concat(order_id)
    }

    /// The cancel action path of one order.
    pub fn cancel_order_path(order_id: &str) -> (r: String)
        ensures
            r@ == "/api/orders/"@ + order_id@ + "/cancel"@,
    {
        "/api/orders/".to_owned().concat(order_id).concat("/cancel")
    }

    /// Build the create-order body. Bitcoin amounts are refused: Revolut
    /// charges fiat only.
    pub fn order_request(amount: CurrencyAmount, description: Option<String>) -> (r: Result<
        CreateOrderRequest,
        FiatError,
    >)
        ensures
            r is Ok <==> amount.0 != Currency::BTC,
            r matches Ok(q) ==> q.amount == amount.1 && q.currency@ == amount.0.spec_code()
                && q.description == description,
            r matches Err(e) ==> e == FiatError::BitcoinNotAllowed,
    {
        if matches!(amount.currency(), Currency::BTC) {
            return Err(FiatError::BitcoinNotAllowed);
        }
        Ok(CreateOrderRequest {
            amount: amount.value(),
            currency: amount.currency().code(),
            description,
        })
    }
}

/// Verify a Revolut webhook delivery: versioned format, candidates in
/// `revolut-signature`, timestamp in `revolut-request-timestamp`.
pub fn verify_revolut_webhook(secret: &str, msg: &WebhookMessage) -> (r: Result<
    (),
    WebhookAuthError,
>)
    ensures
        r == spec_verify_versioned(
            secret.spec_bytes(),
            msg@,
            "revolut-signature"@,
            "revolut-request-timestamp"@,
        ),
{
    verify_versioned(secret, msg, "revolut-signature", "revolut-request-timestamp")
}

/// The create-order call body.
#[derive(Debug, Clone)]
pub struct CreateOrderRequest {
    pub amount: u64,
    pub currency: String,
    pub description: Option<String>,
}

/// A registered webhook endpoint.
#[derive(Debug, Clone)]
pub struct RevolutWebhook {
    pub id: String,
    pub url: String,
    pub events: Vec<RevolutWebhookEvent>,
    pub signing_secret: Option<String>,
}

/// The order events a webhook can subscribe to.
#[derive(Copy, Clone, Debug, PartialEq, Eq, Structural)]
pub enum RevolutWebhookEvent {
    OrderAuthorised,
    OrderCompleted,
    OrderCancelled,
}

/// The create-webhook call body.
#[derive(Debug, Clone)]
pub struct CreateWebhookRequest {
    pub url: String,
    pub events: Vec<RevolutWebhookEvent>,
}

/// How a customer paid.
#[derive(Debug, Clone)]
pub struct RevolutPaymentMethod {
    pub id: Option<String>,
    pub kind: RevolutPaymentMethodType,
    pub card_brand: Option<String>,
    pub funding: Option<String>,
    pub card_country_code: Option<String>,
    pub card_bin: Option<String>,
    pub card_last_four: Option<String>,
    pub card_expiry: Option<String>,
    pub cardholder_name: Option<String>,
}

#[derive(Copy, Clone, Debug, PartialEq, Eq, Structural)]
pub enum RevolutPaymentMethodType {
    ApplePay,
    Card,
    GooglePay,
    RevolutPayCard,
    RevolutPayAccount,
}

#[derive(Copy, Clone, Debug, PartialEq, Eq, Structural)]
pub enum RevolutRiskLevel {
    High,
    Low,
}

#[derive(Debug, Clone)]
pub struct RevolutBillingAddress {
    pub street_line_1: Option<String>,
    pub street_line_2: Option<String>,
    pub region: Option<String>,
    pub city: Option<String>,
    pub country_code: String,
    pub postcode: String,
}

/// The lifecycle states of an order.
#[derive(Copy, Clone, Debug, PartialEq, Eq, Structural)]
pub enum RevolutOrderState {
    Pending,
    Processing,
    Authorised,
    Completed,
    Cancelled,
    Failed,
}

/// The lifecycle states of one payment attempt inside an order.
#[derive(Copy, Clone, Debug, PartialEq, Eq, Structural)]
pub enum RevolutPaymentState {
    Pending,
    AuthenticationChallenge,
    AuthenticationVerified,
    AuthorisationStarted,
    AuthorisationPassed,
    Authorised,
    CaptureStarted,
    Captured,
    RefundValidated,
    RefundStarted,
    CancellationStarted,
    Declining,
    Completing,
    Cancelling,
    Failing,
    Completed,
    Declined,
    SoftDeclined,
    Cancelled,
    Failed,
}

} // verus!
