//! Stripe integration: request paths, payment-intent building, order
//! cancelation planning and webhook verification.
//!
//! Stripe authenticates outgoing calls with a bearer key over a
//! form-encoded API, and signs its webhooks in the timestamped format:
//! one `stripe-signature` header holding `t=<timestamp>` and one or more
//! `v1=<signature>` candidates over `<timestamp>.<body>`.

use vstd::prelude::*;
use vstd::string::StringExecFns;
use vstd::string::StringSliceAdditionalSpecFns;
use crate::currency::{Currency, CurrencyAmount};
use crate::fiat::FiatError;
use crate::json_api::spec_url_normalize;
use crate::text::{has_prefix, spec_has_prefix, spec_u64_dec, u64_to_dec};
use crate::webhook::WebhookMessage;
use crate::webhook_auth::{spec_verify_timestamped, verify_timestamped, WebhookAuthError};

verus! {

/// Configuration for the Stripe API.
#[derive(Debug, Clone)]
pub struct StripeConfig {
    /// Base URL; the production API when absent.
    pub url: Option<String>,
    /// Secret API key, sent as a bearer token.
    pub api_key: String,
    /// Secret for verifying incoming webhook events.
    pub webhook_secret: Option<String>,
}

/// The Stripe API client: base URL, API key, webhook secret. The
/// transport (form-encoded requests over HTTP) lives in the unverified
/// shell; the paths and bodies it sends are built here.
pub struct StripeApi {
    base: String,
    api_key: String,
    webhook_secret: Option<String>,
}

impl StripeApi {
    /// The production base URL, used when the configuration names none.
    pub open spec fn spec_default_url() -> Seq<char> {
        "https://api.stripe.com"@
    }

    pub closed spec fn spec_base(&self) -> Seq<char> {
        self.base@
    }

    pub closed spec fn spec_api_key(&self) -> Seq<char> {
        self.api_key@
    }

    pub closed spec fn spec_webhook_secret(&self) -> Option<Seq<char>> {
        match self.webhook_secret {
            Some(s) => Some(s@),
            None => None,
        }
    }

    /// Build the client from its configuration; fails when the base URL
    /// does not parse.
    pub fn new(config: StripeConfig) -> (r: Result<Self, ()>)
        ensures
            ({
                let base = match config.url {
                    Some(u) => u@,
                    None => Self::spec_default_url(),
                };
                &&& r is Ok <==> spec_url_normalize(base) is Some
                &&& r matches Ok(c) ==> {
                    &&& spec_url_normalize(base) == Some(c.spec_base())
                    &&& c.spec_api_key() == config.api_key@
                    &&& c.spec_webhook_secret() == match config.webhook_secret {
                        Some(s) => Some(s@),
                        None => None::<Seq<char>>,
                    }
                }
            }),
    {
        let base = match config.url {
            Some(u) => u,
            None => "https://api.stripe.com".to_owned(),
        };
        let base = match crate::json_api::url_normalize(base.as_str()) {
            Some(u) => u,
            None => return Err(()),
        };
        Ok(StripeApi { base, api_key: config.api_key, webhook_secret: config.webhook_secret })
    }

    /// The normalized base URL.
    pub fn base(&self) -> (r: &String)
        ensures
            r@ == self.spec_base(),
    {
        &self.base
    }

    /// The `authorization` header value for outgoing calls.
    pub fn auth_header(&self) -> (r: String)
        ensures
            r@ == "Bearer "@ + self.spec_api_key(),
    {
        "Bearer ".to_owned().concat(self.api_key.as_str())
    }

    /// The webhook verification secret, for use with
    /// [`verify_stripe_webhook`].
    pub fn webhook_secret(&self) -> (r: Option<&String>)
        ensures
            match r {
                Some(s) => self.spec_webhook_secret() == Some(s@),
                None => self.spec_webhook_secret() is None,
            },
    {
        self.webhook_secret.as_ref()
    }

    /// The collection path for webhook endpoints.
    pub fn webhooks_path() -> (r: &'static str)
        ensures
            r@ == "/v1/webhook_endpoints"@,
    {
        "/v1/webhook_endpoints"
    }

    /// The path of one webhook endpoint.
    pub fn webhook_path(webhook_id: &str) -> (r: String)
        ensures
            r@ == "/v1/webhook_endpoints/"@ + webhook_id@,
    {
        "/v1/webhook_endpoints/".to_owned().concat(webhook_id)
    }

    /// The collection path for checkout sessions, with an optional page
    /// size.
    pub fn checkout_sessions_path(limit: Option<u64>) -> (r: String)
        ensures
            r@ == match limit {
                Some(n) => "/v1/checkout/sessions?limit="@ + spec_u64_dec(n as nat),
                None => "/v1/checkout/sessions"@,
            },
    {
        match limit {
            Some(n) => "/v1/checkout/sessions?limit=".to_owned().concat(u64_to_dec(n).as_str()),
            None => "/v1/checkout/sessions".to_owned(),
        }
    }

    /// The path of one checkout session.
    pub fn checkout_session_path(session_id: &str) -> (r: String)
        ensures
            r@ == "/v1/checkout/sessions/"@ + session_id@,
    {
        "/v1/checkout/sessions/".to_owned().concat(session_id)
    }

    /// The line-items path of one checkout session.
    pub fn checkout_session_line_items_path(session_id: &str) -> (r: String)
        ensures
            r@ == "/v1/checkout/sessions/"@ + session_id@ + "/line_items"@,
    {
        "/v1/checkout/sessions/".to_owned().concat(session_id).concat("/line_items")
    }

    /// The expire action path of one checkout session.
    pub fn expire_checkout_session_path(session_id: &str) -> (r: String)
        ensures
            r@ == "/v1/checkout/sessions/"@ + session_id@ + "/expire"@,
    {
        "/v1/checkout/sessions/".to_owned().concat(session_id).concat("/expire")
    }

    /// The collection path for payment intents.
    pub fn payment_intents_path() -> (r: &'static str)
        ensures
            r@ == "/v1/payment_intents"@,
    {
        "/v1/payment_intents"
    }

    /// The path of one payment intent.
    pub fn payment_intent_path(payment_intent_id: &str) -> (r: String)
        ensures
            r@ == "/v1/payment_intents/"@ + payment_intent_id@,
    {
        "/v1/payment_intents/".to_owned().concat(payment_intent_id)
    }

    /// The cancel action path of one payment intent.
    pub fn cancel_payment_intent_path(payment_intent_id: &str) -> (r: String)
        ensures
            r@ == "/v1/payment_intents/"@ + payment_intent_id@ + "/cancel"@,
    {
        "/v1/payment_intents/".to_owned().concat(payment_intent_id).concat("/cancel")
    }

    /// Build the create-payment-intent body: the amount in minor units,
    /// the lower-case currency code, automatic payment methods enabled
    /// and immediate confirmation requested. Bitcoin amounts are refused:
    /// Stripe charges fiat only.
    pub fn payment_intent_request(amount: CurrencyAmount, description: Option<String>) -> (r:
        Result<CreatePaymentIntentRequest, FiatError>)
        ensures
            r is Ok <==> amount.0 != Currency::BTC,
            r matches Ok(q) ==> {
                &&& q.amount == amount.1
                &&& q.currency@ == amount.0.spec_code_lower()
                &&& q.description == description
                &&& q.automatic_payment_methods matches Some(m) && m@.len() == 1 && m@[0].0@
                    == "enabled"@ && m@[0].1@ == "true"@
                &&& q.confirm == Some(true)
            },
            r matches Err(e) ==> e == FiatError::BitcoinNotAllowed,
    {
        if matches!(amount.currency(), Currency::BTC) {
            return Err(FiatError::BitcoinNotAllowed);
        }
        let mut methods: Vec<(String, String)> = Vec::new();
        methods.push(("enabled".to_owned(), "true".to_owned()));
        Ok(CreatePaymentIntentRequest {
            amount: amount.value(),
            currency: amount.currency().code_lower(),
            description,
            automatic_payment_methods: Some(methods),
            confirm: Some(true),
        })
    }
}

/// How to cancel a payment, decided from the shape of its id.
#[derive(Copy, Clone, Debug, PartialEq, Eq, Structural)]
pub enum CancelPlan {
    /// A `pi_` id: cancel the payment intent.
    CancelPaymentIntent,
    /// A `cs_` id: expire the checkout session.
    ExpireCheckoutSession,
    /// Neither prefix: try the payment intent first, fall back to
    /// expiring the session.
    TryBoth,
}

/// Decide how to cancel from the id's prefix.
pub fn cancel_plan(id: &str) -> (r: CancelPlan)
    ensures
        spec_has_prefix(id@, "pi_"@) ==> r == CancelPlan::CancelPaymentIntent,
        !spec_has_prefix(id@, "pi_"@) && spec_has_prefix(id@, "cs_"@) ==> r
            == CancelPlan::ExpireCheckoutSession,
        !spec_has_prefix(id@, "pi_"@) && !spec_has_prefix(id@, "cs_"@) ==> r == CancelPlan::TryBoth,
{
    if has_prefix(id, "pi_") {
        CancelPlan::CancelPaymentIntent
    } else if has_prefix(id, "cs_") {
        CancelPlan::ExpireCheckoutSession
    } else {
        CancelPlan::TryBoth
    }
}

/// Verify a Stripe webhook delivery: timestamped format, the
/// `stripe-signature` header.
pub fn verify_stripe_webhook(secret: &str, msg: &WebhookMessage) -> (r: Result<
    (),
    WebhookAuthError,
>)
    ensures
        r == spec_verify_timestamped(secret.spec_bytes(), msg@, "stripe-signature"@),
{
    verify_timestamped(secret, msg, "stripe-signature")
}

/// The create-webhook call body.
#[derive(Debug, Clone)]
pub struct CreateWebhookRequest {
    pub url: String,
    pub enabled_events: Vec<String>,
}

/// A registered webhook endpoint.
#[derive(Debug, Clone)]
pub struct StripeWebhook {
    pub id: String,
    pub object: String,
    pub url: String,
    pub enabled_events: Vec<String>,
    pub secret: Option<String>,
    pub status: String,
    pub livemode: bool,
}

/// One page of webhook endpoints.
#[derive(Debug, Clone)]
pub struct StripeWebhookList {
    pub object: String,
    pub data: Vec<StripeWebhook>,
    pub has_more: bool,
}

/// A recurring-price interval.
#[derive(Debug, Clone)]
pub struct RecurringData {
    /// One of `day`, `week`, `month`, `year`.
    pub interval: String,
    pub interval_count: Option<u64>,
}

/// The create-payment-intent call body.
#[derive(Debug, Clone)]
pub struct CreatePaymentIntentRequest {
    pub amount: u64,
    pub currency: String,
    pub description: Option<String>,
    pub automatic_payment_methods: Option<Vec<(String, String)>>,
    pub confirm: Option<bool>,
}

/// A payment intent, as Stripe returns it.
#[derive(Debug, Clone)]
pub struct StripePaymentIntent {
    pub id: String,
    pub object: String,
    pub amount: u64,
    pub currency: String,
    pub status: StripePaymentIntentStatus,
    pub description: Option<String>,
    pub client_secret: Option<String>,
    pub customer: Option<String>,
}

/// The lifecycle states of a payment intent.
#[derive(Copy, Clone, Debug, PartialEq, Eq, Structural)]
pub enum StripePaymentIntentStatus {
    RequiresPaymentMethod,
    RequiresConfirmation,
    RequiresAction,
    Processing,
    RequiresCapture,
    Canceled,
    Succeeded,
}

} // verus!
