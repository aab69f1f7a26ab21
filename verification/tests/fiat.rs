use paykit::currency::{Currency, CurrencyAmount};
use paykit::fiat::revolut::{RevolutApi, RevolutConfig};
use paykit::fiat::stripe::{cancel_plan, CancelPlan, StripeApi, StripeConfig};
use paykit::fiat::FiatError;

#[test]
fn revolut_client_uses_default_url() {
    let api = RevolutApi::new(RevolutConfig {
        url: None,
        api_version: "2024-09-01".to_string(),
        token: "SECRET-REDACTED".to_string(),
        public_key: "pk".to_string(),
    })
    .unwrap();
    assert_eq!(api.api.base().as_str(), "https://merchant.revolut.com/");
}

#[test]
fn revolut_paths() {
    assert_eq!(RevolutApi::webhooks_path(), "/api/1.0/webhooks");
    assert_eq!(RevolutApi::webhook_path("w1").as_str(), "/api/1.0/webhooks/w1");
    assert_eq!(RevolutApi::orders_path(), "/api/orders");
    assert_eq!(RevolutApi::order_path("o1").as_str(), "/api/orders/o1");
    assert_eq!(
        RevolutApi::cancel_order_path("o1").as_str(),
        "/api/orders/o1/cancel"
    );
}

#[test]
fn revolut_order_request() {
    let ok = RevolutApi::order_request(
        CurrencyAmount::from_u64(Currency::EUR, 1234),
        Some("desc".to_string()),
    )
    .unwrap();
    assert_eq!(ok.amount, 1234);
    assert_eq!(ok.currency.as_str(), "EUR");
    assert_eq!(ok.description.as_deref(), Some("desc"));

    assert!(matches!(
        RevolutApi::order_request(CurrencyAmount::millisats(1), None),
        Err(FiatError::BitcoinNotAllowed)
    ));
}

#[test]
fn stripe_client_configuration() {
    let api = StripeApi::new(StripeConfig {
        url: None,
        api_key: "SECRET-REDACTED".to_string(),
        webhook_secret: Some("whsec".to_string()),
    })
    .unwrap();
    assert_eq!(api.base().as_str(), "https://api.stripe.com/");
    assert_eq!(api.auth_header().as_str(), "Bearer SECRET-REDACTED");
    assert_eq!(api.webhook_secret().unwrap().as_str(), "whsec");
}

#[test]
fn stripe_paths() {
    assert_eq!(StripeApi::webhooks_path(), "/v1/webhook_endpoints");
    assert_eq!(
        StripeApi::webhook_path("we_1").as_str(),
        "/v1/webhook_endpoints/we_1"
    );
    assert_eq!(
        StripeApi::checkout_sessions_path(None).as_str(),
        "/v1/checkout/sessions"
    );
    assert_eq!(
        StripeApi::checkout_sessions_path(Some(25)).as_str(),
        "/v1/checkout/sessions?limit=25"
    );
    assert_eq!(
        StripeApi::checkout_session_path("cs_1").as_str(),
        "/v1/checkout/sessions/cs_1"
    );
    assert_eq!(
        StripeApi::checkout_session_line_items_path("cs_1").as_str(),
        "/v1/checkout/sessions/cs_1/line_items"
    );
    assert_eq!(
        StripeApi::expire_checkout_session_path("cs_1").as_str(),
        "/v1/checkout/sessions/cs_1/expire"
    );
    assert_eq!(StripeApi::payment_intents_path(), "/v1/payment_intents");
    assert_eq!(
        StripeApi::payment_intent_path("pi_1").as_str(),
        "/v1/payment_intents/pi_1"
    );
    assert_eq!(
        StripeApi::cancel_payment_intent_path("pi_1").as_str(),
        "/v1/payment_intents/pi_1/cancel"
    );
}

#[test]
fn stripe_payment_intent_request() {
    let ok = StripeApi::payment_intent_request(
        CurrencyAmount::from_u64(Currency::USD, 999),
        Some("order 7".to_string()),
    )
    .unwrap();
    assert_eq!(ok.amount, 999);
    assert_eq!(ok.currency.as_str(), "usd");
    assert_eq!(ok.description.as_deref(), Some("order 7"));
    assert_eq!(
        ok.automatic_payment_methods.unwrap(),
        vec![("enabled".to_string(), "true".to_string())]
    );
    assert_eq!(ok.confirm, Some(true));

    assert!(StripeApi::payment_intent_request(CurrencyAmount::millisats(1), None).is_err());
}

#[test]
fn cancel_plan_by_prefix() {
    assert_eq!(cancel_plan("pi_123"), CancelPlan::CancelPaymentIntent);
    assert_eq!(cancel_plan("cs_123"), CancelPlan::ExpireCheckoutSession);
    assert_eq!(cancel_plan("ord_123"), CancelPlan::TryBoth);
    assert_eq!(cancel_plan(""), CancelPlan::TryBoth);
}
