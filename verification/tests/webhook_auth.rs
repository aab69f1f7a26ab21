use hmac::{KeyInit, Mac};
use paykit::webhook::WebhookMessage;
use paykit::webhook_auth::WebhookAuthError;

fn hmac_hex(secret: &str, payload: &[u8]) -> String {
    let mut mac = hmac::Hmac::<sha2::Sha256>::new_from_slice(secret.as_bytes()).unwrap();
    mac.update(payload);
    hex::encode(mac.finalize().into_bytes())
}

fn msg(headers: Vec<(&str, String)>, body: &[u8]) -> WebhookMessage {
    WebhookMessage {
        endpoint: "/hook".to_string(),
        body: body.to_vec(),
        headers: headers
            .into_iter()
            .map(|(k, v)| (k.to_string(), v))
            .collect(),
    }
}

// Scenario from the timestamped format: the documented secret, timestamp
// and body verify; a junk candidate does not.
#[test]
fn stripe_scenario_valid_signature() {
    let secret = "test_secret";
    let body = b"{\"event\":\"X\"}";
    let sig = hmac_hex(secret, b"1234567890.{\"event\":\"X\"}");
    let m = msg(
        vec![("stripe-signature", format!("t=1234567890,v1={}", sig))],
        body,
    );
    assert_eq!(paykit::fiat::stripe::verify_stripe_webhook(secret, &m), Ok(()));
}

#[test]
fn stripe_scenario_junk_signature() {
    let secret = "test_secret";
    let body = b"{\"event\":\"X\"}";
    let m = msg(
        vec![("stripe-signature", "t=1234567890,v1=deadbeef".to_string())],
        body,
    );
    assert_eq!(
        paykit::fiat::stripe::verify_stripe_webhook(secret, &m),
        Err(WebhookAuthError::NoSignatureMatch)
    );
}

// Any v1 candidate may match: secret rotation keeps older candidates in
// the header.
#[test]
fn stripe_any_candidate_matches() {
    let secret = "s2";
    let body = b"hello";
    let sig = hmac_hex(secret, b"7.hello");
    let m = msg(
        vec![("stripe-signature", format!("t=7,v1=deadbeef,v1={}", sig))],
        body,
    );
    assert_eq!(paykit::fiat::stripe::verify_stripe_webhook(secret, &m), Ok(()));
}

// Mutating the body, the timestamp or the secret after signing breaks
// verification.
#[test]
fn stripe_mutation_fails() {
    let secret = "test_secret";
    let sig = hmac_hex(secret, b"1234567890.{\"event\":\"X\"}");
    let header = format!("t=1234567890,v1={}", sig);

    let wrong_body = msg(
        vec![("stripe-signature", header.clone())],
        b"{\"event\":\"Y\"}",
    );
    assert_eq!(
        paykit::fiat::stripe::verify_stripe_webhook(secret, &wrong_body),
        Err(WebhookAuthError::NoSignatureMatch)
    );

    let wrong_ts = msg(
        vec![("stripe-signature", format!("t=1234567891,v1={}", sig))],
        b"{\"event\":\"X\"}",
    );
    assert_eq!(
        paykit::fiat::stripe::verify_stripe_webhook(secret, &wrong_ts),
        Err(WebhookAuthError::NoSignatureMatch)
    );

    let wrong_secret = msg(
        vec![("stripe-signature", header)],
        b"{\"event\":\"X\"}",
    );
    assert_eq!(
        paykit::fiat::stripe::verify_stripe_webhook("other_secret", &wrong_secret),
        Err(WebhookAuthError::NoSignatureMatch)
    );
}

#[test]
fn stripe_missing_header_and_timestamp() {
    let no_header = msg(vec![], b"x");
    assert_eq!(
        paykit::fiat::stripe::verify_stripe_webhook("s", &no_header),
        Err(WebhookAuthError::MissingSignatureHeader)
    );

    let no_ts = msg(vec![("stripe-signature", "v1=abcd".to_string())], b"x");
    assert_eq!(
        paykit::fiat::stripe::verify_stripe_webhook("s", &no_ts),
        Err(WebhookAuthError::MissingTimestamp)
    );

    let malformed = msg(
        vec![("stripe-signature", "t=1,v1=abcd,junk".to_string())],
        b"x",
    );
    assert_eq!(
        paykit::fiat::stripe::verify_stripe_webhook("s", &malformed),
        Err(WebhookAuthError::MalformedSignatureHeader)
    );
}

// The versioned format reports each missing header under its own name,
// and a present-but-unmatched candidate list as a plain mismatch.
#[test]
fn revolut_missing_headers_are_distinct() {
    let secret = "rs";
    let body = b"{}";

    let no_sig = msg(
        vec![("revolut-request-timestamp", "123".to_string())],
        body,
    );
    assert_eq!(
        paykit::fiat::revolut::verify_revolut_webhook(secret, &no_sig),
        Err(WebhookAuthError::MissingSignatureHeader)
    );

    let no_ts = msg(vec![("revolut-signature", "v1=abcd".to_string())], body);
    assert_eq!(
        paykit::fiat::revolut::verify_revolut_webhook(secret, &no_ts),
        Err(WebhookAuthError::MissingTimestampHeader)
    );

    let both = msg(
        vec![
            ("revolut-signature", "v1=deadbeef".to_string()),
            ("revolut-request-timestamp", "123".to_string()),
        ],
        body,
    );
    assert_eq!(
        paykit::fiat::revolut::verify_revolut_webhook(secret, &both),
        Err(WebhookAuthError::NoSignatureMatch)
    );
}

#[test]
fn revolut_valid_signature() {
    let secret = "rs";
    let body = b"{\"order_id\":\"x\"}";
    let sig = hmac_hex(secret, b"v1.1683650202360.{\"order_id\":\"x\"}");
    let m = msg(
        vec![
            ("revolut-signature", format!("v1={}", sig)),
            ("revolut-request-timestamp", "1683650202360".to_string()),
        ],
        body,
    );
    assert_eq!(paykit::fiat::revolut::verify_revolut_webhook(secret, &m), Ok(()));
}

// The plain format verifies exactly the HMAC of the raw body.
#[test]
fn bitvora_plain_signature() {
    let secret = "bs";
    let body = b"{\"amount\":1}";
    let sig = hmac_hex(secret, body);
    let good = msg(vec![("bitvora-signature", sig.clone())], body);
    assert_eq!(paykit::lightning::bitvora::verify_webhook(secret, &good), Ok(()));

    let tampered = msg(vec![("bitvora-signature", sig)], b"{\"amount\":2}");
    assert_eq!(
        paykit::lightning::bitvora::verify_webhook(secret, &tampered),
        Err(WebhookAuthError::NoSignatureMatch)
    );
}

// An empty body is handled without panic: it verifies under the HMAC of
// the empty string, and fails gracefully otherwise.
#[test]
fn empty_body_is_handled() {
    let secret = "s";
    let sig = hmac_hex(secret, b"");
    let good = msg(vec![("bitvora-signature", sig)], b"");
    assert_eq!(paykit::lightning::bitvora::verify_webhook(secret, &good), Ok(()));

    let bad = msg(vec![("bitvora-signature", "00".to_string())], b"");
    assert_eq!(
        paykit::lightning::bitvora::verify_webhook(secret, &bad),
        Err(WebhookAuthError::NoSignatureMatch)
    );

    let stripe_empty = msg(
        vec![("stripe-signature", "t=1,v1=00".to_string())],
        b"",
    );
    assert_eq!(
        paykit::fiat::stripe::verify_stripe_webhook(secret, &stripe_empty),
        Err(WebhookAuthError::NoSignatureMatch)
    );
}

// Verifiers are pure: the same inputs give the same answer twice.
#[test]
fn verifiers_are_idempotent() {
    let secret = "test_secret";
    let body = b"{\"event\":\"X\"}";
    let sig = hmac_hex(secret, b"1.{\"event\":\"X\"}");
    let m = msg(vec![("stripe-signature", format!("t=1,v1={}", sig))], body);
    let first = paykit::fiat::stripe::verify_stripe_webhook(secret, &m);
    let second = paykit::fiat::stripe::verify_stripe_webhook(secret, &m);
    assert_eq!(first, second);
    assert_eq!(first, Ok(()));

    let bad = msg(vec![("bitvora-signature", "ff".to_string())], body);
    let b1 = paykit::lightning::bitvora::verify_webhook(secret, &bad);
    let b2 = paykit::lightning::bitvora::verify_webhook(secret, &bad);
    assert_eq!(b1, b2);
}

#[test]
fn error_messages_name_the_failure() {
    assert_eq!(
        WebhookAuthError::MissingSignatureHeader.message(),
        "missing signature header"
    );
    assert_eq!(
        WebhookAuthError::MissingTimestampHeader.message(),
        "missing timestamp header"
    );
    assert_eq!(
        WebhookAuthError::NoSignatureMatch.message(),
        "no valid signature found"
    );
}
