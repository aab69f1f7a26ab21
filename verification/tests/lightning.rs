use paykit::lightning::bitvora::{
    bitvora_invoice_request, bitvora_status_ok, bitvora_update, endpoint_matches,
    BitvoraWebhookEvent,
};
use paykit::lightning::lnd::{
    lnd_invoice_params, map_invoice_state, resume_settle_index, INVOICE_STATE_ACCEPTED,
    INVOICE_STATE_CANCELED, INVOICE_STATE_OPEN, INVOICE_STATE_SETTLED,
};
use paykit::lightning::{AddInvoiceRequest, AddInvoiceResponse, InvoiceUpdate};
use paykit::webhook::WebhookMessage;

// A BOLT11 test invoice ("please consider supporting this project"); its
// payment hash is 0001...0102.
const TEST_INVOICE: &str = "lnbc1pvjluezsp5zyg3zyg3zyg3zyg3zyg3zyg3zyg3zyg3zyg3zyg3zyg3zyg3zygspp5qqqsyqcyq5rqwzqfqqqsyqcyq5rqwzqfqqqsyqcyq5rqwzqfqypqdpl2pkx2ctnv5sxxmmwwd5kgetjypeh2ursdae8g6twvus8g6rfwvs8qun0dfjkxaq9qrsgq357wnc5r2ueh7ck6q93dj32dlqnls087fxdwk8qakdyafkq3yap9us6v52vjjsrvywa6rt52cm9r9zqt8r2t7mlcwspyetp5h2tztugp9lfyql";

const TEST_INVOICE_HASH: &str = "0001020304050607080900010203040506070809000102030405060708090102";

// A failed payment-hash lookup falls back to subscribing from index zero
// instead of failing the subscription.
#[test]
fn resume_falls_back_to_zero() {
    assert_eq!(resume_settle_index(None), 0);
    assert_eq!(resume_settle_index(Some(42)), 42);
}

#[test]
fn lnd_states_map_to_normalized_events() {
    let hash: &[u8] = &[0xab, 0xcd];
    let pre: &[u8] = &[0x01, 0x02];

    match map_invoice_state(INVOICE_STATE_SETTLED, hash, pre, String::new()) {
        InvoiceUpdate::Settled { payment_hash, preimage, external_id } => {
            assert_eq!(payment_hash.as_str(), "abcd");
            assert_eq!(preimage.as_deref(), Some("0102"));
            assert_eq!(external_id, None);
        }
        _ => panic!("settled state must map to Settled"),
    }

    match map_invoice_state(INVOICE_STATE_OPEN, hash, pre, "lnbc1x".to_string()) {
        InvoiceUpdate::Created { payment_hash, payment_request } => {
            assert_eq!(payment_hash.as_str(), "abcd");
            assert_eq!(payment_request.as_str(), "lnbc1x");
        }
        _ => panic!("open state must map to Created"),
    }

    match map_invoice_state(INVOICE_STATE_CANCELED, hash, pre, String::new()) {
        InvoiceUpdate::Canceled { payment_hash } => assert_eq!(payment_hash.as_str(), "abcd"),
        _ => panic!("canceled state must map to Canceled"),
    }

    match map_invoice_state(INVOICE_STATE_ACCEPTED, hash, pre, String::new()) {
        InvoiceUpdate::Unknown { payment_hash } => assert_eq!(payment_hash.as_str(), "abcd"),
        _ => panic!("an untracked state must map to Unknown, not be dropped"),
    }
}

#[test]
fn lnd_invoice_params_defaults() {
    let p = lnd_invoice_params(AddInvoiceRequest { amount: 21000, memo: None, expire: None });
    assert_eq!(p.memo.as_str(), "");
    assert_eq!(p.value_msat, 21000);
    assert_eq!(p.expiry, 3600);

    let q = lnd_invoice_params(AddInvoiceRequest {
        amount: 5,
        memo: Some("coffee".to_string()),
        expire: Some(60),
    });
    assert_eq!(q.memo.as_str(), "coffee");
    assert_eq!(q.expiry, 60);
}

#[test]
fn bitvora_request_converts_millisats_to_sats() {
    let r = bitvora_invoice_request(AddInvoiceRequest {
        amount: 21999,
        memo: Some("m".to_string()),
        expire: Some(120),
    });
    assert_eq!(r.amount, 21);
    assert_eq!(r.currency.as_str(), "sats");
    assert_eq!(r.description.as_str(), "m");
    assert_eq!(r.expiry_seconds, 120);
}

#[test]
fn bitvora_status_threshold() {
    assert!(bitvora_status_ok(200));
    assert!(bitvora_status_ok(399));
    assert!(!bitvora_status_ok(400));
    assert!(!bitvora_status_ok(500));
}

#[test]
fn bitvora_settled_update_carries_parsed_hash() {
    match bitvora_update(
        BitvoraWebhookEvent::DepositLightningComplete,
        TEST_INVOICE,
        "inv-1".to_string(),
    ) {
        InvoiceUpdate::Settled { payment_hash, preimage, external_id } => {
            assert_eq!(payment_hash.as_str(), TEST_INVOICE_HASH);
            assert_eq!(preimage, None);
            assert_eq!(external_id.as_deref(), Some("inv-1"));
        }
        _ => panic!("a completed deposit must map to Settled"),
    }
}

#[test]
fn bitvora_bad_invoice_and_failure_become_errors() {
    assert!(matches!(
        bitvora_update(
            BitvoraWebhookEvent::DepositLightningComplete,
            "not an invoice",
            "inv-2".to_string(),
        ),
        InvoiceUpdate::Error(_)
    ));
    assert!(matches!(
        bitvora_update(
            BitvoraWebhookEvent::DepositLightningFailed,
            TEST_INVOICE,
            "inv-3".to_string(),
        ),
        InvoiceUpdate::Error(_)
    ));
}

#[test]
fn endpoint_filter() {
    let m = WebhookMessage {
        endpoint: "/webhook/bitvora".to_string(),
        body: vec![],
        headers: vec![],
    };
    assert!(endpoint_matches(&m, "/webhook/bitvora"));
    assert!(!endpoint_matches(&m, "/webhook/revolut"));
}

#[test]
fn invoice_response_from_bolt11() {
    let r = AddInvoiceResponse::from_invoice(TEST_INVOICE, Some("x".to_string())).unwrap();
    assert_eq!(r.pr().as_str(), TEST_INVOICE);
    assert_eq!(r.description_hash().as_str(), TEST_INVOICE_HASH);
    assert!(AddInvoiceResponse::from_invoice("junk", None).is_err());
}
