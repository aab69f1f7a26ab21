//! The decision half of the Bitvora integration: invoice-request mapping,
//! response status checking, webhook verification and event mapping.
//!
//! Bitvora signs webhooks in the plain format — one `bitvora-signature`
//! header holding the hex HMAC-SHA256 of the raw body. The HTTP transport
//! and JSON decoding live in the unverified shell; every decision on the
//! decoded values is made here.

use vstd::prelude::*;
use vstd::string::StringSliceAdditionalSpecFns;
use crate::lightning::{spec_bolt11_payment_hash, bolt11_payment_hash, AddInvoiceRequest,
    InvoiceUpdate};
use crate::sig::{hex_lower, spec_hex_lower, str_eq_late};
use crate::webhook::WebhookMessage;
use crate::webhook_auth::{spec_verify_plain, verify_plain, WebhookAuthError};

verus! {

/// The body of Bitvora's create-invoice call. Amounts are whole satoshis.
#[derive(Debug, Clone)]
pub struct CreateInvoiceRequest {
    pub amount: u64,
    pub currency: String,
    pub description: String,
    pub expiry_seconds: u64,
}

/// Build the create-invoice call body: milli-satoshis become whole
/// satoshis, a missing memo an empty description, a missing expiry one
/// hour.
pub fn bitvora_invoice_request(req: AddInvoiceRequest) -> (r: CreateInvoiceRequest)
    ensures
        r.amount == req.amount / 1000,
        r.currency@ == "sats"@,
        r.description@ == match req.memo {
            Some(m) => m@,
            None => Seq::<char>::empty(),
        },
        r.expiry_seconds == match req.expire {
            Some(e) => e as u64,
            None => 3600u64,
        },
{
    CreateInvoiceRequest {
        amount: req.amount / 1000,
        currency: "sats".to_owned(),
        description: match req.memo {
            Some(m) => m,
            None => String::new(),
        },
        expiry_seconds: match req.expire {
            Some(e) => e as u64,
            None => 3600,
        },
    }
}

/// Bitvora wraps responses in an envelope with its own status field; a
/// status of 400 or above is an API error even on a transport success.
pub fn bitvora_status_ok(status: i64) -> (r: bool)
    ensures
        r == (status < 400),
{
    status < 400
}

/// The kinds of webhook event Bitvora delivers for Lightning deposits.
#[derive(Copy, Clone, Debug, PartialEq, Eq, Structural)]
pub enum BitvoraWebhookEvent {
    DepositLightningComplete,
    DepositLightningFailed,
}

/// Whether a webhook delivery belongs to this consumer's endpoint path.
/// Messages for other paths belong to other consumers on the same bridge
/// and are ignored, not errors.
pub fn endpoint_matches(msg: &WebhookMessage, webhook_path: &str) -> (r: bool)
    ensures
        r == (msg@.endpoint == webhook_path@),
{
    str_eq_late(msg.endpoint.as_str(), webhook_path)
}

/// Verify a Bitvora webhook delivery: plain format, `bitvora-signature`
/// header, HMAC-SHA256 over the raw body.
pub fn verify_webhook(secret: &str, msg: &WebhookMessage) -> (r: Result<(), WebhookAuthError>)
    ensures
        r == spec_verify_plain(secret.spec_bytes(), msg@, "bitvora-signature"@),
{
    verify_plain(secret, msg, "bitvora-signature")
}

/// Map a verified Bitvora webhook event onto the normalized event set. A
/// completed deposit is settled under the payment hash parsed out of the
/// BOLT11 payment request it names; an unparseable payment request or a
/// failed deposit becomes an inline `Error` event, never a silent drop.
pub fn bitvora_update(
    event: BitvoraWebhookEvent,
    recipient: &str,
    lightning_invoice_id: String,
) -> (r: InvoiceUpdate)
    ensures
        event == BitvoraWebhookEvent::DepositLightningComplete ==> match spec_bolt11_payment_hash(
            recipient@,
        ) {
            Some(h) => r matches InvoiceUpdate::Settled {
                payment_hash: ph,
                preimage: pi,
                external_id: ei,
            } && ph@ == spec_hex_lower(h) && pi is None && (ei matches Some(id) && id
                == lightning_invoice_id),
            None => r matches InvoiceUpdate::Error(m) && m@ == "failed to parse invoice"@,
        },
        event == BitvoraWebhookEvent::DepositLightningFailed ==> (r matches InvoiceUpdate::Error(m)
            && m@ == "payment failed"@),
{
    match event {
        BitvoraWebhookEvent::DepositLightningComplete => {
            match bolt11_payment_hash(recipient) {
                Some(h) => InvoiceUpdate::Settled {
                    payment_hash: hex_lower(h.as_slice()),
                    preimage: None,
                    external_id: Some(lightning_invoice_id),
                },
                None => InvoiceUpdate::Error("failed to parse invoice".to_owned()),
            }
        },
        BitvoraWebhookEvent::DepositLightningFailed => {
            InvoiceUpdate::Error("payment failed".to_owned())
        },
    }
}

} // verus!
