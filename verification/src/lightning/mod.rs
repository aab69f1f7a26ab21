//! Lightning invoice creation and the normalized invoice lifecycle.
//!
//! Provider-specific invoice states — whether they arrive over a webhook
//! or a streaming RPC — are mapped onto one [`InvoiceUpdate`] event set,
//! so business logic never sees a provider's own state codes.

pub mod bitvora;
pub mod lnd;

use vstd::prelude::*;
use crate::sig::{hex_lower, spec_hex_lower};

verus! {

/// A request to create an invoice. Amounts are in milli-satoshis.
#[derive(Debug, Clone)]
pub struct AddInvoiceRequest {
    pub amount: u64,
    pub memo: Option<String>,
    pub expire: Option<u32>,
}

/// A created invoice: the BOLT11 payment request, its payment hash, and
/// the provider's own id for it, if the provider has one.
#[derive(Debug, Clone)]
pub struct AddInvoiceResponse {
    /// Provider-side id of the invoice.
    pub external_id: Option<String>,
    /// The BOLT11 payment request string.
    pub pr: String,
    /// The invoice's payment hash, 32 raw bytes.
    pub payment_hash: Vec<u8>,
}

/// Whether a BOLT11 string parses as an invoice, and the payment hash it
/// carries. A function of the string alone; named, not defined.
pub uninterp spec fn spec_bolt11_payment_hash(pr: Seq<char>) -> Option<Seq<u8>>;

/// Relies on `lightning_invoice::Bolt11Invoice` (`from_str`,
/// `payment_hash`): whether a string parses as a BOLT11 invoice and which
/// payment hash it carries depend on the string alone; the hash is a
/// SHA-256 value of 32 bytes.
#[verifier::external_body]
pub(crate) fn bolt11_payment_hash(pr: &str) -> (r: Option<Vec<u8>>)
    ensures
        r is Some <==> spec_bolt11_payment_hash(pr@) is Some,
        r matches Some(h) ==> spec_bolt11_payment_hash(pr@) == Some(h@) && h@.len() == 32,
{
    match pr.parse::<lightning_invoice::Bolt11Invoice>() {
        Ok(inv) => {
            let bytes: &[u8; 32] = inv.payment_hash().as_ref();
            Some(bytes.to_vec())
        },
        Err(_) => None,
    }
}

impl AddInvoiceResponse {
    /// Build a response from a BOLT11 payment request string; fails when
    /// the string is not a parseable invoice.
    pub fn from_invoice(pr: &str, external_id: Option<String>) -> (r: Result<Self, ()>)
        ensures
            r is Ok <==> spec_bolt11_payment_hash(pr@) is Some,
            r matches Ok(resp) ==> {
                &&& resp.pr@ == pr@
                &&& Some(resp.payment_hash@) == spec_bolt11_payment_hash(pr@)
                &&& resp.external_id == external_id
            },
    {
        match bolt11_payment_hash(pr) {
            Some(h) => Ok(AddInvoiceResponse {
                external_id,
                pr: pr.to_owned(),
                payment_hash: h,
            }),
            None => Err(()),
        }
    }

    /// The BOLT11 payment request.
    pub fn pr(&self) -> (r: String)
        ensures
            r == self.pr,
    {
        self.pr.clone()
    }

    /// The payment hash, hex-encoded.
    pub fn description_hash(&self) -> (r: String)
        ensures
            r@ == spec_hex_lower(self.payment_hash@),
    {
        hex_lower(self.payment_hash.as_slice())
    }
}

/// One normalized invoice lifecycle event, whichever provider produced
/// it. Payment hashes and preimages are hex strings.
#[derive(Debug, Clone)]
pub enum InvoiceUpdate {
    /// The provider reported a state this crate does not track.
    Unknown { payment_hash: String },
    /// A malformed or unverifiable item in the stream; the stream itself
    /// continues.
    Error(String),
    Created { payment_hash: String, payment_request: String },
    Canceled { payment_hash: String },
    Settled { payment_hash: String, preimage: Option<String>, external_id: Option<String> },
}

} // verus!
