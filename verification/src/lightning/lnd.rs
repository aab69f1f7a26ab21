//! The decision half of the LND invoice subscription: resume cursor,
//! state-code mapping, and invoice-creation parameters.
//!
//! The gRPC transport that carries these values is an excluded
//! collaborator; an async shell drives the stream and calls the functions
//! here for every item.

use vstd::prelude::*;
use crate::lightning::{AddInvoiceRequest, InvoiceUpdate};
use crate::sig::{hex_lower, spec_hex_lower};

verus! {

/// LND's invoice state codes, as the lnrpc protocol defines them.
pub const INVOICE_STATE_OPEN: i32 = 0;

pub const INVOICE_STATE_SETTLED: i32 = 1;

pub const INVOICE_STATE_CANCELED: i32 = 2;

pub const INVOICE_STATE_ACCEPTED: i32 = 3;

/// The settle index to resume an invoice subscription from: what the
/// lookup by payment hash found, or zero — the start of history — when
/// there was nothing to look up or the lookup failed.
pub fn resume_settle_index(lookup: Option<u64>) -> (r: u64)
    ensures
        r == match lookup {
            Some(i) => i,
            None => 0u64,
        },
{
    match lookup {
        Some(i) => i,
        None => 0,
    }
}

/// Parameters for LND's add-invoice call.
#[derive(Debug, Clone)]
pub struct LndInvoiceParams {
    pub memo: String,
    pub value_msat: i64,
    pub expiry: i64,
}

/// Turn an invoice request into LND call parameters: empty memo when none
/// was given, a default expiry of one hour.
pub fn lnd_invoice_params(req: AddInvoiceRequest) -> (r: LndInvoiceParams)
    requires
        req.amount <= i64::MAX,
    ensures
        r.memo@ == match req.memo {
            Some(m) => m@,
            None => Seq::<char>::empty(),
        },
        r.value_msat == req.amount as i64,
        r.expiry == match req.expire {
            Some(e) => e as i64,
            None => 3600i64,
        },
{
    LndInvoiceParams {
        memo: match req.memo {
            Some(m) => m,
            None => String::new(),
        },
        value_msat: req.amount as i64,
        expiry: match req.expire {
            Some(e) => e as i64,
            None => 3600,
        },
    }
}

/// Map one streamed LND invoice onto the normalized event set: settled
/// invoices carry their preimage, open ones their payment request, and a
/// state this crate does not track maps to `Unknown`, never silently
/// dropped.
pub fn map_invoice_state(
    state: i32,
    payment_hash: &[u8],
    preimage: &[u8],
    payment_request: String,
) -> (r: InvoiceUpdate)
    ensures
        state == INVOICE_STATE_SETTLED ==> (r matches InvoiceUpdate::Settled {
            payment_hash: ph,
            preimage: pi,
            external_id: ei,
        } && ph@ == spec_hex_lower(payment_hash@) && (pi matches Some(p) && p@ == spec_hex_lower(
            preimage@,
        )) && ei is None),
        state == INVOICE_STATE_OPEN ==> (r matches InvoiceUpdate::Created {
            payment_hash: ph,
            payment_request: pr,
        } && ph@ == spec_hex_lower(payment_hash@) && pr == payment_request),
        state == INVOICE_STATE_CANCELED ==> (r matches InvoiceUpdate::Canceled {
            payment_hash: ph,
        } && ph@ == spec_hex_lower(payment_hash@)),
        state != INVOICE_STATE_OPEN && state != INVOICE_STATE_SETTLED && state
            != INVOICE_STATE_CANCELED ==> (r matches InvoiceUpdate::Unknown { payment_hash: ph }
            && ph@ == spec_hex_lower(payment_hash@)),
{
    let ph = hex_lower(payment_hash);
    if state == INVOICE_STATE_SETTLED {
        InvoiceUpdate::Settled {
            payment_hash: ph,
            preimage: Some(hex_lower(preimage)),
            external_id: None,
        }
    } else if state == INVOICE_STATE_OPEN {
        InvoiceUpdate::Created { payment_hash: ph, payment_request }
    } else if state == INVOICE_STATE_CANCELED {
        InvoiceUpdate::Canceled { payment_hash: ph }
    } else {
        InvoiceUpdate::Unknown { payment_hash: ph }
    }
}

} // verus!
