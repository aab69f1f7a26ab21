//! Fiat payment integrations: the card/checkout providers.

pub mod revolut;
pub mod stripe;

use vstd::prelude::*;

verus! {

/// What creating a fiat payment yields: the provider's id for it and the
/// raw JSON the provider returned, for callers that want every field.
#[derive(Debug)]
pub struct FiatPaymentInfo {
    /// External payment id.
    pub external_id: String,
    /// Raw JSON object.
    pub raw_data: String,
}

/// Why a fiat payment request could not be built.
#[derive(Copy, Clone, Debug, PartialEq, Eq, Structural)]
pub enum FiatError {
    /// Bitcoin amounts cannot be charged through a fiat provider.
    BitcoinNotAllowed,
}

} // verus!
