//! Verified core of a payment-provider integration layer.
//!
//! The crate covers the pieces that carry the real logic of such a layer:
//! an authenticated HTTP request model with pluggable signing strategies
//! (`json_api`), the webhook message envelope and in-process broadcast
//! bridge (`webhook`), the three HMAC-SHA256 webhook signature formats the
//! providers use (`webhook_auth`), and the mapping of provider invoice
//! states onto a normalized invoice lifecycle (`lightning`). Network I/O,
//! JSON (de)serialization of provider schemas and async plumbing are left
//! to a thin unverified shell around this crate.

pub mod currency;
pub mod fiat;
pub mod json_api;
pub mod lightning;
pub mod sig;
pub mod text;
pub mod webhook;
pub mod webhook_auth;
