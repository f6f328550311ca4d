//! A custody-and-settlement core for four ledger-state services: a
//! peer-to-peer asset marketplace with escrow, a registry-gated unique-item
//! issuance service, a convertible-credit issuance and redemption service,
//! and a multi-currency metered-access payment service.
//!
//! Each service is a state machine over plain values. Every operation
//! authenticates its caller against a stored authority, validates its
//! inputs, performs checked arithmetic, and either commits all of its
//! effects or returns an error leaving the state untouched. The ledger
//! legs themselves (asset transfers, minting, burning) are executed by the
//! host; this crate decides them and accounts for them.

pub mod custody;
pub mod identity;
pub mod nft_marketplace;
pub mod patent_nft;
pub mod psp_token;
pub mod search_payment;
