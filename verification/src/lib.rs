//! Settlement rules for a recurring, time-bounded subscription.
//!
//! A payer settles a fixed amount, the payment is split over three
//! destinations, a per-payer record is opened or renewed, and one
//! credential is issued. Every rule is a pure function with a contract;
//! transfers, conversions and mints are performed by the caller, which
//! reports their outcome back to [`settlement::Settlement::advance`].

pub mod allocation;
pub mod amount;
pub mod authority;
pub mod error;
pub mod identity;
pub mod issuer;
pub mod ledger;
pub mod settlement;
