//! Payment orchestration for named clients.
//!
//! An operator-side referrer asks for a payment authority covering a set of
//! client names; once the gateway confirms the payment, the external client
//! registry is told to mark each of those clients as paid.  The library holds
//! the whole decision core of that two-phase workflow: authentication of the
//! referrer credential, price and tax arithmetic, the comma-joined encoding of
//! the client list, the interpretation of gateway responses and of the
//! registry listing, the transaction ledger, and the create/verify
//! orchestration with its failure contract.  The gateway, the registry tool
//! and durable storage are reached through the `Payment`, `Runner` and
//! `Ledger` capability traits, so callers inject real drivers or test doubles.

pub mod doubles;
pub mod ledger;
pub mod manjaliof;
pub mod orchestrator;
pub mod payment;
pub mod pricing;
pub mod response;
pub mod runner;
pub mod text;
pub mod token;
pub mod zarinpal;
