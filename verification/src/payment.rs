//! The payment gateway capability the orchestrator is built against.
//!
//! A gateway can issue an authority for a described amount and can verify
//! that an authority was actually paid for a given amount.  Each
//! implementation keeps an abstract trace of the calls made on it, so a
//! caller's contract can state exactly which calls a workflow performed, in
//! what order, with which arguments, and what each call answered — whatever
//! the gateway chose to answer.  The real HTTP driver lives outside the
//! library; verified test doubles live in [`crate::doubles`].

use vstd::prelude::*;

verus! {

/// The abstract value of a `Result` whose payloads are strings.
pub open spec fn str_result_view(r: Result<String, String>) -> Result<Seq<char>, Seq<char>> {
    match r {
        Ok(a) => Ok(a@),
        Err(e) => Err(e@),
    }
}

/// The abstract value of a `Result` carrying only an error string.
pub open spec fn unit_result_view(r: Result<(), String>) -> Result<(), Seq<char>> {
    match r {
        Ok(u) => Ok(u),
        Err(e) => Err(e@),
    }
}

/// One authority request made on a gateway: its arguments and its answer.
pub struct GatewayRequestEvent {
    pub description: Seq<char>,
    pub amount: u32,
    pub outcome: Result<Seq<char>, Seq<char>>,
}

/// One verify call made on a gateway: its arguments and its answer.
pub struct GatewayVerifyEvent {
    pub authority: Seq<char>,
    pub amount: u32,
    pub outcome: Result<(), Seq<char>>,
}

/// Capability to request payment authorities and verify payments.
pub trait Payment: Sized {
    /// All authority requests made on this gateway so far, oldest first.
    /// The default trace is empty; every implementation the library
    /// reasons about overrides it with its own record of the calls.
    open spec fn requests(&self) -> Seq<GatewayRequestEvent> {
        Seq::empty()
    }

    /// All verify calls made on this gateway so far, oldest first.
    open spec fn verifies(&self) -> Seq<GatewayVerifyEvent> {
        Seq::empty()
    }

    /// Asks the gateway to authorize a payment of `amount` for
    /// `description`; a success carries the issued authority verbatim.
    /// Whatever the gateway answers, the call is appended to the request
    /// trace with that answer, and nothing else changes.
    fn request_payment_authority(&mut self, description: &str, amount: u32) -> (r: Result<
        String,
        String,
    >)
        ensures
            final(self).requests() == old(self).requests().push(
                (GatewayRequestEvent {
                    description: description@,
                    amount,
                    outcome: str_result_view(r),
                }),
            ),
            final(self).verifies() == old(self).verifies(),
    ;

    /// Asks the gateway whether `authority` was paid for exactly `amount`.
    /// Whatever the gateway answers, the call is appended to the verify
    /// trace with that answer, and nothing else changes.
    fn verify(&mut self, authority: &str, amount: u32) -> (r: Result<(), String>)
        ensures
            final(self).verifies() == old(self).verifies().push(
                (GatewayVerifyEvent { authority: authority@, amount, outcome: unit_result_view(r) }),
            ),
            final(self).requests() == old(self).requests(),
    ;
}

} // verus!
