//! The client-registry capability the orchestrator is built against.
//!
//! The registry can validate that a set of client names exists and is still
//! unpaid, scoped to a referrer, and can mark a single client as paid.  As
//! with the gateway, every implementation keeps an abstract trace of the
//! calls made on it, so the orchestrator's contract can pin down which
//! clients were validated and which were marked, in what order, and with
//! what answer.  The real driver that invokes the external tool lives
//! outside the library; verified test doubles live in [`crate::doubles`].

use crate::payment::unit_result_view;
use vstd::prelude::*;

verus! {

/// One validation call made on a registry: its arguments and its answer.
pub struct RegistryValidateEvent {
    pub names: Seq<Seq<char>>,
    pub referrer: Seq<char>,
    pub outcome: Result<(), Seq<char>>,
}

/// One mark-paid call made on a registry: the name and the answer.
pub struct RegistryMarkEvent {
    pub name: Seq<char>,
    pub outcome: Result<(), Seq<char>>,
}

/// Capability to validate clients and mark them paid.
pub trait Runner: Sized {
    /// All validation calls made on this registry so far, oldest first.
    /// The default trace is empty; every implementation the library
    /// reasons about overrides it with its own record of the calls.
    open spec fn validations(&self) -> Seq<RegistryValidateEvent> {
        Seq::empty()
    }

    /// All mark-paid calls made on this registry so far, oldest first.
    open spec fn marks(&self) -> Seq<RegistryMarkEvent> {
        Seq::empty()
    }

    /// Asks the registry to confirm that every one of `names` exists and is
    /// currently unpaid, on behalf of `reffer`.  Whatever the registry
    /// answers, the call is appended to the validation trace with that
    /// answer, and nothing else changes.
    fn validate_clients(&mut self, names: &Vec<String>, reffer: &str) -> (r: Result<(), String>)
        ensures
            final(self).validations() == old(self).validations().push(
                (RegistryValidateEvent {
                    names: names.deep_view(),
                    referrer: reffer@,
                    outcome: unit_result_view(r),
                }),
            ),
            final(self).marks() == old(self).marks(),
    ;

    /// Asks the registry to mark the single client `name` as paid.
    /// Whatever the registry answers, the call is appended to the mark
    /// trace with that answer, and nothing else changes.
    fn make_client_paid(&mut self, name: &str) -> (r: Result<(), String>)
        ensures
            final(self).marks() == old(self).marks().push(
                (RegistryMarkEvent { name: name@, outcome: unit_result_view(r) }),
            ),
            final(self).validations() == old(self).validations(),
    ;
}

} // verus!
