//! The payment orchestration core.
//!
//! The create workflow validates the requested client names with the
//! registry, computes the price and surcharge, asks the gateway for an
//! authority over the comma-joined names, and persists the transaction
//! under that authority.  The verify workflow reads the persisted
//! transaction back, has the gateway confirm the *persisted* amount, and
//! then marks every stored client paid, strictly in the stored order,
//! stopping at the first failure.  The three collaborators cannot share a
//! transaction boundary, so the workflows never retry a gateway call and
//! never roll anything back: every step's outcome, and exactly which calls
//! were made on which collaborator, is pinned down by the contracts below
//! over the collaborators' call traces.

use crate::ledger::{Ledger, LedgerWriteEvent};
use crate::payment::{GatewayRequestEvent, GatewayVerifyEvent, Payment};
use crate::pricing::{compute_total, total_of};
use crate::runner::{RegistryMarkEvent, RegistryValidateEvent, Runner};
use crate::text::{join_comma, join_on_spec, split_on, split_on_spec};
use vstd::prelude::*;
use vstd::string::*;

verus! {

/// Everything that can go wrong in the two workflows, in workflow order.
#[derive(Debug)]
pub enum OrchestrationError {
    /// The create request named no clients; rejected before any external
    /// call.
    InvalidInput,
    /// The registry refused the requested client set.
    ValidationFailed(String),
    /// The gateway refused to issue an authority, or could not be asked.
    GatewayError(String),
    /// The ledger write failed after the gateway had already issued an
    /// authority: a live, payable authority now has no local record, which
    /// an operator must reconcile by hand.
    PersistenceError(String),
    /// Verification was asked for an authority the ledger does not hold;
    /// the expected outcome for a forged or stale authority.
    UnknownAuthority(String),
    /// The gateway did not confirm the payment.
    VerificationFailed(String),
    /// Marking a client paid failed after the gateway had already
    /// confirmed the money: `name` at position `index` of the stored list
    /// `names` failed with `detail`, and no later name was attempted.
    RegistryApplyError { name: String, index: usize, names: String, detail: String },
}

/// The mark trace of a list of names that were all marked successfully,
/// in order.
pub open spec fn marks_all_ok(names: Seq<Seq<char>>) -> Seq<RegistryMarkEvent> {
    names.map(|i: int, n: Seq<char>| RegistryMarkEvent { name: n, outcome: Ok(()) })
}

/// The core workflow engine, over whatever gateway, registry and ledger
/// are injected at construction.
pub struct Orchestrator<P: Payment, R: Runner, L: Ledger> {
    pub payment: P,
    pub runner: R,
    pub ledger: L,
}

impl<P: Payment, R: Runner, L: Ledger> Orchestrator<P, R, L> {
    pub fn new(payment: P, runner: R, ledger: L) -> (o: Self)
        ensures
            o.payment == payment,
            o.runner == runner,
            o.ledger == ledger,
    {
        Orchestrator { payment, runner, ledger }
    }

    /// The create workflow: for a non-empty client list, validate the
    /// clients, charge `total_of` for them, and persist the authority the
    /// gateway issued.  The result is that authority, verbatim.
    ///
    /// The contract walks the failure cases in workflow order and pins,
    /// for each, exactly which collaborator calls were made.  In
    /// particular the gateway is asked at most once — never retried — and
    /// the ledger holds the new record exactly on success.
    #[verifier::loop_isolation(false)]
    pub fn create_payment(&mut self, clients: &Vec<String>, reffer: &str, now_date: &str) -> (r:
        Result<String, OrchestrationError>)
        requires
            total_of(clients@.len() as int) <= u32::MAX as int,
        ensures
    // Create never marks a client paid and never calls the gateway's verify.
            final(self).runner.marks() == old(self).runner.marks(),
            final(self).payment.verifies() == old(self).payment.verifies(),
    // An empty client list is rejected as such, and before any external call.
            (clients@.len() == 0) <==> (r == Err::<String, OrchestrationError>(
                OrchestrationError::InvalidInput,
            )),
            clients@.len() == 0 ==> ({
                &&& final(self).runner.validations() == old(self).runner.validations()
                &&& final(self).payment.requests() == old(self).payment.requests()
                &&& final(self).ledger.writes() == old(self).ledger.writes()
                &&& final(self).ledger.table() == old(self).ledger.table()
            }),
    // Otherwise the registry is asked exactly once to validate exactly
    // these names for this referrer.
            clients@.len() > 0 ==> ({
                let before = old(self).runner.validations();
                &&& final(self).runner.validations().len() == before.len() + 1
                &&& final(self).runner.validations().take(before.len() as int) == before
                &&& final(self).runner.validations().last().names == clients.deep_view()
                &&& final(self).runner.validations().last().referrer == reffer@
            }),
    // A validation failure carries the registry's answer and stops the
    // workflow before the gateway or the ledger is touched.
            r matches Err(OrchestrationError::ValidationFailed(d)) ==> ({
                &&& clients@.len() > 0
                &&& final(self).runner.validations().last().outcome == Err::<(), Seq<char>>(d@)
                &&& final(self).payment.requests() == old(self).payment.requests()
                &&& final(self).ledger.writes() == old(self).ledger.writes()
                &&& final(self).ledger.table() == old(self).ledger.table()
            }),
    // After a successful validation the gateway is asked exactly once, for
    // the comma-joined names and the exact total; its refusal is passed on
    // and nothing is persisted.
            r matches Err(OrchestrationError::GatewayError(d)) ==> ({
                let event = (GatewayRequestEvent {
                    description: join_on_spec(clients.deep_view(), ','),
                    amount: total_of(clients@.len() as int) as u32,
                    outcome: Err(d@),
                });
                &&& final(self).runner.validations().last().outcome == Ok::<(), Seq<char>>(())
                &&& final(self).payment.requests() == old(self).payment.requests().push(event)
                &&& final(self).ledger.writes() == old(self).ledger.writes()
                &&& final(self).ledger.table() == old(self).ledger.table()
            }),
    // A persistence failure happens only after the gateway issued an
    // authority; exactly one write was attempted for it and the gateway
    // was not asked again.
            r matches Err(OrchestrationError::PersistenceError(d)) ==> ({
                let before = old(self).payment.requests();
                let issued = final(self).payment.requests().last();
                &&& final(self).runner.validations().last().outcome == Ok::<(), Seq<char>>(())
                &&& final(self).payment.requests().len() == before.len() + 1
                &&& final(self).payment.requests().take(before.len() as int) == before
                &&& issued.description == join_on_spec(clients.deep_view(), ',')
                &&& issued.amount == total_of(clients@.len() as int) as u32
                &&& issued.outcome is Ok
                &&& final(self).ledger.writes() == old(self).ledger.writes().push(
                    (LedgerWriteEvent {
                        authority: issued.outcome->Ok_0,
                        names: join_on_spec(clients.deep_view(), ','),
                        amount: total_of(clients@.len() as int) as u32,
                        date: now_date@,
                        outcome: Err(d@),
                    }),
                )
                &&& final(self).ledger.table() == old(self).ledger.table()
            }),
    // Success returns the very authority the gateway issued in this call,
    // and the ledger now holds it with the joined names and the total.
            r matches Ok(authority) ==> ({
                let joined = join_on_spec(clients.deep_view(), ',');
                let charged = total_of(clients@.len() as int) as u32;
                &&& clients@.len() > 0
                &&& final(self).runner.validations().last().outcome == Ok::<(), Seq<char>>(())
                &&& final(self).payment.requests() == old(self).payment.requests().push(
                    (GatewayRequestEvent {
                        description: joined,
                        amount: charged,
                        outcome: Ok(authority@),
                    }),
                )
                &&& final(self).ledger.writes() == old(self).ledger.writes().push(
                    (LedgerWriteEvent {
                        authority: authority@,
                        names: joined,
                        amount: charged,
                        date: now_date@,
                        outcome: Ok(()),
                    }),
                )
                &&& final(self).ledger.table() == old(self).ledger.table().insert(
                    authority@,
                    (joined, charged),
                )
            }),
    // No failure of the verify workflow is ever reported by create.
            !(r matches Err(OrchestrationError::UnknownAuthority(_))),
            !(r matches Err(OrchestrationError::VerificationFailed(_))),
            !(r matches Err(OrchestrationError::RegistryApplyError { .. })),
    {
        if clients.len() == 0 {
            return Err(OrchestrationError::InvalidInput);
        }
        let vres = self.runner.validate_clients(clients, reffer);
        match vres {
            Err(e) => {
                return Err(OrchestrationError::ValidationFailed(e));
            },
            Ok(_) => {},
        }
        let total = compute_total(clients.len());
        let names = join_comma(clients);
        let pres = self.payment.request_payment_authority(names.as_str(), total);
        let authority = match pres {
            Err(e) => {
                return Err(OrchestrationError::GatewayError(e));
            },
            Ok(a) => a,
        };
        let wres = self.ledger.record(authority.as_str(), names.as_str(), total, now_date);
        match wres {
            Err(e) => {
                return Err(OrchestrationError::PersistenceError(e));
            },
            Ok(_) => {},
        }
        Ok(authority)
    }

    /// The verify workflow: look the authority up, have the gateway
    /// confirm the persisted amount, then mark every stored client paid in
    /// the stored order, stopping at the first failure.
    ///
    /// The contract pins the mark trace exactly: on success every stored
    /// name was marked exactly once in order; on a registry failure at
    /// position `index`, the names before it were marked, the failing name
    /// was attempted, and no later name was ever touched.  An authority
    /// the ledger does not hold is rejected before any collaborator call.
    #[verifier::loop_isolation(false)]
    pub fn verify_payment(&mut self, authority: &str) -> (r: Result<(), OrchestrationError>)
        ensures
    // Verify never validates clients, never asks for a new authority, and
    // never writes to the ledger.
            final(self).runner.validations() == old(self).runner.validations(),
            final(self).payment.requests() == old(self).payment.requests(),
            final(self).ledger.writes() == old(self).ledger.writes(),
            final(self).ledger.table() == old(self).ledger.table(),
    // An authority the ledger does not hold is reported as unknown, with
    // no gateway call and no client marked.
            !old(self).ledger.table().contains_key(authority@) ==> ({
                &&& r matches Err(OrchestrationError::UnknownAuthority(d))
                &&& d@ == "authority not exists"@
                &&& final(self).payment.verifies() == old(self).payment.verifies()
                &&& final(self).runner.marks() == old(self).runner.marks()
            }),
    // A recorded authority is put to the gateway exactly once, with the
    // persisted amount — never a recomputed one.
            old(self).ledger.table().contains_key(authority@) ==> ({
                let before = old(self).payment.verifies();
                &&& final(self).payment.verifies().len() == before.len() + 1
                &&& final(self).payment.verifies().take(before.len() as int) == before
                &&& final(self).payment.verifies().last().authority == authority@
                &&& final(self).payment.verifies().last().amount == old(self).ledger.table()[authority@].1
                &&& !(r matches Err(OrchestrationError::UnknownAuthority(_)))
            }),
    // The gateway's refusal is passed on and no client is marked.
            r matches Err(OrchestrationError::VerificationFailed(d)) ==> ({
                &&& final(self).payment.verifies().last().outcome == Err::<(), Seq<char>>(d@)
                &&& final(self).runner.marks() == old(self).runner.marks()
            }),
    // Success: every stored client name was marked paid exactly once, in
    // the stored order.
            r is Ok ==> ({
                let stored = split_on_spec(old(self).ledger.table()[authority@].0, ',');
                &&& old(self).ledger.table().contains_key(authority@)
                &&& final(self).payment.verifies().last().outcome == Ok::<(), Seq<char>>(())
                &&& final(self).runner.marks() == old(self).runner.marks() + marks_all_ok(stored)
            }),
    // A registry failure names the exact client and position that failed:
    // everything before it was marked, the failing name was attempted,
    // and nothing after it was ever touched.
            r matches Err(OrchestrationError::RegistryApplyError { name, index, names, detail })
                ==> ({
                let stored = split_on_spec(names@, ',');
                &&& old(self).ledger.table().contains_key(authority@)
                &&& names@ == old(self).ledger.table()[authority@].0
                &&& final(self).payment.verifies().last().outcome == Ok::<(), Seq<char>>(())
                &&& index < stored.len()
                &&& name@ == stored[index as int]
                &&& final(self).runner.marks() == old(self).runner.marks() + marks_all_ok(
                    stored.take(index as int),
                ).push((RegistryMarkEvent { name: name@, outcome: Err(detail@) }))
            }),
    // No failure of the create workflow is ever reported by verify.
            !(r matches Err(OrchestrationError::InvalidInput)),
            !(r matches Err(OrchestrationError::ValidationFailed(_))),
            !(r matches Err(OrchestrationError::GatewayError(_))),
            !(r matches Err(OrchestrationError::PersistenceError(_))),
    {
        let lres = self.ledger.lookup(authority);
        let (names, amount) = match lres {
            Err(e) => {
                return Err(OrchestrationError::UnknownAuthority(e));
            },
            Ok(p) => p,
        };
        let vres = self.payment.verify(authority, amount);
        match vres {
            Err(e) => {
                return Err(OrchestrationError::VerificationFailed(e));
            },
            Ok(_) => {},
        }
        let parts = split_on(names.as_str(), ',');
        let ghost parts_view = split_on_spec(old(self).ledger.table()[authority@].0, ',');
        let ghost marks0 = old(self).runner.marks();
        let ghost payment1 = self.payment;
        let ghost ledger1 = self.ledger;
        proof {
            assert(marks_all_ok(parts_view.take(0)) =~= Seq::<RegistryMarkEvent>::empty());
            assert(marks0 + Seq::<RegistryMarkEvent>::empty() =~= marks0);
        }
        let mut i: usize = 0;
        while i < parts.len()
            invariant
                0 <= i <= parts.len(),
                parts.deep_view() == parts_view,
                self.runner.marks() == marks0 + marks_all_ok(parts_view.take(i as int)),
                self.runner.validations() == old(self).runner.validations(),
                self.payment == payment1,
                self.ledger == ledger1,
            decreases parts.len() - i,
        {
            let ghost marks_before = self.runner.marks();
            let mres = self.runner.make_client_paid(parts[i].as_str());
            match mres {
                Err(e) => {
                    proof {
                        assert(marks0 + marks_all_ok(parts_view.take(i as int)).push(
                            (RegistryMarkEvent {
                                name: parts_view[i as int],
                                outcome: Err(e@),
                            }),
                        ) =~= marks_before.push(
                            (RegistryMarkEvent { name: parts_view[i as int], outcome: Err(e@) }),
                        ));
                    }
                    return Err(
                        OrchestrationError::RegistryApplyError {
                            name: parts[i].clone(),
                            index: i,
                            names: names.clone(),
                            detail: e,
                        },
                    );
                },
                Ok(_) => {},
            }
            proof {
                assert(marks_all_ok(parts_view.take(i + 1 as int)) =~= marks_all_ok(
                    parts_view.take(i as int),
                ).push((RegistryMarkEvent { name: parts_view[i as int], outcome: Ok(()) })));
                assert(marks0 + marks_all_ok(parts_view.take(i as int)).push(
                    (RegistryMarkEvent { name: parts_view[i as int], outcome: Ok(()) }),
                ) =~= marks_before.push(
                    (RegistryMarkEvent { name: parts_view[i as int], outcome: Ok(()) }),
                ));
            }
            i = i + 1;
        }
        proof {
            assert(parts_view.take(parts.len() as int) =~= parts_view);
        }
        Ok(())
    }
}

} // verus!
