//! Scripted collaborators: verified doubles of the gateway and the
//! registry.
//!
//! A double answers each call with the next scripted response (or a fixed
//! refusal once the script is spent) and records the call in a concrete
//! log, which is also the abstract call trace its trait contract speaks
//! of.  Tests drive the orchestrator against doubles and then read the
//! logs back to see exactly which external calls the workflow made.

use crate::payment::{
    str_result_view, unit_result_view, GatewayRequestEvent, GatewayVerifyEvent, Payment,
};
use crate::runner::{RegistryMarkEvent, RegistryValidateEvent, Runner};
use vstd::prelude::*;
use vstd::string::*;

verus! {

fn clone_str_result(r: &Result<String, String>) -> (c: Result<String, String>)
    ensures
        c == *r,
{
    match r {
        Ok(s) => Ok(s.clone()),
        Err(s) => Err(s.clone()),
    }
}

fn clone_unit_result(r: &Result<(), String>) -> (c: Result<(), String>)
    ensures
        c == *r,
{
    match r {
        Ok(u) => Ok(*u),
        Err(s) => Err(s.clone()),
    }
}

fn clone_string_vec(v: &Vec<String>) -> (c: Vec<String>)
    ensures
        c@ == v@,
{
    let mut c: Vec<String> = Vec::new();
    let mut i: usize = 0;
    while i < v.len()
        invariant
            i <= v.len(),
            c@ == v@.take(i as int),
        decreases v.len() - i,
    {
        c.push(v[i].clone());
        proof {
            assert(c@ =~= v@.take(i + 1 as int));
        }
        i = i + 1;
    }
    proof {
        assert(v@.take(v@.len() as int) =~= v@);
    }
    c
}

/// One recorded authority request.
pub struct GatewayRequestRecord {
    pub description: String,
    pub amount: u32,
    pub outcome: Result<String, String>,
}

impl View for GatewayRequestRecord {
    type V = GatewayRequestEvent;

    open spec fn view(&self) -> GatewayRequestEvent {
        GatewayRequestEvent {
            description: self.description@,
            amount: self.amount,
            outcome: str_result_view(self.outcome),
        }
    }
}

/// One recorded verify call.
pub struct GatewayVerifyRecord {
    pub authority: String,
    pub amount: u32,
    pub outcome: Result<(), String>,
}

impl View for GatewayVerifyRecord {
    type V = GatewayVerifyEvent;

    open spec fn view(&self) -> GatewayVerifyEvent {
        GatewayVerifyEvent {
            authority: self.authority@,
            amount: self.amount,
            outcome: unit_result_view(self.outcome),
        }
    }
}

/// A gateway double that answers from a script and logs every call.
pub struct ScriptedPayment {
    pub request_responses: Vec<Result<String, String>>,
    pub verify_responses: Vec<Result<(), String>>,
    pub request_log: Vec<GatewayRequestRecord>,
    pub verify_log: Vec<GatewayVerifyRecord>,
}

impl ScriptedPayment {
    /// A double that will answer authority requests and verify calls with
    /// the given responses, in order.
    pub fn new(
        request_responses: Vec<Result<String, String>>,
        verify_responses: Vec<Result<(), String>>,
    ) -> (p: Self)
        ensures
            p.requests() == Seq::<GatewayRequestEvent>::empty(),
            p.verifies() == Seq::<GatewayVerifyEvent>::empty(),
            p.request_responses == request_responses,
            p.verify_responses == verify_responses,
    {
        let p = ScriptedPayment {
            request_responses,
            verify_responses,
            request_log: Vec::new(),
            verify_log: Vec::new(),
        };
        proof {
            assert(p.requests() =~= Seq::<GatewayRequestEvent>::empty());
            assert(p.verifies() =~= Seq::<GatewayVerifyEvent>::empty());
        }
        p
    }
}

impl Payment for ScriptedPayment {
    open spec fn requests(&self) -> Seq<GatewayRequestEvent> {
        self.request_log@.map(|i: int, rec: GatewayRequestRecord| rec@)
    }

    open spec fn verifies(&self) -> Seq<GatewayVerifyEvent> {
        self.verify_log@.map(|i: int, rec: GatewayVerifyRecord| rec@)
    }

    /// Answers with the head of the request script, consuming it, or with
    /// the fixed refusal once the script is spent.
    fn request_payment_authority(&mut self, description: &str, amount: u32) -> (r: Result<
        String,
        String,
    >)
        ensures
            old(self).request_responses@.len() > 0 ==> ({
                &&& r == old(self).request_responses@[0]
                &&& final(self).request_responses@ == old(self).request_responses@.skip(1)
            }),
            old(self).request_responses@.len() == 0 ==> ({
                &&& (r matches Err(e) && e@ == "no scripted response"@)
                &&& final(self).request_responses == old(self).request_responses
            }),
            final(self).verify_responses == old(self).verify_responses,
    {
        let response: Result<String, String> = if self.request_responses.len() > 0 {
            let head = self.request_responses.remove(0);
            proof {
                assert(self.request_responses@ =~= old(self).request_responses@.skip(1));
            }
            head
        } else {
            Err(String::from_str("no scripted response"))
        };
        let logged = clone_str_result(&response);
        let ghost log0 = self.request_log@;
        self.request_log.push(
            GatewayRequestRecord { description: description.to_owned(), amount, outcome: logged },
        );
        proof {
            assert(self.request_log@.map(|i: int, rec: GatewayRequestRecord| rec@) =~= log0.map(
                |i: int, rec: GatewayRequestRecord| rec@,
            ).push(self.request_log@.last()@));
        }
        response
    }

    /// Answers with the head of the verify script, consuming it, or with
    /// the fixed refusal once the script is spent.
    fn verify(&mut self, authority: &str, amount: u32) -> (r: Result<(), String>)
        ensures
            old(self).verify_responses@.len() > 0 ==> ({
                &&& r == old(self).verify_responses@[0]
                &&& final(self).verify_responses@ == old(self).verify_responses@.skip(1)
            }),
            old(self).verify_responses@.len() == 0 ==> ({
                &&& (r matches Err(e) && e@ == "no scripted response"@)
                &&& final(self).verify_responses == old(self).verify_responses
            }),
            final(self).request_responses == old(self).request_responses,
    {
        let response: Result<(), String> = if self.verify_responses.len() > 0 {
            let head = self.verify_responses.remove(0);
            proof {
                assert(self.verify_responses@ =~= old(self).verify_responses@.skip(1));
            }
            head
        } else {
            Err(String::from_str("no scripted response"))
        };
        let logged = clone_unit_result(&response);
        let ghost log0 = self.verify_log@;
        self.verify_log.push(
            GatewayVerifyRecord { authority: authority.to_owned(), amount, outcome: logged },
        );
        proof {
            assert(self.verify_log@.map(|i: int, rec: GatewayVerifyRecord| rec@) =~= log0.map(
                |i: int, rec: GatewayVerifyRecord| rec@,
            ).push(self.verify_log@.last()@));
        }
        response
    }
}

/// One recorded validation call.
pub struct RegistryValidateRecord {
    pub names: Vec<String>,
    pub referrer: String,
    pub outcome: Result<(), String>,
}

impl View for RegistryValidateRecord {
    type V = RegistryValidateEvent;

    open spec fn view(&self) -> RegistryValidateEvent {
        RegistryValidateEvent {
            names: self.names.deep_view(),
            referrer: self.referrer@,
            outcome: unit_result_view(self.outcome),
        }
    }
}

/// One recorded mark-paid call.
pub struct RegistryMarkRecord {
    pub name: String,
    pub outcome: Result<(), String>,
}

impl View for RegistryMarkRecord {
    type V = RegistryMarkEvent;

    open spec fn view(&self) -> RegistryMarkEvent {
        RegistryMarkEvent { name: self.name@, outcome: unit_result_view(self.outcome) }
    }
}

/// A registry double that answers from a script and logs every call.
pub struct ScriptedRunner {
    pub validate_responses: Vec<Result<(), String>>,
    pub mark_responses: Vec<Result<(), String>>,
    pub validate_log: Vec<RegistryValidateRecord>,
    pub mark_log: Vec<RegistryMarkRecord>,
}

impl ScriptedRunner {
    /// A double that will answer validation and mark-paid calls with the
    /// given responses, in order.
    pub fn new(
        validate_responses: Vec<Result<(), String>>,
        mark_responses: Vec<Result<(), String>>,
    ) -> (r: Self)
        ensures
            r.validations() == Seq::<RegistryValidateEvent>::empty(),
            r.marks() == Seq::<RegistryMarkEvent>::empty(),
            r.validate_responses == validate_responses,
            r.mark_responses == mark_responses,
    {
        let r = ScriptedRunner {
            validate_responses,
            mark_responses,
            validate_log: Vec::new(),
            mark_log: Vec::new(),
        };
        proof {
            assert(r.validations() =~= Seq::<RegistryValidateEvent>::empty());
            assert(r.marks() =~= Seq::<RegistryMarkEvent>::empty());
        }
        r
    }
}

impl Runner for ScriptedRunner {
    open spec fn validations(&self) -> Seq<RegistryValidateEvent> {
        self.validate_log@.map(|i: int, rec: RegistryValidateRecord| rec@)
    }

    open spec fn marks(&self) -> Seq<RegistryMarkEvent> {
        self.mark_log@.map(|i: int, rec: RegistryMarkRecord| rec@)
    }

    /// Answers with the head of the validation script, consuming it, or
    /// with the fixed refusal once the script is spent.
    fn validate_clients(&mut self, names: &Vec<String>, reffer: &str) -> (r: Result<(), String>)
        ensures
            old(self).validate_responses@.len() > 0 ==> ({
                &&& r == old(self).validate_responses@[0]
                &&& final(self).validate_responses@ == old(self).validate_responses@.skip(1)
            }),
            old(self).validate_responses@.len() == 0 ==> ({
                &&& (r matches Err(e) && e@ == "no scripted response"@)
                &&& final(self).validate_responses == old(self).validate_responses
            }),
            final(self).mark_responses == old(self).mark_responses,
    {
        let response: Result<(), String> = if self.validate_responses.len() > 0 {
            let head = self.validate_responses.remove(0);
            proof {
                assert(self.validate_responses@ =~= old(self).validate_responses@.skip(1));
            }
            head
        } else {
            Err(String::from_str("no scripted response"))
        };
        let logged = clone_unit_result(&response);
        let ghost log0 = self.validate_log@;
        self.validate_log.push(
            RegistryValidateRecord {
                names: clone_string_vec(names),
                referrer: reffer.to_owned(),
                outcome: logged,
            },
        );
        proof {
            assert(self.validate_log@.last()@.names =~~= names.deep_view());
            assert(self.validate_log@.map(|i: int, rec: RegistryValidateRecord| rec@) =~= log0.map(
                |i: int, rec: RegistryValidateRecord| rec@,
            ).push(self.validate_log@.last()@));
        }
        response
    }

    /// Answers with the head of the mark script, consuming it, or with
    /// the fixed refusal once the script is spent.
    fn make_client_paid(&mut self, name: &str) -> (r: Result<(), String>)
        ensures
            old(self).mark_responses@.len() > 0 ==> ({
                &&& r == old(self).mark_responses@[0]
                &&& final(self).mark_responses@ == old(self).mark_responses@.skip(1)
            }),
            old(self).mark_responses@.len() == 0 ==> ({
                &&& (r matches Err(e) && e@ == "no scripted response"@)
                &&& final(self).mark_responses == old(self).mark_responses
            }),
            final(self).validate_responses == old(self).validate_responses,
    {
        let response: Result<(), String> = if self.mark_responses.len() > 0 {
            let head = self.mark_responses.remove(0);
            proof {
                assert(self.mark_responses@ =~= old(self).mark_responses@.skip(1));
            }
            head
        } else {
            Err(String::from_str("no scripted response"))
        };
        let logged = clone_unit_result(&response);
        let ghost log0 = self.mark_log@;
        self.mark_log.push(RegistryMarkRecord { name: name.to_owned(), outcome: logged });
        proof {
            assert(self.mark_log@.map(|i: int, rec: RegistryMarkRecord| rec@) =~= log0.map(
                |i: int, rec: RegistryMarkRecord| rec@,
            ).push(self.mark_log@.last()@));
        }
        response
    }
}

} // verus!
