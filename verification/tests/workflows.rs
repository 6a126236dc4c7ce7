//! The create and verify workflows, driven end to end against scripted
//! collaborators.

use manjaliof_backend::doubles::{ScriptedPayment, ScriptedRunner};
use manjaliof_backend::ledger::{Ledger, MemoryLedger};
use manjaliof_backend::orchestrator::{OrchestrationError, Orchestrator};
use manjaliof_backend::response::{create_response, verify_response};
use manjaliof_backend::token::{authenticate, auth_error_message, AuthError, ReferrerToken};

fn token_set() -> Vec<ReferrerToken> {
    vec![ReferrerToken {
        referrer: "arian".to_string(),
        secret: "somestrongtoken".to_string(),
    }]
}

#[test]
fn create_payment_should_fail_when_notauthorized() {
    let tokens = token_set();
    let missing = authenticate(&tokens, None);
    assert!(matches!(missing, Err(AuthError::MissingCredential)));
    assert_eq!(auth_error_message(&AuthError::MissingCredential), "no token");
    let wrong = "wrong_token".to_string();
    let unknown = authenticate(&tokens, Some(&wrong));
    assert!(matches!(unknown, Err(AuthError::UnknownCredential)));
    assert_eq!(
        auth_error_message(&AuthError::UnknownCredential),
        "unauthorized token"
    );
}

#[test]
fn create_payment_should_fail_when_parameters_are_wrong() {
    let right = "somestrongtoken".to_string();
    assert!(authenticate(&token_set(), Some(&right)).is_ok());

    let payment = ScriptedPayment::new(vec![], vec![]);
    let runner = ScriptedRunner::new(vec![], vec![]);
    let mut orch = Orchestrator::new(payment, runner, MemoryLedger::new());
    let clients: Vec<String> = vec![];
    let r = orch.create_payment(&clients, "arian", "2024-01-01 00:00:00");
    assert!(matches!(r, Err(OrchestrationError::InvalidInput)));
    let env = create_response(r);
    assert_eq!(
        env.to_json(),
        "{\"success\":false,\"message\":\"at least provide one client\"}"
    );
    assert_eq!(orch.runner.validate_log.len(), 0);
    assert_eq!(orch.payment.request_log.len(), 0);
    assert_eq!(orch.ledger.lookup("anything").ok(), None);
}

#[test]
fn create_payment_should_fail_when_runner_cannot_validate() {
    let payment = ScriptedPayment::new(vec![], vec![]);
    let runner = ScriptedRunner::new(vec![Err("something wrong".to_string())], vec![]);
    let mut orch = Orchestrator::new(payment, runner, MemoryLedger::new());
    let clients = vec!["arian".to_string()];
    let r = orch.create_payment(&clients, "arian", "2024-01-01 00:00:00");
    let env = create_response(r);
    assert_eq!(
        env.to_json(),
        "{\"success\":false,\"message\":\"cannot validate clients: something wrong\"}"
    );
    assert_eq!(orch.runner.validate_log.len(), 1);
    assert_eq!(orch.runner.validate_log[0].names, vec!["arian".to_string()]);
    assert_eq!(orch.payment.request_log.len(), 0);
}

#[test]
fn create_payment_should_fail_when_runner_cannot_request_payment() {
    let payment = ScriptedPayment::new(vec![Err("some error".to_string())], vec![]);
    let runner = ScriptedRunner::new(vec![Ok(())], vec![]);
    let mut orch = Orchestrator::new(payment, runner, MemoryLedger::new());
    let clients = vec!["arian".to_string()];
    let r = orch.create_payment(&clients, "arian", "2024-01-01 00:00:00");
    let env = create_response(r);
    assert_eq!(
        env.to_json(),
        "{\"success\":false,\"message\":\"cannot request payment: some error\"}"
    );
    assert_eq!(orch.payment.request_log.len(), 1);
    assert_eq!(orch.payment.request_log[0].description, "arian");
}

fn generate_random_authority() -> String {
    let random_number: String = rand::random::<u32>().to_string();
    let zeros = "0".repeat(35 - random_number.len());
    format!("A{zeros}{random_number}")
}

#[test]
fn create_payment() {
    let authority = generate_random_authority();
    let payment = ScriptedPayment::new(vec![Ok(authority.clone())], vec![]);
    let runner = ScriptedRunner::new(vec![Ok(())], vec![]);
    let mut orch = Orchestrator::new(payment, runner, MemoryLedger::new());
    let clients = vec!["someone".to_string(), "anotherone".to_string()];
    let r = orch.create_payment(&clients, "arian", "2024-01-01 00:00:00");
    let env = create_response(r);
    assert_eq!(
        env.to_json(),
        format!("{{\"success\":true,\"message\":\"{authority}\"}}")
    );
    assert_eq!(
        orch.runner.validate_log[0].names,
        vec!["someone".to_string(), "anotherone".to_string()]
    );
    assert_eq!(orch.payment.request_log.len(), 1);
    assert_eq!(orch.payment.request_log[0].description, "someone,anotherone");
}

#[test]
fn create_and_verify_payment() {
    let payment = ScriptedPayment::new(vec![Ok("generated_authority".to_string())], vec![]);
    let runner = ScriptedRunner::new(vec![Ok(())], vec![]);
    let mut orch = Orchestrator::new(payment, runner, MemoryLedger::new());
    let clients = vec!["someone".to_string(), "anotherone".to_string()];
    let r = orch.create_payment(&clients, "arian", "2024-01-01 00:00:00");
    let env = create_response(r);
    assert_eq!(
        env.to_json(),
        "{\"success\":true,\"message\":\"generated_authority\"}"
    );
    assert_eq!(orch.payment.request_log[0].description, "someone,anotherone");
    assert_eq!(orch.runner.validate_log.len(), 1);

    let ledger = orch.ledger;
    let stored = ledger.lookup("generated_authority").unwrap();
    assert_eq!(stored.0, "someone,anotherone");

    let payment = ScriptedPayment::new(vec![], vec![Ok(())]);
    let runner = ScriptedRunner::new(vec![], vec![Ok(()), Ok(())]);
    let mut orch = Orchestrator::new(payment, runner, ledger);
    let r = orch.verify_payment("generated_authority");
    let env = verify_response(r);
    assert_eq!(env.to_json(), "{\"success\":true,\"message\":\"\"}");
    assert_eq!(orch.payment.verify_log.len(), 1);
    assert_eq!(orch.payment.verify_log[0].authority, "generated_authority");
    assert_eq!(orch.runner.mark_log.len(), 2);
    assert_eq!(orch.runner.mark_log[0].name, "someone");
    assert_eq!(orch.runner.mark_log[1].name, "anotherone");
}

#[test]
fn verify_payment_fails_for_unknown_authority() {
    let payment = ScriptedPayment::new(vec![], vec![]);
    let runner = ScriptedRunner::new(vec![], vec![]);
    let mut orch = Orchestrator::new(payment, runner, MemoryLedger::new());
    let r = orch.verify_payment("never_created");
    assert!(matches!(r, Err(OrchestrationError::UnknownAuthority(_))));
    let env = verify_response(r);
    assert_eq!(
        env.to_json(),
        "{\"success\":false,\"message\":\"cannot find authority in db: authority not exists\"}"
    );
    assert_eq!(orch.payment.verify_log.len(), 0);
    assert_eq!(orch.runner.mark_log.len(), 0);
}

#[test]
fn verify_payment_fails_when_gateway_rejects() {
    let payment = ScriptedPayment::new(vec![Ok("AUTH1".to_string())], vec![]);
    let runner = ScriptedRunner::new(vec![Ok(())], vec![]);
    let mut orch = Orchestrator::new(payment, runner, MemoryLedger::new());
    let clients = vec!["a".to_string(), "b".to_string()];
    orch.create_payment(&clients, "arian", "2024-01-01 00:00:00")
        .unwrap();

    let ledger = orch.ledger;
    let payment = ScriptedPayment::new(vec![], vec![Err("not paid yet".to_string())]);
    let runner = ScriptedRunner::new(vec![], vec![]);
    let mut orch = Orchestrator::new(payment, runner, ledger);
    let r = orch.verify_payment("AUTH1");
    let env = verify_response(r);
    assert_eq!(
        env.to_json(),
        "{\"success\":false,\"message\":\"cannot verify payment: not paid yet\"}"
    );
    assert_eq!(orch.runner.mark_log.len(), 0);
}

#[test]
fn verify_payment_stops_at_first_registry_failure() {
    let payment = ScriptedPayment::new(vec![Ok("AUTH1".to_string())], vec![]);
    let runner = ScriptedRunner::new(vec![Ok(())], vec![]);
    let mut orch = Orchestrator::new(payment, runner, MemoryLedger::new());
    let clients = vec!["a".to_string(), "b".to_string(), "c".to_string()];
    orch.create_payment(&clients, "arian", "2024-01-01 00:00:00")
        .unwrap();

    let ledger = orch.ledger;
    let payment = ScriptedPayment::new(vec![], vec![Ok(())]);
    let runner = ScriptedRunner::new(vec![], vec![Ok(()), Err("boom".to_string())]);
    let mut orch = Orchestrator::new(payment, runner, ledger);
    let r = orch.verify_payment("AUTH1");
    match &r {
        Err(OrchestrationError::RegistryApplyError {
            name,
            index,
            names,
            detail,
        }) => {
            assert_eq!(name, "b");
            assert_eq!(*index, 1);
            assert_eq!(names, "a,b,c");
            assert_eq!(detail, "boom");
        }
        other => panic!("expected a registry failure, got {:?}", other.is_ok()),
    }
    let env = verify_response(r);
    assert_eq!(
        env.to_json(),
        "{\"success\":false,\"message\":\"CRITICAL: runner failed on names 'a,b,c': boom\"}"
    );
    assert_eq!(orch.runner.mark_log.len(), 2);
    assert_eq!(orch.runner.mark_log[0].name, "a");
    assert_eq!(orch.runner.mark_log[1].name, "b");
    assert!(orch.runner.mark_log[1].outcome.is_err());
}

#[test]
fn create_payment_flags_persistence_failure_after_authority_issued() {
    let payment = ScriptedPayment::new(
        vec![Ok("AUTH1".to_string()), Ok("AUTH1".to_string())],
        vec![],
    );
    let runner = ScriptedRunner::new(vec![Ok(()), Ok(())], vec![]);
    let mut orch = Orchestrator::new(payment, runner, MemoryLedger::new());
    let clients = vec!["a".to_string()];
    orch.create_payment(&clients, "arian", "2024-01-01 00:00:00")
        .unwrap();
    let r = orch.create_payment(&clients, "arian", "2024-01-01 00:00:01");
    assert!(matches!(r, Err(OrchestrationError::PersistenceError(_))));
    let env = create_response(r);
    assert_eq!(
        env.to_json(),
        "{\"success\":false,\"message\":\"cannot add transactiont to database: authority already exists\"}"
    );
    assert_eq!(orch.payment.request_log.len(), 2);
}

#[test]
fn create_payment_charges_the_exact_total() {
    let payment = ScriptedPayment::new(vec![Ok("AUTH1".to_string())], vec![]);
    let runner = ScriptedRunner::new(vec![Ok(())], vec![]);
    let mut orch = Orchestrator::new(payment, runner, MemoryLedger::new());
    let clients = vec!["someone".to_string(), "anotherone".to_string()];
    orch.create_payment(&clients, "arian", "2024-01-01 00:00:00")
        .unwrap();
    assert_eq!(orch.payment.request_log[0].amount, 2 * 555555);
    let stored = orch.ledger.lookup("AUTH1").unwrap();
    assert_eq!(stored.1, 2 * 555555);

    let ledger = orch.ledger;
    let payment = ScriptedPayment::new(vec![], vec![Ok(())]);
    let runner = ScriptedRunner::new(vec![], vec![Ok(()), Ok(())]);
    let mut orch = Orchestrator::new(payment, runner, ledger);
    orch.verify_payment("AUTH1").unwrap();
    assert_eq!(orch.payment.verify_log[0].amount, 2 * 555555);
}
