//! Tests of the default predicates, one invariant at a time.

use kali_mcp_core::collections::SortedSet;
use kali_mcp_core::invariants::{
    InvariantCatalog, InvariantCategory, InvariantValidator, ValidationResult,
};
use kali_mcp_core::state::{
    ApplicationState, AuthorizationEvent, DataObject, FinancialTransaction, SessionState,
    TrustDecision, WorkflowCompletion,
};
use kali_mcp_core::types::{
    AccountId, Balance, Currency, ObjectId, Role, SessionId, Severity, Timestamp, UserId,
    WorkflowStep,
};
use std::sync::Arc;

fn validator() -> InvariantValidator {
    InvariantValidator::new(Arc::new(InvariantCatalog::new()))
}

fn check(id: &str, before: &ApplicationState, after: &ApplicationState) -> ValidationResult {
    validator().validate_invariant(id, before, after).unwrap()
}

fn holds(id: &str, before: &ApplicationState, after: &ApplicationState) -> bool {
    let result = check(id, before, after);
    assert_eq!(result.checked_invariants, vec![id.to_string()]);
    assert_eq!(result.is_valid, result.violations.is_empty());
    result.is_valid
}

fn at(secs: i64) -> Timestamp {
    Timestamp::new(secs, 0)
}

fn session(id: &str, user: &str, roles: &[&str], authenticated: bool) -> SessionState {
    SessionState {
        session_id: SessionId(id.to_string()),
        user_id: UserId(user.to_string()),
        roles: SortedSet::from_vec(roles.iter().map(|r| Role(r.to_string())).collect()),
        authenticated,
        created_at: at(1),
        last_activity: at(2),
    }
}

fn object(id: &str, version: u64) -> DataObject {
    DataObject {
        id: ObjectId(id.to_string()),
        data_type: "document".to_string(),
        content_hash: "abc".to_string(),
        last_modified: at(3),
        version,
    }
}

fn transfer(from: Option<&str>, to: Option<&str>, amount: i64, external: bool) -> FinancialTransaction {
    FinancialTransaction {
        id: "tx".to_string(),
        from_account: from.map(|a| AccountId(a.to_string())),
        to_account: to.map(|a| AccountId(a.to_string())),
        amount,
        currency: Currency::USD,
        is_external: external,
        timestamp: at(4),
    }
}

fn event(kind: &str, target: Option<&str>) -> AuthorizationEvent {
    AuthorizationEvent {
        event_type: kind.to_string(),
        user_id: UserId("u".to_string()),
        target_role: target.map(|r| Role(r.to_string())),
        timestamp: at(5),
        authorized_by: None,
    }
}

fn own(state: &mut ApplicationState, object: &str, user: &str) {
    state.ownership.insert(ObjectId(object.to_string()), UserId(user.to_string()));
}

fn fund(state: &mut ApplicationState, account: &str, amount: i64) {
    state.balances.insert(AccountId(account.to_string()), Balance::new(amount, Currency::USD));
}

fn completion(steps: Vec<u32>, critical: bool, all: bool) -> WorkflowCompletion {
    WorkflowCompletion {
        workflow_id: "w".to_string(),
        is_critical: critical,
        all_steps_completed: all,
        completed_steps: steps,
        timestamp: at(6),
    }
}

fn decision(kind: &str, client: bool, validated: bool) -> TrustDecision {
    TrustDecision {
        decision_type: kind.to_string(),
        based_on_client_input: client,
        input_validated: validated,
        timestamp: at(7),
    }
}

#[test]
fn admin_ownership_transfer_passes_cross_user_access() {
    let mut before = ApplicationState::default();
    own(&mut before, "obj_1", "user_1");
    before.current_session = Some(session("s", "user_1", &["admin"], true));
    let mut after = before.clone();
    own(&mut after, "obj_1", "user_2");
    assert!(holds("AUTH_001", &before, &after));
    assert!(validator().validate_transition(&before, &after).is_valid);
}

#[test]
fn transfer_by_stranger_violates_cross_user_access_with_high_severity() {
    let mut before = ApplicationState::default();
    own(&mut before, "obj_1", "user_1");
    before.current_session = Some(session("s", "user_3", &["user"], true));
    let mut after = before.clone();
    own(&mut after, "obj_1", "user_2");
    let result = validator().validate_transition(&before, &after);
    let violation = result.violations.iter().find(|v| v.invariant_id == "AUTH_001").unwrap();
    assert_eq!(violation.severity, Severity::High);
    assert_eq!(violation.invariant_name, "Cross-User Object Access");
    assert_eq!(violation.message, "Unauthorized cross-user object access detected");
    assert_eq!(violation.category, InvariantCategory::Authorization);
    assert_eq!(violation.confidence.millionths(), 1_000_000);
}

#[test]
fn transfer_by_prior_owner_passes_and_without_session_fails() {
    let mut before = ApplicationState::default();
    own(&mut before, "obj_1", "user_1");
    let mut after = before.clone();
    own(&mut after, "obj_1", "user_2");
    assert!(!holds("AUTH_001", &before, &after));
    after.current_session = Some(session("s", "user_1", &[], true));
    assert!(holds("AUTH_001", &before, &after));
    own(&mut after, "obj_new", "user_9");
    assert!(holds("AUTH_001", &before, &after));
}

#[test]
fn added_role_needs_a_grant() {
    let mut before = ApplicationState::default();
    before.current_session = Some(session("s", "u", &["user"], true));
    let mut after = before.clone();
    after.current_session = Some(session("s", "u", &["user", "admin"], true));
    assert!(!holds("AUTH_002", &before, &after));
    after.authorization_events.push(event("role_grant", Some("other")));
    assert!(!holds("AUTH_002", &before, &after));
    after.authorization_events.push(event("admin_action", Some("admin")));
    assert!(!holds("AUTH_002", &before, &after));
    after.authorization_events.push(event("role_grant", Some("admin")));
    assert!(holds("AUTH_002", &before, &after));
}

#[test]
fn every_added_role_needs_its_own_grant() {
    let mut before = ApplicationState::default();
    before.current_session = Some(session("s", "u", &["user"], true));
    let mut after = before.clone();
    after.current_session = Some(session("s", "u", &["user", "admin", "auditor"], true));
    after.authorization_events.push(event("role_grant", Some("admin")));
    assert!(!holds("AUTH_002", &before, &after));
    after.authorization_events.push(event("role_grant", Some("auditor")));
    assert!(holds("AUTH_002", &before, &after));
}

#[test]
fn roles_that_do_not_contain_the_prior_set_are_no_escalation() {
    let mut before = ApplicationState::default();
    before.current_session = Some(session("s", "u", &["user"], true));
    let mut after = before.clone();
    after.current_session = Some(session("s", "u", &["admin"], true));
    assert!(holds("AUTH_002", &before, &after));
    after.current_session = Some(session("s", "u", &["user"], true));
    assert!(holds("AUTH_002", &before, &after));
    let none = ApplicationState::default();
    assert!(holds("AUTH_002", &none, &after));
}

#[test]
fn new_object_of_another_user_needs_a_privileged_role() {
    let before = ApplicationState::default();
    let mut after = ApplicationState::default();
    after.data_objects.insert(ObjectId("o".to_string()), object("o", 1));
    own(&mut after, "o", "user_2");
    assert!(holds("AUTH_003", &before, &after));
    after.current_session = Some(session("s", "user_1", &["user"], true));
    assert!(!holds("AUTH_003", &before, &after));
    after.current_session = Some(session("s", "user_1", &["moderator"], true));
    assert!(holds("AUTH_003", &before, &after));
    after.current_session = Some(session("s", "user_1", &["admin"], true));
    assert!(holds("AUTH_003", &before, &after));
    after.current_session = Some(session("s", "user_2", &[], true));
    assert!(holds("AUTH_003", &before, &after));
    after.current_session = Some(session("s", "user_1", &["user"], true));
    let mut known = ApplicationState::default();
    known.data_objects.insert(ObjectId("o".to_string()), object("o", 1));
    assert!(holds("AUTH_003", &known, &after));
}

#[test]
fn admin_action_needs_an_admin_session() {
    let before = ApplicationState::default();
    let mut after = ApplicationState::default();
    after.authorization_events.push(event("login", None));
    assert!(holds("AUTH_004", &before, &after));
    after.authorization_events.push(event("admin_action", None));
    assert!(!holds("AUTH_004", &before, &after));
    after.current_session = Some(session("s", "u", &["user"], true));
    assert!(!holds("AUTH_004", &before, &after));
    after.current_session = Some(session("s", "u", &["user", "admin"], true));
    assert!(holds("AUTH_004", &before, &after));
}

#[test]
fn internal_transfer_with_record_keeps_all_monetary_invariants() {
    let mut before = ApplicationState::default();
    fund(&mut before, "acc_1", 1000);
    fund(&mut before, "acc_2", 500);
    let mut after = ApplicationState::default();
    fund(&mut after, "acc_1", 800);
    fund(&mut after, "acc_2", 700);
    after.financial_transactions.push(transfer(Some("acc_1"), Some("acc_2"), 200, false));
    let result =
        validator().validate_categories(&before, &after, &[InvariantCategory::Monetary]);
    assert!(result.is_valid);
    assert_eq!(result.checked_invariants, vec!["MON_001", "MON_002", "MON_003", "MON_004"]);
}

#[test]
fn money_creation_violates_conservation_critically() {
    let mut before = ApplicationState::default();
    fund(&mut before, "acc_1", 1000);
    let mut after = ApplicationState::default();
    fund(&mut after, "acc_1", 2000);
    let result = validator().validate_transition(&before, &after);
    assert!(!result.is_valid);
    let violation = result.violations.iter().find(|v| v.invariant_id == "MON_001").unwrap();
    assert_eq!(violation.severity, Severity::Critical);
    assert_eq!(violation.confidence.millionths(), 1_000_000);
}

#[test]
fn external_transactions_account_for_the_change_of_the_total() {
    let mut before = ApplicationState::default();
    fund(&mut before, "acc_1", 1000);
    let mut after = ApplicationState::default();
    fund(&mut after, "acc_1", 1500);
    after.financial_transactions.push(transfer(None, Some("acc_1"), 500, true));
    assert!(holds("MON_001", &before, &after));
    after.financial_transactions.push(transfer(None, Some("acc_1"), 100, false));
    assert!(holds("MON_001", &before, &after));
    after.financial_transactions.push(transfer(None, Some("acc_1"), -100, true));
    assert!(!holds("MON_001", &before, &after));
}

#[test]
fn conservation_holds_at_the_limits_of_the_amounts() {
    let mut before = ApplicationState::default();
    fund(&mut before, "a", i64::MIN);
    fund(&mut before, "b", i64::MIN);
    let mut after = ApplicationState::default();
    fund(&mut after, "a", i64::MAX);
    fund(&mut after, "b", i64::MAX);
    assert!(!holds("MON_001", &before, &after));
    after.financial_transactions.push(transfer(None, None, i64::MAX, true));
    after.financial_transactions.push(transfer(None, None, i64::MAX, true));
    after.financial_transactions.push(transfer(None, None, i64::MAX, true));
    after.financial_transactions.push(transfer(None, None, i64::MAX, true));
    assert!(!holds("MON_001", &before, &after));
    after.financial_transactions.push(transfer(None, None, 2, true));
    assert!(holds("MON_001", &before, &after));
}

#[test]
fn negative_balance_needs_overdraft_permission() {
    let before = ApplicationState::default();
    let mut after = ApplicationState::default();
    fund(&mut after, "acc", -1);
    assert!(!holds("MON_002", &before, &after));
    after.overdraft_permissions.insert(AccountId("other".to_string()));
    assert!(!holds("MON_002", &before, &after));
    after.overdraft_permissions.insert(AccountId("acc".to_string()));
    assert!(holds("MON_002", &before, &after));
    fund(&mut after, "zero", 0);
    assert!(holds("MON_002", &before, &after));
}

#[test]
fn internal_transfer_moves_the_same_amount_on_both_sides() {
    let mut before = ApplicationState::default();
    fund(&mut before, "a", 1000);
    fund(&mut before, "b", 500);
    let mut after = ApplicationState::default();
    fund(&mut after, "a", 800);
    fund(&mut after, "b", 600);
    after.financial_transactions.push(transfer(Some("a"), Some("b"), 200, false));
    assert!(!holds("MON_003", &before, &after));
    fund(&mut after, "b", 700);
    assert!(holds("MON_003", &before, &after));
    fund(&mut after, "b", 300);
    assert!(holds("MON_003", &before, &after));
}

#[test]
fn atomicity_looks_at_internal_transfers_with_both_accounts_only() {
    let mut before = ApplicationState::default();
    fund(&mut before, "a", 1000);
    let mut after = ApplicationState::default();
    fund(&mut after, "a", 800);
    after.financial_transactions.push(transfer(Some("a"), Some("b"), 200, true));
    after.financial_transactions.push(transfer(Some("a"), None, 200, false));
    after.financial_transactions.push(transfer(None, Some("b"), 200, false));
    assert!(holds("MON_003", &before, &after));
    after.financial_transactions.push(transfer(Some("a"), Some("b"), 200, false));
    assert!(!holds("MON_003", &before, &after));
    fund(&mut after, "b", 200);
    assert!(holds("MON_003", &before, &after));
}

#[test]
fn balance_may_not_fall_below_what_the_debits_leave() {
    let mut before = ApplicationState::default();
    fund(&mut before, "a", 1000);
    let mut after = ApplicationState::default();
    fund(&mut after, "a", 700);
    after.financial_transactions.push(transfer(Some("a"), None, 200, false));
    assert!(!holds("MON_004", &before, &after));
    after.financial_transactions.push(transfer(Some("a"), None, 100, true));
    assert!(holds("MON_004", &before, &after));
    after.financial_transactions.push(transfer(Some("b"), None, 100, true));
    fund(&mut after, "fresh", -50);
    assert!(holds("MON_004", &before, &after));
    fund(&mut after, "a", 699);
    assert!(!holds("MON_004", &before, &after));
}

fn step(index: u32) -> WorkflowStep {
    WorkflowStep { workflow_id: "w".to_string(), step_index: index, step_name: "s".to_string() }
}

#[test]
fn workflow_skip_violates_step_ordering() {
    let mut before = ApplicationState::default();
    before.workflow_positions.insert(SessionId("s".to_string()), step(1));
    let mut after = ApplicationState::default();
    after.workflow_positions.insert(SessionId("s".to_string()), step(5));
    let result = validator().validate_transition(&before, &after);
    assert!(result.violations.iter().any(|v| v.invariant_id == "WF_001"));
    after.workflow_positions.insert(SessionId("s".to_string()), step(2));
    assert!(holds("WF_001", &before, &after));
    after.workflow_positions.insert(SessionId("s".to_string()), step(0));
    assert!(holds("WF_001", &before, &after));
}

#[test]
fn new_session_starts_at_step_one_at_most() {
    let before = ApplicationState::default();
    let mut after = ApplicationState::default();
    after.workflow_positions.insert(SessionId("s".to_string()), step(1));
    assert!(holds("WF_001", &before, &after));
    after.workflow_positions.insert(SessionId("t".to_string()), step(2));
    assert!(!holds("WF_001", &before, &after));
}

#[test]
fn step_ordering_does_not_overflow_at_the_last_step() {
    let mut before = ApplicationState::default();
    before.workflow_positions.insert(SessionId("s".to_string()), step(u32::MAX));
    let mut after = ApplicationState::default();
    after.workflow_positions.insert(SessionId("s".to_string()), step(u32::MAX));
    assert!(holds("WF_001", &before, &after));
}

#[test]
fn critical_workflow_must_be_complete() {
    let before = ApplicationState::default();
    let mut after = ApplicationState::default();
    after.workflow_completions.push(completion(vec![], false, false));
    after.workflow_completions.push(completion(vec![], true, true));
    assert!(holds("WF_002", &before, &after));
    after.workflow_completions.push(completion(vec![], true, false));
    assert!(!holds("WF_002", &before, &after));
}

fn consistent(steps: Vec<u32>) -> bool {
    let before = ApplicationState::default();
    let mut after = ApplicationState::default();
    after.workflow_completions.push(completion(steps, false, true));
    holds("WF_003", &before, &after)
}

#[test]
fn completed_steps_form_a_run_without_gaps() {
    assert!(consistent(vec![]));
    assert!(consistent(vec![0]));
    assert!(consistent(vec![1]));
    assert!(consistent(vec![0, 1, 2]));
    assert!(consistent(vec![1, 2, 3]));
    assert!(consistent(vec![2, 0, 1]));
    assert!(consistent(vec![3, 1, 2]));
    assert!(!consistent(vec![2]));
    assert!(!consistent(vec![0, 2]));
    assert!(!consistent(vec![1, 3]));
    assert!(!consistent(vec![1, 1]));
    assert!(!consistent(vec![0, 0]));
    assert!(!consistent(vec![2, 3]));
    assert!(!consistent(vec![0, 1, 3]));
    assert!(!consistent(vec![u32::MAX]));
}

#[test]
fn unvalidated_client_input_violates_trust() {
    let before = ApplicationState::default();
    let mut after = ApplicationState::default();
    after.trust_decisions.push(decision("pricing", true, true));
    after.trust_decisions.push(decision("pricing", false, false));
    assert!(holds("TRUST_001", &before, &after));
    after.trust_decisions.push(decision("pricing", true, false));
    assert!(!holds("TRUST_001", &before, &after));
}

#[test]
fn security_decisions_are_found_by_substring() {
    let before = ApplicationState::default();
    for kind in ["security", "auth", "access", "reauthorize_payment", "inaccessible", "x_security_y"] {
        let mut after = ApplicationState::default();
        after.trust_decisions.push(decision(kind, false, false));
        assert!(!holds("TRUST_002", &before, &after), "{}", kind);
        assert!(holds("TRUST_001", &before, &after), "{}", kind);
        let mut validated = ApplicationState::default();
        validated.trust_decisions.push(decision(kind, false, true));
        assert!(holds("TRUST_002", &before, &validated), "{}", kind);
    }
    for kind in ["", "pricing", "aut", "acces", "securit", "Auth", "a-u-t-h"] {
        let mut after = ApplicationState::default();
        after.trust_decisions.push(decision(kind, false, false));
        assert!(holds("TRUST_002", &before, &after), "{}", kind);
    }
}

#[test]
fn changed_data_needs_the_owner_or_an_admin() {
    let mut before = ApplicationState::default();
    before.data_objects.insert(ObjectId("o".to_string()), object("o", 1));
    let mut after = ApplicationState::default();
    after.data_objects.insert(ObjectId("o".to_string()), object("o", 1));
    own(&mut after, "o", "user_2");
    assert!(holds("DATA_001", &before, &after));
    after.data_objects.insert(ObjectId("o".to_string()), object("o", 2));
    assert!(!holds("DATA_001", &before, &after));
    after.current_session = Some(session("s", "user_1", &["user"], true));
    assert!(!holds("DATA_001", &before, &after));
    after.current_session = Some(session("s", "user_2", &["user"], true));
    assert!(holds("DATA_001", &before, &after));
    after.current_session = Some(session("s", "user_1", &["admin"], true));
    assert!(holds("DATA_001", &before, &after));
    after.data_objects.insert(ObjectId("new".to_string()), object("new", 7));
    assert!(holds("DATA_001", &before, &after));
}

#[test]
fn any_field_of_a_data_object_counts_as_a_change() {
    let mut before = ApplicationState::default();
    before.data_objects.insert(ObjectId("o".to_string()), object("o", 1));
    let variants: Vec<DataObject> = vec![
        DataObject { data_type: "other".to_string(), ..object("o", 1) },
        DataObject { content_hash: "other".to_string(), ..object("o", 1) },
        DataObject { last_modified: Timestamp::new(3, 1), ..object("o", 1) },
        DataObject { id: ObjectId("p".to_string()), ..object("o", 1) },
    ];
    for variant in variants {
        let mut after = ApplicationState::default();
        after.data_objects.insert(ObjectId("o".to_string()), variant);
        assert!(!holds("DATA_001", &before, &after));
    }
}

#[test]
fn version_may_not_decrease() {
    let mut before = ApplicationState::default();
    before.data_objects.insert(ObjectId("o".to_string()), object("o", 2));
    let mut after = ApplicationState::default();
    after.data_objects.insert(ObjectId("o".to_string()), object("o", 2));
    assert!(holds("DATA_002", &before, &after));
    after.data_objects.insert(ObjectId("o".to_string()), object("o", 3));
    assert!(holds("DATA_002", &before, &after));
    after.data_objects.insert(ObjectId("o".to_string()), object("o", 1));
    assert!(!holds("DATA_002", &before, &after));
    after.data_objects.insert(ObjectId("o".to_string()), object("o", 2));
    after.data_objects.insert(ObjectId("p".to_string()), object("p", 0));
    assert!(holds("DATA_002", &before, &after));
}

#[test]
fn session_fixation_is_detected() {
    let mut before = ApplicationState::default();
    before.current_session = Some(session("s1", "u", &[], false));
    let mut after = ApplicationState::default();
    after.current_session = Some(session("s1", "u", &[], true));
    let result = validator().validate_transition(&before, &after);
    assert!(result.violations.iter().any(|v| v.invariant_id == "SESS_001"));
    after.current_session = Some(session("s2", "u", &[], true));
    assert!(validator().validate_transition(&before, &after).is_valid);
    after.current_session = Some(session("s1", "u", &[], false));
    assert!(holds("SESS_001", &before, &after));
    let none = ApplicationState::default();
    after.current_session = Some(session("s1", "u", &[], true));
    assert!(holds("SESS_001", &none, &after));
    assert!(holds("SESS_001", &before, &none));
}

#[test]
fn session_stays_with_its_user() {
    let mut before = ApplicationState::default();
    before.current_session = Some(session("s1", "u", &[], true));
    let mut after = ApplicationState::default();
    after.current_session = Some(session("s1", "v", &[], true));
    assert!(!holds("SESS_002", &before, &after));
    after.current_session = Some(session("s2", "v", &[], true));
    assert!(holds("SESS_002", &before, &after));
    after.current_session = Some(session("s1", "u", &["admin"], false));
    assert!(holds("SESS_002", &before, &after));
}

fn sized(hash: String, kind: String) -> bool {
    let before = ApplicationState::default();
    let mut after = ApplicationState::default();
    after.data_objects.insert(
        ObjectId("o".to_string()),
        DataObject { content_hash: hash, data_type: kind, ..object("o", 1) },
    );
    holds("INPUT_001", &before, &after)
}

#[test]
fn input_lengths_are_bounded_in_bytes() {
    assert!(sized("a".repeat(128), "b".repeat(256)));
    assert!(!sized("a".repeat(129), "b".repeat(256)));
    assert!(!sized("a".repeat(128), "b".repeat(257)));
    assert!(sized(String::new(), String::new()));
    assert!(sized("\u{e9}".repeat(64), "t".to_string()));
    assert!(!sized("\u{e9}".repeat(65), "t".to_string()));
}

#[test]
fn unchanged_state_at_rest_is_valid() {
    let mut state = ApplicationState::default();
    own(&mut state, "o", "u");
    fund(&mut state, "a", 10);
    fund(&mut state, "b", -10);
    state.overdraft_permissions.insert(AccountId("b".to_string()));
    state.current_session = Some(session("s", "u", &["user"], false));
    state.data_objects.insert(ObjectId("o".to_string()), object("o", 4));
    state.workflow_positions.insert(SessionId("s".to_string()), step(9));
    state.financial_transactions.push(transfer(Some("a"), Some("b"), 5, false));
    state.authorization_events.push(event("role_grant", Some("user")));
    state.trust_decisions.push(decision("auth", true, true));
    state.workflow_completions.push(completion(vec![1, 2], true, true));
    let result = validator().validate_transition(&state, &state);
    assert!(result.is_valid);
    assert!(result.violations.is_empty());
    assert_eq!(result.checked_invariants.len(), 18);
}

#[test]
fn unchanged_state_that_is_not_at_rest_is_invalid() {
    let mut state = ApplicationState::default();
    fund(&mut state, "b", -10);
    let result = validator().validate_transition(&state, &state);
    assert!(!result.is_valid);
    let ids: Vec<&str> = result.violations.iter().map(|v| v.invariant_id.as_str()).collect();
    assert_eq!(ids, vec!["MON_002"]);
}
