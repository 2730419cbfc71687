//! Tests of the ledger, the coverage report, the causal chain, the replay
//! instructions, the evidence bundle, the proof and the trackers on exact
//! values.

use kali_mcp_core::collections::{SortedMap, SortedSet};
use kali_mcp_core::invariants::{
    ConstantPredicate, CoverageTracker, CustomPredicate, GapSeverity, InvariantCatalog,
    InvariantCategory, InvariantProvenance, InvariantValidator, SecurityInvariant,
    StandardPredicate, TransitionPredicate, TransitionType, Validator,
};
use kali_mcp_core::invariants::standard::category_from_label;
use kali_mcp_core::proofs::evidence::content_digest_of;
use kali_mcp_core::proofs::{
    build_proof, AttributionRule, CausalChain, CausalEngine, CausalLink, ConstantMatcher,
    CustomMatcher, Evidence, EvidenceArtifact, EvidenceCollector, EvidenceType, ReplayEngine,
    ReplayResult, RuleMatcher, SessionRequirement, StateChange, StateChangeType,
    StateRequirements,
};
use kali_mcp_core::state::{
    AccessType, Action, ActionType, ApplicationState, BalanceMonitor, OwnershipTracker,
    RoleChangeType, SessionEventType, SessionState, SessionTracker, StateLedger, StateModel,
    StateSnapshot, StateTracker, StateTransition,
};
use kali_mcp_core::types::{
    AccountId, ActionTiming, Balance, Confidence, Currency, FindingClassification, HttpMethod,
    HttpRequest, HttpResponse, JsonValue, ObjectId, Role, SessionId, Severity, Timestamp,
    UserId, WorkflowStep,
};
use std::sync::Arc;

fn at(secs: i64) -> Timestamp {
    Timestamp::new(secs, 0)
}

fn request() -> HttpRequest {
    HttpRequest {
        method: HttpMethod::POST,
        url: "https://example.com/api".to_string(),
        headers: SortedMap::new(),
        body: None,
        timestamp: at(1),
    }
}

fn action(action_type: ActionType, with_request: bool) -> Action {
    Action {
        id: "action".to_string(),
        action_type,
        request: if with_request { Some(request()) } else { None },
        parameters: SortedMap::new(),
        authentication: None,
        timing: ActionTiming { start_time: at(1), end_time: at(2), duration_ms: 100 },
    }
}

fn transition(from: ApplicationState, to: ApplicationState, action: Action) -> StateTransition {
    StateTransition {
        id: "transition".to_string(),
        from_state: from,
        to_state: to,
        triggering_action: action,
        timestamp: at(3),
    }
}

fn funded(accounts: &[(&str, i64)]) -> ApplicationState {
    let mut state = ApplicationState::default();
    for (account, amount) in accounts {
        state.balances.insert(AccountId(account.to_string()), Balance::new(*amount, Currency::USD));
    }
    state
}

fn session(id: &str, roles: &[&str], authenticated: bool) -> SessionState {
    SessionState {
        session_id: SessionId(id.to_string()),
        user_id: UserId("user".to_string()),
        roles: SortedSet::from_vec(roles.iter().map(|r| Role(r.to_string())).collect()),
        authenticated,
        created_at: at(1),
        last_activity: at(2),
    }
}

fn constant(verdict: bool) -> Validator {
    Validator::Custom(CustomPredicate { predicate: Arc::new(ConstantPredicate { verdict }) })
}

fn custom(id: &str, category: InvariantCategory, verdict: bool) -> SecurityInvariant {
    SecurityInvariant::new(id, "Name", "Description", category, "Message", constant(verdict))
}

#[test]
fn catalog_is_seeded_with_the_default_invariants_in_order() {
    let catalog = InvariantCatalog::new();
    let ids: Vec<&str> = catalog.all().into_iter().map(|i| i.id.as_str()).collect();
    assert_eq!(
        ids,
        vec![
            "AUTH_001", "AUTH_002", "AUTH_003", "AUTH_004", "MON_001", "MON_002", "MON_003",
            "MON_004", "WF_001", "WF_002", "WF_003", "TRUST_001", "TRUST_002", "DATA_001",
            "DATA_002", "SESS_001", "SESS_002", "INPUT_001",
        ]
    );
    assert_eq!(catalog.count(), 18);
    assert_eq!(catalog.count_by_category(InvariantCategory::Authorization), 4);
    assert_eq!(catalog.count_by_category(InvariantCategory::Monetary), 4);
    assert_eq!(catalog.count_by_category(InvariantCategory::Workflow), 3);
    assert_eq!(catalog.count_by_category(InvariantCategory::Trust), 2);
    assert_eq!(catalog.count_by_category(InvariantCategory::DataIntegrity), 2);
    assert_eq!(catalog.count_by_category(InvariantCategory::SessionManagement), 2);
    assert_eq!(catalog.count_by_category(InvariantCategory::InputValidation), 1);
    assert_eq!(catalog.count_by_category(InvariantCategory::RateLimiting), 0);
    assert_eq!(catalog.count_by_category(InvariantCategory::Custom), 0);
    let first = catalog.get("AUTH_001").unwrap();
    assert_eq!(first.name, "Cross-User Object Access");
    assert_eq!(first.category, InvariantCategory::Authorization);
    assert_eq!(
        first.provenance.security_principle,
        "Principle of Least Privilege / Object-Level Authorization"
    );
    assert_eq!(first.provenance.assumptions.len(), 2);
    assert_eq!(
        first.provenance.blind_spots[1],
        "Does not cover implicit permissions from group membership"
    );
    assert_eq!(first.provenance.last_reviewed.as_deref(), Some("2024-12"));
    let money = catalog.get("MON_001").unwrap();
    assert_eq!(money.provenance.security_principle, "Unspecified");
    assert!(money.provenance.standards_reference.is_none());
    assert!(matches!(
        money.validator,
        Validator::Standard(StandardPredicate::BalanceConservation)
    ));
    assert_eq!(catalog.entry(17).id, "INPUT_001");
    assert_eq!(first.describe(), "AUTH_001: Cross-User Object Access (Authorization)");
    assert_eq!(catalog.entry(13).describe(), "DATA_001: Data Modification Authorization (DataIntegrity)");
    assert!(catalog.get("auth_001").is_none());
    assert!(catalog.get("").is_none());
}

#[test]
fn registering_a_known_identifier_is_rejected() {
    let mut catalog = InvariantCatalog::new();
    assert!(!catalog.register(custom("AUTH_001", InvariantCategory::Custom, false)));
    assert_eq!(catalog.count(), 18);
    assert_eq!(catalog.get("AUTH_001").unwrap().name, "Cross-User Object Access");
    assert_eq!(catalog.count_by_category(InvariantCategory::Custom), 0);
    assert!(catalog.register(custom("X", InvariantCategory::RateLimiting, false)));
    assert!(!catalog.register(custom("X", InvariantCategory::Custom, true)));
    assert_eq!(catalog.count(), 19);
    assert_eq!(catalog.all()[18].id, "X");
    assert_eq!(catalog.get_by_category(InvariantCategory::RateLimiting).len(), 1);
    let mut empty = InvariantCatalog::empty();
    assert_eq!(empty.count(), 0);
    assert!(empty.register(SecurityInvariant::standard(StandardPredicate::UserBinding)));
    assert_eq!(empty.get("SESS_002").unwrap().description, "Session cannot be transferred to a different user");
    assert_eq!(InvariantCatalog::default().count(), 18);
}

#[test]
fn custom_invariants_are_evaluated_with_the_severity_of_their_category() {
    let mut catalog = InvariantCatalog::new();
    catalog.register(custom("RATE", InvariantCategory::RateLimiting, false));
    catalog.register(custom("OWN", InvariantCategory::Custom, false));
    catalog.register(SecurityInvariant::with_provenance(
        "FINE",
        "Fine",
        "Holds",
        InvariantCategory::Custom,
        "never",
        InvariantProvenance::default(),
        constant(true),
    ));
    let validator = InvariantValidator::new(Arc::new(catalog));
    let state = ApplicationState::default();
    let result = validator.validate_transition(&state, &state);
    assert!(!result.is_valid);
    assert_eq!(result.classification, FindingClassification::Bug);
    assert_eq!(result.checked_invariants.len(), 21);
    let found: Vec<(&str, Severity)> =
        result.violations.iter().map(|v| (v.invariant_id.as_str(), v.severity)).collect();
    assert_eq!(found, vec![("RATE", Severity::Medium), ("OWN", Severity::Medium)]);
    assert!(validator.is_bug(&result));
    assert!(!validator.is_signal(&result));
    let scoped = validator.validate_categories(
        &state,
        &state,
        &[InvariantCategory::Custom, InvariantCategory::Trust, InvariantCategory::Custom],
    );
    assert_eq!(
        scoped.checked_invariants,
        vec!["OWN", "FINE", "TRUST_001", "TRUST_002", "OWN", "FINE"]
    );
    assert_eq!(scoped.violations.len(), 2);
    let none = validator.validate_categories(&state, &state, &[]);
    assert!(none.is_valid && none.checked_invariants.is_empty());
    assert_eq!(none.classification, FindingClassification::NoIssue);
    let single = validator.validate_invariant("OWN", &state, &state).unwrap();
    assert_eq!(single.violations[0].message, "Message");
    assert_eq!(single.violations[0].invariant_name, "Name");
}

#[test]
fn severity_follows_the_table_for_every_category() {
    let validator = InvariantValidator::new(Arc::new(InvariantCatalog::new()));
    let table = [
        (InvariantCategory::Monetary, Severity::Critical),
        (InvariantCategory::Authorization, Severity::High),
        (InvariantCategory::Trust, Severity::High),
        (InvariantCategory::DataIntegrity, Severity::High),
        (InvariantCategory::SessionManagement, Severity::High),
        (InvariantCategory::Workflow, Severity::Medium),
        (InvariantCategory::InputValidation, Severity::Medium),
        (InvariantCategory::RateLimiting, Severity::Medium),
        (InvariantCategory::Custom, Severity::Medium),
    ];
    for (category, severity) in table {
        assert_eq!(validator.determine_severity(&category), severity);
    }
}

#[test]
fn validation_gives_the_same_result_every_time() {
    let validator = InvariantValidator::new(Arc::new(InvariantCatalog::new()));
    let before = funded(&[("a", 10)]);
    let mut after = funded(&[("a", -20)]);
    after.current_session = Some(session("s", &[], true));
    let describe = |validator: &InvariantValidator| {
        let result = validator.validate_transition(&before, &after);
        let ids: Vec<String> = result.violations.iter().map(|v| v.invariant_id.clone()).collect();
        (result.is_valid, ids, result.checked_invariants)
    };
    let first = describe(&validator);
    assert_eq!(first.1, vec!["MON_001", "MON_002", "MON_004"]);
    assert_eq!(first, describe(&validator));
    let again = InvariantValidator::new(Arc::new(InvariantCatalog::new()));
    assert_eq!(first, describe(&again));
}

#[test]
fn results_are_classified() {
    let valid = kali_mcp_core::invariants::ValidationResult::valid(vec!["A".to_string()]);
    assert!(valid.is_valid && valid.violations.is_empty());
    assert_eq!(valid.classification, FindingClassification::NoIssue);
    let signal = kali_mcp_core::invariants::ValidationResult::signal(vec![]);
    assert!(signal.is_valid);
    assert_eq!(signal.classification, FindingClassification::Signal);
    let validator = InvariantValidator::new(Arc::new(InvariantCatalog::empty()));
    assert!(validator.is_signal(&signal));
    assert!(!validator.is_signal(&valid));
    assert!(!validator.is_bug(&valid));
    let empty = validator.validate_transition(&funded(&[]), &funded(&[("a", 1)]));
    assert!(empty.is_valid && empty.checked_invariants.is_empty());
}

#[test]
fn coverage_report_counts_by_category() {
    let catalog = Arc::new(InvariantCatalog::new());
    let mut tracker = CoverageTracker::new(Arc::clone(&catalog));
    for id in ["AUTH_001", "AUTH_002", "AUTH_003", "AUTH_004", "MON_001", "WF_002", "UNKNOWN"] {
        tracker.record_check(id);
    }
    tracker.record_check("AUTH_001");
    let report = tracker.generate_report();
    assert_eq!(report.total_invariants, 18);
    assert_eq!(report.covered_invariants, 7);
    assert_eq!(report.coverage_percentage, 3888);
    assert!(!report.is_complete);
    assert!(report.uncovered_transition_types.is_empty());
    let summary: Vec<(InvariantCategory, usize, usize, u128)> = report
        .by_category
        .iter()
        .map(|(c, v)| (*c, v.total, v.covered, v.percentage))
        .collect();
    assert_eq!(
        summary,
        vec![
            (InvariantCategory::Authorization, 4, 4, 10000),
            (InvariantCategory::Monetary, 4, 1, 2500),
            (InvariantCategory::Workflow, 3, 1, 3333),
            (InvariantCategory::Trust, 2, 0, 0),
            (InvariantCategory::DataIntegrity, 2, 0, 0),
            (InvariantCategory::SessionManagement, 2, 0, 0),
            (InvariantCategory::InputValidation, 1, 0, 0),
            (InvariantCategory::RateLimiting, 0, 0, 10000),
            (InvariantCategory::Custom, 0, 0, 10000),
        ]
    );
    assert_eq!(report.by_category[1].1.uncovered_ids, vec!["MON_002", "MON_003", "MON_004"]);
    let gaps: Vec<(InvariantCategory, GapSeverity, &str)> =
        report.gaps.iter().map(|g| (g.category, g.severity, g.description.as_str())).collect();
    assert_eq!(
        gaps,
        vec![
            (InvariantCategory::Monetary, GapSeverity::Critical, "Monetary invariants: 1/4 covered (25.0%)"),
            (InvariantCategory::Workflow, GapSeverity::Medium, "Workflow invariants: 1/3 covered (33.3%)"),
            (InvariantCategory::Trust, GapSeverity::High, "Trust invariants: 0/2 covered (0.0%)"),
            (InvariantCategory::DataIntegrity, GapSeverity::Medium, "DataIntegrity invariants: 0/2 covered (0.0%)"),
            (
                InvariantCategory::SessionManagement,
                GapSeverity::High,
                "SessionManagement invariants: 0/2 covered (0.0%)",
            ),
            (InvariantCategory::InputValidation, GapSeverity::Low, "InputValidation invariants: 0/1 covered (0.0%)"),
        ]
    );
    assert_eq!(report.gaps[1].uncovered_transitions, vec!["WF_001", "WF_003"]);
    assert_eq!(tracker.get_uncovered().len(), 12);
    assert_eq!(tracker.get_uncovered()[0], "MON_002");
}

#[test]
fn coverage_is_never_complete() {
    let catalog = Arc::new(InvariantCatalog::new());
    let mut tracker = CoverageTracker::new(Arc::clone(&catalog));
    let ids: Vec<String> = catalog.all().into_iter().map(|i| i.id.clone()).collect();
    tracker.record_checks(&ids);
    let report = tracker.generate_report();
    assert_eq!(report.covered_invariants, 18);
    assert_eq!(report.coverage_percentage, 10000);
    assert!(report.gaps.is_empty());
    assert!(tracker.get_uncovered().is_empty());
    assert!(!report.is_complete);
    let empty = CoverageTracker::new(Arc::new(InvariantCatalog::empty())).generate_report();
    assert_eq!(empty.coverage_percentage, 0);
    assert!(!empty.is_complete);
}

#[test]
fn unclassified_transitions_make_a_gap_of_their_own() {
    let mut tracker = CoverageTracker::new(Arc::new(InvariantCatalog::empty()));
    tracker.record_unclassified("first".to_string());
    tracker.record_unclassified("second".to_string());
    tracker.record_transition(TransitionType {
        category: "payment".to_string(),
        action: "refund".to_string(),
        state_changes: vec!["balances".to_string()],
    });
    let report = tracker.generate_report();
    assert_eq!(report.uncovered_transition_types, vec!["first", "second"]);
    assert_eq!(report.gaps.len(), 1);
    assert_eq!(report.gaps[0].category, InvariantCategory::Custom);
    assert_eq!(report.gaps[0].severity, GapSeverity::Medium);
    assert_eq!(
        report.gaps[0].description,
        "2 state transitions could not be classified under any invariant"
    );
    assert_eq!(report.gaps[0].uncovered_transitions, vec!["first", "second"]);
    tracker.record_check("A");
    tracker.reset();
    assert!(!tracker.is_covered("A"));
    assert!(tracker.generate_report().gaps.is_empty());
}

#[test]
fn ledger_numbers_and_chains_its_entries() {
    let mut ledger = StateLedger::new();
    assert!(ledger.verify_integrity());
    assert!(ledger.get_latest_state().is_none());
    let mut ids = Vec::new();
    for i in 0..4 {
        let to = funded(&[("a", i)]);
        ids.push(ledger.record_transition(transition(
            ApplicationState::default(),
            to,
            action(ActionType::Payment, false),
        )));
    }
    assert_eq!(ledger.len(), 4);
    assert!(ledger.get_by_sequence(0).is_none());
    assert!(ledger.get_by_sequence(5).is_none());
    assert!(ledger.get_state_at(0).is_none());
    let mut previous: Option<String> = None;
    for i in 0..4u64 {
        let entry = ledger.get_by_sequence(i + 1).unwrap();
        assert_eq!(entry.sequence, i + 1);
        assert_eq!(entry.id, ids[i as usize]);
        assert_eq!(entry.previous_hash, previous);
        assert_eq!(entry.state_hash, StateSnapshot::new(funded(&[("a", i as i64)])).hash());
        assert_eq!(entry.transition.id, "transition");
        let stashed = ledger.get_snapshot(&entry.state_hash).unwrap();
        assert_eq!(stashed.state.balances.get_by_text("a").unwrap().amount, i as i64);
        previous = Some(entry.state_hash);
    }
    assert_eq!(ledger.get_entry(&ids[2]).unwrap().sequence, 3);
    assert!(ledger.get_entry("no such entry").is_none());
    assert!(ledger.get_snapshot("no such hash").is_none());
    assert_eq!(ledger.get_latest_state().unwrap().balances.get_by_text("a").unwrap().amount, 3);
    assert_eq!(ledger.get_state_at(2).unwrap().balances.get_by_text("a").unwrap().amount, 1);
    let replay: Vec<u64> = ledger.get_replay_sequence(2, 9).iter().map(|e| e.sequence).collect();
    assert_eq!(replay, vec![2, 3, 4]);
    assert!(ledger.get_replay_sequence(3, 2).is_empty());
    assert_eq!(ledger.get_replay_sequence(0, 1).len(), 1);
    assert_eq!(ledger.get_range(at(0), Timestamp::new(i64::MAX, 0)).len(), 4);
    assert!(ledger.get_range(Timestamp::new(i64::MAX, 0), Timestamp::new(i64::MAX, 1)).is_empty());
    assert!(ledger.get_range(at(1), at(0)).is_empty());
    assert!(ledger.verify_integrity());
    assert!(!ledger.is_empty());
    assert!(StateLedger::default().is_empty());
}

#[test]
fn chain_verification_finds_every_kind_of_damage() {
    let mut ledger = StateLedger::new();
    for i in 0..3 {
        ledger.record_transition(transition(
            ApplicationState::default(),
            funded(&[("a", i)]),
            action(ActionType::Payment, false),
        ));
    }
    let entries = ledger.get_replay_sequence(1, 3);
    assert!(kali_mcp_core::state::ledger::verify_chain(&entries));
    assert!(kali_mcp_core::state::ledger::verify_chain(&Vec::new()));
    let mut renumbered = ledger.get_replay_sequence(1, 3);
    renumbered[1].sequence = 3;
    assert!(!kali_mcp_core::state::ledger::verify_chain(&renumbered));
    let mut unlinked = ledger.get_replay_sequence(1, 3);
    unlinked[2].previous_hash = Some(unlinked[0].state_hash.clone());
    assert!(!kali_mcp_core::state::ledger::verify_chain(&unlinked));
    let mut headed = ledger.get_replay_sequence(1, 3);
    headed[0].previous_hash = Some(headed[0].state_hash.clone());
    assert!(!kali_mcp_core::state::ledger::verify_chain(&headed));
    let mut orphaned = ledger.get_replay_sequence(1, 3);
    orphaned[1].previous_hash = None;
    assert!(!kali_mcp_core::state::ledger::verify_chain(&orphaned));
    let mut altered = ledger.get_replay_sequence(1, 3);
    altered[2].transition.to_state = funded(&[("a", 99)]);
    assert!(!kali_mcp_core::state::ledger::verify_chain(&altered));
    let mut rehashed = ledger.get_replay_sequence(1, 3);
    rehashed[0].state_hash = rehashed[1].state_hash.clone();
    assert!(!kali_mcp_core::state::ledger::verify_chain(&rehashed));
    assert!(!kali_mcp_core::state::ledger::verify_chain(&ledger.get_replay_sequence(2, 3)));
}

fn changed_states() -> (ApplicationState, ApplicationState) {
    let mut before = funded(&[("acc1", 1000)]);
    before.ownership.insert(ObjectId("obj1".to_string()), UserId("user1".to_string()));
    before.ownership.insert(ObjectId("same".to_string()), UserId("user1".to_string()));
    let mut after = funded(&[("acc2", 200), ("acc1", 800)]);
    after.ownership.insert(ObjectId("obj1".to_string()), UserId("user2".to_string()));
    after.ownership.insert(ObjectId("same".to_string()), UserId("user1".to_string()));
    after.ownership.insert(ObjectId("obj0".to_string()), UserId("user9".to_string()));
    after.current_session = Some(session("s", &[], true));
    after.workflow_positions.insert(
        SessionId("w1".to_string()),
        WorkflowStep { workflow_id: "w".to_string(), step_index: 1, step_name: "n".to_string() },
    );
    (before, after)
}

#[test]
fn changes_are_detected_in_order_with_their_values() {
    let (before, after) = changed_states();
    let changes = CausalEngine::new().detect_state_changes(&before, &after);
    let described: Vec<(&StateChangeType, &str, &Option<JsonValue>, &Option<JsonValue>)> = changes
        .iter()
        .map(|c| (&c.change_type, c.field.as_str(), &c.old_value, &c.new_value))
        .collect();
    let text = |t: &str| Some(JsonValue::Text(t.to_string()));
    assert_eq!(
        described,
        vec![
            (&StateChangeType::OwnershipChange, "ownership.obj0", &None, &text("user9")),
            (&StateChangeType::OwnershipChange, "ownership.obj1", &text("user1"), &text("user2")),
            (
                &StateChangeType::BalanceChange,
                "balances.acc1",
                &Some(JsonValue::Integer(1000)),
                &Some(JsonValue::Integer(800))
            ),
            (&StateChangeType::BalanceChange, "balances.acc2", &None, &Some(JsonValue::Integer(200))),
            (&StateChangeType::SessionChange, "current_session", &None, &text("s")),
            (&StateChangeType::WorkflowAdvance, "workflow.w1", &None, &Some(JsonValue::Integer(1))),
        ]
    );
    assert!(CausalEngine::new().detect_state_changes(&after, &after).is_empty());
    let mut rotated = after.clone();
    rotated.current_session = Some(session("t", &["x"], false));
    rotated.workflow_positions.insert(
        SessionId("w1".to_string()),
        WorkflowStep { workflow_id: "w".to_string(), step_index: 2, step_name: "n".to_string() },
    );
    let again = CausalEngine::new().detect_state_changes(&after, &rotated);
    assert_eq!(again.len(), 2);
    assert_eq!(again[0].old_value, text("s"));
    assert_eq!(again[0].new_value, text("t"));
    assert_eq!(again[1].old_value, Some(JsonValue::Integer(1)));
    let mut ended = after.clone();
    ended.current_session = None;
    assert!(CausalEngine::new().detect_state_changes(&after, &ended).is_empty());
}

#[test]
fn chain_has_one_link_with_the_mean_of_the_best_rules() {
    let (before, after) = changed_states();
    let engine = CausalEngine::new();
    let chain = engine.build_chain(&transition(before, after, action(ActionType::Payment, true)));
    assert_eq!(chain.len(), 1);
    assert!(chain.is_complete());
    assert_eq!(chain.links[0].state_changes.len(), 6);
    assert_eq!(chain.links[0].confidence.millionths(), 926_666);
    assert_eq!(chain.confidence.millionths(), 926_666);
    assert_eq!(chain.links[0].timestamp, at(3));
    assert_eq!(chain.links[0].action.id, "action");
    assert_eq!(chain.root_action.as_ref().unwrap().id, "action");
    assert_eq!(chain.final_effect.as_ref().unwrap().field, "workflow.w1");
}

#[test]
fn chain_keeps_only_the_changes_that_a_rule_matches() {
    let (before, after) = changed_states();
    let engine = CausalEngine::new();
    let paid =
        engine.build_chain(&transition(before.clone(), after.clone(), action(ActionType::Payment, false)));
    let fields: Vec<&str> = paid.links[0].state_changes.iter().map(|c| c.field.as_str()).collect();
    assert_eq!(fields, vec!["balances.acc1", "balances.acc2"]);
    assert_eq!(paid.confidence.millionths(), 980_000);
    assert_eq!(paid.final_effect.as_ref().unwrap().field, "balances.acc2");
    let logged_in = engine.build_chain(&transition(
        before.clone(),
        after.clone(),
        action(ActionType::Authentication, false),
    ));
    assert_eq!(logged_in.links[0].state_changes.len(), 1);
    assert_eq!(logged_in.confidence.millionths(), 950_000);
    let both = engine.build_chain(&transition(
        before.clone(),
        after.clone(),
        action(ActionType::Authentication, true),
    ));
    assert_eq!(both.links[0].state_changes.len(), 6);
    assert_eq!(both.confidence.millionths(), 908_333);
    let unmatched =
        engine.build_chain(&transition(before, after, action(ActionType::DatabaseQuery, false)));
    assert!(unmatched.is_empty());
    assert!(!unmatched.is_complete());
    assert_eq!(unmatched.confidence.millionths(), 0);
    assert!(unmatched.root_action.is_none() && unmatched.final_effect.is_none());
}

#[test]
fn causality_confidence_is_that_of_the_best_rule() {
    let engine = CausalEngine::new();
    let names: Vec<(&str, u32)> =
        engine.rules().iter().map(|r| (r.name.as_str(), r.confidence.millionths())).collect();
    assert_eq!(
        names,
        vec![
            ("http_request_attribution", 900_000),
            ("auth_session_attribution", 950_000),
            ("payment_balance_attribution", 980_000),
        ]
    );
    let change = |change_type: StateChangeType| StateChange {
        change_type,
        field: "f".to_string(),
        old_value: None,
        new_value: None,
    };
    let cases = [
        (ActionType::Payment, true, StateChangeType::BalanceChange, 980_000),
        (ActionType::Payment, false, StateChangeType::BalanceChange, 980_000),
        (ActionType::Payment, true, StateChangeType::SessionChange, 900_000),
        (ActionType::Payment, false, StateChangeType::SessionChange, 0),
        (ActionType::Authentication, false, StateChangeType::SessionChange, 950_000),
        (ActionType::Authentication, true, StateChangeType::SessionChange, 950_000),
        (ActionType::Authentication, false, StateChangeType::BalanceChange, 0),
        (ActionType::Custom("x".to_string()), true, StateChangeType::Custom("y".to_string()), 900_000),
        (ActionType::WorkflowStep, false, StateChangeType::WorkflowAdvance, 0),
    ];
    for (action_type, with_request, change_type, expected) in cases {
        let action = action(action_type, with_request);
        let effect = change(change_type);
        assert_eq!(engine.get_causality_confidence(&action, &effect).millionths(), expected);
        assert_eq!(engine.validate_causality(&action, &effect), expected > 0);
    }
    assert_eq!(CausalEngine::default().rules().len(), 3);
}

#[test]
fn chain_confidence_is_the_product_of_its_links() {
    let link = |percent: u8, fields: &[&str]| CausalLink {
        action: action(ActionType::HttpRequest, true),
        state_changes: fields
            .iter()
            .map(|f| StateChange {
                change_type: StateChangeType::DataModification,
                field: f.to_string(),
                old_value: None,
                new_value: None,
            })
            .collect(),
        confidence: Confidence::from_percent(percent).unwrap(),
        timestamp: at(1),
    };
    let mut chain = CausalChain::default();
    chain.complete();
    assert!(!chain.is_complete);
    let mut first = link(90, &[]);
    first.action.id = "first".to_string();
    chain.add_link(first);
    assert_eq!(chain.confidence.millionths(), 900_000);
    assert_eq!(chain.root_action.as_ref().unwrap().id, "first");
    assert!(chain.final_effect.is_none());
    chain.complete();
    assert!(!chain.is_complete());
    chain.add_link(link(50, &["a", "b"]));
    assert_eq!(chain.confidence.millionths(), 450_000);
    assert_eq!(chain.root_action.as_ref().unwrap().id, "first");
    assert_eq!(chain.final_effect.as_ref().unwrap().field, "b");
    assert!(!chain.is_complete());
    chain.complete();
    assert!(chain.is_complete());
    chain.add_link(link(0, &[]));
    assert_eq!(chain.confidence.millionths(), 0);
    assert_eq!(chain.final_effect.as_ref().unwrap().field, "b");
    assert_eq!(chain.len(), 3);
}

#[test]
fn instructions_project_the_earlier_state() {
    let mut before = funded(&[("b", 5), ("a", -3)]);
    before.ownership.insert(ObjectId("o".to_string()), UserId("u".to_string()));
    before.current_session = Some(session("s", &["user", "admin"], false));
    let engine = ReplayEngine::with_config(7, 1000);
    assert_eq!((engine.max_retries, engine.timeout_ms), (7, 1000));
    assert_eq!(ReplayEngine::default(), ReplayEngine::new());
    assert_eq!(ReplayEngine::new().timeout_ms, 30000);
    let instructions = engine.generate_instructions(&transition(
        before,
        ApplicationState::default(),
        action(ActionType::Payment, true),
    ));
    assert_eq!(instructions.steps.len(), 1);
    let step = &instructions.steps[0];
    assert_eq!(step.sequence, 1);
    assert_eq!(step.action.id, "action");
    assert!(step.expected_state_after.is_none());
    assert_eq!(step.wait_before_ms, None);
    assert!(step.retry_on_failure);
    assert_eq!(step.max_retries, 7);
    assert!(instructions.timing_constraints.is_none());
    assert!(instructions.expected_outcome.invariant_violated.is_none());
    assert!(!instructions.is_complete());
    let requirements = &instructions.initial_state_requirements;
    let required = requirements.required_session.as_ref().unwrap();
    assert!(!required.authenticated);
    assert_eq!(required.required_roles, vec!["admin", "user"]);
    assert_eq!(requirements.required_balances.get_by_text("a"), Some(&-3));
    assert_eq!(requirements.required_balances.get_by_text("b"), Some(&5));
    assert_eq!(requirements.required_balances.len(), 2);
    assert_eq!(requirements.required_ownership.get_by_text("o"), Some(&"u".to_string()));
    assert_eq!(requirements.required_workflow_position, None);
}

#[test]
fn steps_of_a_sequence_are_numbered_and_wait() {
    let engine = ReplayEngine::new();
    let transitions: Vec<StateTransition> = (0..3)
        .map(|i| transition(funded(&[("a", i)]), funded(&[]), action(ActionType::Payment, false)))
        .collect();
    let instructions = engine.generate_from_sequence(&transitions);
    let steps: Vec<(u32, Option<u64>, u32, bool)> = instructions
        .steps
        .iter()
        .map(|s| (s.sequence, s.wait_before_ms, s.max_retries, s.retry_on_failure))
        .collect();
    assert_eq!(steps, vec![(1, None, 3, true), (2, Some(100), 3, true), (3, Some(100), 3, true)]);
    assert_eq!(instructions.initial_state_requirements.required_balances.get_by_text("a"), Some(&0));
    let none = engine.generate_from_sequence(&[]);
    assert!(none.steps.is_empty());
    assert!(none.initial_state_requirements.required_balances.is_empty());
    assert!(none.initial_state_requirements.required_session.is_none());
}

#[test]
fn raising_a_required_balance_above_the_balance_fails_the_requirements() {
    let engine = ReplayEngine::new();
    let state = funded(&[("a", 1000)]);
    let mut requirements = StateRequirements::default();
    requirements.required_balances.insert("a".to_string(), 1000);
    assert!(engine.validate_requirements(&state, &requirements));
    requirements.required_balances.insert("a".to_string(), 1001);
    assert!(!engine.validate_requirements(&state, &requirements));
    requirements.required_balances.insert("a".to_string(), i64::MIN);
    assert!(engine.validate_requirements(&state, &requirements));
    requirements.required_balances.insert("missing".to_string(), i64::MIN);
    assert!(!engine.validate_requirements(&state, &requirements));
}

#[test]
fn requirements_on_session_and_ownership_are_checked() {
    let engine = ReplayEngine::new();
    let mut state = ApplicationState::default();
    let mut requirements = StateRequirements::default();
    requirements.required_session =
        Some(SessionRequirement { authenticated: false, required_roles: vec![] });
    assert!(!engine.validate_requirements(&state, &requirements));
    state.current_session = Some(session("s", &["user"], false));
    assert!(engine.validate_requirements(&state, &requirements));
    requirements.required_session =
        Some(SessionRequirement { authenticated: true, required_roles: vec![] });
    assert!(!engine.validate_requirements(&state, &requirements));
    state.current_session = Some(session("s", &["user"], true));
    assert!(engine.validate_requirements(&state, &requirements));
    requirements.required_session = Some(SessionRequirement {
        authenticated: false,
        required_roles: vec!["user".to_string(), "admin".to_string()],
    });
    assert!(!engine.validate_requirements(&state, &requirements));
    state.current_session = Some(session("s", &["admin", "user", "extra"], true));
    assert!(engine.validate_requirements(&state, &requirements));
    requirements.required_ownership.insert("o".to_string(), "u".to_string());
    assert!(!engine.validate_requirements(&state, &requirements));
    state.ownership.insert(ObjectId("o".to_string()), UserId("v".to_string()));
    assert!(!engine.validate_requirements(&state, &requirements));
    state.ownership.insert(ObjectId("o".to_string()), UserId("u".to_string()));
    assert!(engine.validate_requirements(&state, &requirements));
    requirements.required_workflow_position = Some(4);
    assert!(engine.validate_requirements(&state, &requirements));
}

#[test]
fn results_agree_on_success_and_violation() {
    let engine = ReplayEngine::new();
    let success = || ReplayResult::success(ApplicationState::default(), 2, 10);
    let failure = || ReplayResult::failure("e".to_string(), 1, 2);
    assert!(engine.is_deterministic(&[]));
    assert!(engine.is_deterministic(&[failure()]));
    assert!(engine.is_deterministic(&[failure(), failure()]));
    assert!(!engine.is_deterministic(&[success(), success(), failure()]));
    let mut quiet = success();
    quiet.invariant_violated = false;
    assert!(!engine.is_deterministic(&[success(), quiet]));
    let result = failure();
    assert_eq!(result.error.as_deref(), Some("e"));
    assert_eq!((result.steps_completed, result.total_steps, result.duration_ms), (1, 2, 0));
    assert!(result.final_state.is_none() && !result.is_deterministic);
    let result = success();
    assert_eq!((result.steps_completed, result.total_steps, result.duration_ms), (2, 2, 10));
    assert!(result.invariant_violated && result.is_deterministic && result.error.is_none());
}

#[test]
fn artifact_carries_the_hash_of_its_content() {
    let artifact = EvidenceArtifact::new(EvidenceType::LogEntry, b"test".to_vec());
    assert_eq!(
        artifact.content_hash,
        "9f86d081884c7d659a2feaa0c55ad015a3bf4f1b2b0b822cd15d6c15b0f00a08"
    );
    assert_eq!(artifact.id.len(), 36);
    assert!(artifact.metadata.is_empty());
    assert!(artifact.verify_integrity());
    assert_eq!(artifact.content_as_string().as_deref(), Some("test"));
    let empty = EvidenceArtifact::new(EvidenceType::NetworkCapture, Vec::new());
    assert_eq!(
        empty.content_hash,
        "e3b0c44298fc1c149afbf4c8996fb92427ae41e4649b934ca495991b7852b855"
    );
    assert_eq!(content_digest_of(b"test"), artifact.content_hash);
    let mut tampered = artifact.clone();
    tampered.content.push(0);
    assert!(!tampered.verify_integrity());
    let mut relabelled = artifact.clone();
    relabelled.content_hash = empty.content_hash.clone();
    assert!(!relabelled.verify_integrity());
    let binary = EvidenceArtifact::new(EvidenceType::Screenshot, vec![0xff, 0xfe]);
    assert!(binary.content_as_string().is_none());
    let tagged = artifact.with_metadata("k", "v").with_metadata("k", "w").with_metadata("a", "b");
    assert_eq!(tagged.metadata.len(), 2);
    assert_eq!(tagged.metadata.get_by_text("k"), Some(&"w".to_string()));
    assert!(tagged.verify_integrity());
}

#[test]
fn collector_attaches_metadata_and_completes_on_the_required_types() {
    let mut collector = EvidenceCollector::new();
    assert!(!collector.is_complete());
    collector.add_http_request(&request());
    assert!(!collector.is_complete());
    collector.add_exploit_output("uid=0", "sqli");
    collector.add_custom("trace", vec![1, 2, 3]);
    collector.add_dom_snapshot("<p>\u{e9}</p>");
    collector.add_screenshot(vec![9], "shot");
    collector.add_state_snapshot(&ApplicationState::default());
    {
        let current = collector.current();
        assert_eq!(current.artifacts.len(), 6);
        assert!(!current.is_complete);
        let types: Vec<&EvidenceType> = current.artifacts.iter().map(|a| &a.evidence_type).collect();
        assert_eq!(
            types,
            vec![
                &EvidenceType::HttpRequest,
                &EvidenceType::ExploitOutput,
                &EvidenceType::Custom("trace".to_string()),
                &EvidenceType::DomSnapshot,
                &EvidenceType::Screenshot,
                &EvidenceType::StateSnapshot,
            ]
        );
        let first = &current.artifacts[0];
        assert_eq!(first.metadata.get_by_text("method"), Some(&"POST".to_string()));
        assert_eq!(first.metadata.get_by_text("url"), Some(&"https://example.com/api".to_string()));
        assert_eq!(first.metadata.len(), 2);
        assert_eq!(
            first.content_as_string().unwrap(),
            [
                r#"{"headers":{},"method":"POST","timestamp":{"nanos":0,"secs":1},"#,
                r#""url":"https://example.com/api"}"#
            ]
            .concat()
        );
        assert_eq!(current.artifacts[1].content, b"uid=0".to_vec());
        assert_eq!(current.artifacts[1].metadata.get_by_text("exploit_name"), Some(&"sqli".to_string()));
        assert_eq!(current.artifacts[2].content, vec![1, 2, 3]);
        assert!(current.artifacts[2].metadata.is_empty());
        assert_eq!(current.artifacts[3].content, "<p>\u{e9}</p>".as_bytes().to_vec());
        assert_eq!(current.artifacts[4].metadata.get_by_text("description"), Some(&"shot".to_string()));
        assert_eq!(
            current.artifacts[5].content_hash,
            "8f252392a3185e8362021e2644eba2f72742ec5af1251b6424cab9253572548a"
        );
        assert_eq!(current.total_size(), current.artifacts.iter().map(|a| a.content.len() as u128).sum());
        assert_eq!(current.get_by_type(EvidenceType::Custom("trace".to_string())).len(), 1);
        assert_eq!(current.get_by_type(EvidenceType::Custom("other".to_string())).len(), 0);
        assert!(current.verify_all_integrity());
    }
    let partial = collector.finalize();
    assert!(!partial.is_complete);
    assert_eq!(partial.artifacts.len(), 6);
    assert!(collector.current().artifacts.is_empty());
    collector.add_http_response(&HttpResponse {
        status_code: 503,
        headers: SortedMap::new(),
        body: vec![],
        timestamp: at(0),
        duration_ms: 1234,
    });
    let response = &collector.current().artifacts[0];
    assert_eq!(response.metadata.get_by_text("status_code"), Some(&"503".to_string()));
    assert_eq!(response.metadata.get_by_text("duration_ms"), Some(&"1234".to_string()));
    collector.add_http_request(&request());
    assert!(collector.is_complete());
    collector.start_collection();
    assert!(collector.current().artifacts.is_empty());
    let mut lenient = EvidenceCollector::with_required_types(vec![]);
    assert!(lenient.is_complete());
    assert!(lenient.finalize().is_complete);
    let mut strict =
        EvidenceCollector::with_required_types(vec![EvidenceType::Custom("a".to_string())]);
    strict.add_custom("b", vec![]);
    assert!(!strict.is_complete());
    strict.add_custom("a", vec![]);
    assert!(strict.is_complete());
    assert!(EvidenceCollector::default().current().artifacts.is_empty());
}

#[test]
fn bundle_is_intact_while_every_artifact_is() {
    let mut evidence = Evidence::default();
    assert!(evidence.verify_all_integrity());
    assert_eq!(evidence.total_size(), 0);
    assert_eq!(evidence.collection_id.len(), 36);
    assert!(evidence.has_required_types(&[]));
    assert!(!evidence.has_required_types(&[EvidenceType::LogEntry]));
    evidence.add_artifact(EvidenceArtifact::new(EvidenceType::LogEntry, b"one".to_vec()));
    evidence.add_artifact(EvidenceArtifact::new(EvidenceType::LogEntry, b"three".to_vec()));
    assert_eq!(evidence.total_size(), 8);
    assert_eq!(evidence.get_by_type(EvidenceType::LogEntry).len(), 2);
    assert!(evidence.has_required_types(&[EvidenceType::LogEntry, EvidenceType::LogEntry]));
    assert!(!evidence.has_required_types(&[EvidenceType::LogEntry, EvidenceType::Screenshot]));
    assert!(evidence.verify_all_integrity());
    evidence.artifacts[1].content = b"four".to_vec();
    assert!(!evidence.verify_all_integrity());
    evidence.complete();
    assert!(evidence.is_complete);
    assert_eq!(evidence.clone().artifacts.len(), 2);
}

#[test]
fn proof_is_assembled_from_a_violation() {
    let before = funded(&[("a", 1000)]);
    let after = funded(&[("a", 2000)]);
    let validator = InvariantValidator::new(Arc::new(InvariantCatalog::new()));
    let result = validator.validate_transition(&before, &after);
    let violation = result.violations[0].clone();
    assert_eq!(violation.invariant_id, "MON_001");
    let transition = transition(before, after, action(ActionType::Payment, true));
    let mut collector = EvidenceCollector::new();
    collector.add_http_request(&request());
    let proof = build_proof(violation.clone(), &transition, collector.finalize());
    assert_eq!(proof.id.len(), 36);
    assert_eq!(proof.invariant_violated, "MON_001");
    assert_eq!(proof.severity(), Severity::Critical);
    assert_eq!(proof.confidence().millionths(), 1_000_000);
    assert_eq!(proof.action_sequence.len(), 1);
    assert_eq!(proof.before_state.balances.get_by_text("a").unwrap().amount, 1000);
    assert_eq!(proof.after_state.balances.get_by_text("a").unwrap().amount, 2000);
    assert_eq!(proof.causality_chain.confidence.millionths(), 980_000);
    assert_eq!(proof.replay_instructions.steps.len(), 1);
    assert_eq!(proof.replay_instructions.steps[0].max_retries, 3);
    assert_eq!(proof.evidence.artifacts.len(), 1);
    assert!(proof.is_deterministic);
    assert!(proof.is_valid());
    let mut doubtful = build_proof(violation.clone(), &transition, Evidence::new());
    assert!(!doubtful.is_valid());
    doubtful.evidence.add_artifact(EvidenceArtifact::new(EvidenceType::LogEntry, vec![]));
    assert!(doubtful.is_valid());
    doubtful.is_deterministic = false;
    assert!(!doubtful.is_valid());
    doubtful.is_deterministic = true;
    doubtful.action_sequence.clear();
    assert!(!doubtful.is_valid());
    let unchanged = StateTransition {
        to_state: transition.from_state.clone(),
        ..transition.clone()
    };
    let mut collector = EvidenceCollector::new();
    collector.add_custom("x", vec![]);
    assert!(!build_proof(violation, &unchanged, collector.finalize()).is_valid());
}

#[test]
fn ownership_tracker_logs_accesses() {
    let mut tracker = OwnershipTracker::default();
    let object = ObjectId("o".to_string());
    let other = ObjectId("p".to_string());
    let user = UserId("u".to_string());
    assert!(tracker.get_owner(&object).is_none());
    assert!(!tracker.is_owner(&object, &user));
    tracker.record_access(object.clone(), user.clone(), AccessType::Read, true);
    tracker.record_access(other.clone(), user.clone(), AccessType::Delete, false);
    tracker.record_access(object.clone(), user.clone(), AccessType::Transfer, false);
    let history = tracker.get_access_history(&object);
    let kinds: Vec<(AccessType, bool)> = history.iter().map(|r| (r.access_type, r.authorized)).collect();
    assert_eq!(kinds, vec![(AccessType::Read, true), (AccessType::Transfer, false)]);
    let refused = tracker.get_unauthorized_accesses();
    let objects: Vec<&str> = refused.iter().map(|r| r.object_id.0.as_str()).collect();
    assert_eq!(objects, vec!["p", "o"]);
    assert!(tracker.get_access_history(&ObjectId("q".to_string())).is_empty());
    assert!(tracker.get_owner(&object).is_none());
}

#[test]
fn balance_monitor_applies_transactions() {
    let mut monitor = BalanceMonitor::default();
    let a = AccountId("a".to_string());
    let b = AccountId("b".to_string());
    monitor.set_balance(a.clone(), Balance::new(100, Currency::EUR));
    let id = monitor.record_transaction(Some(a.clone()), Some(b.clone()), 30, Currency::USD);
    assert_eq!(id.len(), 36);
    assert_eq!(monitor.get_balance(&a), Some(Balance::new(70, Currency::EUR)));
    assert_eq!(monitor.get_balance(&b), Some(Balance::new(30, Currency::USD)));
    monitor.record_transaction(Some(AccountId("ghost".to_string())), None, 5, Currency::USD);
    assert!(monitor.get_balance(&AccountId("ghost".to_string())).is_none());
    monitor.record_transaction(Some(a.clone()), Some(a.clone()), 7, Currency::USD);
    assert_eq!(monitor.get_balance(&a).unwrap().amount, 70);
    monitor.record_transaction(None, Some(b.clone()), -40, Currency::GBP);
    assert_eq!(monitor.get_balance(&b), Some(Balance::new(-10, Currency::USD)));
    let log = monitor.get_transactions();
    assert_eq!(log.len(), 4);
    assert_eq!(log[0].id, id);
    assert_eq!(log[0].balance_before, Some(Balance::new(100, Currency::EUR)));
    assert_eq!(log[0].balance_after, Some(Balance::new(70, Currency::EUR)));
    assert_eq!((log[0].amount, log[0].currency), (30, Currency::USD));
    assert_eq!(log[1].balance_before, None);
    assert_eq!(log[1].balance_after, None);
    assert_eq!(log[2].balance_before, log[2].balance_after);
    assert_eq!(log[3].from_account, None);
    assert_eq!(log[3].to_account, Some(b));
    assert_eq!(monitor.get_total_balance(Currency::EUR), 70);
    assert_eq!(monitor.get_total_balance(Currency::USD), -10);
    assert_eq!(monitor.get_total_balance(Currency::BTC), 0);
    assert!(monitor.verify_conservation(Currency::EUR, 70));
    assert!(!monitor.verify_conservation(Currency::EUR, 71));
    monitor.set_balance(AccountId("x".to_string()), Balance::new(i64::MAX, Currency::BTC));
    monitor.set_balance(AccountId("y".to_string()), Balance::new(i64::MAX, Currency::BTC));
    assert_eq!(monitor.get_total_balance(Currency::BTC), 2 * (i64::MAX as i128));
    assert!(!monitor.verify_conservation(Currency::BTC, -2));
}

#[test]
fn session_tracker_records_events_and_role_changes() {
    let mut tracker = SessionTracker::default();
    assert!(tracker.get_current().is_none());
    assert!(tracker.get_roles().is_empty());
    tracker.record_role_change(UserId("u".to_string()), Role("r".to_string()), RoleChangeType::Added);
    assert!(tracker.get_role_changes().is_empty());
    tracker.terminate();
    assert!(tracker.get_history().is_empty());
    tracker.set_current(session("s1", &["user"], false));
    tracker.set_current(session("s2", &["user", "admin"], true));
    tracker.record_role_change(UserId("u".to_string()), Role("r".to_string()), RoleChangeType::Removed);
    tracker.terminate();
    assert!(tracker.get_current().is_none());
    assert!(!tracker.has_role(&Role("admin".to_string())));
    let events: Vec<(String, SessionEventType)> =
        tracker.get_history().into_iter().map(|e| (e.session_id.0, e.event_type)).collect();
    assert_eq!(
        events,
        vec![
            ("s1".to_string(), SessionEventType::Created),
            ("s2".to_string(), SessionEventType::Authenticated),
            ("s2".to_string(), SessionEventType::Terminated),
        ]
    );
    let changes = tracker.get_role_changes();
    assert_eq!(changes.len(), 1);
    assert_eq!(changes[0].session_id.0, "s2");
    assert_eq!(changes[0].user_id.0, "u");
    assert_eq!(changes[0].role.0, "r");
    assert_eq!(changes[0].change_type, RoleChangeType::Removed);
}

#[test]
fn state_tracker_updates_state_and_trackers_together() {
    let mut tracker = StateTracker::default();
    tracker.set_ownership(ObjectId("o".to_string()), UserId("u".to_string()));
    tracker.set_balance(AccountId("a".to_string()), Balance::new(5, Currency::USD));
    tracker.set_session(session("s", &["user"], true));
    assert!(tracker.ownership().is_owner(&ObjectId("o".to_string()), &UserId("u".to_string())));
    assert_eq!(tracker.balance().get_balance(&AccountId("a".to_string())).unwrap().amount, 5);
    assert!(tracker.session().has_role(&Role("user".to_string())));
    assert_eq!(tracker.session().get_history().len(), 1);
    let captured = tracker.capture_state();
    assert!(captured.user_owns(&UserId("u".to_string()), &ObjectId("o".to_string())));
    let produced =
        tracker.update_state(funded(&[("z", 1)]), action(ActionType::FileOperation, false));
    assert_eq!(produced.id.len(), 36);
    assert!(produced.from_state.ownership.contains_key(&ObjectId("o".to_string())));
    assert_eq!(produced.from_state.balances.len(), 1);
    assert_eq!(produced.to_state.balances.get_by_text("z").unwrap().amount, 1);
    assert_eq!(produced.triggering_action.action_type, ActionType::FileOperation);
    let now = tracker.capture_state();
    assert!(now.ownership.is_empty());
    assert_eq!(now.balances.get_by_text("z").unwrap().amount, 1);
    assert!(tracker.ownership().get_owner(&ObjectId("o".to_string())).is_some());
}

/// Holds where no balance of the later state exceeds the cap.
struct Capped(i64);

impl TransitionPredicate for Capped {
    fn holds(&self, _before: StateModel, _after: StateModel) -> bool {
        true
    }

    fn evaluate(&self, _before: &ApplicationState, after: &ApplicationState) -> bool {
        after.balances.entries().into_iter().all(|(_, balance)| balance.amount <= self.0)
    }
}

#[test]
fn predicates_of_callers_are_evaluated() {
    let mut catalog = InvariantCatalog::empty();
    catalog.register(SecurityInvariant::new(
        "CAP",
        "Balance cap",
        "No balance exceeds the cap",
        InvariantCategory::RateLimiting,
        "Balance above the cap",
        Validator::Custom(CustomPredicate { predicate: Arc::new(Capped(100)) }),
    ));
    let validator = InvariantValidator::new(Arc::new(catalog));
    let before = ApplicationState::default();
    assert!(validator.validate_transition(&before, &funded(&[("a", 100), ("b", -5)])).is_valid);
    let result = validator.validate_transition(&before, &funded(&[("a", 100), ("b", 101)]));
    assert_eq!(result.violations.len(), 1);
    assert_eq!(result.violations[0].invariant_id, "CAP");
    assert_eq!(result.violations[0].message, "Balance above the cap");
    assert_eq!(result.violations[0].severity, Severity::Medium);
}

#[test]
fn registered_rules_take_part_in_the_attribution() {
    let rule = |name: &str, verdict: bool, percent: u8| AttributionRule {
        name: name.to_string(),
        matcher: RuleMatcher::Custom(CustomMatcher {
            matcher: Arc::new(ConstantMatcher { verdict }),
        }),
        confidence: Confidence::from_percent(percent).unwrap(),
    };
    let effect = StateChange {
        change_type: StateChangeType::RoleChange,
        field: "roles".to_string(),
        old_value: None,
        new_value: None,
    };
    let plain = action(ActionType::Authorization, false);
    let mut engine = CausalEngine::new();
    assert!(!engine.validate_causality(&plain, &effect));
    engine.register_rule(rule("never", false, 100));
    assert!(!engine.validate_causality(&plain, &effect));
    engine.register_rule(rule("weak", true, 10));
    assert_eq!(engine.get_causality_confidence(&plain, &effect).millionths(), 100_000);
    engine.register_rule(rule("strong", true, 99));
    engine.register_rule(rule("late", true, 10));
    assert_eq!(engine.get_causality_confidence(&plain, &effect).millionths(), 990_000);
    let carried = action(ActionType::Authorization, true);
    assert_eq!(engine.get_causality_confidence(&carried, &effect).millionths(), 990_000);
    assert_eq!(engine.rules().len(), 7);
    assert_eq!(engine.rules()[6].name, "late");
    let (before, after) = changed_states();
    let chain = engine.build_chain(&transition(before, after, plain));
    assert_eq!(chain.links[0].state_changes.len(), 6);
    assert_eq!(chain.confidence.millionths(), 990_000);
}

#[test]
fn labels_and_codes_name_categories_and_currencies() {
    let labels = [
        ("authorization", InvariantCategory::Authorization),
        ("monetary", InvariantCategory::Monetary),
        ("workflow", InvariantCategory::Workflow),
        ("trust", InvariantCategory::Trust),
        ("data_integrity", InvariantCategory::DataIntegrity),
        ("session", InvariantCategory::SessionManagement),
        ("input", InvariantCategory::InputValidation),
        ("custom", InvariantCategory::Custom),
        ("rate_limiting", InvariantCategory::Custom),
        ("Monetary", InvariantCategory::Custom),
        ("", InvariantCategory::Custom),
    ];
    for (label, category) in labels {
        assert_eq!(category_from_label(label), category, "{}", label);
    }
    let codes = [
        ("USD", Currency::USD),
        ("EUR", Currency::EUR),
        ("GBP", Currency::GBP),
        ("BTC", Currency::BTC),
        ("ETH", Currency::ETH),
        ("Points", Currency::Credits),
        ("usd", Currency::Credits),
        ("", Currency::Credits),
    ];
    for (code, currency) in codes {
        assert_eq!(Currency::from_code(code), currency, "{}", code);
    }
    let validator = InvariantValidator::new(Arc::new(InvariantCatalog::new()));
    let result = validator.validate_transition(&funded(&[]), &funded(&[("a", -1)]));
    let lines: Vec<String> = result.violations.iter().map(|v| v.describe()).collect();
    assert_eq!(
        lines,
        vec![
            "MON_001: Balance conservation violation - money created or destroyed",
            "MON_002: Negative balance detected without overdraft permission",
        ]
    );
}

#[test]
fn verdicts_are_recorded() {
    let rule = custom("R", InvariantCategory::Monetary, true);
    let mut violations = Vec::new();
    let mut checked = Vec::new();
    kali_mcp_core::invariants::validator::record_verdict(&rule, true, &mut violations, &mut checked);
    assert!(violations.is_empty());
    assert_eq!(checked, vec!["R"]);
    kali_mcp_core::invariants::validator::record_verdict(&rule, false, &mut violations, &mut checked);
    assert_eq!(checked, vec!["R", "R"]);
    assert_eq!(violations.len(), 1);
    assert_eq!(violations[0].invariant_id, "R");
    assert_eq!(violations[0].severity, Severity::Critical);
    assert_eq!(violations[0].confidence.millionths(), 1_000_000);
    assert_eq!(violations[0].describe(), "R: Message");
}

#[test]
fn fresh_state_tracker_has_empty_side_logs() {
    let tracker = StateTracker::new();
    assert!(tracker.ownership().get_unauthorized_accesses().is_empty());
    assert!(tracker.ownership().get_access_history(&ObjectId("o".to_string())).is_empty());
    assert!(tracker.ownership().get_owner(&ObjectId("o".to_string())).is_none());
    assert!(tracker.balance().get_transactions().is_empty());
    assert!(tracker.balance().get_balance(&AccountId("a".to_string())).is_none());
    assert!(tracker.session().get_current().is_none());
    assert!(tracker.session().get_history().is_empty());
    assert!(tracker.session().get_role_changes().is_empty());
    let state = tracker.capture_state();
    assert!(state.timestamp.is_some());
    assert!(state.ownership.is_empty() && state.balances.is_empty());
    assert!(state.current_session.is_none());
}
