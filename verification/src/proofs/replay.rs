//! The replay engine: instructions that reproduce a transition, and the
//! check that a state meets their requirements.

use vstd::prelude::*;
use crate::collections::{lists, ordered_keys, view_of, views, SortedMap};
use crate::state::{Action, ActionModel, ApplicationState, StateModel, StateTransition};
use crate::types::{JsonValue, JsonValueModel};

verus! {

/// Assertion operators.
#[derive(Debug, Clone, Copy, PartialEq, Eq, Structural)]
pub enum AssertionOperator {
    Equals,
    NotEquals,
    GreaterThan,
    LessThan,
    Contains,
    NotContains,
    Exists,
    NotExists,
}

/// Individual assertion.
#[derive(Debug, Clone)]
pub struct Assertion {
    pub field: String,
    pub operator: AssertionOperator,
    pub expected_value: JsonValue,
}

/// What an `Assertion` stands for.
pub ghost struct AssertionModel {
    pub field: Seq<char>,
    pub operator: AssertionOperator,
    pub expected_value: JsonValueModel,
}

impl View for Assertion {
    type V = AssertionModel;

    open spec fn view(&self) -> AssertionModel {
        AssertionModel {
            field: self.field@,
            operator: self.operator,
            expected_value: self.expected_value@,
        }
    }
}

/// Assertion about expected state.
#[derive(Debug, Clone)]
pub struct StateAssertion {
    pub assertions: Vec<Assertion>,
}

impl View for StateAssertion {
    type V = Seq<AssertionModel>;

    open spec fn view(&self) -> Seq<AssertionModel> {
        views(self.assertions@)
    }
}

/// Single step in replay sequence.
#[derive(Debug, Clone)]
pub struct ReplayStep {
    pub sequence: u32,
    pub action: Action,
    pub expected_state_after: Option<StateAssertion>,
    pub wait_before_ms: Option<u64>,
    pub retry_on_failure: bool,
    pub max_retries: u32,
}

/// What a `ReplayStep` stands for.
pub ghost struct ReplayStepModel {
    pub sequence: u32,
    pub action: ActionModel,
    pub expected_state_after: Option<Seq<AssertionModel>>,
    pub wait_before_ms: Option<u64>,
    pub retry_on_failure: bool,
    pub max_retries: u32,
}

impl View for ReplayStep {
    type V = ReplayStepModel;

    open spec fn view(&self) -> ReplayStepModel {
        ReplayStepModel {
            sequence: self.sequence,
            action: self.action@,
            expected_state_after: view_of(self.expected_state_after),
            wait_before_ms: self.wait_before_ms,
            retry_on_failure: self.retry_on_failure,
            max_retries: self.max_retries,
        }
    }
}

/// Session requirements.
#[derive(Debug, Clone)]
pub struct SessionRequirement {
    pub authenticated: bool,
    pub required_roles: Vec<String>,
}

/// What a `SessionRequirement` stands for.
pub ghost struct SessionRequirementModel {
    pub authenticated: bool,
    pub required_roles: Seq<Seq<char>>,
}

impl View for SessionRequirement {
    type V = SessionRequirementModel;

    open spec fn view(&self) -> SessionRequirementModel {
        SessionRequirementModel {
            authenticated: self.authenticated,
            required_roles: views(self.required_roles@),
        }
    }
}

/// Requirements for initial state.
#[derive(Debug, Clone)]
pub struct StateRequirements {
    pub required_session: Option<SessionRequirement>,
    pub required_balances: SortedMap<String, i64>,
    pub required_ownership: SortedMap<String, String>,
    pub required_workflow_position: Option<u32>,
}

/// What a `StateRequirements` stands for.
pub ghost struct RequirementsModel {
    pub required_session: Option<SessionRequirementModel>,
    pub required_balances: Map<Seq<char>, i64>,
    pub required_ownership: Map<Seq<char>, Seq<char>>,
    pub required_workflow_position: Option<u32>,
}

impl RequirementsModel {
    /// The requirements that ask for nothing.
    pub open spec fn none() -> RequirementsModel {
        RequirementsModel {
            required_session: None,
            required_balances: Map::empty(),
            required_ownership: Map::empty(),
            required_workflow_position: None,
        }
    }
}

impl View for StateRequirements {
    type V = RequirementsModel;

    open spec fn view(&self) -> RequirementsModel {
        RequirementsModel {
            required_session: view_of(self.required_session),
            required_balances: self.required_balances@,
            required_ownership: self.required_ownership@,
            required_workflow_position: self.required_workflow_position,
        }
    }
}

impl Default for StateRequirements {
    fn default() -> (requirements: Self)
        ensures
            requirements@ == RequirementsModel::none(),
    {
        StateRequirements {
            required_session: None,
            required_balances: SortedMap::new(),
            required_ownership: SortedMap::new(),
            required_workflow_position: None,
        }
    }
}

/// Expected state change.
#[derive(Debug, Clone)]
pub struct ExpectedStateChange {
    pub field: String,
    pub change_type: String,
}

/// What an `ExpectedStateChange` stands for.
pub ghost struct ExpectedChangeModel {
    pub field: Seq<char>,
    pub change_type: Seq<char>,
}

impl View for ExpectedStateChange {
    type V = ExpectedChangeModel;

    open spec fn view(&self) -> ExpectedChangeModel {
        ExpectedChangeModel { field: self.field@, change_type: self.change_type@ }
    }
}

/// Expected outcome of replay.
#[derive(Debug, Clone)]
pub struct ExpectedOutcome {
    pub invariant_violated: Option<String>,
    pub state_changes: Vec<ExpectedStateChange>,
    pub error_expected: bool,
}

/// What an `ExpectedOutcome` stands for.
pub ghost struct OutcomeModel {
    pub invariant_violated: Option<Seq<char>>,
    pub state_changes: Seq<ExpectedChangeModel>,
    pub error_expected: bool,
}

impl OutcomeModel {
    /// The outcome that expects nothing.
    pub open spec fn none() -> OutcomeModel {
        OutcomeModel { invariant_violated: None, state_changes: Seq::empty(), error_expected: false }
    }
}

impl View for ExpectedOutcome {
    type V = OutcomeModel;

    open spec fn view(&self) -> OutcomeModel {
        OutcomeModel {
            invariant_violated: view_of(self.invariant_violated),
            state_changes: views(self.state_changes@),
            error_expected: self.error_expected,
        }
    }
}

impl Default for ExpectedOutcome {
    fn default() -> (outcome: Self)
        ensures
            outcome@ == OutcomeModel::none(),
    {
        let outcome = ExpectedOutcome {
            invariant_violated: None,
            state_changes: Vec::new(),
            error_expected: false,
        };
        assert(outcome@.state_changes =~= Seq::empty());
        outcome
    }
}

/// Timing constraints for replay.
#[derive(Debug, Clone, Copy, PartialEq, Eq, Structural)]
pub struct TimingConstraints {
    pub max_total_duration_ms: u64,
    pub min_step_interval_ms: u64,
    pub max_step_interval_ms: u64,
}

/// Instructions for replaying a finding.
#[derive(Debug, Clone)]
pub struct ReplayInstructions {
    pub steps: Vec<ReplayStep>,
    pub initial_state_requirements: StateRequirements,
    pub expected_outcome: ExpectedOutcome,
    pub timing_constraints: Option<TimingConstraints>,
}

/// What a `ReplayInstructions` stands for.
pub ghost struct InstructionsModel {
    pub steps: Seq<ReplayStepModel>,
    pub initial_state_requirements: RequirementsModel,
    pub expected_outcome: OutcomeModel,
    pub timing_constraints: Option<TimingConstraints>,
}

impl InstructionsModel {
    /// Instructions without steps, requirements or expectations.
    pub open spec fn empty() -> InstructionsModel {
        InstructionsModel {
            steps: Seq::empty(),
            initial_state_requirements: RequirementsModel::none(),
            expected_outcome: OutcomeModel::none(),
            timing_constraints: None,
        }
    }
}

impl View for ReplayInstructions {
    type V = InstructionsModel;

    open spec fn view(&self) -> InstructionsModel {
        InstructionsModel {
            steps: views(self.steps@),
            initial_state_requirements: self.initial_state_requirements@,
            expected_outcome: self.expected_outcome@,
            timing_constraints: self.timing_constraints,
        }
    }
}

impl ReplayInstructions {
    /// Instructions without steps, requirements or expectations.
    pub fn new() -> (instructions: Self)
        ensures
            instructions@ == InstructionsModel::empty(),
    {
        let instructions = ReplayInstructions {
            steps: Vec::new(),
            initial_state_requirements: StateRequirements::default(),
            expected_outcome: ExpectedOutcome::default(),
            timing_constraints: None,
        };
        assert(instructions@.steps =~= Seq::empty());
        instructions
    }

    /// Appends a replay step.
    pub fn add_step(&mut self, step: ReplayStep)
        ensures
            final(self)@ == (InstructionsModel { steps: old(self)@.steps.push(step@), ..old(self)@ }),
    {
        self.steps.push(step);
        assert(views(self.steps@) =~= views(old(self).steps@).push(step@));
    }

    /// Whether the instructions have a step and name the invariant to be
    /// violated.
    pub fn is_complete(&self) -> (complete: bool)
        ensures
            complete == (self@.steps.len() > 0 && self@.expected_outcome.invariant_violated is Some),
    {
        self.steps.len() > 0 && self.expected_outcome.invariant_violated.is_some()
    }
}

impl Default for ReplayInstructions {
    fn default() -> (instructions: Self)
        ensures
            instructions@ == InstructionsModel::empty(),
    {
        ReplayInstructions::new()
    }
}

/// Result of replay attempt.
#[derive(Debug, Clone)]
pub struct ReplayResult {
    pub success: bool,
    pub steps_completed: u32,
    pub total_steps: u32,
    pub final_state: Option<ApplicationState>,
    pub invariant_violated: bool,
    pub error: Option<String>,
    pub duration_ms: u64,
    pub is_deterministic: bool,
}

impl ReplayResult {
    /// The result of a replay that ran all its steps and reproduced the
    /// violation.
    pub fn success(final_state: ApplicationState, steps: u32, duration_ms: u64) -> (result: Self)
        ensures
            result.success,
            result.steps_completed == steps,
            result.total_steps == steps,
            result.final_state == Some(final_state),
            result.invariant_violated,
            result.error is None,
            result.duration_ms == duration_ms,
            result.is_deterministic,
    {
        ReplayResult {
            success: true,
            steps_completed: steps,
            total_steps: steps,
            final_state: Some(final_state),
            invariant_violated: true,
            error: None,
            duration_ms,
            is_deterministic: true,
        }
    }

    /// The result of a replay that failed.
    pub fn failure(error: String, steps_completed: u32, total_steps: u32) -> (result: Self)
        ensures
            !result.success,
            result.steps_completed == steps_completed,
            result.total_steps == total_steps,
            result.final_state is None,
            !result.invariant_violated,
            result.error == Some(error),
            result.duration_ms == 0,
            !result.is_deterministic,
    {
        ReplayResult {
            success: false,
            steps_completed,
            total_steps,
            final_state: None,
            invariant_violated: false,
            error: Some(error),
            duration_ms: 0,
            is_deterministic: false,
        }
    }
}

/// The requirements that a state projects: its session's flag and roles,
/// every balance as a lower bound, every owner exactly.
pub open spec fn requirements_of(state: StateModel) -> RequirementsModel {
    RequirementsModel {
        required_session: match state.current_session {
            Some(session) => Some(
                SessionRequirementModel {
                    authenticated: session.authenticated,
                    required_roles: ordered_keys(session.roles),
                },
            ),
            None => None,
        },
        required_balances: Map::new(
            |account: Seq<char>| state.balances.contains_key(account),
            |account: Seq<char>| state.balances[account].amount,
        ),
        required_ownership: state.ownership,
        required_workflow_position: None,
    }
}

/// Whether the session requirement is met.
pub open spec fn session_met(state: StateModel, requirement: SessionRequirementModel) -> bool {
    &&& state.current_session is Some
    &&& requirement.authenticated ==> state.current_session->0.authenticated
    &&& forall|i: int|
        0 <= i < requirement.required_roles.len() ==> state.current_session->0.roles.contains(
            #[trigger] requirement.required_roles[i],
        )
}

/// Whether the balance required of `account` is met.
pub open spec fn balance_met(state: StateModel, requirements: RequirementsModel, account: Seq<char>) -> bool {
    state.balances.contains_key(account) && state.balances[account].amount
        >= requirements.required_balances[account]
}

/// Whether the owner required of `object` is met.
pub open spec fn ownership_met(state: StateModel, requirements: RequirementsModel, object: Seq<char>) -> bool {
    state.ownership.contains_key(object) && state.ownership[object]
        == requirements.required_ownership[object]
}

/// Whether a state meets requirements.
pub open spec fn requirements_met(state: StateModel, requirements: RequirementsModel) -> bool {
    &&& requirements.required_session is Some ==> session_met(
        state,
        requirements.required_session->0,
    )
    &&& forall|account: Seq<char>|
        requirements.required_balances.contains_key(account) ==> #[trigger] balance_met(
            state,
            requirements,
            account,
        )
    &&& forall|object: Seq<char>|
        requirements.required_ownership.contains_key(object) ==> #[trigger] ownership_met(
            state,
            requirements,
            object,
        )
}

/// The step that replays `action` at position `sequence`.
pub open spec fn step_for(action: ActionModel, sequence: u32, max_retries: u32) -> ReplayStepModel {
    ReplayStepModel {
        sequence,
        action,
        expected_state_after: None,
        wait_before_ms: if sequence > 1 {
            Some(100u64)
        } else {
            None
        },
        retry_on_failure: true,
        max_retries,
    }
}

/// Whether all results agree with the first on success and on violation.
pub open spec fn results_agree(results: Seq<ReplayResult>) -> bool {
    forall|i: int|
        0 <= i < results.len() ==> (#[trigger] results[i]).success == results[0].success
            && results[i].invariant_violated == results[0].invariant_violated
}

/// Engine for replaying action sequences.
#[derive(Debug, Clone, Copy, PartialEq, Eq, Structural)]
pub struct ReplayEngine {
    pub max_retries: u32,
    pub timeout_ms: u64,
}

impl ReplayEngine {
    /// An engine that retries three times and waits thirty seconds at most.
    pub fn new() -> (engine: Self)
        ensures
            engine.max_retries == 3,
            engine.timeout_ms == 30000,
    {
        Self { max_retries: 3, timeout_ms: 30000 }
    }

    /// An engine with the given number of retries and the given timeout.
    pub fn with_config(max_retries: u32, timeout_ms: u64) -> (engine: Self)
        ensures
            engine.max_retries == max_retries,
            engine.timeout_ms == timeout_ms,
    {
        Self { max_retries, timeout_ms }
    }

    /// The instructions that replay one transition: the requirements that its
    /// earlier state projects, and one step without a wait.
    pub fn generate_instructions(&self, transition: &StateTransition) -> (instructions: ReplayInstructions)
        ensures
            instructions@ == (InstructionsModel {
                steps: seq![step_for(transition@.triggering_action, 1, self.max_retries)],
                initial_state_requirements: requirements_of(transition@.from_state),
                ..InstructionsModel::empty()
            }),
    {
        let mut instructions = ReplayInstructions::new();
        instructions.initial_state_requirements = self.extract_requirements(&transition.from_state);
        instructions.add_step(
            ReplayStep {
                sequence: 1,
                action: transition.triggering_action.clone(),
                expected_state_after: None,
                wait_before_ms: None,
                retry_on_failure: true,
                max_retries: self.max_retries,
            },
        );
        instructions
    }

    /// The instructions that replay a sequence of transitions: the
    /// requirements that the first earlier state projects, and one step for
    /// each transition, numbered from one, each but the first after a wait.
    pub fn generate_from_sequence(&self, transitions: &[StateTransition]) -> (instructions: ReplayInstructions)
        requires
            transitions@.len() <= u32::MAX,
        ensures
            instructions@.steps.len() == transitions@.len(),
            forall|i: int|
                0 <= i < transitions@.len() ==> #[trigger] instructions@.steps[i] == step_for(
                    transitions@[i]@.triggering_action,
                    (i + 1) as u32,
                    self.max_retries,
                ),
            instructions@.initial_state_requirements == if transitions@.len() > 0 {
                requirements_of(transitions@[0]@.from_state)
            } else {
                RequirementsModel::none()
            },
            instructions@.expected_outcome == OutcomeModel::none(),
            instructions@.timing_constraints is None,
    {
        let mut instructions = ReplayInstructions::new();
        if transitions.len() > 0 {
            instructions.initial_state_requirements = self.extract_requirements(
                &transitions[0].from_state,
            );
        }
        let mut i: usize = 0;
        while i < transitions.len()
            invariant
                i <= transitions@.len(),
                transitions@.len() <= u32::MAX,
                instructions@.steps.len() == i,
                forall|j: int|
                    0 <= j < i ==> #[trigger] instructions@.steps[j] == step_for(
                        transitions@[j]@.triggering_action,
                        (j + 1) as u32,
                        self.max_retries,
                    ),
                instructions@.initial_state_requirements == if transitions@.len() > 0 {
                    requirements_of(transitions@[0]@.from_state)
                } else {
                    RequirementsModel::none()
                },
                instructions@.expected_outcome == OutcomeModel::none(),
                instructions@.timing_constraints is None,
            decreases transitions@.len() - i,
        {
            let number: u32 = (i + 1) as u32;
            instructions.add_step(
                ReplayStep {
                    sequence: number,
                    action: transitions[i].triggering_action.clone(),
                    expected_state_after: None,
                    wait_before_ms: if i > 0 {
                        Some(100)
                    } else {
                        None
                    },
                    retry_on_failure: true,
                    max_retries: self.max_retries,
                },
            );
            i = i + 1;
        }
        instructions
    }

    /// Projects the requirements of a state.
    fn extract_requirements(&self, state: &ApplicationState) -> (requirements: StateRequirements)
        ensures
            requirements@ == requirements_of(state@),
    {
        let mut requirements = StateRequirements::default();
        match &state.current_session {
            Some(session) => {
                let mut roles: Vec<String> = Vec::new();
                let n = session.roles.len();
                let mut i: usize = 0;
                while i < n
                    invariant
                        i <= n,
                        n == session@.roles.len(),
                        n == ordered_keys(session@.roles).len(),
                        roles@.len() == i,
                        forall|j: int| 0 <= j < i ==> #[trigger] roles@[j]@ == ordered_keys(session@.roles)[j],
                    decreases n - i,
                {
                    roles.push(session.roles.member_at(i).0.clone());
                    i = i + 1;
                }
                assert(views(roles@) =~= ordered_keys(session@.roles));
                requirements.required_session = Some(
                    SessionRequirement { authenticated: session.authenticated, required_roles: roles },
                );
            },
            None => {},
        }
        let count = state.balances.len();
        let ghost accounts = ordered_keys(state@.balances.dom());
        let mut i: usize = 0;
        while i < count
            invariant
                i <= count,
                count == state@.balances.len(),
                accounts == ordered_keys(state@.balances.dom()),
                lists(accounts, state@.balances.dom()),
                accounts.len() == count,
                requirements@.required_session == requirements_of(state@).required_session,
                requirements@.required_ownership == Map::<Seq<char>, Seq<char>>::empty(),
                requirements@.required_workflow_position is None,
                forall|k: Seq<char>|
                    requirements@.required_balances.contains_key(k) <==> exists|j: int|
                        0 <= j < i && #[trigger] accounts[j] == k,
                forall|k: Seq<char>| #[trigger]
                    requirements@.required_balances.contains_key(k)
                        ==> requirements@.required_balances[k] == state@.balances[k].amount,
            decreases count - i,
        {
            let account = state.balances.key_at(i);
            let balance = state.balances.value_at(i);
            let ghost before = requirements@.required_balances;
            requirements.required_balances.insert(account.0.clone(), balance.amount);
            i = i + 1;
        }
        let owners = state.ownership.len();
        let ghost objects = ordered_keys(state@.ownership.dom());
        let mut i: usize = 0;
        while i < owners
            invariant
                i <= owners,
                owners == state@.ownership.len(),
                objects == ordered_keys(state@.ownership.dom()),
                lists(objects, state@.ownership.dom()),
                objects.len() == owners,
                requirements@.required_session == requirements_of(state@).required_session,
                requirements@.required_balances == requirements_of(state@).required_balances,
                requirements@.required_workflow_position is None,
                forall|k: Seq<char>|
                    requirements@.required_ownership.contains_key(k) <==> exists|j: int|
                        0 <= j < i && #[trigger] objects[j] == k,
                forall|k: Seq<char>| #[trigger]
                    requirements@.required_ownership.contains_key(k)
                        ==> requirements@.required_ownership[k] == state@.ownership[k],
            decreases owners - i,
        {
            let object = state.ownership.key_at(i);
            let owner = state.ownership.value_at(i);
            let ghost before = requirements@.required_ownership;
            requirements.required_ownership.insert(object.0.clone(), owner.0.clone());
            i = i + 1;
        }
        proof {
            assert(requirements@.required_ownership =~= state@.ownership);
        }
        requirements
    }

    /// Whether a state meets requirements.
    pub fn validate_requirements(&self, state: &ApplicationState, requirements: &StateRequirements) -> (met: bool)
        ensures
            met == requirements_met(state@, requirements@),
    {
        match &requirements.required_session {
            Some(requirement) => {
                let session = match &state.current_session {
                    None => {
                        return false;
                    },
                    Some(session) => session,
                };
                if requirement.authenticated && !session.authenticated {
                    return false;
                }
                let mut i: usize = 0;
                while i < requirement.required_roles.len()
                    invariant
                        i <= requirement.required_roles@.len(),
                        state.current_session == Some(*session),
                        requirements.required_session == Some(*requirement),
                        forall|j: int|
                            0 <= j < i ==> session@.roles.contains(
                                #[trigger] requirement@.required_roles[j],
                            ),
                    decreases requirement.required_roles@.len() - i,
                {
                    if !session.roles.contains_text(requirement.required_roles[i].as_str()) {
                        assert(!session@.roles.contains(requirement@.required_roles[i as int]));
                        return false;
                    }
                    i = i + 1;
                }
            },
            None => {},
        }
        let count = requirements.required_balances.len();
        let ghost accounts = ordered_keys(requirements@.required_balances.dom());
        let mut i: usize = 0;
        while i < count
            invariant
                i <= count,
                count == requirements@.required_balances.len(),
                accounts == ordered_keys(requirements@.required_balances.dom()),
                lists(accounts, requirements@.required_balances.dom()),
                accounts.len() == count,
                forall|j: int| 0 <= j < i ==> balance_met(state@, requirements@, #[trigger] accounts[j]),
            decreases count - i,
        {
            let account = requirements.required_balances.key_at(i);
            let required = requirements.required_balances.value_at(i);
            let met = match state.balances.get_by_text(account.as_str()) {
                None => false,
                Some(balance) => balance.amount >= *required,
            };
            assert(met == balance_met(state@, requirements@, accounts[i as int]));
            if !met {
                return false;
            }
            i = i + 1;
        }
        let owners = requirements.required_ownership.len();
        let ghost objects = ordered_keys(requirements@.required_ownership.dom());
        let mut i: usize = 0;
        while i < owners
            invariant
                i <= owners,
                owners == requirements@.required_ownership.len(),
                objects == ordered_keys(requirements@.required_ownership.dom()),
                lists(objects, requirements@.required_ownership.dom()),
                objects.len() == owners,
                forall|j: int| 0 <= j < i ==> ownership_met(state@, requirements@, #[trigger] objects[j]),
            decreases owners - i,
        {
            let object = requirements.required_ownership.key_at(i);
            let required = requirements.required_ownership.value_at(i);
            let met = match state.ownership.get_by_text(object.as_str()) {
                None => false,
                Some(owner) => crate::text::same_text(owner.0.as_str(), required.as_str()),
            };
            assert(met == ownership_met(state@, requirements@, objects[i as int]));
            if !met {
                return false;
            }
            i = i + 1;
        }
        true
    }

    /// Whether the supplied replay results agree on success and on violation.
    pub fn is_deterministic(&self, results: &[ReplayResult]) -> (agree: bool)
        ensures
            agree == results_agree(results@),
    {
        if results.len() < 2 {
            return true;
        }
        let mut i: usize = 0;
        while i < results.len()
            invariant
                i <= results@.len(),
                results@.len() >= 2,
                forall|j: int|
                    0 <= j < i ==> (#[trigger] results@[j]).success == results@[0].success
                        && results@[j].invariant_violated == results@[0].invariant_violated,
            decreases results@.len() - i,
        {
            if results[i].success != results[0].success || results[i].invariant_violated
                != results[0].invariant_violated {
                return false;
            }
            i = i + 1;
        }
        true
    }
}

impl Default for ReplayEngine {
    fn default() -> (engine: Self)
        ensures
            engine.max_retries == 3,
            engine.timeout_ms == 30000,
    {
        ReplayEngine::new()
    }
}

/// Requirements monotonicity: where a state meets requirements, raising the
/// balance required of one of their accounts above what the account holds
/// leaves them unmet.
pub proof fn lemma_raised_requirement_unmet(
    state: StateModel,
    requirements: RequirementsModel,
    account: Seq<char>,
    amount: i64,
)
    requires
        requirements_met(state, requirements),
        requirements.required_balances.contains_key(account),
        amount > state.balances[account].amount,
    ensures
        !requirements_met(
            state,
            RequirementsModel {
                required_balances: requirements.required_balances.insert(account, amount),
                ..requirements
            },
        ),
{
    let raised = RequirementsModel {
        required_balances: requirements.required_balances.insert(account, amount),
        ..requirements
    };
    assert(!balance_met(state, raised, account));
}

} // verus!
