//! Causal attribution, replay instructions, evidence, and the proof that
//! bundles them.

pub mod causal;
pub mod evidence;
pub mod replay;

pub use causal::{
    AttributionRule, CausalChain, CausalEngine, CausalLink, ChangeMatcher, ConstantMatcher,
    CustomMatcher, RuleMatcher, StateChange, StateChangeType,
};
pub use evidence::{Evidence, EvidenceArtifact, EvidenceCollector, EvidenceType};
pub use replay::{
    Assertion, AssertionOperator, ExpectedOutcome, ExpectedStateChange, ReplayEngine,
    ReplayInstructions, ReplayResult, ReplayStep, SessionRequirement, StateAssertion,
    StateRequirements, TimingConstraints,
};

use vstd::prelude::*;
use crate::collections::views;
use crate::invariants::validator::{ViolationDetails, ViolationModel};
use crate::proofs::causal::{chain_for, changes_between, ChainModel};
use crate::proofs::evidence::EvidenceModel;
use crate::proofs::replay::{requirements_of, step_for, InstructionsModel};
use crate::state::{Action, ActionModel, ApplicationState, StateModel, StateTransition};
use crate::trusted::random_uuid;
use crate::types::{Confidence, Severity, Timestamp};

verus! {

/// Complete proof of an invariant violation.
#[derive(Debug)]
pub struct Proof {
    pub id: String,
    pub before_state: ApplicationState,
    pub action_sequence: Vec<Action>,
    pub after_state: ApplicationState,
    pub causality_chain: CausalChain,
    pub replay_instructions: ReplayInstructions,
    pub evidence: Evidence,
    pub invariant_violated: String,
    pub violation_details: ViolationDetails,
    pub generated_at: Timestamp,
    pub is_deterministic: bool,
}

/// What a `Proof` stands for.
pub ghost struct ProofModel {
    pub id: Seq<char>,
    pub before_state: StateModel,
    pub action_sequence: Seq<ActionModel>,
    pub after_state: StateModel,
    pub causality_chain: ChainModel,
    pub replay_instructions: InstructionsModel,
    pub evidence: EvidenceModel,
    pub invariant_violated: Seq<char>,
    pub violation_details: ViolationModel,
    pub generated_at: Timestamp,
    pub is_deterministic: bool,
}

impl ProofModel {
    /// Whether the proof has an action, a complete causal chain, the
    /// determinism flag, and at least one artifact of evidence.
    pub open spec fn valid(self) -> bool {
        &&& self.action_sequence.len() > 0
        &&& self.causality_chain.complete()
        &&& self.is_deterministic
        &&& self.evidence.artifacts.len() > 0
    }
}

impl View for Proof {
    type V = ProofModel;

    open spec fn view(&self) -> ProofModel {
        ProofModel {
            id: self.id@,
            before_state: self.before_state@,
            action_sequence: views(self.action_sequence@),
            after_state: self.after_state@,
            causality_chain: self.causality_chain@,
            replay_instructions: self.replay_instructions@,
            evidence: self.evidence@,
            invariant_violated: self.invariant_violated@,
            violation_details: self.violation_details@,
            generated_at: self.generated_at,
            is_deterministic: self.is_deterministic,
        }
    }
}

impl Proof {
    /// Whether the proof is complete and valid.
    pub fn is_valid(&self) -> (valid: bool)
        ensures
            valid == self@.valid(),
    {
        self.action_sequence.len() > 0 && self.causality_chain.is_complete()
            && self.is_deterministic && self.evidence.artifacts.len() > 0
    }

    /// The severity of the proven violation.
    pub fn severity(&self) -> (severity: Severity)
        ensures
            severity == self@.violation_details.severity,
    {
        self.violation_details.severity
    }

    /// The confidence of the proven violation.
    pub fn confidence(&self) -> (confidence: Confidence)
        ensures
            confidence@ == self@.violation_details.confidence,
    {
        self.violation_details.confidence
    }
}

/// Error types for proof generation.
#[derive(Debug, Clone, PartialEq, Eq)]
pub enum ProofError {
    NoCausalLink,
    ReplayFailed(String),
    InsufficientEvidence,
    NonDeterministic,
    StateInconsistency,
}

/// Assembles the proof of a violation from the transition that showed it
/// and the evidence gathered: the two states, the action, the causal chain
/// that the default rules give, the instructions that replay the transition
/// with the default number of retries, and the evidence. The determinism
/// flag is set, as it holds of no replay results; the identifier is fresh
/// and the time is the current one.
pub fn build_proof(violation: ViolationDetails, transition: &StateTransition, evidence: Evidence) -> (proof:
    Proof)
    ensures
        proof@.id.len() == 36,
        proof@.before_state == transition@.from_state,
        proof@.action_sequence == seq![transition@.triggering_action],
        proof@.after_state == transition@.to_state,
        proof@.causality_chain == chain_for(
            causal::default_rules(),
            transition@.triggering_action,
            changes_between(transition@.from_state, transition@.to_state),
            transition@.timestamp,
        ),
        proof@.replay_instructions == (InstructionsModel {
            steps: seq![step_for(transition@.triggering_action, 1, 3)],
            initial_state_requirements: requirements_of(transition@.from_state),
            ..InstructionsModel::empty()
        }),
        proof@.evidence == evidence@,
        proof@.invariant_violated == violation@.invariant_id,
        proof@.violation_details == violation@,
        proof@.is_deterministic,
{
    let chain = CausalEngine::new().build_chain(transition);
    let replay = ReplayEngine::new();
    let instructions = replay.generate_instructions(transition);
    let none: Vec<ReplayResult> = Vec::new();
    let is_deterministic = replay.is_deterministic(none.as_slice());
    let mut actions: Vec<Action> = Vec::new();
    actions.push(transition.triggering_action.clone());
    Proof {
        id: random_uuid(),
        before_state: transition.from_state.clone(),
        action_sequence: actions,
        after_state: transition.to_state.clone(),
        causality_chain: chain,
        replay_instructions: instructions,
        evidence,
        invariant_violated: violation.invariant_id.clone(),
        violation_details: violation,
        generated_at: Timestamp::now(),
        is_deterministic,
    }
}

} // verus!
