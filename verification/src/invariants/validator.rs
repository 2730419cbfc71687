//! The validator: evaluates the invariants of a catalog on a transition.

use std::sync::Arc;
use vstd::prelude::*;
use vstd::string::StringExecFns;
use crate::collections::{views, Duplicate};
use crate::invariants::catalog::{
    has_id, in_category, index_of_id, is_standard_catalog, lemma_in_category,
    InvariantCatalog, InvariantModel, SecurityInvariant,
};
use crate::invariants::predicates::{
    balance_conservation, client_input_trust, completion_requirement, cross_user_access,
    double_spend, fixation_prevention, horizontal_boundary, input_bounds,
    modification_authorization, non_negative_balance, privilege_escalation,
    server_side_validation, state_consistency, step_ordering, transaction_atomicity,
    user_binding, version_monotonicity, vertical_boundary, external_total,
    horizontal_boundary_at, cross_user_access_at, atomic_at, step_ordering_at, modification_at, version_at,
};
use crate::invariants::standard::{standard_order, InvariantCategory};
use crate::state::{ApplicationState, StateModel};
use crate::types::{Confidence, FindingClassification, Severity, CONFIDENCE_SCALE};

verus! {

/// Details of an invariant violation.
#[derive(Debug)]
pub struct ViolationDetails {
    pub invariant_id: String,
    pub invariant_name: String,
    pub category: InvariantCategory,
    pub message: String,
    pub severity: Severity,
    pub confidence: Confidence,
}

/// What a `ViolationDetails` stands for; the confidence is in millionths.
pub ghost struct ViolationModel {
    pub invariant_id: Seq<char>,
    pub invariant_name: Seq<char>,
    pub category: InvariantCategory,
    pub message: Seq<char>,
    pub severity: Severity,
    pub confidence: nat,
}

impl View for ViolationDetails {
    type V = ViolationModel;

    open spec fn view(&self) -> ViolationModel {
        ViolationModel {
            invariant_id: self.invariant_id@,
            invariant_name: self.invariant_name@,
            category: self.category,
            message: self.message@,
            severity: self.severity,
            confidence: self.confidence@,
        }
    }
}

impl ViolationDetails {
    /// A line that names the violation: the identifier of the invariant and
    /// the message.
    pub fn describe(&self) -> (line: String)
        ensures
            line@ == self@.invariant_id + ": "@ + self@.message,
    {
        let mut line = self.invariant_id.clone();
        line.append(": ");
        line.append(self.message.as_str());
        line
    }
}

impl Clone for ViolationDetails {
    fn clone(&self) -> (copy: Self)
        ensures
            copy@ == self@,
    {
        ViolationDetails {
            invariant_id: self.invariant_id.clone(),
            invariant_name: self.invariant_name.clone(),
            category: self.category,
            message: self.message.clone(),
            severity: self.severity,
            confidence: self.confidence,
        }
    }
}

impl Duplicate for ViolationDetails {
    fn duplicate(&self) -> (copy: Self) {
        self.clone()
    }
}

/// Result of invariant validation.
#[derive(Debug)]
pub struct ValidationResult {
    pub is_valid: bool,
    pub violations: Vec<ViolationDetails>,
    pub checked_invariants: Vec<String>,
    pub classification: FindingClassification,
}

/// What a `ValidationResult` stands for.
pub ghost struct ValidationModel {
    pub is_valid: bool,
    pub violations: Seq<ViolationModel>,
    pub checked_invariants: Seq<Seq<char>>,
    pub classification: FindingClassification,
}

impl View for ValidationResult {
    type V = ValidationModel;

    open spec fn view(&self) -> ValidationModel {
        ValidationModel {
            is_valid: self.is_valid,
            violations: views(self.violations@),
            checked_invariants: views(self.checked_invariants@),
            classification: self.classification,
        }
    }
}

impl ValidationResult {
    /// The result of a validation that found no violation.
    pub fn valid(checked_invariants: Vec<String>) -> (result: Self)
        ensures
            result@ == (ValidationModel {
                is_valid: true,
                violations: Seq::empty(),
                checked_invariants: views(checked_invariants@),
                classification: FindingClassification::NoIssue,
            }),
    {
        let result = ValidationResult {
            is_valid: true,
            violations: Vec::new(),
            checked_invariants,
            classification: FindingClassification::NoIssue,
        };
        assert(result@.violations =~= Seq::empty());
        result
    }

    /// The result of a validation that found the given violations.
    pub fn violation(violations: Vec<ViolationDetails>, checked_invariants: Vec<String>) -> (result:
        Self)
        ensures
            result@ == (ValidationModel {
                is_valid: false,
                violations: views(violations@),
                checked_invariants: views(checked_invariants@),
                classification: FindingClassification::Bug,
            }),
    {
        ValidationResult {
            is_valid: false,
            violations,
            checked_invariants,
            classification: FindingClassification::Bug,
        }
    }

    /// The result that marks an observation which violates nothing.
    pub fn signal(checked_invariants: Vec<String>) -> (result: Self)
        ensures
            result@ == (ValidationModel {
                is_valid: true,
                violations: Seq::empty(),
                checked_invariants: views(checked_invariants@),
                classification: FindingClassification::Signal,
            }),
    {
        let result = ValidationResult {
            is_valid: true,
            violations: Vec::new(),
            checked_invariants,
            classification: FindingClassification::Signal,
        };
        assert(result@.violations =~= Seq::empty());
        result
    }
}

/// The severity of a violation, by the category of the violated invariant.
pub open spec fn severity_of(category: InvariantCategory) -> Severity {
    match category {
        InvariantCategory::Monetary => Severity::Critical,
        InvariantCategory::Authorization => Severity::High,
        InvariantCategory::Trust => Severity::High,
        InvariantCategory::DataIntegrity => Severity::High,
        InvariantCategory::SessionManagement => Severity::High,
        InvariantCategory::Workflow => Severity::Medium,
        InvariantCategory::InputValidation => Severity::Medium,
        InvariantCategory::RateLimiting => Severity::Medium,
        InvariantCategory::Custom => Severity::Medium,
    }
}

/// The violation reported for an invariant that does not hold.
pub open spec fn violation_of(rule: InvariantModel) -> ViolationModel {
    ViolationModel {
        invariant_id: rule.id,
        invariant_name: rule.name,
        category: rule.category,
        message: rule.violation_message,
        severity: severity_of(rule.category),
        confidence: CONFIDENCE_SCALE as nat,
    }
}

/// The violations among `entries` on a pair of states, in the order of the
/// entries.
pub open spec fn violations_of(entries: Seq<SecurityInvariant>, before: StateModel, after: StateModel) -> Seq<
    ViolationModel,
>
    decreases entries.len(),
{
    if entries.len() == 0 {
        Seq::empty()
    } else if entries.last().holds(before, after) {
        violations_of(entries.drop_last(), before, after)
    } else {
        violations_of(entries.drop_last(), before, after).push(violation_of(entries.last()@))
    }
}

/// The identifiers of `entries`, in their order.
pub open spec fn ids_of(entries: Seq<SecurityInvariant>) -> Seq<Seq<char>> {
    Seq::new(entries.len(), |i: int| entries[i].id@)
}

/// The result of evaluating `entries` on a pair of states.
pub open spec fn outcome(entries: Seq<SecurityInvariant>, before: StateModel, after: StateModel) -> ValidationModel {
    let violations = violations_of(entries, before, after);
    ValidationModel {
        is_valid: violations.len() == 0,
        violations,
        checked_invariants: ids_of(entries),
        classification: if violations.len() == 0 {
            FindingClassification::NoIssue
        } else {
            FindingClassification::Bug
        },
    }
}

/// The invariants of the given categories: category by category in the
/// order given, each category in the order of the catalog.
pub open spec fn selected(entries: Seq<SecurityInvariant>, categories: Seq<InvariantCategory>) -> Seq<
    SecurityInvariant,
>
    decreases categories.len(),
{
    if categories.len() == 0 {
        Seq::empty()
    } else {
        selected(entries, categories.drop_last()) + in_category(entries, categories.last())
    }
}

/// The sum of the numbers of invariants of the given categories.
pub open spec fn category_counts(entries: Seq<SecurityInvariant>, categories: Seq<InvariantCategory>) -> nat
    decreases categories.len(),
{
    if categories.len() == 0 {
        0
    } else {
        category_counts(entries, categories.drop_last()) + in_category(
            entries,
            categories.last(),
        ).len()
    }
}

/// Records the verdict on one invariant: the invariant is checked, and
/// violated where the verdict is that it does not hold.
pub fn record_verdict(
    rule: &SecurityInvariant,
    holds: bool,
    violations: &mut Vec<ViolationDetails>,
    checked: &mut Vec<String>,
)
    ensures
        views(final(checked)@) == views(old(checked)@).push(rule.id@),
        views(final(violations)@) == if holds {
            views(old(violations)@)
        } else {
            views(old(violations)@).push(violation_of(rule@))
        },
{
    checked.push(rule.id.clone());
    if !holds {
        violations.push(
            ViolationDetails {
                invariant_id: rule.id.clone(),
                invariant_name: rule.name.clone(),
                category: rule.category,
                message: rule.violation_message.clone(),
                severity: determine_severity(&rule.category),
                confidence: Confidence::certain(),
            },
        );
    }
}

/// Evaluates one invariant and records the verdict.
fn evaluate_into(
    rule: &SecurityInvariant,
    before: &ApplicationState,
    after: &ApplicationState,
    violations: &mut Vec<ViolationDetails>,
    checked: &mut Vec<String>,
)
    ensures
        views(final(checked)@) == views(old(checked)@).push(rule.id@),
        views(final(violations)@) == if rule.holds(before@, after@) {
            views(old(violations)@)
        } else {
            views(old(violations)@).push(violation_of(rule@))
        },
{
    let holds = rule.validate(before, after);
    record_verdict(rule, holds, violations, checked);
}

/// Builds the result from the violations found and the invariants checked.
fn conclude(violations: Vec<ViolationDetails>, checked: Vec<String>) -> (result: ValidationResult)
    ensures
        result@ == (ValidationModel {
            is_valid: violations@.len() == 0,
            violations: views(violations@),
            checked_invariants: views(checked@),
            classification: if violations@.len() == 0 {
                FindingClassification::NoIssue
            } else {
                FindingClassification::Bug
            },
        }),
{
    if violations.len() == 0 {
        assert(views(violations@) =~= Seq::empty());
        ValidationResult::valid(checked)
    } else {
        ValidationResult::violation(violations, checked)
    }
}

/// The severity of a violation, by the category of the violated invariant.
pub fn determine_severity(category: &InvariantCategory) -> (severity: Severity)
    ensures
        severity == severity_of(*category),
{
    match category {
        InvariantCategory::Authorization => Severity::High,
        InvariantCategory::Monetary => Severity::Critical,
        InvariantCategory::Workflow => Severity::Medium,
        InvariantCategory::Trust => Severity::High,
        InvariantCategory::DataIntegrity => Severity::High,
        InvariantCategory::SessionManagement => Severity::High,
        InvariantCategory::InputValidation => Severity::Medium,
        InvariantCategory::RateLimiting => Severity::Medium,
        InvariantCategory::Custom => Severity::Medium,
    }
}

/// Evaluates the invariants of a list on a pair of states.
fn evaluate_all(
    listed: &Vec<&SecurityInvariant>,
    before: &ApplicationState,
    after: &ApplicationState,
    violations: &mut Vec<ViolationDetails>,
    checked: &mut Vec<String>,
)
    ensures
        views(final(checked)@) == views(old(checked)@) + ids_of(
            listed@.map_values(|r: &SecurityInvariant| *r),
        ),
        views(final(violations)@) == views(old(violations)@) + violations_of(
            listed@.map_values(|r: &SecurityInvariant| *r),
            before@,
            after@,
        ),
{
    let ghost entries = listed@.map_values(|r: &SecurityInvariant| *r);
    let mut i: usize = 0;
    while i < listed.len()
        invariant
            i <= listed@.len(),
            entries == listed@.map_values(|r: &SecurityInvariant| *r),
            views(checked@) == views(old(checked)@) + ids_of(entries.take(i as int)),
            views(violations@) == views(old(violations)@) + violations_of(
                entries.take(i as int),
                before@,
                after@,
            ),
        decreases listed@.len() - i,
    {
        let rule = listed[i];
        proof {
            assert(entries.take(i + 1).drop_last() =~= entries.take(i as int));
        }
        evaluate_into(rule, before, after, violations, checked);
        i = i + 1;
    }
    assert(entries.take(listed@.len() as int) =~= entries);
}

/// Invariant validator that evaluates state transitions.
pub struct InvariantValidator {
    catalog: Arc<InvariantCatalog>,
}

impl InvariantValidator {
    /// The catalog whose invariants the validator evaluates.
    pub closed spec fn catalog_of(&self) -> InvariantCatalog {
        *self.catalog
    }

    /// The invariants that the validator evaluates.
    pub open spec fn entries(&self) -> Seq<SecurityInvariant> {
        self.catalog_of().entries()
    }

    /// A validator for the invariants of a catalog.
    pub fn new(catalog: Arc<InvariantCatalog>) -> (validator: Self)
        ensures
            validator.catalog_of() == *catalog,
    {
        Self { catalog }
    }

    /// Validates a state transition against all invariants.
    pub fn validate_transition(&self, before: &ApplicationState, after: &ApplicationState) -> (result: ValidationResult)
        ensures
            result@ == outcome(self.entries(), before@, after@),
    {
        let listed = self.catalog.all();
        let mut violations: Vec<ViolationDetails> = Vec::new();
        let mut checked: Vec<String> = Vec::new();
        evaluate_all(&listed, before, after, &mut violations, &mut checked);
        proof {
            assert(listed@.map_values(|r: &SecurityInvariant| *r) =~= self.entries());
        }
        conclude(violations, checked)
    }

    /// Validates a state transition against the invariants of the given
    /// categories.
    pub fn validate_categories(
        &self,
        before: &ApplicationState,
        after: &ApplicationState,
        categories: &[InvariantCategory],
    ) -> (result: ValidationResult)
        ensures
            result@ == outcome(selected(self.entries(), categories@), before@, after@),
    {
        let mut violations: Vec<ViolationDetails> = Vec::new();
        let mut checked: Vec<String> = Vec::new();
        let mut i: usize = 0;
        while i < categories.len()
            invariant
                i <= categories@.len(),
                views(checked@) == ids_of(selected(self.entries(), categories@.take(i as int))),
                views(violations@) == violations_of(
                    selected(self.entries(), categories@.take(i as int)),
                    before@,
                    after@,
                ),
            decreases categories@.len() - i,
        {
            let listed = self.catalog.get_by_category(categories[i]);
            proof {
                assert(categories@.take(i + 1).drop_last() =~= categories@.take(i as int));
                assert(listed@.map_values(|r: &SecurityInvariant| *r) =~= in_category(
                    self.entries(),
                    categories@[i as int],
                ));
                let done = selected(self.entries(), categories@.take(i as int));
                let more = in_category(self.entries(), categories@[i as int]);
                lemma_ids_concat(done, more);
                lemma_violations_concat(done, more, before@, after@);
            }
            evaluate_all(&listed, before, after, &mut violations, &mut checked);
            i = i + 1;
        }
        assert(categories@.take(categories@.len() as int) =~= categories@);
        conclude(violations, checked)
    }

    /// Validates a state transition against the invariant with the given
    /// identifier; absent where the catalog has no such invariant.
    pub fn validate_invariant(&self, invariant_id: &str, before: &ApplicationState, after: &ApplicationState) -> (result: Option<ValidationResult>)
        ensures
            result is Some == has_id(self.entries(), invariant_id@),
            result is Some ==> result->0@ == outcome(
                seq![self.entries()[index_of_id(self.entries(), invariant_id@)]],
                before@,
                after@,
            ),
    {
        let rule = match self.catalog.get(invariant_id) {
            Some(rule) => rule,
            None => {
                return None;
            },
        };
        let mut violations: Vec<ViolationDetails> = Vec::new();
        let mut checked: Vec<String> = Vec::new();
        evaluate_into(rule, before, after, &mut violations, &mut checked);
        proof {
            let single = seq![*rule];
            assert(views(checked@) =~= ids_of(single));
            assert(violations_of(single.drop_last(), before@, after@) =~= Seq::empty());
            assert(views(violations@) =~= violations_of(single, before@, after@));
        }
        Some(conclude(violations, checked))
    }

    /// The severity of a violation, by the category of the violated invariant.
    pub fn determine_severity(&self, category: &InvariantCategory) -> (severity: Severity)
        ensures
            severity == severity_of(*category),
    {
        determine_severity(category)
    }

    /// Whether a result is to be classified as a bug.
    pub fn is_bug(&self, result: &ValidationResult) -> (bug: bool)
        ensures
            bug == (result@.violations.len() > 0),
    {
        result.violations.len() > 0
    }

    /// Whether a result is to be classified as a signal.
    pub fn is_signal(&self, result: &ValidationResult) -> (signal: bool)
        ensures
            signal == (result@.violations.len() == 0 && result@.classification
                == FindingClassification::Signal),
    {
        result.violations.len() == 0 && result.classification == FindingClassification::Signal
    }

    /// The catalog whose invariants the validator evaluates.
    pub fn catalog(&self) -> (catalog: &InvariantCatalog)
        ensures
            *catalog == self.catalog_of(),
    {
        &self.catalog
    }
}

/// The identifiers of two lists in a row are the identifiers of the first
/// followed by those of the second.
pub proof fn lemma_ids_concat(first: Seq<SecurityInvariant>, second: Seq<SecurityInvariant>)
    ensures
        ids_of(first + second) == ids_of(first) + ids_of(second),
{
}

/// The violations of two lists in a row are the violations of the first
/// followed by those of the second.
pub proof fn lemma_violations_concat(
    first: Seq<SecurityInvariant>,
    second: Seq<SecurityInvariant>,
    before: StateModel,
    after: StateModel,
)
    ensures
        violations_of(first + second, before, after) == violations_of(first, before, after)
            + violations_of(second, before, after),
    decreases second.len(),
{
    if second.len() > 0 {
        let whole = first + second;
        assert(whole.drop_last() =~= first + second.drop_last());
        lemma_violations_concat(first, second.drop_last(), before, after);
    }
}

/// Whether `violation` is what is reported for one of `entries` that does
/// not hold.
pub open spec fn reported_for(
    entries: Seq<SecurityInvariant>,
    before: StateModel,
    after: StateModel,
    violation: ViolationModel,
) -> bool {
    exists|i: int|
        0 <= i < entries.len() && !(#[trigger] entries[i]).holds(before, after) && violation
            == violation_of(entries[i]@)
}

/// No invariant is violated exactly where every invariant holds, and every
/// violation reported belongs to an invariant that does not hold.
pub proof fn lemma_violations(entries: Seq<SecurityInvariant>, before: StateModel, after: StateModel)
    ensures
        violations_of(entries, before, after).len() <= entries.len(),
        violations_of(entries, before, after).len() == 0 <==> forall|i: int|
            0 <= i < entries.len() ==> (#[trigger] entries[i]).holds(before, after),
        forall|k: int|
            0 <= k < violations_of(entries, before, after).len() ==> reported_for(
                entries,
                before,
                after,
                #[trigger] violations_of(entries, before, after)[k],
            ),
    decreases entries.len(),
{
    if entries.len() > 0 {
        let rest = entries.drop_last();
        let found = violations_of(entries, before, after);
        lemma_violations(rest, before, after);
        if violations_of(rest, before, after).len() == 0 && entries.last().holds(before, after) {
            assert forall|i: int| 0 <= i < entries.len() implies (#[trigger] entries[i]).holds(
                before,
                after,
            ) by {
                if i < rest.len() {
                    assert(rest[i].holds(before, after));
                }
            }
        }
        assert forall|k: int| 0 <= k < found.len() implies reported_for(
            entries,
            before,
            after,
            #[trigger] found[k],
        ) by {
            if k < violations_of(rest, before, after).len() {
                let i = choose|i: int|
                    0 <= i < rest.len() && !(#[trigger] rest[i]).holds(before, after)
                        && violations_of(rest, before, after)[k] == violation_of(rest[i]@);
            }
        }
    }
}

/// Determinism of validation: evaluated on states with the same contents,
/// the same invariants give the same result.
pub proof fn lemma_validation_deterministic(
    entries: Seq<SecurityInvariant>,
    before: ApplicationState,
    after: ApplicationState,
    before_again: ApplicationState,
    after_again: ApplicationState,
)
    requires
        before@ == before_again@,
        after@ == after_again@,
    ensures
        outcome(entries, before@, after@) == outcome(entries, before_again@, after_again@),
{
}

/// What a state must satisfy by itself for the default invariants to hold of
/// the transition that leaves it unchanged.
pub open spec fn at_rest(state: StateModel) -> bool {
    &&& vertical_boundary(state, state)
    &&& external_total(state.financial_transactions) == 0
    &&& non_negative_balance(state, state)
    &&& double_spend(state, state)
    &&& completion_requirement(state, state)
    &&& state_consistency(state, state)
    &&& client_input_trust(state, state)
    &&& server_side_validation(state, state)
    &&& input_bounds(state, state)
}

/// The invariants that compare two states hold of a state and itself.
pub proof fn lemma_reflexive(state: StateModel)
    ensures
        cross_user_access(state, state),
        privilege_escalation(state, state),
        horizontal_boundary(state, state),
        transaction_atomicity(state, state),
        step_ordering(state, state),
        modification_authorization(state, state),
        version_monotonicity(state, state),
        fixation_prevention(state, state),
        user_binding(state, state),
        balance_conservation(state, state) <==> external_total(state.financial_transactions) == 0,
{
    assert forall|object: Seq<char>| state.ownership.contains_key(object) implies #[trigger] cross_user_access_at(
        state,
        state,
        object,
    ) by {}
    assert forall|object: Seq<char>| state.data_objects.contains_key(object) implies #[trigger] horizontal_boundary_at(
        state,
        state,
        object,
    ) by {}
    assert forall|i: int| 0 <= i < state.financial_transactions.len() implies #[trigger] atomic_at(
        state,
        state,
        i,
    ) by {}
    assert forall|session: Seq<char>| state.workflow_positions.contains_key(session) implies #[trigger] step_ordering_at(
        state,
        state,
        session,
    ) by {}
    assert forall|object: Seq<char>| state.data_objects.contains_key(object) implies #[trigger] modification_at(
        state,
        state,
        object,
    ) by {}
    assert forall|object: Seq<char>| state.data_objects.contains_key(object) implies #[trigger] version_at(
        state,
        state,
        object,
    ) by {}
}

/// The empty transition: the default invariants find the transition from a
/// state to itself valid, with no violation, exactly where the state is at
/// rest.
pub proof fn lemma_unchanged_state_valid(entries: Seq<SecurityInvariant>, state: StateModel)
    requires
        is_standard_catalog(entries),
    ensures
        outcome(entries, state, state).is_valid <==> at_rest(state),
        at_rest(state) ==> outcome(entries, state, state).violations == Seq::<ViolationModel>::empty(),
{
    lemma_reflexive(state);
    lemma_violations(entries, state, state);
    let order = standard_order();
    if outcome(entries, state, state).is_valid {
        assert(entries[3].is_standard(order[3]) && entries[3].holds(state, state));
        assert(entries[4].is_standard(order[4]) && entries[4].holds(state, state));
        assert(entries[5].is_standard(order[5]) && entries[5].holds(state, state));
        assert(entries[7].is_standard(order[7]) && entries[7].holds(state, state));
        assert(entries[9].is_standard(order[9]) && entries[9].holds(state, state));
        assert(entries[10].is_standard(order[10]) && entries[10].holds(state, state));
        assert(entries[11].is_standard(order[11]) && entries[11].holds(state, state));
        assert(entries[12].is_standard(order[12]) && entries[12].holds(state, state));
    }
}

/// Completeness: a validation checks every invariant, each once, in the
/// order of the catalog.
pub proof fn lemma_all_checked(entries: Seq<SecurityInvariant>, before: StateModel, after: StateModel)
    ensures
        outcome(entries, before, after).checked_invariants.len() == entries.len(),
        forall|i: int|
            0 <= i < entries.len() ==> #[trigger] outcome(entries, before, after).checked_invariants[i]
                == entries[i].id@,
{
}

/// The invariants selected for a list of categories are invariants of the
/// catalog with one of those categories, and their number is the sum of the
/// numbers of invariants of the categories.
pub proof fn lemma_selection(entries: Seq<SecurityInvariant>, categories: Seq<InvariantCategory>)
    ensures
        selected(entries, categories).len() == category_counts(entries, categories),
        forall|i: int|
            0 <= i < selected(entries, categories).len() ==> {
                &&& categories.contains((#[trigger] selected(entries, categories)[i]).category)
                &&& entries.contains(selected(entries, categories)[i])
            },
    decreases categories.len(),
{
    if categories.len() > 0 {
        let head = categories.drop_last();
        let last = categories.last();
        lemma_selection(entries, head);
        lemma_in_category(entries, last);
    }
}

/// Whether `id` is the identifier of an invariant of the catalog with one of
/// the given categories.
pub open spec fn in_scope(
    entries: Seq<SecurityInvariant>,
    categories: Seq<InvariantCategory>,
    id: Seq<char>,
) -> bool {
    exists|i: int|
        0 <= i < entries.len() && (#[trigger] entries[i]).id@ == id && categories.contains(
            entries[i].category,
        )
}

/// Category scoping: a validation restricted to categories checks only
/// invariants of the catalog with one of those categories, and as many as
/// the categories have invariants, counted category by category.
pub proof fn lemma_selection_scoped(
    entries: Seq<SecurityInvariant>,
    categories: Seq<InvariantCategory>,
    before: StateModel,
    after: StateModel,
)
    ensures
        outcome(selected(entries, categories), before, after).checked_invariants.len()
            == category_counts(entries, categories),
        forall|k: int|
            0 <= k < outcome(selected(entries, categories), before, after).checked_invariants.len()
                ==> in_scope(
                entries,
                categories,
                #[trigger] outcome(selected(entries, categories), before, after).checked_invariants[k],
            ),
{
    lemma_selection(entries, categories);
    let chosen = selected(entries, categories);
    let checked = outcome(chosen, before, after).checked_invariants;
}

/// Severity and confidence: every violation reported carries the severity
/// that the table gives for its category, and confidence one.
pub proof fn lemma_violations_graded(entries: Seq<SecurityInvariant>, before: StateModel, after: StateModel)
    ensures
        forall|k: int|
            0 <= k < outcome(entries, before, after).violations.len() ==> {
                &&& (#[trigger] outcome(entries, before, after).violations[k]).confidence
                    == CONFIDENCE_SCALE
                &&& outcome(entries, before, after).violations[k].severity == severity_of(
                    outcome(entries, before, after).violations[k].category,
                )
            },
{
    lemma_violations(entries, before, after);
}

} // verus!
