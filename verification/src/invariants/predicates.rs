//! The default security predicates over a pair of states.
//!
//! Each predicate has a specification over the models of the two states and
//! an executable check that is proved to compute it.

use vstd::prelude::*;
use vstd::utf8::encode_utf8;
use crate::collections::{lists, ordered_keys};
use crate::collections::{views, SortedMap, SortedSet};
use crate::state::{
    ApplicationState, FinancialTransaction, SessionModel, SessionState, StateModel,
    TransactionModel,
};
use crate::text::same_text;
use crate::types::{AccountId, Balance, Role};

verus! {

/// Whether `needle` occurs in `hay` as a contiguous run of bytes.
pub open spec fn bytes_occur(needle: Seq<u8>, hay: Seq<u8>) -> bool {
    exists|at: int| #[trigger] occurs_at(needle, hay, at)
}

/// Whether `needle` stands in `hay` at position `at`.
pub open spec fn occurs_at(needle: Seq<u8>, hay: Seq<u8>, at: int) -> bool {
    &&& 0 <= at
    &&& at + needle.len() <= hay.len()
    &&& hay.subrange(at, at + needle.len()) == needle
}

/// Whether the text `hay` contains the text `needle`, matched on their
/// UTF-8 encodings.
pub open spec fn text_contains(hay: Seq<char>, needle: Seq<char>) -> bool {
    bytes_occur(encode_utf8(needle), encode_utf8(hay))
}

/// The length of a text in bytes of its UTF-8 encoding.
pub open spec fn byte_length(text: Seq<char>) -> nat {
    encode_utf8(text).len()
}

/// Whether a session carries the role named `role`.
pub open spec fn has_role(session: SessionModel, role: Seq<char>) -> bool {
    session.roles.contains(role)
}

/// Cross-user object access, for one object.
pub open spec fn cross_user_access_at(before: StateModel, after: StateModel, object: Seq<char>) -> bool {
    before.ownership.contains_key(object) && before.ownership[object] != after.ownership[object] ==> {
        &&& after.current_session is Some
        &&& (after.current_session->0.user_id == before.ownership[object] || has_role(
            after.current_session->0,
            "admin"@,
        ))
    }
}

/// An object present in both states may change owner only when the current
/// session exists and is the prior owner's, or carries the role `admin`.
pub open spec fn cross_user_access(before: StateModel, after: StateModel) -> bool {
    forall|object: Seq<char>|
        after.ownership.contains_key(object) ==> #[trigger] cross_user_access_at(before, after, object)
}

/// Whether some authorization event of `state` grants `role`.
pub open spec fn role_granted(state: StateModel, role: Seq<char>) -> bool {
    exists|i: int| #[trigger] grants_at(state, role, i)
}

/// Whether the authorization event at `i` grants `role`.
pub open spec fn grants_at(state: StateModel, role: Seq<char>, i: int) -> bool {
    &&& 0 <= i < state.authorization_events.len()
    &&& state.authorization_events[i].event_type == "role_grant"@
    &&& state.authorization_events[i].target_role == Some(role)
}

/// Whether the roles of `after` properly contain those of `before`.
pub open spec fn roles_grew(before: SessionModel, after: SessionModel) -> bool {
    before.roles.subset_of(after.roles) && before.roles != after.roles
}

/// Where the session's roles properly contain the prior session's, every
/// added role is the target of a `role_grant` event of the later state.
pub open spec fn privilege_escalation(before: StateModel, after: StateModel) -> bool {
    before.current_session is Some && after.current_session is Some && roles_grew(
        before.current_session->0,
        after.current_session->0,
    ) ==> forall|role: Seq<char>|
        after.current_session->0.roles.contains(role) && !before.current_session->0.roles.contains(
            role,
        ) ==> #[trigger] role_granted(after, role)
}

/// Horizontal boundary, for one object.
pub open spec fn horizontal_boundary_at(before: StateModel, after: StateModel, object: Seq<char>) -> bool {
    after.current_session is Some && !before.data_objects.contains_key(object)
        && after.ownership.contains_key(object) && after.ownership[object]
        != after.current_session->0.user_id ==> has_role(after.current_session->0, "admin"@)
        || has_role(after.current_session->0, "moderator"@)
}

/// A data object that newly appears and is owned by another user than the
/// session's requires the role `admin` or `moderator`.
pub open spec fn horizontal_boundary(before: StateModel, after: StateModel) -> bool {
    forall|object: Seq<char>|
        after.data_objects.contains_key(object) ==> #[trigger] horizontal_boundary_at(
            before,
            after,
            object,
        )
}

/// Whether the authorization event at `i` is an `admin_action`.
pub open spec fn admin_action_at(state: StateModel, i: int) -> bool {
    0 <= i < state.authorization_events.len() && state.authorization_events[i].event_type
        == "admin_action"@
}

/// Whether the session of `state` exists and carries the role `admin`.
pub open spec fn admin_session(state: StateModel) -> bool {
    state.current_session is Some && has_role(state.current_session->0, "admin"@)
}

/// Every `admin_action` event requires a current session with role `admin`.
pub open spec fn vertical_boundary(before: StateModel, after: StateModel) -> bool {
    (exists|i: int| #[trigger] admin_action_at(after, i)) ==> admin_session(after)
}

/// The sum of the amounts that `balances` holds under `keys`.
pub open spec fn sum_amounts(keys: Seq<Seq<char>>, balances: Map<Seq<char>, Balance>) -> int
    decreases keys.len(),
{
    if keys.len() == 0 {
        0
    } else {
        sum_amounts(keys.drop_last(), balances) + balances[keys.last()].amount
    }
}

/// The sum of all balances.
pub open spec fn total_balance(balances: Map<Seq<char>, Balance>) -> int {
    sum_amounts(ordered_keys(balances.dom()), balances)
}

/// The sum of the amounts of the external transactions.
pub open spec fn external_total(transactions: Seq<TransactionModel>) -> int
    decreases transactions.len(),
{
    if transactions.len() == 0 {
        0
    } else {
        external_total(transactions.drop_last()) + if transactions.last().is_external {
            transactions.last().amount as int
        } else {
            0
        }
    }
}

/// The total balance changes by exactly the sum of the external transactions.
pub open spec fn balance_conservation(before: StateModel, after: StateModel) -> bool {
    total_balance(after.balances) - total_balance(before.balances) == external_total(
        after.financial_transactions,
    )
}

/// Non-negative balance, for one account.
pub open spec fn non_negative_at(after: StateModel, account: Seq<char>) -> bool {
    after.balances[account].amount < 0 ==> after.overdraft_permissions.contains(account)
}

/// A negative balance requires overdraft permission.
pub open spec fn non_negative_balance(before: StateModel, after: StateModel) -> bool {
    forall|account: Seq<char>|
        after.balances.contains_key(account) ==> #[trigger] non_negative_at(after, account)
}

/// The amount an account holds, zero where the account is unknown.
pub open spec fn amount_of(balances: Map<Seq<char>, Balance>, account: Seq<char>) -> int {
    if balances.contains_key(account) {
        balances[account].amount as int
    } else {
        0
    }
}

/// The change of an account's amount between two states.
pub open spec fn delta(before: StateModel, after: StateModel, account: Seq<char>) -> int {
    amount_of(after.balances, account) - amount_of(before.balances, account)
}

/// The absolute value of an integer.
pub open spec fn magnitude(x: int) -> int {
    if x < 0 {
        -x
    } else {
        x
    }
}

/// Transaction atomicity, for one transaction.
pub open spec fn atomic_at(before: StateModel, after: StateModel, i: int) -> bool {
    let t = after.financial_transactions[i];
    !t.is_external && t.from_account is Some && t.to_account is Some ==> magnitude(
        delta(before, after, t.from_account->0),
    ) == magnitude(delta(before, after, t.to_account->0))
}

/// For every internal transfer with both endpoints, the two accounts change
/// by the same magnitude.
pub open spec fn transaction_atomicity(before: StateModel, after: StateModel) -> bool {
    forall|i: int| 0 <= i < after.financial_transactions.len() ==> #[trigger] atomic_at(before, after, i)
}

/// The sum of the amounts of the transactions drawn from `account`.
pub open spec fn debits(transactions: Seq<TransactionModel>, account: Seq<char>) -> int
    decreases transactions.len(),
{
    if transactions.len() == 0 {
        0
    } else {
        debits(transactions.drop_last(), account) + if transactions.last().from_account == Some(
            account,
        ) {
            transactions.last().amount as int
        } else {
            0
        }
    }
}

/// Double spend, for one account.
pub open spec fn double_spend_at(before: StateModel, after: StateModel, account: Seq<char>) -> bool {
    before.balances.contains_key(account) ==> after.balances[account].amount
        >= before.balances[account].amount - debits(after.financial_transactions, account)
}

/// No account falls below its prior balance less what was drawn from it.
pub open spec fn double_spend(before: StateModel, after: StateModel) -> bool {
    forall|account: Seq<char>|
        after.balances.contains_key(account) ==> #[trigger] double_spend_at(before, after, account)
}

/// Step ordering, for one session.
pub open spec fn step_ordering_at(before: StateModel, after: StateModel, session: Seq<char>) -> bool {
    if before.workflow_positions.contains_key(session) {
        after.workflow_positions[session].step_index <= before.workflow_positions[session].step_index
            + 1
    } else {
        after.workflow_positions[session].step_index <= 1
    }
}

/// A session advances by at most one step, and starts at step one at most.
pub open spec fn step_ordering(before: StateModel, after: StateModel) -> bool {
    forall|session: Seq<char>|
        after.workflow_positions.contains_key(session) ==> #[trigger] step_ordering_at(
            before,
            after,
            session,
        )
}

/// Whether the completion at `i` is critical and incomplete.
pub open spec fn incomplete_critical_at(state: StateModel, i: int) -> bool {
    &&& 0 <= i < state.workflow_completions.len()
    &&& state.workflow_completions[i].is_critical
    &&& !state.workflow_completions[i].all_steps_completed
}

/// No critical workflow is recorded as completed with steps missing.
pub open spec fn completion_requirement(before: StateModel, after: StateModel) -> bool {
    forall|i: int| !#[trigger] incomplete_critical_at(after, i)
}

/// Whether `steps` are the numbers `start`, `start + 1`, ... in some order.
pub open spec fn run_from(steps: Seq<u32>, start: int) -> bool {
    &&& steps.no_duplicates()
    &&& forall|i: int| 0 <= i < steps.len() ==> start <= #[trigger] steps[i] < start + steps.len()
}

/// Whether `steps`, once sorted, count up without a gap from zero or from one.
pub open spec fn contiguous_steps(steps: Seq<u32>) -> bool {
    run_from(steps, 0) || run_from(steps, 1)
}

/// The completed steps of every completion form a gap-free run.
pub open spec fn state_consistency(before: StateModel, after: StateModel) -> bool {
    forall|i: int|
        0 <= i < after.workflow_completions.len() ==> contiguous_steps(
            #[trigger] after.workflow_completions[i].completed_steps,
        )
}

/// Whether the trust decision at `i` rests on unvalidated client input.
pub open spec fn unvalidated_client_input_at(state: StateModel, i: int) -> bool {
    &&& 0 <= i < state.trust_decisions.len()
    &&& state.trust_decisions[i].based_on_client_input
    &&& !state.trust_decisions[i].input_validated
}

/// No trust decision rests on unvalidated client input.
pub open spec fn client_input_trust(before: StateModel, after: StateModel) -> bool {
    forall|i: int| !#[trigger] unvalidated_client_input_at(after, i)
}

/// Whether a decision type names a security-critical decision.
pub open spec fn security_critical(decision_type: Seq<char>) -> bool {
    text_contains(decision_type, "security"@) || text_contains(decision_type, "auth"@)
        || text_contains(decision_type, "access"@)
}

/// Whether the trust decision at `i` is security-critical and unvalidated.
pub open spec fn unvalidated_critical_at(state: StateModel, i: int) -> bool {
    &&& 0 <= i < state.trust_decisions.len()
    &&& security_critical(state.trust_decisions[i].decision_type)
    &&& !state.trust_decisions[i].input_validated
}

/// Every security-critical trust decision has validated input.
pub open spec fn server_side_validation(before: StateModel, after: StateModel) -> bool {
    forall|i: int| !#[trigger] unvalidated_critical_at(after, i)
}

/// Whether the session of `state` may modify `object`: it owns it or is admin.
pub open spec fn may_modify(state: StateModel, object: Seq<char>) -> bool {
    &&& state.current_session is Some
    &&& ((state.ownership.contains_key(object) && state.ownership[object]
        == state.current_session->0.user_id) || has_role(state.current_session->0, "admin"@))
}

/// Modification authorization, for one object.
pub open spec fn modification_at(before: StateModel, after: StateModel, object: Seq<char>) -> bool {
    before.data_objects.contains_key(object) && before.data_objects[object]
        != after.data_objects[object] ==> may_modify(after, object)
}

/// A data object present in both states may change only under a session
/// that owns it or carries the role `admin`.
pub open spec fn modification_authorization(before: StateModel, after: StateModel) -> bool {
    forall|object: Seq<char>|
        after.data_objects.contains_key(object) ==> #[trigger] modification_at(before, after, object)
}

/// Version monotonicity, for one object.
pub open spec fn version_at(before: StateModel, after: StateModel, object: Seq<char>) -> bool {
    before.data_objects.contains_key(object) ==> after.data_objects[object].version
        >= before.data_objects[object].version
}

/// The version of a data object present in both states does not decrease.
pub open spec fn version_monotonicity(before: StateModel, after: StateModel) -> bool {
    forall|object: Seq<char>|
        after.data_objects.contains_key(object) ==> #[trigger] version_at(before, after, object)
}

/// A session that becomes authenticated gets a new identifier.
pub open spec fn fixation_prevention(before: StateModel, after: StateModel) -> bool {
    before.current_session is Some && after.current_session is Some
        && !before.current_session->0.authenticated && after.current_session->0.authenticated
        ==> before.current_session->0.session_id != after.current_session->0.session_id
}

/// A session identifier stays with its user.
pub open spec fn user_binding(before: StateModel, after: StateModel) -> bool {
    before.current_session is Some && after.current_session is Some
        && before.current_session->0.session_id == after.current_session->0.session_id
        ==> before.current_session->0.user_id == after.current_session->0.user_id
}

/// Input bounds, for one object.
pub open spec fn input_bounds_at(after: StateModel, object: Seq<char>) -> bool {
    byte_length(after.data_objects[object].content_hash) <= 128 && byte_length(
        after.data_objects[object].data_type,
    ) <= 256
}

/// No data object has a content hash over 128 bytes or a type over 256 bytes.
pub open spec fn input_bounds(before: StateModel, after: StateModel) -> bool {
    forall|object: Seq<char>|
        after.data_objects.contains_key(object) ==> #[trigger] input_bounds_at(after, object)
}

/// Whether a session carries the role named `role`.
pub fn session_has_role(session: &SessionState, role: &str) -> (held: bool)
    ensures
        held == has_role(session@, role@),
{
    session.roles.contains_text(role)
}

/// Checks `cross_user_access`.
pub fn check_cross_user_access(before: &ApplicationState, after: &ApplicationState) -> (holds: bool)
    ensures
        holds == cross_user_access(before@, after@),
{
    let n = after.ownership.len();
    let ghost keys = ordered_keys(after@.ownership.dom());
    let mut i: usize = 0;
    while i < n
        invariant
            i <= n,
            n == after@.ownership.len(),
            keys == ordered_keys(after@.ownership.dom()),
            lists(keys, after@.ownership.dom()),
            keys.len() == n,
            forall|j: int| 0 <= j < i ==> cross_user_access_at(before@, after@, #[trigger] keys[j]),
        decreases n - i,
    {
        let object = after.ownership.key_at(i);
        let owner = after.ownership.value_at(i);
        let permitted = match before.ownership.get(object) {
            None => true,
            Some(prior) => {
                if same_text(prior.0.as_str(), owner.0.as_str()) {
                    true
                } else {
                    match &after.current_session {
                        None => false,
                        Some(session) => same_text(session.user_id.0.as_str(), prior.0.as_str())
                            || session_has_role(session, "admin"),
                    }
                }
            },
        };
        assert(permitted == cross_user_access_at(before@, after@, keys[i as int]));
        if !permitted {
            return false;
        }
        i = i + 1;
    }
    true
}

/// Checks `horizontal_boundary`.
pub fn check_horizontal_boundary(before: &ApplicationState, after: &ApplicationState) -> (holds: bool)
    ensures
        holds == horizontal_boundary(before@, after@),
{
    let session = match &after.current_session {
        None => {
            return true;
        },
        Some(session) => session,
    };
    let privileged = session_has_role(session, "admin") || session_has_role(session, "moderator");
    let n = after.data_objects.len();
    let ghost keys = ordered_keys(after@.data_objects.dom());
    let mut i: usize = 0;
    while i < n
        invariant
            i <= n,
            n == after@.data_objects.len(),
            keys == ordered_keys(after@.data_objects.dom()),
            lists(keys, after@.data_objects.dom()),
            keys.len() == n,
            after.current_session == Some(*session),
            privileged == (has_role(session@, "admin"@) || has_role(session@, "moderator"@)),
            forall|j: int| 0 <= j < i ==> horizontal_boundary_at(before@, after@, #[trigger] keys[j]),
        decreases n - i,
    {
        let object = after.data_objects.key_at(i);
        let foreign = match after.ownership.get(object) {
            None => false,
            Some(owner) => !same_text(owner.0.as_str(), session.user_id.0.as_str()),
        };
        let permitted = !foreign || before.data_objects.contains_key(object) || privileged;
        assert(permitted == horizontal_boundary_at(before@, after@, keys[i as int]));
        if !permitted {
            return false;
        }
        i = i + 1;
    }
    true
}

/// Checks `vertical_boundary`.
pub fn check_vertical_boundary(before: &ApplicationState, after: &ApplicationState) -> (holds: bool)
    ensures
        holds == vertical_boundary(before@, after@),
{
    let admin = match &after.current_session {
        None => false,
        Some(session) => session_has_role(session, "admin"),
    };
    let mut i: usize = 0;
    while i < after.authorization_events.len()
        invariant
            i <= after.authorization_events@.len(),
            admin == admin_session(after@),
            forall|j: int| 0 <= j < i ==> !#[trigger] admin_action_at(after@, j),
        decreases after.authorization_events@.len() - i,
    {
        if same_text(after.authorization_events[i].event_type.as_str(), "admin_action") {
            assert(admin_action_at(after@, i as int));
            return admin;
        }
        i = i + 1;
    }
    true
}

/// Checks `non_negative_balance`.
pub fn check_non_negative_balance(before: &ApplicationState, after: &ApplicationState) -> (holds: bool)
    ensures
        holds == non_negative_balance(before@, after@),
{
    let n = after.balances.len();
    let ghost keys = ordered_keys(after@.balances.dom());
    let mut i: usize = 0;
    while i < n
        invariant
            i <= n,
            n == after@.balances.len(),
            keys == ordered_keys(after@.balances.dom()),
            lists(keys, after@.balances.dom()),
            keys.len() == n,
            forall|j: int| 0 <= j < i ==> non_negative_at(after@, #[trigger] keys[j]),
        decreases n - i,
    {
        let account = after.balances.key_at(i);
        let balance = after.balances.value_at(i);
        if balance.amount < 0 && !after.overdraft_permissions.contains(account) {
            assert(!non_negative_at(after@, keys[i as int]));
            return false;
        }
        i = i + 1;
    }
    true
}

/// Checks `step_ordering`.
pub fn check_step_ordering(before: &ApplicationState, after: &ApplicationState) -> (holds: bool)
    ensures
        holds == step_ordering(before@, after@),
{
    let n = after.workflow_positions.len();
    let ghost keys = ordered_keys(after@.workflow_positions.dom());
    let mut i: usize = 0;
    while i < n
        invariant
            i <= n,
            n == after@.workflow_positions.len(),
            keys == ordered_keys(after@.workflow_positions.dom()),
            lists(keys, after@.workflow_positions.dom()),
            keys.len() == n,
            forall|j: int| 0 <= j < i ==> step_ordering_at(before@, after@, #[trigger] keys[j]),
        decreases n - i,
    {
        let session = after.workflow_positions.key_at(i);
        let step = after.workflow_positions.value_at(i);
        let in_order = match before.workflow_positions.get(session) {
            Some(prior) => step.step_index as u64 <= prior.step_index as u64 + 1,
            None => step.step_index <= 1,
        };
        assert(in_order == step_ordering_at(before@, after@, keys[i as int]));
        if !in_order {
            return false;
        }
        i = i + 1;
    }
    true
}

/// Checks `completion_requirement`.
pub fn check_completion_requirement(before: &ApplicationState, after: &ApplicationState) -> (holds:
    bool)
    ensures
        holds == completion_requirement(before@, after@),
{
    let mut i: usize = 0;
    while i < after.workflow_completions.len()
        invariant
            i <= after.workflow_completions@.len(),
            forall|j: int| 0 <= j < i ==> !#[trigger] incomplete_critical_at(after@, j),
        decreases after.workflow_completions@.len() - i,
    {
        let completion = &after.workflow_completions[i];
        if completion.is_critical && !completion.all_steps_completed {
            assert(incomplete_critical_at(after@, i as int));
            return false;
        }
        i = i + 1;
    }
    true
}

/// Checks `client_input_trust`.
pub fn check_client_input_trust(before: &ApplicationState, after: &ApplicationState) -> (holds: bool)
    ensures
        holds == client_input_trust(before@, after@),
{
    let mut i: usize = 0;
    while i < after.trust_decisions.len()
        invariant
            i <= after.trust_decisions@.len(),
            forall|j: int| 0 <= j < i ==> !#[trigger] unvalidated_client_input_at(after@, j),
        decreases after.trust_decisions@.len() - i,
    {
        let decision = &after.trust_decisions[i];
        if decision.based_on_client_input && !decision.input_validated {
            assert(unvalidated_client_input_at(after@, i as int));
            return false;
        }
        i = i + 1;
    }
    true
}

/// Checks `modification_authorization`.
pub fn check_modification_authorization(before: &ApplicationState, after: &ApplicationState) -> (holds:
    bool)
    ensures
        holds == modification_authorization(before@, after@),
{
    let n = after.data_objects.len();
    let ghost keys = ordered_keys(after@.data_objects.dom());
    let mut i: usize = 0;
    while i < n
        invariant
            i <= n,
            n == after@.data_objects.len(),
            keys == ordered_keys(after@.data_objects.dom()),
            lists(keys, after@.data_objects.dom()),
            keys.len() == n,
            forall|j: int| 0 <= j < i ==> modification_at(before@, after@, #[trigger] keys[j]),
        decreases n - i,
    {
        let object = after.data_objects.key_at(i);
        let data = after.data_objects.value_at(i);
        let changed = match before.data_objects.get(object) {
            None => false,
            Some(prior) => !prior.same_as(data),
        };
        let permitted = !changed || match &after.current_session {
            None => false,
            Some(session) => {
                let owns = match after.ownership.get(object) {
                    None => false,
                    Some(owner) => same_text(owner.0.as_str(), session.user_id.0.as_str()),
                };
                owns || session_has_role(session, "admin")
            },
        };
        assert(permitted == modification_at(before@, after@, keys[i as int]));
        if !permitted {
            return false;
        }
        i = i + 1;
    }
    true
}

/// Checks `version_monotonicity`.
pub fn check_version_monotonicity(before: &ApplicationState, after: &ApplicationState) -> (holds: bool)
    ensures
        holds == version_monotonicity(before@, after@),
{
    let n = after.data_objects.len();
    let ghost keys = ordered_keys(after@.data_objects.dom());
    let mut i: usize = 0;
    while i < n
        invariant
            i <= n,
            n == after@.data_objects.len(),
            keys == ordered_keys(after@.data_objects.dom()),
            lists(keys, after@.data_objects.dom()),
            keys.len() == n,
            forall|j: int| 0 <= j < i ==> version_at(before@, after@, #[trigger] keys[j]),
        decreases n - i,
    {
        let object = after.data_objects.key_at(i);
        let data = after.data_objects.value_at(i);
        let regressed = match before.data_objects.get(object) {
            None => false,
            Some(prior) => data.version < prior.version,
        };
        assert(regressed == !version_at(before@, after@, keys[i as int]));
        if regressed {
            return false;
        }
        i = i + 1;
    }
    true
}

/// Checks `fixation_prevention`.
pub fn check_fixation_prevention(before: &ApplicationState, after: &ApplicationState) -> (holds: bool)
    ensures
        holds == fixation_prevention(before@, after@),
{
    match (&before.current_session, &after.current_session) {
        (Some(prior), Some(current)) => {
            if !prior.authenticated && current.authenticated {
                !same_text(prior.session_id.0.as_str(), current.session_id.0.as_str())
            } else {
                true
            }
        },
        _ => true,
    }
}

/// Checks `user_binding`.
pub fn check_user_binding(before: &ApplicationState, after: &ApplicationState) -> (holds: bool)
    ensures
        holds == user_binding(before@, after@),
{
    match (&before.current_session, &after.current_session) {
        (Some(prior), Some(current)) => {
            if same_text(prior.session_id.0.as_str(), current.session_id.0.as_str()) {
                same_text(prior.user_id.0.as_str(), current.user_id.0.as_str())
            } else {
                true
            }
        },
        _ => true,
    }
}

/// Checks `input_bounds`.
pub fn check_input_bounds(before: &ApplicationState, after: &ApplicationState) -> (holds: bool)
    ensures
        holds == input_bounds(before@, after@),
{
    let n = after.data_objects.len();
    let ghost keys = ordered_keys(after@.data_objects.dom());
    let mut i: usize = 0;
    while i < n
        invariant
            i <= n,
            n == after@.data_objects.len(),
            keys == ordered_keys(after@.data_objects.dom()),
            lists(keys, after@.data_objects.dom()),
            keys.len() == n,
            forall|j: int| 0 <= j < i ==> input_bounds_at(after@, #[trigger] keys[j]),
        decreases n - i,
    {
        let data = after.data_objects.value_at(i);
        let hash = data.content_hash.as_str().as_bytes();
        let kind = data.data_type.as_str().as_bytes();
        let bounded = hash.len() <= 128 && kind.len() <= 256;
        assert(bounded == input_bounds_at(after@, keys[i as int]));
        if !bounded {
            return false;
        }
        i = i + 1;
    }
    true
}

/// Whether every member of `inner` is a member of `outer`.
pub fn is_subset(inner: &SortedSet<Role>, outer: &SortedSet<Role>) -> (contained: bool)
    ensures
        contained == inner@.subset_of(outer@),
{
    let n = inner.len();
    let ghost keys = ordered_keys(inner@);
    let mut i: usize = 0;
    while i < n
        invariant
            i <= n,
            n == inner@.len(),
            keys == ordered_keys(inner@),
            lists(keys, inner@),
            keys.len() == n,
            forall|j: int| 0 <= j < i ==> outer@.contains(#[trigger] keys[j]),
        decreases n - i,
    {
        let role = inner.member_at(i);
        if !outer.contains(role) {
            return false;
        }
        i = i + 1;
    }
    true
}

/// Whether some authorization event of `state` grants `role`.
pub fn grants_role(state: &ApplicationState, role: &Role) -> (granted: bool)
    ensures
        granted == role_granted(state@, role@),
{
    let mut i: usize = 0;
    while i < state.authorization_events.len()
        invariant
            i <= state.authorization_events@.len(),
            forall|j: int| 0 <= j < i ==> !#[trigger] grants_at(state@, role@, j),
        decreases state.authorization_events@.len() - i,
    {
        let event = &state.authorization_events[i];
        if same_text(event.event_type.as_str(), "role_grant") {
            match &event.target_role {
                Some(target) => {
                    if same_text(target.0.as_str(), role.0.as_str()) {
                        assert(grants_at(state@, role@, i as int));
                        return true;
                    }
                },
                None => {},
            }
        }
        i = i + 1;
    }
    false
}

/// Checks `privilege_escalation`.
pub fn check_privilege_escalation(before: &ApplicationState, after: &ApplicationState) -> (holds: bool)
    ensures
        holds == privilege_escalation(before@, after@),
{
    let (prior, current) = match (&before.current_session, &after.current_session) {
        (Some(prior), Some(current)) => (prior, current),
        _ => {
            return true;
        },
    };
    if !is_subset(&prior.roles, &current.roles) {
        return true;
    }
    let held = prior.roles.len();
    let n = current.roles.len();
    if held == n {
        proof {
            vstd::set_lib::lemma_subset_equality(prior@.roles, current@.roles);
        }
        return true;
    }
    let ghost keys = ordered_keys(current@.roles);
    let mut i: usize = 0;
    while i < n
        invariant
            i <= n,
            n == current@.roles.len(),
            keys == ordered_keys(current@.roles),
            lists(keys, current@.roles),
            keys.len() == n,
            before.current_session == Some(*prior),
            after.current_session == Some(*current),
            roles_grew(prior@, current@),
            forall|j: int|
                0 <= j < i && !prior@.roles.contains(#[trigger] keys[j]) ==> role_granted(
                    after@,
                    keys[j],
                ),
        decreases n - i,
    {
        let role = current.roles.member_at(i);
        if !prior.roles.contains(role) && !grants_role(after, role) {
            return false;
        }
        i = i + 1;
    }
    true
}

/// The largest magnitude that a sum of `count` amounts can reach.
pub open spec fn sum_bound(count: int) -> int {
    count * 0x8000_0000_0000_0000
}

/// The sum of all balances of a mapping.
pub fn sum_balances(balances: &SortedMap<AccountId, Balance>) -> (total: i128)
    ensures
        total == total_balance(balances@),
        -sum_bound(balances@.len() as int) <= total <= sum_bound(balances@.len() as int),
{
    let n = balances.len();
    let ghost keys = ordered_keys(balances@.dom());
    let mut total: i128 = 0;
    let mut i: usize = 0;
    while i < n
        invariant
            i <= n,
            n == balances@.len(),
            keys == ordered_keys(balances@.dom()),
            keys.len() == n,
            total == sum_amounts(keys.take(i as int), balances@),
            -sum_bound(i as int) <= total <= sum_bound(i as int),
        decreases n - i,
    {
        let balance = balances.value_at(i);
        proof {
            assert(keys.take(i + 1).drop_last() =~= keys.take(i as int));
        }
        total = total + balance.amount as i128;
        i = i + 1;
    }
    assert(keys.take(n as int) =~= keys);
    total
}

/// The sum of the amounts of the external transactions.
pub fn sum_external(transactions: &Vec<FinancialTransaction>) -> (total: i128)
    ensures
        total == external_total(views(transactions@)),
        -sum_bound(transactions@.len() as int) <= total <= sum_bound(transactions@.len() as int),
{
    let ghost models = views(transactions@);
    let mut total: i128 = 0;
    let mut i: usize = 0;
    while i < transactions.len()
        invariant
            i <= transactions@.len(),
            models == views(transactions@),
            total == external_total(models.take(i as int)),
            -sum_bound(i as int) <= total <= sum_bound(i as int),
        decreases transactions@.len() - i,
    {
        let transaction = &transactions[i];
        proof {
            assert(models.take(i + 1).drop_last() =~= models.take(i as int));
        }
        if transaction.is_external {
            total = total + transaction.amount as i128;
        }
        i = i + 1;
    }
    assert(models.take(transactions@.len() as int) =~= models);
    total
}

/// Checks `balance_conservation`.
pub fn check_balance_conservation(before: &ApplicationState, after: &ApplicationState) -> (holds: bool)
    ensures
        holds == balance_conservation(before@, after@),
{
    let total_before = sum_balances(&before.balances);
    let total_after = sum_balances(&after.balances);
    let external = sum_external(&after.financial_transactions);
    match total_before.checked_add(external) {
        Some(expected) => total_after == expected,
        None => false,
    }
}

/// The sum of the amounts of the transactions drawn from `account`.
pub fn sum_debits(transactions: &Vec<FinancialTransaction>, account: &AccountId) -> (total: i128)
    ensures
        total == debits(views(transactions@), account@),
        -sum_bound(transactions@.len() as int) <= total <= sum_bound(transactions@.len() as int),
{
    let ghost models = views(transactions@);
    let mut total: i128 = 0;
    let mut i: usize = 0;
    while i < transactions.len()
        invariant
            i <= transactions@.len(),
            models == views(transactions@),
            total == debits(models.take(i as int), account@),
            -sum_bound(i as int) <= total <= sum_bound(i as int),
        decreases transactions@.len() - i,
    {
        let transaction = &transactions[i];
        proof {
            assert(models.take(i + 1).drop_last() =~= models.take(i as int));
        }
        let drawn = match &transaction.from_account {
            Some(from) => same_text(from.0.as_str(), account.0.as_str()),
            None => false,
        };
        if drawn {
            total = total + transaction.amount as i128;
        }
        i = i + 1;
    }
    assert(models.take(transactions@.len() as int) =~= models);
    total
}

/// The amount an account holds, zero where the account is unknown.
pub fn account_amount(balances: &SortedMap<AccountId, Balance>, account: &AccountId) -> (amount: i64)
    ensures
        amount == amount_of(balances@, account@),
{
    match balances.get(account) {
        Some(balance) => balance.amount,
        None => 0,
    }
}

/// The magnitude of the change of an account's amount between two states.
pub fn delta_magnitude(before: &ApplicationState, after: &ApplicationState, account: &AccountId) -> (size:
    i128)
    ensures
        size == magnitude(delta(before@, after@, account@)),
{
    let change: i128 = account_amount(&after.balances, account) as i128 - account_amount(
        &before.balances,
        account,
    ) as i128;
    if change < 0 {
        -change
    } else {
        change
    }
}

/// Checks `transaction_atomicity`.
pub fn check_transaction_atomicity(before: &ApplicationState, after: &ApplicationState) -> (holds:
    bool)
    ensures
        holds == transaction_atomicity(before@, after@),
{
    let mut i: usize = 0;
    while i < after.financial_transactions.len()
        invariant
            i <= after.financial_transactions@.len(),
            forall|j: int| 0 <= j < i ==> #[trigger] atomic_at(before@, after@, j),
        decreases after.financial_transactions@.len() - i,
    {
        let transaction = &after.financial_transactions[i];
        if !transaction.is_external {
            match (&transaction.from_account, &transaction.to_account) {
                (Some(from), Some(to)) => {
                    if delta_magnitude(before, after, from) != delta_magnitude(before, after, to) {
                        assert(!atomic_at(before@, after@, i as int));
                        return false;
                    }
                },
                _ => {},
            }
        }
        i = i + 1;
    }
    true
}

/// Checks `double_spend`.
pub fn check_double_spend(before: &ApplicationState, after: &ApplicationState) -> (holds: bool)
    ensures
        holds == double_spend(before@, after@),
{
    let n = after.balances.len();
    let ghost keys = ordered_keys(after@.balances.dom());
    let mut i: usize = 0;
    while i < n
        invariant
            i <= n,
            n == after@.balances.len(),
            keys == ordered_keys(after@.balances.dom()),
            lists(keys, after@.balances.dom()),
            keys.len() == n,
            forall|j: int| 0 <= j < i ==> double_spend_at(before@, after@, #[trigger] keys[j]),
        decreases n - i,
    {
        let account = after.balances.key_at(i);
        let balance = after.balances.value_at(i);
        let covered = match before.balances.get(account) {
            None => true,
            Some(prior) => {
                let drawn = sum_debits(&after.financial_transactions, account);
                assert(after.financial_transactions@.len() == after.financial_transactions.len());
                let floor: i128 = prior.amount as i128 - drawn;
                balance.amount as i128 >= floor
            },
        };
        assert(covered == double_spend_at(before@, after@, keys[i as int]));
        if !covered {
            return false;
        }
        i = i + 1;
    }
    true
}

/// Whether `steps` are the numbers `start`, `start + 1`, ... in some order.
pub fn is_run_from(steps: &Vec<u32>, start: u32) -> (run: bool)
    ensures
        run == run_from(steps@, start as int),
{
    let n = steps.len();
    let mut i: usize = 0;
    while i < n
        invariant
            i <= n,
            n == steps@.len(),
            forall|j: int| 0 <= j < i ==> start <= #[trigger] steps@[j] < start + n,
            forall|j: int, k: int| 0 <= j < k < i ==> steps@[j] != steps@[k],
        decreases n - i,
    {
        let step = steps[i];
        if step < start || (step - start) as u64 >= n as u64 {
            return false;
        }
        let mut k: usize = 0;
        while k < i
            invariant
                k <= i,
                i < n,
                n == steps@.len(),
                step == steps@[i as int],
                forall|j: int| 0 <= j < k ==> steps@[j] != step,
            decreases i - k,
        {
            if steps[k] == step {
                return false;
            }
            k = k + 1;
        }
        i = i + 1;
    }
    true
}

/// Checks `state_consistency`.
pub fn check_state_consistency(before: &ApplicationState, after: &ApplicationState) -> (holds: bool)
    ensures
        holds == state_consistency(before@, after@),
{
    let mut i: usize = 0;
    while i < after.workflow_completions.len()
        invariant
            i <= after.workflow_completions@.len(),
            forall|j: int|
                0 <= j < i ==> contiguous_steps(
                    #[trigger] after@.workflow_completions[j].completed_steps,
                ),
        decreases after.workflow_completions@.len() - i,
    {
        let steps = &after.workflow_completions[i].completed_steps;
        assert(after@.workflow_completions[i as int].completed_steps == steps@);
        if !is_run_from(steps, 0) && !is_run_from(steps, 1) {
            return false;
        }
        i = i + 1;
    }
    true
}

/// Whether `needle` stands in `hay` at position `at`.
pub fn matches_at(hay: &[u8], needle: &[u8], at: usize) -> (found: bool)
    requires
        at + needle@.len() <= hay@.len(),
    ensures
        found == occurs_at(needle@, hay@, at as int),
{
    let total: usize = hay.len();
    let mut k: usize = 0;
    while k < needle.len()
        invariant
            k <= needle@.len(),
            at + needle@.len() <= hay@.len(),
            hay@.len() == total,
            forall|j: int| 0 <= j < k ==> hay@[at + j] == needle@[j],
        decreases needle@.len() - k,
    {
        if hay[at + k] != needle[k] {
            return false;
        }
        k = k + 1;
    }
    assert(hay@.subrange(at as int, at + needle@.len()) =~= needle@);
    true
}

/// Whether `needle` occurs in `hay`.
pub fn bytes_contain(hay: &[u8], needle: &[u8]) -> (found: bool)
    ensures
        found == bytes_occur(needle@, hay@),
{
    if needle.len() > hay.len() {
        return false;
    }
    let last: usize = hay.len() - needle.len();
    let mut at: usize = 0;
    while at < last
        invariant
            at <= last,
            last == hay@.len() - needle@.len(),
            forall|j: int| 0 <= j < at ==> !#[trigger] occurs_at(needle@, hay@, j),
        decreases last - at,
    {
        if matches_at(hay, needle, at) {
            return true;
        }
        at = at + 1;
    }
    matches_at(hay, needle, last)
}

/// Whether the text `hay` contains the text `needle`.
pub fn text_has(hay: &str, needle: &str) -> (found: bool)
    ensures
        found == text_contains(hay@, needle@),
{
    bytes_contain(hay.as_bytes(), needle.as_bytes())
}

/// Checks `server_side_validation`.
pub fn check_server_side_validation(before: &ApplicationState, after: &ApplicationState) -> (holds:
    bool)
    ensures
        holds == server_side_validation(before@, after@),
{
    let mut i: usize = 0;
    while i < after.trust_decisions.len()
        invariant
            i <= after.trust_decisions@.len(),
            forall|j: int| 0 <= j < i ==> !#[trigger] unvalidated_critical_at(after@, j),
        decreases after.trust_decisions@.len() - i,
    {
        let decision = &after.trust_decisions[i];
        let kind = decision.decision_type.as_str();
        let critical = text_has(kind, "security") || text_has(kind, "auth") || text_has(
            kind,
            "access",
        );
        if critical && !decision.input_validated {
            assert(unvalidated_critical_at(after@, i as int));
            return false;
        }
        i = i + 1;
    }
    true
}

} // verus!
