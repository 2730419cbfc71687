//! The causal engine: finds what changed between two states and attributes
//! the changes to the action that triggered the transition.

use std::sync::Arc;
use vstd::prelude::*;
use vstd::string::StringExecFns;
use crate::collections::{
    duplicate_all, ordered_keys, view_of, views, Duplicate,
};
use crate::state::{
    Action, ActionModel, ActionType, ActionTypeModel, ApplicationState, StateModel,
    StateTransition,
};
use crate::text::same_text;
use crate::types::{
    Confidence, JsonValue, JsonValueModel, Timestamp, CONFIDENCE_SCALE,
};

verus! {

/// Types of state changes.
#[derive(Debug, PartialEq, Eq)]
pub enum StateChangeType {
    OwnershipChange,
    BalanceChange,
    RoleChange,
    WorkflowAdvance,
    DataModification,
    SessionChange,
    Custom(String),
}

/// What a `StateChangeType` stands for.
pub ghost enum ChangeTypeModel {
    OwnershipChange,
    BalanceChange,
    RoleChange,
    WorkflowAdvance,
    DataModification,
    SessionChange,
    Custom(Seq<char>),
}

impl View for StateChangeType {
    type V = ChangeTypeModel;

    open spec fn view(&self) -> ChangeTypeModel {
        match self {
            StateChangeType::OwnershipChange => ChangeTypeModel::OwnershipChange,
            StateChangeType::BalanceChange => ChangeTypeModel::BalanceChange,
            StateChangeType::RoleChange => ChangeTypeModel::RoleChange,
            StateChangeType::WorkflowAdvance => ChangeTypeModel::WorkflowAdvance,
            StateChangeType::DataModification => ChangeTypeModel::DataModification,
            StateChangeType::SessionChange => ChangeTypeModel::SessionChange,
            StateChangeType::Custom(name) => ChangeTypeModel::Custom(name@),
        }
    }
}

impl Clone for StateChangeType {
    fn clone(&self) -> (copy: Self)
        ensures
            copy@ == self@,
    {
        match self {
            StateChangeType::OwnershipChange => StateChangeType::OwnershipChange,
            StateChangeType::BalanceChange => StateChangeType::BalanceChange,
            StateChangeType::RoleChange => StateChangeType::RoleChange,
            StateChangeType::WorkflowAdvance => StateChangeType::WorkflowAdvance,
            StateChangeType::DataModification => StateChangeType::DataModification,
            StateChangeType::SessionChange => StateChangeType::SessionChange,
            StateChangeType::Custom(name) => StateChangeType::Custom(name.clone()),
        }
    }
}

/// Description of a state change.
#[derive(Debug)]
pub struct StateChange {
    pub change_type: StateChangeType,
    pub field: String,
    pub old_value: Option<JsonValue>,
    pub new_value: Option<JsonValue>,
}

/// What a `StateChange` stands for.
pub ghost struct ChangeModel {
    pub change_type: ChangeTypeModel,
    pub field: Seq<char>,
    pub old_value: Option<JsonValueModel>,
    pub new_value: Option<JsonValueModel>,
}

impl View for StateChange {
    type V = ChangeModel;

    open spec fn view(&self) -> ChangeModel {
        ChangeModel {
            change_type: self.change_type@,
            field: self.field@,
            old_value: view_of(self.old_value),
            new_value: view_of(self.new_value),
        }
    }
}

impl Clone for StateChange {
    fn clone(&self) -> (copy: Self)
        ensures
            copy@ == self@,
    {
        let old_value = match &self.old_value {
            Some(v) => Some(v.clone()),
            None => None,
        };
        let new_value = match &self.new_value {
            Some(v) => Some(v.clone()),
            None => None,
        };
        StateChange {
            change_type: self.change_type.clone(),
            field: self.field.clone(),
            old_value,
            new_value,
        }
    }
}

impl Duplicate for StateChange {
    fn duplicate(&self) -> (copy: Self) {
        self.clone()
    }
}

/// A link in the causal chain.
#[derive(Debug)]
pub struct CausalLink {
    pub action: Action,
    pub state_changes: Vec<StateChange>,
    pub confidence: Confidence,
    pub timestamp: Timestamp,
}

/// What a `CausalLink` stands for; the confidence is in millionths.
pub ghost struct LinkModel {
    pub action: ActionModel,
    pub state_changes: Seq<ChangeModel>,
    pub confidence: nat,
    pub timestamp: Timestamp,
}

impl View for CausalLink {
    type V = LinkModel;

    open spec fn view(&self) -> LinkModel {
        LinkModel {
            action: self.action@,
            state_changes: views(self.state_changes@),
            confidence: self.confidence@,
            timestamp: self.timestamp,
        }
    }
}

impl Clone for CausalLink {
    fn clone(&self) -> (copy: Self)
        ensures
            copy@ == self@,
    {
        CausalLink {
            action: self.action.clone(),
            state_changes: duplicate_all(&self.state_changes),
            confidence: self.confidence,
            timestamp: self.timestamp,
        }
    }
}

impl Duplicate for CausalLink {
    fn duplicate(&self) -> (copy: Self) {
        self.clone()
    }
}

/// Complete causal chain from action to effect.
#[derive(Debug)]
pub struct CausalChain {
    pub links: Vec<CausalLink>,
    pub root_action: Option<Action>,
    pub final_effect: Option<StateChange>,
    pub is_complete: bool,
    pub confidence: Confidence,
}

/// What a `CausalChain` stands for; the confidence is in millionths.
pub ghost struct ChainModel {
    pub links: Seq<LinkModel>,
    pub root_action: Option<ActionModel>,
    pub final_effect: Option<ChangeModel>,
    pub is_complete: bool,
    pub confidence: nat,
}

impl ChainModel {
    /// The chain without links.
    pub open spec fn empty() -> ChainModel {
        ChainModel {
            links: Seq::empty(),
            root_action: None,
            final_effect: None,
            is_complete: false,
            confidence: 0,
        }
    }

    /// Whether the chain is marked complete and has a root action and a
    /// final effect.
    pub open spec fn complete(self) -> bool {
        self.is_complete && self.root_action is Some && self.final_effect is Some
    }

    /// The chain with one more link: the first link gives the root action,
    /// the last change of a link the final effect, and the confidence is the
    /// product of the confidences of the links.
    pub open spec fn with_link(self, link: LinkModel) -> ChainModel {
        ChainModel {
            links: self.links.push(link),
            root_action: if self.links.len() == 0 {
                Some(link.action)
            } else {
                self.root_action
            },
            final_effect: if link.state_changes.len() > 0 {
                Some(link.state_changes.last())
            } else {
                self.final_effect
            },
            is_complete: self.is_complete,
            confidence: chain_confidence(self.links.push(link)),
        }
    }

    /// The chain marked complete where it has a link, a root action and a
    /// final effect.
    pub open spec fn marked(self) -> ChainModel {
        ChainModel {
            is_complete: self.links.len() > 0 && self.root_action is Some
                && self.final_effect is Some,
            ..self
        }
    }
}

/// The product of the confidences of the links, in millionths, each product
/// rounded down; one for no link.
pub open spec fn product_of(links: Seq<LinkModel>) -> nat
    decreases links.len(),
{
    if links.len() == 0 {
        CONFIDENCE_SCALE as nat
    } else {
        product_of(links.drop_last()) * links.last().confidence / (CONFIDENCE_SCALE as nat)
    }
}

/// The confidence of a chain: the product of the confidences of its links,
/// zero for no link.
pub open spec fn chain_confidence(links: Seq<LinkModel>) -> nat {
    if links.len() == 0 {
        0
    } else {
        product_of(links)
    }
}

/// Causal bounds: where the confidence of every link is at most one, so is
/// the confidence of the chain, and it is at most that of every link.
pub proof fn lemma_confidence_bounded(links: Seq<LinkModel>)
    requires
        forall|i: int| 0 <= i < links.len() ==> (#[trigger] links[i]).confidence <= CONFIDENCE_SCALE,
    ensures
        product_of(links) <= CONFIDENCE_SCALE,
        chain_confidence(links) <= CONFIDENCE_SCALE,
        forall|i: int| 0 <= i < links.len() ==> chain_confidence(links) <= (#[trigger] links[i]).confidence,
    decreases links.len(),
{
    if links.len() > 0 {
        let rest = links.drop_last();
        let last = links.last().confidence;
        let earlier = product_of(rest);
        lemma_confidence_bounded(rest);
        assert(earlier * last / 1_000_000 <= earlier && earlier * last / 1_000_000 <= last)
            by (nonlinear_arith)
            requires
                earlier <= 1_000_000,
                last <= 1_000_000,
        ;
        assert forall|i: int| 0 <= i < links.len() implies chain_confidence(links) <= (
        #[trigger] links[i]).confidence by {
            if i < rest.len() {
                assert(rest[i] == links[i]);
            }
        }
    }
}

impl View for CausalChain {
    type V = ChainModel;

    open spec fn view(&self) -> ChainModel {
        ChainModel {
            links: views(self.links@),
            root_action: view_of(self.root_action),
            final_effect: view_of(self.final_effect),
            is_complete: self.is_complete,
            confidence: self.confidence@,
        }
    }
}

impl CausalChain {
    /// A chain without links.
    pub fn new() -> (chain: Self)
        ensures
            chain@ == ChainModel::empty(),
    {
        let chain = Self {
            links: Vec::new(),
            root_action: None,
            final_effect: None,
            is_complete: false,
            confidence: Confidence::none(),
        };
        assert(chain@.links =~= Seq::<LinkModel>::empty());
        chain
    }

    /// Whether the chain is marked complete and has a root action and a
    /// final effect.
    pub fn is_complete(&self) -> (complete: bool)
        ensures
            complete == self@.complete(),
    {
        self.is_complete && self.root_action.is_some() && self.final_effect.is_some()
    }

    /// Adds a link to the chain.
    pub fn add_link(&mut self, link: CausalLink)
        ensures
            final(self)@ == old(self)@.with_link(link@),
            final(self)@.confidence <= CONFIDENCE_SCALE,
    {
        if self.links.len() == 0 {
            self.root_action = Some(link.action.clone());
        }
        if link.state_changes.len() > 0 {
            let last = &link.state_changes[link.state_changes.len() - 1];
            self.final_effect = Some(last.clone());
        }
        let ghost model = link@;
        self.links.push(link);
        assert(views(self.links@) =~= views(old(self).links@).push(model));
        self.update_confidence();
    }

    /// Sets the confidence of the chain to the product of the confidences
    /// of its links.
    fn update_confidence(&mut self)
        ensures
            final(self)@ == (ChainModel { confidence: chain_confidence(old(self)@.links), ..old(self)@ }),
            final(self)@.confidence <= CONFIDENCE_SCALE,
    {
        if self.links.len() == 0 {
            self.confidence = Confidence::none();
            return ;
        }
        let ghost links = views(self.links@);
        let mut product = Confidence::certain();
        let mut i: usize = 0;
        while i < self.links.len()
            invariant
                i <= self.links@.len(),
                links == views(self.links@),
                product@ == product_of(links.take(i as int)),
                product@ <= CONFIDENCE_SCALE,
                *self == *old(self),
            decreases self.links@.len() - i,
        {
            proof {
                assert(links.take(i + 1).drop_last() =~= links.take(i as int));
            }
            product = product.combine(&self.links[i].confidence);
            i = i + 1;
        }
        assert(links.take(self.links@.len() as int) =~= links);
        self.confidence = product;
    }

    /// Marks the chain complete where it has a link, a root action and a
    /// final effect.
    pub fn complete(&mut self)
        ensures
            final(self)@ == old(self)@.marked(),
    {
        self.is_complete = self.links.len() > 0 && self.root_action.is_some()
            && self.final_effect.is_some();
    }

    /// The number of links.
    pub fn len(&self) -> (n: usize)
        ensures
            n == self@.links.len(),
    {
        self.links.len()
    }

    /// Whether the chain has no link.
    pub fn is_empty(&self) -> (empty: bool)
        ensures
            empty == (self@.links.len() == 0),
    {
        self.links.len() == 0
    }
}

impl Default for CausalChain {
    fn default() -> (chain: Self)
        ensures
            chain@ == ChainModel::empty(),
    {
        CausalChain::new()
    }
}

/// A way of pairing actions with changes, supplied by a caller of the
/// library. It answers `true` where the action may have caused the change.
pub trait ChangeMatcher: Send + Sync {
    /// Whether the matcher pairs an action with a change.
    spec fn matches(&self, action: ActionModel, change: ChangeModel) -> bool;

    /// Whether the matcher pairs an action with a change.
    fn check(&self, action: &Action, change: &StateChange) -> (matched: bool)
        ensures
            matched == self.matches(action@, change@),
    ;
}

/// A matcher that gives the same answer for every action and change.
#[derive(Debug, Clone, Copy, PartialEq, Eq, Structural)]
pub struct ConstantMatcher {
    pub verdict: bool,
}

impl ChangeMatcher for ConstantMatcher {
    open spec fn matches(&self, action: ActionModel, change: ChangeModel) -> bool {
        self.verdict
    }

    fn check(&self, action: &Action, change: &StateChange) -> (matched: bool) {
        self.verdict
    }
}

/// A caller's matcher, shared by reference.
pub struct CustomMatcher {
    pub matcher: Arc<dyn ChangeMatcher>,
}

impl CustomMatcher {
    /// Whether the matcher pairs an action with a change.
    pub open spec fn matches(&self, action: ActionModel, change: ChangeModel) -> bool {
        self.matcher.matches(action, change)
    }

    /// Whether the matcher pairs an action with a change.
    pub fn check(&self, action: &Action, change: &StateChange) -> (matched: bool)
        ensures
            matched == self.matches(action@, change@),
    {
        self.matcher.check(action, change)
    }
}

/// What an attribution rule matches.
pub enum RuleMatcher {
    /// Any change, where the action carries a request
    AnyChangeOfRequest,
    /// A session change under an authentication action
    SessionChangeOfAuthentication,
    /// A balance change under a payment action
    BalanceChangeOfPayment,
    /// What a caller's matcher pairs
    Custom(CustomMatcher),
}

impl RuleMatcher {
    /// Whether the matcher pairs an action with a change.
    pub open spec fn matches(&self, action: ActionModel, change: ChangeModel) -> bool {
        match self {
            RuleMatcher::AnyChangeOfRequest => action.request is Some,
            RuleMatcher::SessionChangeOfAuthentication => action.action_type
                == ActionTypeModel::Authentication && change.change_type
                == ChangeTypeModel::SessionChange,
            RuleMatcher::BalanceChangeOfPayment => action.action_type == ActionTypeModel::Payment
                && change.change_type == ChangeTypeModel::BalanceChange,
            RuleMatcher::Custom(matcher) => matcher.matches(action, change),
        }
    }

    /// Whether the matcher pairs an action with a change.
    pub fn check(&self, action: &Action, change: &StateChange) -> (matched: bool)
        ensures
            matched == self.matches(action@, change@),
    {
        match self {
            RuleMatcher::AnyChangeOfRequest => action.request.is_some(),
            RuleMatcher::SessionChangeOfAuthentication => {
                let authentication = match &action.action_type {
                    ActionType::Authentication => true,
                    _ => false,
                };
                let session = match &change.change_type {
                    StateChangeType::SessionChange => true,
                    _ => false,
                };
                authentication && session
            },
            RuleMatcher::BalanceChangeOfPayment => {
                let payment = match &action.action_type {
                    ActionType::Payment => true,
                    _ => false,
                };
                let balance = match &change.change_type {
                    StateChangeType::BalanceChange => true,
                    _ => false,
                };
                payment && balance
            },
            RuleMatcher::Custom(matcher) => matcher.check(action, change),
        }
    }
}

/// Rule for attributing state changes to actions.
pub struct AttributionRule {
    pub name: String,
    pub matcher: RuleMatcher,
    pub confidence: Confidence,
}

/// What an `AttributionRule` stands for; the confidence is in millionths.
pub ghost struct RuleModel {
    pub name: Seq<char>,
    pub matcher: RuleMatcher,
    pub confidence: nat,
}

impl View for AttributionRule {
    type V = RuleModel;

    open spec fn view(&self) -> RuleModel {
        RuleModel { name: self.name@, matcher: self.matcher, confidence: self.confidence@ }
    }
}

/// The default attribution rules, in the order of their registration.
pub open spec fn default_rules() -> Seq<RuleModel> {
    seq![
        RuleModel {
            name: "http_request_attribution"@,
            matcher: RuleMatcher::AnyChangeOfRequest,
            confidence: 900_000,
        },
        RuleModel {
            name: "auth_session_attribution"@,
            matcher: RuleMatcher::SessionChangeOfAuthentication,
            confidence: 950_000,
        },
        RuleModel {
            name: "payment_balance_attribution"@,
            matcher: RuleMatcher::BalanceChangeOfPayment,
            confidence: 980_000,
        },
    ]
}

/// Whether some rule matches.
pub open spec fn any_match(rules: Seq<RuleModel>, action: ActionModel, change: ChangeModel) -> bool {
    exists|i: int| 0 <= i < rules.len() && (#[trigger] rules[i]).matcher.matches(action, change)
}

/// The confidence of the best matching rule: the greatest confidence among
/// the rules that match, absent where none matches.
pub open spec fn best_confidence(rules: Seq<RuleModel>, action: ActionModel, change: ChangeModel) -> Option<
    nat,
>
    decreases rules.len(),
{
    if rules.len() == 0 {
        None
    } else {
        let earlier = best_confidence(rules.drop_last(), action, change);
        if rules.last().matcher.matches(action, change) && (earlier is None
            || rules.last().confidence >= earlier->0) {
            Some(rules.last().confidence)
        } else {
            earlier
        }
    }
}

/// The position of the best matching rule: among the matching rules of the
/// greatest confidence, the one registered last.
pub open spec fn best_rule(rules: Seq<RuleModel>, action: ActionModel, change: ChangeModel) -> Option<
    int,
>
    decreases rules.len(),
{
    if rules.len() == 0 {
        None
    } else {
        let earlier = best_rule(rules.drop_last(), action, change);
        if rules.last().matcher.matches(action, change) && (earlier is None
            || rules.last().confidence >= rules[earlier->0].confidence) {
            Some(rules.len() - 1)
        } else {
            earlier
        }
    }
}

/// The value that a text is recorded as.
pub open spec fn text_value(text: Seq<char>) -> JsonValueModel {
    JsonValueModel::Text(text)
}

/// The change recorded for an object whose owner is new or different.
pub open spec fn ownership_change(before: StateModel, after: StateModel, object: Seq<char>) -> ChangeModel {
    ChangeModel {
        change_type: ChangeTypeModel::OwnershipChange,
        field: "ownership."@ + object,
        old_value: if before.ownership.contains_key(object) {
            Some(text_value(before.ownership[object]))
        } else {
            None
        },
        new_value: Some(text_value(after.ownership[object])),
    }
}

/// Whether the owner of an object is new or different.
pub open spec fn ownership_changed(before: StateModel, after: StateModel, object: Seq<char>) -> bool {
    !before.ownership.contains_key(object) || before.ownership[object] != after.ownership[object]
}

/// The ownership changes among the given objects, in their order.
pub open spec fn ownership_changes(before: StateModel, after: StateModel, objects: Seq<Seq<char>>) -> Seq<
    ChangeModel,
>
    decreases objects.len(),
{
    if objects.len() == 0 {
        Seq::empty()
    } else if ownership_changed(before, after, objects.last()) {
        ownership_changes(before, after, objects.drop_last()).push(
            ownership_change(before, after, objects.last()),
        )
    } else {
        ownership_changes(before, after, objects.drop_last())
    }
}

/// The change recorded for an account whose amount is new or different.
pub open spec fn balance_change(before: StateModel, after: StateModel, account: Seq<char>) -> ChangeModel {
    ChangeModel {
        change_type: ChangeTypeModel::BalanceChange,
        field: "balances."@ + account,
        old_value: if before.balances.contains_key(account) {
            Some(JsonValueModel::Integer(before.balances[account].amount))
        } else {
            None
        },
        new_value: Some(JsonValueModel::Integer(after.balances[account].amount)),
    }
}

/// Whether the amount of an account is new or different.
pub open spec fn balance_changed(before: StateModel, after: StateModel, account: Seq<char>) -> bool {
    !before.balances.contains_key(account) || before.balances[account].amount
        != after.balances[account].amount
}

/// The balance changes among the given accounts, in their order.
pub open spec fn balance_changes(before: StateModel, after: StateModel, accounts: Seq<Seq<char>>) -> Seq<
    ChangeModel,
>
    decreases accounts.len(),
{
    if accounts.len() == 0 {
        Seq::empty()
    } else if balance_changed(before, after, accounts.last()) {
        balance_changes(before, after, accounts.drop_last()).push(
            balance_change(before, after, accounts.last()),
        )
    } else {
        balance_changes(before, after, accounts.drop_last())
    }
}

/// The session change: a session that is new, or whose identifier differs
/// from the one before.
pub open spec fn session_changes(before: StateModel, after: StateModel) -> Seq<ChangeModel> {
    match (before.current_session, after.current_session) {
        (None, Some(session)) => seq![
            ChangeModel {
                change_type: ChangeTypeModel::SessionChange,
                field: "current_session"@,
                old_value: None,
                new_value: Some(text_value(session.session_id)),
            },
        ],
        (Some(prior), Some(session)) => if prior.session_id != session.session_id {
            seq![
                ChangeModel {
                    change_type: ChangeTypeModel::SessionChange,
                    field: "current_session"@,
                    old_value: Some(text_value(prior.session_id)),
                    new_value: Some(text_value(session.session_id)),
                },
            ]
        } else {
            Seq::empty()
        },
        _ => Seq::empty(),
    }
}

/// The change recorded for a session whose workflow step is new or different.
pub open spec fn workflow_change(before: StateModel, after: StateModel, session: Seq<char>) -> ChangeModel {
    ChangeModel {
        change_type: ChangeTypeModel::WorkflowAdvance,
        field: "workflow."@ + session,
        old_value: if before.workflow_positions.contains_key(session) {
            Some(JsonValueModel::Integer(before.workflow_positions[session].step_index as i64))
        } else {
            None
        },
        new_value: Some(JsonValueModel::Integer(after.workflow_positions[session].step_index as i64)),
    }
}

/// Whether the workflow step of a session is new or different.
pub open spec fn workflow_changed(before: StateModel, after: StateModel, session: Seq<char>) -> bool {
    !before.workflow_positions.contains_key(session) || before.workflow_positions[session].step_index
        != after.workflow_positions[session].step_index
}

/// The workflow changes among the given sessions, in their order.
pub open spec fn workflow_changes(before: StateModel, after: StateModel, sessions: Seq<Seq<char>>) -> Seq<
    ChangeModel,
>
    decreases sessions.len(),
{
    if sessions.len() == 0 {
        Seq::empty()
    } else if workflow_changed(before, after, sessions.last()) {
        workflow_changes(before, after, sessions.drop_last()).push(
            workflow_change(before, after, sessions.last()),
        )
    } else {
        workflow_changes(before, after, sessions.drop_last())
    }
}

/// The changes between two states: of ownership, of balances, of the
/// session, of workflow positions, in that order, each mapping in the
/// ascending order of its keys.
pub open spec fn changes_between(before: StateModel, after: StateModel) -> Seq<ChangeModel> {
    ownership_changes(before, after, ordered_keys(after.ownership.dom())) + balance_changes(
        before,
        after,
        ordered_keys(after.balances.dom()),
    ) + session_changes(before, after) + workflow_changes(
        before,
        after,
        ordered_keys(after.workflow_positions.dom()),
    )
}

/// The changes that some rule matches, in their order.
pub open spec fn attributed(rules: Seq<RuleModel>, action: ActionModel, changes: Seq<ChangeModel>) -> Seq<
    ChangeModel,
>
    decreases changes.len(),
{
    if changes.len() == 0 {
        Seq::empty()
    } else if any_match(rules, action, changes.last()) {
        attributed(rules, action, changes.drop_last()).push(changes.last())
    } else {
        attributed(rules, action, changes.drop_last())
    }
}

/// The sum of the confidences of the best rules of the changes that some
/// rule matches.
pub open spec fn confidence_sum(rules: Seq<RuleModel>, action: ActionModel, changes: Seq<ChangeModel>) -> nat
    decreases changes.len(),
{
    if changes.len() == 0 {
        0
    } else {
        confidence_sum(rules, action, changes.drop_last()) + match best_confidence(
            rules,
            action,
            changes.last(),
        ) {
            Some(confidence) => confidence,
            None => 0,
        }
    }
}

/// The link that attributes changes to an action: the changes that some rule
/// matches, with the mean of the confidences of their best rules, rounded
/// down to a millionth.
pub open spec fn link_for(
    rules: Seq<RuleModel>,
    action: ActionModel,
    changes: Seq<ChangeModel>,
    timestamp: Timestamp,
) -> LinkModel {
    LinkModel {
        action,
        state_changes: attributed(rules, action, changes),
        confidence: confidence_sum(rules, action, changes) / attributed(rules, action, changes).len(),
        timestamp,
    }
}

/// The causal chain of a transition: empty where no change is attributed,
/// else one link, marked complete.
pub open spec fn chain_for(
    rules: Seq<RuleModel>,
    action: ActionModel,
    changes: Seq<ChangeModel>,
    timestamp: Timestamp,
) -> ChainModel {
    if attributed(rules, action, changes).len() == 0 {
        ChainModel::empty()
    } else {
        ChainModel::empty().with_link(link_for(rules, action, changes, timestamp)).marked()
    }
}

/// Some rule matches exactly where there is a best rule, the best rule
/// matches, and its confidence is the best confidence.
pub proof fn lemma_best(rules: Seq<RuleModel>, action: ActionModel, change: ChangeModel)
    ensures
        any_match(rules, action, change) == (best_rule(rules, action, change) is Some),
        best_rule(rules, action, change) is Some == (best_confidence(rules, action, change) is Some),
        best_rule(rules, action, change) is Some ==> {
            let at = best_rule(rules, action, change)->0;
            &&& 0 <= at < rules.len()
            &&& rules[at].matcher.matches(action, change)
            &&& rules[at].confidence == best_confidence(rules, action, change)->0
            &&& forall|i: int|
                0 <= i < rules.len() && (#[trigger] rules[i]).matcher.matches(action, change)
                    ==> rules[i].confidence <= rules[at].confidence
            &&& forall|i: int|
                at < i < rules.len() && (#[trigger] rules[i]).matcher.matches(action, change)
                    ==> rules[i].confidence < rules[at].confidence
        },
    decreases rules.len(),
{
    if rules.len() > 0 {
        let head = rules.drop_last();
        lemma_best(head, action, change);
        if any_match(rules, action, change) && !rules.last().matcher.matches(action, change) {
            let i = choose|i: int| 0 <= i < rules.len() && (#[trigger] rules[i]).matcher.matches(action, change);
            assert(head[i].matcher.matches(action, change));
        }
        if best_rule(rules, action, change) is Some {
            let at = best_rule(rules, action, change)->0;
            assert forall|i: int|
                0 <= i < rules.len() && (#[trigger] rules[i]).matcher.matches(
                    action,
                    change,
                ) implies rules[i].confidence <= rules[at].confidence by {
                if i < head.len() {
                    assert(head[i].matcher.matches(action, change));
                }
            }
            assert forall|i: int|
                at < i < rules.len() && (#[trigger] rules[i]).matcher.matches(
                    action,
                    change,
                ) implies rules[i].confidence < rules[at].confidence by {
                if i < head.len() {
                    assert(head[i].matcher.matches(action, change));
                }
            }
        }
    }
}

/// Engine for establishing causal relationships.
pub struct CausalEngine {
    attribution_rules: Vec<AttributionRule>,
}

impl View for CausalEngine {
    type V = Seq<RuleModel>;

    closed spec fn view(&self) -> Seq<RuleModel> {
        views(self.attribution_rules@)
    }
}

/// A confidence of the given number of hundredths.
fn hundredths(value: u8) -> (confidence: Confidence)
    requires
        value <= 100,
    ensures
        confidence@ == value * 10_000,
{
    match Confidence::from_percent(value) {
        Some(confidence) => confidence,
        None => Confidence::none(),
    }
}

impl CausalEngine {
    /// An engine with the default attribution rules.
    pub fn new() -> (engine: Self)
        ensures
            engine@ == default_rules(),
    {
        let mut engine = Self { attribution_rules: Vec::new() };
        engine.register_default_rules();
        engine
    }

    /// Registers the default attribution rules.
    fn register_default_rules(&mut self)
        requires
            old(self)@.len() == 0,
        ensures
            final(self)@ == default_rules(),
    {
        self.attribution_rules.push(
            AttributionRule {
                name: "http_request_attribution".to_owned(),
                matcher: RuleMatcher::AnyChangeOfRequest,
                confidence: hundredths(90),
            },
        );
        self.attribution_rules.push(
            AttributionRule {
                name: "auth_session_attribution".to_owned(),
                matcher: RuleMatcher::SessionChangeOfAuthentication,
                confidence: hundredths(95),
            },
        );
        self.attribution_rules.push(
            AttributionRule {
                name: "payment_balance_attribution".to_owned(),
                matcher: RuleMatcher::BalanceChangeOfPayment,
                confidence: hundredths(98),
            },
        );
    }

    /// Registers a rule behind the rules registered so far.
    pub fn register_rule(&mut self, rule: AttributionRule)
        ensures
            final(self)@ == old(self)@.push(rule@),
    {
        self.attribution_rules.push(rule);
    }

    /// The attribution rules, in the order of their registration.
    pub fn rules(&self) -> (rules: &Vec<AttributionRule>)
        ensures
            views(rules@) == self@,
    {
        &self.attribution_rules
    }

    /// The best matching rule of a change: among the matching rules of the
    /// greatest confidence, the one registered last.
    fn find_best(&self, action: &Action, change: &StateChange) -> (best: Option<usize>)
        ensures
            best is Some == (best_rule(self@, action@, change@) is Some),
            best is Some ==> best->0 == best_rule(self@, action@, change@)->0 && best->0
                < self.attribution_rules@.len(),
    {
        let ghost rules = self@;
        let mut best: Option<usize> = None;
        let mut i: usize = 0;
        while i < self.attribution_rules.len()
            invariant
                i <= self.attribution_rules@.len(),
                rules == self@,
                rules == views(self.attribution_rules@),
                best is Some == (best_rule(rules.take(i as int), action@, change@) is Some),
                best is Some ==> best->0 == best_rule(rules.take(i as int), action@, change@)->0
                    && best->0 < i,
            decreases self.attribution_rules@.len() - i,
        {
            let rule = &self.attribution_rules[i];
            proof {
                assert(rules.take(i + 1).drop_last() =~= rules.take(i as int));
            }
            if rule.matcher.check(action, change) {
                let better = match best {
                    None => true,
                    Some(at) => rule.confidence.millionths()
                        >= self.attribution_rules[at].confidence.millionths(),
                };
                if better {
                    best = Some(i);
                }
            }
            i = i + 1;
        }
        assert(rules.take(self.attribution_rules@.len() as int) =~= rules);
        best
    }

    /// The causal chain of a transition: the changes between its states that
    /// some rule attributes to its action, in one link whose confidence is
    /// the mean of the confidences of the best rules; empty where no change
    /// is attributed.
    pub fn build_chain(&self, transition: &StateTransition) -> (chain: CausalChain)
        ensures
            chain@ == chain_for(
                self@,
                transition@.triggering_action,
                changes_between(transition@.from_state, transition@.to_state),
                transition@.timestamp,
            ),
            chain@.confidence <= CONFIDENCE_SCALE,
            forall|i: int| 0 <= i < chain@.links.len() ==> (#[trigger] chain@.links[i]).confidence <= CONFIDENCE_SCALE,
    {
        let mut chain = CausalChain::new();
        let state_changes = self.detect_state_changes(&transition.from_state, &transition.to_state);
        let ghost changes = views(state_changes@);
        let ghost action = transition@.triggering_action;
        let ghost rules = self@;
        let mut kept: Vec<StateChange> = Vec::new();
        let mut sum: u128 = 0;
        let mut i: usize = 0;
        while i < state_changes.len()
            invariant
                i <= state_changes@.len(),
                changes == views(state_changes@),
                action == transition@.triggering_action,
                rules == self@,
                views(kept@) == attributed(rules, action, changes.take(i as int)),
                sum == confidence_sum(rules, action, changes.take(i as int)),
                kept@.len() <= i,
                sum <= kept@.len() * 1_000_000,
            decreases state_changes@.len() - i,
        {
            let change = &state_changes[i];
            proof {
                assert(changes.take(i + 1).drop_last() =~= changes.take(i as int));
                lemma_best(rules, action, change@);
            }
            match self.find_best(&transition.triggering_action, change) {
                Some(at) => {
                    let confidence = self.attribution_rules[at].confidence.millionths();
                    kept.push(change.clone());
                    sum = sum + confidence as u128;
                },
                None => {},
            }
            i = i + 1;
        }
        assert(changes.take(state_changes@.len() as int) =~= changes);
        if kept.len() > 0 {
            let count: u128 = kept.len() as u128;
            let mean: u128 = sum / count;
            assert(mean <= 1_000_000) by (nonlinear_arith)
                requires
                    sum <= count * 1_000_000,
                    count > 0,
                    mean == sum / count,
            ;
            let confidence = match Confidence::from_millionths(mean as u32) {
                Some(confidence) => confidence,
                None => Confidence::none(),
            };
            let link = CausalLink {
                action: transition.triggering_action.clone(),
                state_changes: kept,
                confidence,
                timestamp: transition.timestamp,
            };
            chain.add_link(link);
            chain.complete();
            proof {
                let only = link_for(rules, action, changes, transition@.timestamp);
                let links = Seq::<LinkModel>::empty().push(only);
                assert(product_of(links) == only.confidence) by {
                    assert(product_of(links.drop_last()) == CONFIDENCE_SCALE as nat);
                    assert(1_000_000 * only.confidence / 1_000_000 == only.confidence) by (nonlinear_arith);
                }
            }
        }
        chain
    }

    /// The changes between two states.
    pub fn detect_state_changes(&self, before: &ApplicationState, after: &ApplicationState) -> (changes: Vec<
        StateChange,
    >)
        ensures
            views(changes@) == changes_between(before@, after@),
    {
        let mut changes: Vec<StateChange> = Vec::new();
        let owners = after.ownership.len();
        let ghost objects = ordered_keys(after@.ownership.dom());
        let mut i: usize = 0;
        while i < owners
            invariant
                i <= owners,
                owners == after@.ownership.len(),
                objects == ordered_keys(after@.ownership.dom()),
                objects.len() == owners,
                views(changes@) == ownership_changes(before@, after@, objects.take(i as int)),
            decreases owners - i,
        {
            let object = after.ownership.key_at(i);
            let owner = after.ownership.value_at(i);
            proof {
                assert(objects.take(i + 1).drop_last() =~= objects.take(i as int));
            }
            let prior = before.ownership.get(object);
            let changed = match prior {
                Some(prior) => !same_text(prior.0.as_str(), owner.0.as_str()),
                None => true,
            };
            if changed {
                let old_value = match prior {
                    Some(prior) => Some(JsonValue::Text(prior.0.clone())),
                    None => None,
                };
                let change = StateChange {
                    change_type: StateChangeType::OwnershipChange,
                    field: "ownership.".to_owned().concat(object.0.as_str()),
                    old_value,
                    new_value: Some(JsonValue::Text(owner.0.clone())),
                };
                changes.push(change);
            }
            i = i + 1;
        }
        assert(objects.take(owners as int) =~= objects);
        let ghost first = views(changes@);
        let count = after.balances.len();
        let ghost accounts = ordered_keys(after@.balances.dom());
        let mut i: usize = 0;
        while i < count
            invariant
                i <= count,
                count == after@.balances.len(),
                accounts == ordered_keys(after@.balances.dom()),
                accounts.len() == count,
                first == ownership_changes(before@, after@, objects),
                views(changes@) == first + balance_changes(before@, after@, accounts.take(i as int)),
            decreases count - i,
        {
            let account = after.balances.key_at(i);
            let balance = after.balances.value_at(i);
            proof {
                assert(accounts.take(i + 1).drop_last() =~= accounts.take(i as int));
            }
            let prior = before.balances.get(account);
            let changed = match prior {
                Some(prior) => prior.amount != balance.amount,
                None => true,
            };
            if changed {
                let old_value = match prior {
                    Some(prior) => Some(JsonValue::Integer(prior.amount)),
                    None => None,
                };
                let change = StateChange {
                    change_type: StateChangeType::BalanceChange,
                    field: "balances.".to_owned().concat(account.0.as_str()),
                    old_value,
                    new_value: Some(JsonValue::Integer(balance.amount)),
                };
                let ghost before_push = views(changes@);
                let ghost model = change@;
                changes.push(change);
                assert(views(changes@) =~= before_push.push(model));
            }
            i = i + 1;
        }
        assert(accounts.take(count as int) =~= accounts);
        match (&before.current_session, &after.current_session) {
            (None, Some(session)) => {
                let change = StateChange {
                    change_type: StateChangeType::SessionChange,
                    field: "current_session".to_owned(),
                    old_value: None,
                    new_value: Some(JsonValue::Text(session.session_id.0.clone())),
                };
                changes.push(change);
            },
            (Some(prior), Some(session)) => {
                if !same_text(prior.session_id.0.as_str(), session.session_id.0.as_str()) {
                    let change = StateChange {
                        change_type: StateChangeType::SessionChange,
                        field: "current_session".to_owned(),
                        old_value: Some(JsonValue::Text(prior.session_id.0.clone())),
                        new_value: Some(JsonValue::Text(session.session_id.0.clone())),
                    };
                    changes.push(change);
                }
            },
            _ => {},
        }
        let ghost third = views(changes@);
        let positions = after.workflow_positions.len();
        let ghost sessions = ordered_keys(after@.workflow_positions.dom());
        let mut i: usize = 0;
        while i < positions
            invariant
                i <= positions,
                positions == after@.workflow_positions.len(),
                sessions == ordered_keys(after@.workflow_positions.dom()),
                sessions.len() == positions,
                third == ownership_changes(before@, after@, objects) + balance_changes(
                    before@,
                    after@,
                    accounts,
                ) + session_changes(before@, after@),
                views(changes@) == third + workflow_changes(before@, after@, sessions.take(i as int)),
            decreases positions - i,
        {
            let session = after.workflow_positions.key_at(i);
            let step = after.workflow_positions.value_at(i);
            proof {
                assert(sessions.take(i + 1).drop_last() =~= sessions.take(i as int));
            }
            let prior = before.workflow_positions.get(session);
            let changed = match prior {
                Some(prior) => prior.step_index != step.step_index,
                None => true,
            };
            if changed {
                let old_value = match prior {
                    Some(prior) => Some(JsonValue::Integer(prior.step_index as i64)),
                    None => None,
                };
                let change = StateChange {
                    change_type: StateChangeType::WorkflowAdvance,
                    field: "workflow.".to_owned().concat(session.0.as_str()),
                    old_value,
                    new_value: Some(JsonValue::Integer(step.step_index as i64)),
                };
                let ghost before_push = views(changes@);
                let ghost model = change@;
                changes.push(change);
                assert(views(changes@) =~= before_push.push(model));
            }
            i = i + 1;
        }
        assert(sessions.take(positions as int) =~= sessions);
        changes
    }

    /// Whether some rule attributes the effect to the action.
    pub fn validate_causality(&self, action: &Action, effect: &StateChange) -> (caused: bool)
        ensures
            caused == any_match(self@, action@, effect@),
    {
        proof {
            lemma_best(self@, action@, effect@);
        }
        self.find_best(action, effect).is_some()
    }

    /// The confidence that the action caused the effect: the greatest
    /// confidence among the rules that match, zero where none matches.
    pub fn get_causality_confidence(&self, action: &Action, effect: &StateChange) -> (confidence: Confidence)
        ensures
            confidence@ == match best_confidence(self@, action@, effect@) {
                Some(value) => value,
                None => 0,
            },
    {
        proof {
            lemma_best(self@, action@, effect@);
        }
        match self.find_best(action, effect) {
            Some(at) => {
                self.attribution_rules[at].confidence
            },
            None => Confidence::none(),
        }
    }
}

impl Default for CausalEngine {
    fn default() -> (engine: Self)
        ensures
            engine@ == default_rules(),
    {
        CausalEngine::new()
    }
}

} // verus!
