//! The state model: what an application snapshot holds, and the transition
//! between two snapshots.

pub mod encoding;
pub mod ledger;
pub mod tracker;

pub use ledger::{LedgerEntry, StateLedger, StateSnapshot};
pub use tracker::{
    AccessRecord, AccessType, BalanceMonitor, OwnershipTracker, RoleChangeEvent, RoleChangeType,
    SessionEvent, SessionEventType, SessionTracker, StateTracker, TransactionRecord,
};

use vstd::prelude::*;
use crate::collections::{duplicate_all, views, view_of, Duplicate, SortedMap, SortedSet};
use crate::types::{
    AccountId, ActionTiming, AuthToken, AuthTokenModel, Balance, Currency, HttpRequest,
    HttpRequestModel, JsonValue, JsonValueModel, ObjectId, Role, SessionId, Timestamp, UserId,
    WorkflowStep, WorkflowStepModel,
};
use crate::text::same_text;

verus! {

/// Session state information.
#[derive(Debug)]
pub struct SessionState {
    pub session_id: SessionId,
    pub user_id: UserId,
    pub roles: SortedSet<Role>,
    pub authenticated: bool,
    pub created_at: Timestamp,
    pub last_activity: Timestamp,
}

/// What a `SessionState` stands for.
pub ghost struct SessionModel {
    pub session_id: Seq<char>,
    pub user_id: Seq<char>,
    pub roles: Set<Seq<char>>,
    pub authenticated: bool,
    pub created_at: Timestamp,
    pub last_activity: Timestamp,
}

impl View for SessionState {
    type V = SessionModel;

    open spec fn view(&self) -> SessionModel {
        SessionModel {
            session_id: self.session_id@,
            user_id: self.user_id@,
            roles: self.roles@,
            authenticated: self.authenticated,
            created_at: self.created_at,
            last_activity: self.last_activity,
        }
    }
}

impl Clone for SessionState {
    fn clone(&self) -> (copy: Self)
        ensures
            copy@ == self@,
    {
        SessionState {
            session_id: self.session_id.clone(),
            user_id: self.user_id.clone(),
            roles: self.roles.clone(),
            authenticated: self.authenticated,
            created_at: self.created_at,
            last_activity: self.last_activity,
        }
    }
}

impl Duplicate for SessionState {
    fn duplicate(&self) -> (copy: Self) {
        self.clone()
    }
}

/// Data object representation.
#[derive(Debug, PartialEq)]
pub struct DataObject {
    pub id: ObjectId,
    pub data_type: String,
    pub content_hash: String,
    pub last_modified: Timestamp,
    pub version: u64,
}

/// What a `DataObject` stands for.
pub ghost struct DataObjectModel {
    pub id: Seq<char>,
    pub data_type: Seq<char>,
    pub content_hash: Seq<char>,
    pub last_modified: Timestamp,
    pub version: u64,
}

impl View for DataObject {
    type V = DataObjectModel;

    open spec fn view(&self) -> DataObjectModel {
        DataObjectModel {
            id: self.id@,
            data_type: self.data_type@,
            content_hash: self.content_hash@,
            last_modified: self.last_modified,
            version: self.version,
        }
    }
}

impl Clone for DataObject {
    fn clone(&self) -> (copy: Self)
        ensures
            copy@ == self@,
    {
        DataObject {
            id: self.id.clone(),
            data_type: self.data_type.clone(),
            content_hash: self.content_hash.clone(),
            last_modified: self.last_modified,
            version: self.version,
        }
    }
}

impl Duplicate for DataObject {
    fn duplicate(&self) -> (copy: Self) {
        self.clone()
    }
}

impl DataObject {
    /// Whether two data objects hold the same values.
    pub fn same_as(&self, other: &DataObject) -> (same: bool)
        ensures
            same == (self@ == other@),
    {
        same_text(self.id.0.as_str(), other.id.0.as_str()) && same_text(
            self.data_type.as_str(),
            other.data_type.as_str(),
        ) && same_text(self.content_hash.as_str(), other.content_hash.as_str())
            && self.last_modified.secs == other.last_modified.secs && self.last_modified.nanos
            == other.last_modified.nanos && self.version == other.version
    }
}

/// Authorization event record.
#[derive(Debug)]
pub struct AuthorizationEvent {
    pub event_type: String,
    pub user_id: UserId,
    pub target_role: Option<Role>,
    pub timestamp: Timestamp,
    pub authorized_by: Option<UserId>,
}

/// What an `AuthorizationEvent` stands for.
pub ghost struct AuthorizationEventModel {
    pub event_type: Seq<char>,
    pub user_id: Seq<char>,
    pub target_role: Option<Seq<char>>,
    pub timestamp: Timestamp,
    pub authorized_by: Option<Seq<char>>,
}

impl View for AuthorizationEvent {
    type V = AuthorizationEventModel;

    open spec fn view(&self) -> AuthorizationEventModel {
        AuthorizationEventModel {
            event_type: self.event_type@,
            user_id: self.user_id@,
            target_role: view_of(self.target_role),
            timestamp: self.timestamp,
            authorized_by: view_of(self.authorized_by),
        }
    }
}

impl Clone for AuthorizationEvent {
    fn clone(&self) -> (copy: Self)
        ensures
            copy@ == self@,
    {
        let target_role = match &self.target_role {
            Some(r) => Some(r.clone()),
            None => None,
        };
        let authorized_by = match &self.authorized_by {
            Some(u) => Some(u.clone()),
            None => None,
        };
        AuthorizationEvent {
            event_type: self.event_type.clone(),
            user_id: self.user_id.clone(),
            target_role,
            timestamp: self.timestamp,
            authorized_by,
        }
    }
}

impl Duplicate for AuthorizationEvent {
    fn duplicate(&self) -> (copy: Self) {
        self.clone()
    }
}

/// Financial transaction record.
#[derive(Debug)]
pub struct FinancialTransaction {
    pub id: String,
    pub from_account: Option<AccountId>,
    pub to_account: Option<AccountId>,
    pub amount: i64,
    pub currency: Currency,
    pub is_external: bool,
    pub timestamp: Timestamp,
}

/// What a `FinancialTransaction` stands for.
pub ghost struct TransactionModel {
    pub id: Seq<char>,
    pub from_account: Option<Seq<char>>,
    pub to_account: Option<Seq<char>>,
    pub amount: i64,
    pub currency: Currency,
    pub is_external: bool,
    pub timestamp: Timestamp,
}

impl View for FinancialTransaction {
    type V = TransactionModel;

    open spec fn view(&self) -> TransactionModel {
        TransactionModel {
            id: self.id@,
            from_account: view_of(self.from_account),
            to_account: view_of(self.to_account),
            amount: self.amount,
            currency: self.currency,
            is_external: self.is_external,
            timestamp: self.timestamp,
        }
    }
}

impl Clone for FinancialTransaction {
    fn clone(&self) -> (copy: Self)
        ensures
            copy@ == self@,
    {
        let from_account = match &self.from_account {
            Some(a) => Some(a.clone()),
            None => None,
        };
        let to_account = match &self.to_account {
            Some(a) => Some(a.clone()),
            None => None,
        };
        FinancialTransaction {
            id: self.id.clone(),
            from_account,
            to_account,
            amount: self.amount,
            currency: self.currency,
            is_external: self.is_external,
            timestamp: self.timestamp,
        }
    }
}

impl Duplicate for FinancialTransaction {
    fn duplicate(&self) -> (copy: Self) {
        self.clone()
    }
}

/// Trust decision record.
#[derive(Debug)]
pub struct TrustDecision {
    pub decision_type: String,
    pub based_on_client_input: bool,
    pub input_validated: bool,
    pub timestamp: Timestamp,
}

/// What a `TrustDecision` stands for.
pub ghost struct TrustDecisionModel {
    pub decision_type: Seq<char>,
    pub based_on_client_input: bool,
    pub input_validated: bool,
    pub timestamp: Timestamp,
}

impl View for TrustDecision {
    type V = TrustDecisionModel;

    open spec fn view(&self) -> TrustDecisionModel {
        TrustDecisionModel {
            decision_type: self.decision_type@,
            based_on_client_input: self.based_on_client_input,
            input_validated: self.input_validated,
            timestamp: self.timestamp,
        }
    }
}

impl Clone for TrustDecision {
    fn clone(&self) -> (copy: Self)
        ensures
            copy@ == self@,
    {
        TrustDecision {
            decision_type: self.decision_type.clone(),
            based_on_client_input: self.based_on_client_input,
            input_validated: self.input_validated,
            timestamp: self.timestamp,
        }
    }
}

impl Duplicate for TrustDecision {
    fn duplicate(&self) -> (copy: Self) {
        self.clone()
    }
}

/// Workflow completion record.
#[derive(Debug)]
pub struct WorkflowCompletion {
    pub workflow_id: String,
    pub is_critical: bool,
    pub all_steps_completed: bool,
    pub completed_steps: Vec<u32>,
    pub timestamp: Timestamp,
}

/// What a `WorkflowCompletion` stands for.
pub ghost struct WorkflowCompletionModel {
    pub workflow_id: Seq<char>,
    pub is_critical: bool,
    pub all_steps_completed: bool,
    pub completed_steps: Seq<u32>,
    pub timestamp: Timestamp,
}

impl View for WorkflowCompletion {
    type V = WorkflowCompletionModel;

    open spec fn view(&self) -> WorkflowCompletionModel {
        WorkflowCompletionModel {
            workflow_id: self.workflow_id@,
            is_critical: self.is_critical,
            all_steps_completed: self.all_steps_completed,
            completed_steps: self.completed_steps@,
            timestamp: self.timestamp,
        }
    }
}

impl Clone for WorkflowCompletion {
    fn clone(&self) -> (copy: Self)
        ensures
            copy@ == self@,
    {
        let completed_steps = self.completed_steps.clone();
        WorkflowCompletion {
            workflow_id: self.workflow_id.clone(),
            is_critical: self.is_critical,
            all_steps_completed: self.all_steps_completed,
            completed_steps,
            timestamp: self.timestamp,
        }
    }
}

impl Duplicate for WorkflowCompletion {
    fn duplicate(&self) -> (copy: Self) {
        self.clone()
    }
}

/// Complete application state at a point in time.
#[derive(Debug)]
pub struct ApplicationState {
    pub timestamp: Option<Timestamp>,
    pub ownership: SortedMap<ObjectId, UserId>,
    pub balances: SortedMap<AccountId, Balance>,
    pub workflow_positions: SortedMap<SessionId, WorkflowStep>,
    pub current_session: Option<SessionState>,
    pub data_objects: SortedMap<ObjectId, DataObject>,
    pub authorization_events: Vec<AuthorizationEvent>,
    pub financial_transactions: Vec<FinancialTransaction>,
    pub overdraft_permissions: SortedSet<AccountId>,
    pub trust_decisions: Vec<TrustDecision>,
    pub workflow_completions: Vec<WorkflowCompletion>,
}

/// What an `ApplicationState` stands for: mappings and sets by key text,
/// records in their recorded order.
pub ghost struct StateModel {
    pub timestamp: Option<Timestamp>,
    pub ownership: Map<Seq<char>, Seq<char>>,
    pub balances: Map<Seq<char>, Balance>,
    pub workflow_positions: Map<Seq<char>, WorkflowStepModel>,
    pub current_session: Option<SessionModel>,
    pub data_objects: Map<Seq<char>, DataObjectModel>,
    pub authorization_events: Seq<AuthorizationEventModel>,
    pub financial_transactions: Seq<TransactionModel>,
    pub overdraft_permissions: Set<Seq<char>>,
    pub trust_decisions: Seq<TrustDecisionModel>,
    pub workflow_completions: Seq<WorkflowCompletionModel>,
}

impl StateModel {
    /// The state that holds nothing.
    pub open spec fn empty(timestamp: Option<Timestamp>) -> StateModel {
        StateModel {
            timestamp,
            ownership: Map::empty(),
            balances: Map::empty(),
            workflow_positions: Map::empty(),
            current_session: None,
            data_objects: Map::empty(),
            authorization_events: Seq::empty(),
            financial_transactions: Seq::empty(),
            overdraft_permissions: Set::empty(),
            trust_decisions: Seq::empty(),
            workflow_completions: Seq::empty(),
        }
    }
}

impl StateModel {
    /// What every state must satisfy: a present session has a non-empty
    /// identifier. That a key occurs once in a mapping holds of every
    /// mapping.
    pub open spec fn well_formed(self) -> bool {
        self.current_session is Some ==> self.current_session->0.session_id.len() > 0
    }
}

impl View for ApplicationState {
    type V = StateModel;

    open spec fn view(&self) -> StateModel {
        StateModel {
            timestamp: self.timestamp,
            ownership: self.ownership@,
            balances: self.balances@,
            workflow_positions: self.workflow_positions@,
            current_session: view_of(self.current_session),
            data_objects: self.data_objects@,
            authorization_events: views(self.authorization_events@),
            financial_transactions: views(self.financial_transactions@),
            overdraft_permissions: self.overdraft_permissions@,
            trust_decisions: views(self.trust_decisions@),
            workflow_completions: views(self.workflow_completions@),
        }
    }
}

impl Clone for ApplicationState {
    fn clone(&self) -> (copy: Self)
        ensures
            copy@ == self@,
    {
        let current_session = match &self.current_session {
            Some(s) => Some(s.clone()),
            None => None,
        };
        ApplicationState {
            timestamp: self.timestamp,
            ownership: self.ownership.clone(),
            balances: self.balances.clone(),
            workflow_positions: self.workflow_positions.clone(),
            current_session,
            data_objects: self.data_objects.clone(),
            authorization_events: duplicate_all(&self.authorization_events),
            financial_transactions: duplicate_all(&self.financial_transactions),
            overdraft_permissions: self.overdraft_permissions.clone(),
            trust_decisions: duplicate_all(&self.trust_decisions),
            workflow_completions: duplicate_all(&self.workflow_completions),
        }
    }
}

impl Duplicate for ApplicationState {
    fn duplicate(&self) -> (copy: Self) {
        self.clone()
    }
}

impl Default for ApplicationState {
    fn default() -> (state: Self)
        ensures
            state@ == StateModel::empty(None),
    {
        let state = ApplicationState {
            timestamp: None,
            ownership: SortedMap::new(),
            balances: SortedMap::new(),
            workflow_positions: SortedMap::new(),
            current_session: None,
            data_objects: SortedMap::new(),
            authorization_events: Vec::new(),
            financial_transactions: Vec::new(),
            overdraft_permissions: SortedSet::new(),
            trust_decisions: Vec::new(),
            workflow_completions: Vec::new(),
        };
        assert(state@.authorization_events =~= Seq::empty());
        assert(state@.financial_transactions =~= Seq::empty());
        assert(state@.trust_decisions =~= Seq::empty());
        assert(state@.workflow_completions =~= Seq::empty());
        state
    }
}

impl ApplicationState {
    /// An empty state stamped with the current time.
    pub fn new() -> (state: Self)
        ensures
            state.timestamp is Some,
            state@ == StateModel::empty(state.timestamp),
    {
        let mut state = ApplicationState::default();
        state.timestamp = Some(Timestamp::now());
        state
    }

    /// Whether the state satisfies what every state must.
    pub fn is_well_formed(&self) -> (sound: bool)
        ensures
            sound == self@.well_formed(),
    {
        match &self.current_session {
            Some(session) => !session.session_id.0.as_str().is_empty(),
            None => true,
        }
    }

    /// A snapshot of the state, stamped with the current time.
    pub fn snapshot(&self) -> (snapshot: StateSnapshot)
        ensures
            snapshot.state@ == self@,
    {
        StateSnapshot::new(self.clone())
    }

    /// Whether `user_id` owns `object_id`.
    pub fn user_owns(&self, user_id: &UserId, object_id: &ObjectId) -> (owns: bool)
        ensures
            owns == (self@.ownership.contains_key(object_id@) && self@.ownership[object_id@]
                == user_id@),
    {
        match self.ownership.get(object_id) {
            Some(owner) => same_text(owner.0.as_str(), user_id.0.as_str()),
            None => false,
        }
    }

    /// The balance of an account, if the account is known.
    pub fn get_balance(&self, account_id: &AccountId) -> (balance: Option<&Balance>)
        ensures
            balance is Some == self@.balances.contains_key(account_id@),
            balance is Some ==> *balance->0 == self@.balances[account_id@],
    {
        self.balances.get(account_id)
    }

    /// The workflow step of a session, if the session is in a workflow.
    pub fn get_workflow_step(&self, session_id: &SessionId) -> (step: Option<&WorkflowStep>)
        ensures
            step is Some == self@.workflow_positions.contains_key(session_id@),
            step is Some ==> step->0@ == self@.workflow_positions[session_id@],
    {
        self.workflow_positions.get(session_id)
    }
}

/// Types of actions.
#[derive(Debug, PartialEq, Eq, Hash)]
pub enum ActionType {
    HttpRequest,
    DatabaseQuery,
    FileOperation,
    Authentication,
    Authorization,
    Payment,
    WorkflowStep,
    Custom(String),
}

/// What an `ActionType` stands for.
pub ghost enum ActionTypeModel {
    HttpRequest,
    DatabaseQuery,
    FileOperation,
    Authentication,
    Authorization,
    Payment,
    WorkflowStep,
    Custom(Seq<char>),
}

impl View for ActionType {
    type V = ActionTypeModel;

    open spec fn view(&self) -> ActionTypeModel {
        match self {
            ActionType::HttpRequest => ActionTypeModel::HttpRequest,
            ActionType::DatabaseQuery => ActionTypeModel::DatabaseQuery,
            ActionType::FileOperation => ActionTypeModel::FileOperation,
            ActionType::Authentication => ActionTypeModel::Authentication,
            ActionType::Authorization => ActionTypeModel::Authorization,
            ActionType::Payment => ActionTypeModel::Payment,
            ActionType::WorkflowStep => ActionTypeModel::WorkflowStep,
            ActionType::Custom(name) => ActionTypeModel::Custom(name@),
        }
    }
}

impl Clone for ActionType {
    fn clone(&self) -> (copy: Self)
        ensures
            copy@ == self@,
    {
        match self {
            ActionType::HttpRequest => ActionType::HttpRequest,
            ActionType::DatabaseQuery => ActionType::DatabaseQuery,
            ActionType::FileOperation => ActionType::FileOperation,
            ActionType::Authentication => ActionType::Authentication,
            ActionType::Authorization => ActionType::Authorization,
            ActionType::Payment => ActionType::Payment,
            ActionType::WorkflowStep => ActionType::WorkflowStep,
            ActionType::Custom(name) => ActionType::Custom(name.clone()),
        }
    }
}

/// Action that triggered a state transition.
#[derive(Debug)]
pub struct Action {
    pub id: String,
    pub action_type: ActionType,
    pub request: Option<HttpRequest>,
    pub parameters: SortedMap<String, JsonValue>,
    pub authentication: Option<AuthToken>,
    pub timing: ActionTiming,
}

/// What an `Action` stands for.
pub ghost struct ActionModel {
    pub id: Seq<char>,
    pub action_type: ActionTypeModel,
    pub request: Option<HttpRequestModel>,
    pub parameters: Map<Seq<char>, JsonValueModel>,
    pub authentication: Option<AuthTokenModel>,
    pub timing: ActionTiming,
}

impl View for Action {
    type V = ActionModel;

    open spec fn view(&self) -> ActionModel {
        ActionModel {
            id: self.id@,
            action_type: self.action_type@,
            request: view_of(self.request),
            parameters: self.parameters@,
            authentication: view_of(self.authentication),
            timing: self.timing,
        }
    }
}

impl Clone for Action {
    fn clone(&self) -> (copy: Self)
        ensures
            copy@ == self@,
    {
        let request = match &self.request {
            Some(r) => Some(r.clone()),
            None => None,
        };
        let authentication = match &self.authentication {
            Some(a) => Some(a.clone()),
            None => None,
        };
        Action {
            id: self.id.clone(),
            action_type: self.action_type.clone(),
            request,
            parameters: self.parameters.clone(),
            authentication,
            timing: self.timing,
        }
    }
}

impl Duplicate for Action {
    fn duplicate(&self) -> (copy: Self) {
        self.clone()
    }
}

/// State transition between two application states.
#[derive(Debug)]
pub struct StateTransition {
    pub id: String,
    pub from_state: ApplicationState,
    pub to_state: ApplicationState,
    pub triggering_action: Action,
    pub timestamp: Timestamp,
}

/// What a `StateTransition` stands for.
pub ghost struct TransitionModel {
    pub id: Seq<char>,
    pub from_state: StateModel,
    pub to_state: StateModel,
    pub triggering_action: ActionModel,
    pub timestamp: Timestamp,
}

impl View for StateTransition {
    type V = TransitionModel;

    open spec fn view(&self) -> TransitionModel {
        TransitionModel {
            id: self.id@,
            from_state: self.from_state@,
            to_state: self.to_state@,
            triggering_action: self.triggering_action@,
            timestamp: self.timestamp,
        }
    }
}

impl Clone for StateTransition {
    fn clone(&self) -> (copy: Self)
        ensures
            copy@ == self@,
    {
        StateTransition {
            id: self.id.clone(),
            from_state: self.from_state.clone(),
            to_state: self.to_state.clone(),
            triggering_action: self.triggering_action.clone(),
            timestamp: self.timestamp,
        }
    }
}

impl Duplicate for StateTransition {
    fn duplicate(&self) -> (copy: Self) {
        self.clone()
    }
}

} // verus!
