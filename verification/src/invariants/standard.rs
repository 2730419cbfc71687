//! The default invariants: their predicates and what the catalog records of
//! each.

use vstd::prelude::*;
use crate::invariants::predicates::{
    balance_conservation, check_balance_conservation, check_client_input_trust,
    check_completion_requirement, check_cross_user_access, check_double_spend,
    check_fixation_prevention, check_horizontal_boundary, check_input_bounds,
    check_modification_authorization, check_non_negative_balance, check_privilege_escalation,
    check_server_side_validation, check_state_consistency, check_step_ordering,
    check_transaction_atomicity, check_user_binding, check_version_monotonicity,
    check_vertical_boundary, client_input_trust, completion_requirement, cross_user_access,
    double_spend, fixation_prevention, horizontal_boundary, input_bounds,
    modification_authorization, non_negative_balance, privilege_escalation,
    server_side_validation, state_consistency, step_ordering, transaction_atomicity,
    user_binding, version_monotonicity, vertical_boundary,
};
use crate::state::{ApplicationState, StateModel};
use crate::text::same_text;

verus! {

/// Categories of security invariants.
#[derive(Debug, Clone, Copy, PartialEq, Eq, Hash, Structural)]
pub enum InvariantCategory {
    /// Authorization and access control invariants
    Authorization,
    /// Financial and monetary invariants
    Monetary,
    /// Business workflow invariants
    Workflow,
    /// Trust boundary invariants
    Trust,
    /// Data integrity invariants
    DataIntegrity,
    /// Session management invariants
    SessionManagement,
    /// Input validation invariants
    InputValidation,
    /// Rate limiting and resource invariants
    RateLimiting,
    /// Custom user-defined invariants
    Custom,
}

/// The name of a category.
pub open spec fn category_text(category: InvariantCategory) -> Seq<char> {
    match category {
        InvariantCategory::Authorization => "Authorization"@,
        InvariantCategory::Monetary => "Monetary"@,
        InvariantCategory::Workflow => "Workflow"@,
        InvariantCategory::Trust => "Trust"@,
        InvariantCategory::DataIntegrity => "DataIntegrity"@,
        InvariantCategory::SessionManagement => "SessionManagement"@,
        InvariantCategory::InputValidation => "InputValidation"@,
        InvariantCategory::RateLimiting => "RateLimiting"@,
        InvariantCategory::Custom => "Custom"@,
    }
}

/// The name of a category.
pub fn category_name(category: InvariantCategory) -> (name: &'static str)
    ensures
        name@ == category_text(category),
{
    match category {
        InvariantCategory::Authorization => "Authorization",
        InvariantCategory::Monetary => "Monetary",
        InvariantCategory::Workflow => "Workflow",
        InvariantCategory::Trust => "Trust",
        InvariantCategory::DataIntegrity => "DataIntegrity",
        InvariantCategory::SessionManagement => "SessionManagement",
        InvariantCategory::InputValidation => "InputValidation",
        InvariantCategory::RateLimiting => "RateLimiting",
        InvariantCategory::Custom => "Custom",
    }
}

/// The category that a label names: `authorization`, `monetary`, `workflow`,
/// `trust`, `data_integrity`, `session` and `input` name theirs, every other
/// label the custom one.
pub open spec fn category_of_label(label: Seq<char>) -> InvariantCategory {
    if label == "authorization"@ {
        InvariantCategory::Authorization
    } else if label == "monetary"@ {
        InvariantCategory::Monetary
    } else if label == "workflow"@ {
        InvariantCategory::Workflow
    } else if label == "trust"@ {
        InvariantCategory::Trust
    } else if label == "data_integrity"@ {
        InvariantCategory::DataIntegrity
    } else if label == "session"@ {
        InvariantCategory::SessionManagement
    } else if label == "input"@ {
        InvariantCategory::InputValidation
    } else {
        InvariantCategory::Custom
    }
}

/// The category that a label names.
pub fn category_from_label(label: &str) -> (category: InvariantCategory)
    ensures
        category == category_of_label(label@),
{
    if same_text(label, "authorization") {
        InvariantCategory::Authorization
    } else if same_text(label, "monetary") {
        InvariantCategory::Monetary
    } else if same_text(label, "workflow") {
        InvariantCategory::Workflow
    } else if same_text(label, "trust") {
        InvariantCategory::Trust
    } else if same_text(label, "data_integrity") {
        InvariantCategory::DataIntegrity
    } else if same_text(label, "session") {
        InvariantCategory::SessionManagement
    } else if same_text(label, "input") {
        InvariantCategory::InputValidation
    } else {
        InvariantCategory::Custom
    }
}

/// The predicates of the default invariants.
#[derive(Debug, Clone, Copy, PartialEq, Eq, Hash, Structural)]
pub enum StandardPredicate {
    CrossUserObjectAccess,
    PrivilegeEscalation,
    HorizontalBoundary,
    VerticalBoundary,
    BalanceConservation,
    NonNegativeBalance,
    TransactionAtomicity,
    DoubleSpend,
    StepOrdering,
    CompletionRequirement,
    StateConsistency,
    ClientInputTrust,
    ServerSideValidation,
    ModificationAuthorization,
    VersionMonotonicity,
    FixationPrevention,
    UserBinding,
    InputBounds,
}

impl StandardPredicate {
    /// Whether the predicate holds of a pair of states.
    pub open spec fn holds(self, before: StateModel, after: StateModel) -> bool {
        match self {
            StandardPredicate::CrossUserObjectAccess => cross_user_access(before, after),
            StandardPredicate::PrivilegeEscalation => privilege_escalation(before, after),
            StandardPredicate::HorizontalBoundary => horizontal_boundary(before, after),
            StandardPredicate::VerticalBoundary => vertical_boundary(before, after),
            StandardPredicate::BalanceConservation => balance_conservation(before, after),
            StandardPredicate::NonNegativeBalance => non_negative_balance(before, after),
            StandardPredicate::TransactionAtomicity => transaction_atomicity(before, after),
            StandardPredicate::DoubleSpend => double_spend(before, after),
            StandardPredicate::StepOrdering => step_ordering(before, after),
            StandardPredicate::CompletionRequirement => completion_requirement(before, after),
            StandardPredicate::StateConsistency => state_consistency(before, after),
            StandardPredicate::ClientInputTrust => client_input_trust(before, after),
            StandardPredicate::ServerSideValidation => server_side_validation(before, after),
            StandardPredicate::ModificationAuthorization => modification_authorization(before, after),
            StandardPredicate::VersionMonotonicity => version_monotonicity(before, after),
            StandardPredicate::FixationPrevention => fixation_prevention(before, after),
            StandardPredicate::UserBinding => user_binding(before, after),
            StandardPredicate::InputBounds => input_bounds(before, after),
        }
    }

    /// Evaluates the predicate on a pair of states.
    pub fn evaluate(&self, before: &ApplicationState, after: &ApplicationState) -> (verdict: bool)
        ensures
            verdict == self.holds(before@, after@),
    {
        match self {
            StandardPredicate::CrossUserObjectAccess => check_cross_user_access(before, after),
            StandardPredicate::PrivilegeEscalation => check_privilege_escalation(before, after),
            StandardPredicate::HorizontalBoundary => check_horizontal_boundary(before, after),
            StandardPredicate::VerticalBoundary => check_vertical_boundary(before, after),
            StandardPredicate::BalanceConservation => check_balance_conservation(before, after),
            StandardPredicate::NonNegativeBalance => check_non_negative_balance(before, after),
            StandardPredicate::TransactionAtomicity => check_transaction_atomicity(before, after),
            StandardPredicate::DoubleSpend => check_double_spend(before, after),
            StandardPredicate::StepOrdering => check_step_ordering(before, after),
            StandardPredicate::CompletionRequirement => check_completion_requirement(before, after),
            StandardPredicate::StateConsistency => check_state_consistency(before, after),
            StandardPredicate::ClientInputTrust => check_client_input_trust(before, after),
            StandardPredicate::ServerSideValidation => check_server_side_validation(before, after),
            StandardPredicate::ModificationAuthorization => check_modification_authorization(before, after),
            StandardPredicate::VersionMonotonicity => check_version_monotonicity(before, after),
            StandardPredicate::FixationPrevention => check_fixation_prevention(before, after),
            StandardPredicate::UserBinding => check_user_binding(before, after),
            StandardPredicate::InputBounds => check_input_bounds(before, after),
        }
    }

    /// The identifier of the invariant.
    pub open spec fn id_text(self) -> Seq<char> {
        match self {
            StandardPredicate::CrossUserObjectAccess => "AUTH_001"@,
            StandardPredicate::PrivilegeEscalation => "AUTH_002"@,
            StandardPredicate::HorizontalBoundary => "AUTH_003"@,
            StandardPredicate::VerticalBoundary => "AUTH_004"@,
            StandardPredicate::BalanceConservation => "MON_001"@,
            StandardPredicate::NonNegativeBalance => "MON_002"@,
            StandardPredicate::TransactionAtomicity => "MON_003"@,
            StandardPredicate::DoubleSpend => "MON_004"@,
            StandardPredicate::StepOrdering => "WF_001"@,
            StandardPredicate::CompletionRequirement => "WF_002"@,
            StandardPredicate::StateConsistency => "WF_003"@,
            StandardPredicate::ClientInputTrust => "TRUST_001"@,
            StandardPredicate::ServerSideValidation => "TRUST_002"@,
            StandardPredicate::ModificationAuthorization => "DATA_001"@,
            StandardPredicate::VersionMonotonicity => "DATA_002"@,
            StandardPredicate::FixationPrevention => "SESS_001"@,
            StandardPredicate::UserBinding => "SESS_002"@,
            StandardPredicate::InputBounds => "INPUT_001"@,
        }
    }

    /// The identifier of the invariant.
    pub fn id(&self) -> (text: &'static str)
        ensures
            text@ == self.id_text(),
    {
        match self {
            StandardPredicate::CrossUserObjectAccess => "AUTH_001",
            StandardPredicate::PrivilegeEscalation => "AUTH_002",
            StandardPredicate::HorizontalBoundary => "AUTH_003",
            StandardPredicate::VerticalBoundary => "AUTH_004",
            StandardPredicate::BalanceConservation => "MON_001",
            StandardPredicate::NonNegativeBalance => "MON_002",
            StandardPredicate::TransactionAtomicity => "MON_003",
            StandardPredicate::DoubleSpend => "MON_004",
            StandardPredicate::StepOrdering => "WF_001",
            StandardPredicate::CompletionRequirement => "WF_002",
            StandardPredicate::StateConsistency => "WF_003",
            StandardPredicate::ClientInputTrust => "TRUST_001",
            StandardPredicate::ServerSideValidation => "TRUST_002",
            StandardPredicate::ModificationAuthorization => "DATA_001",
            StandardPredicate::VersionMonotonicity => "DATA_002",
            StandardPredicate::FixationPrevention => "SESS_001",
            StandardPredicate::UserBinding => "SESS_002",
            StandardPredicate::InputBounds => "INPUT_001",
        }
    }

    /// The name of the invariant.
    pub open spec fn name_text(self) -> Seq<char> {
        match self {
            StandardPredicate::CrossUserObjectAccess => "Cross-User Object Access"@,
            StandardPredicate::PrivilegeEscalation => "Privilege Escalation Prevention"@,
            StandardPredicate::HorizontalBoundary => "Horizontal Privilege Boundary"@,
            StandardPredicate::VerticalBoundary => "Vertical Privilege Boundary"@,
            StandardPredicate::BalanceConservation => "Balance Conservation"@,
            StandardPredicate::NonNegativeBalance => "Non-Negative Balance"@,
            StandardPredicate::TransactionAtomicity => "Transaction Atomicity"@,
            StandardPredicate::DoubleSpend => "Double Spend Prevention"@,
            StandardPredicate::StepOrdering => "Workflow Step Ordering"@,
            StandardPredicate::CompletionRequirement => "Workflow Completion Requirement"@,
            StandardPredicate::StateConsistency => "Workflow State Consistency"@,
            StandardPredicate::ClientInputTrust => "Client Input Trust Boundary"@,
            StandardPredicate::ServerSideValidation => "Server-Side Validation Required"@,
            StandardPredicate::ModificationAuthorization => "Data Modification Authorization"@,
            StandardPredicate::VersionMonotonicity => "Data Version Monotonicity"@,
            StandardPredicate::FixationPrevention => "Session Fixation Prevention"@,
            StandardPredicate::UserBinding => "Session User Binding"@,
            StandardPredicate::InputBounds => "Input Length Bounds"@,
        }
    }

    /// The name of the invariant.
    pub fn name(&self) -> (text: &'static str)
        ensures
            text@ == self.name_text(),
    {
        match self {
            StandardPredicate::CrossUserObjectAccess => "Cross-User Object Access",
            StandardPredicate::PrivilegeEscalation => "Privilege Escalation Prevention",
            StandardPredicate::HorizontalBoundary => "Horizontal Privilege Boundary",
            StandardPredicate::VerticalBoundary => "Vertical Privilege Boundary",
            StandardPredicate::BalanceConservation => "Balance Conservation",
            StandardPredicate::NonNegativeBalance => "Non-Negative Balance",
            StandardPredicate::TransactionAtomicity => "Transaction Atomicity",
            StandardPredicate::DoubleSpend => "Double Spend Prevention",
            StandardPredicate::StepOrdering => "Workflow Step Ordering",
            StandardPredicate::CompletionRequirement => "Workflow Completion Requirement",
            StandardPredicate::StateConsistency => "Workflow State Consistency",
            StandardPredicate::ClientInputTrust => "Client Input Trust Boundary",
            StandardPredicate::ServerSideValidation => "Server-Side Validation Required",
            StandardPredicate::ModificationAuthorization => "Data Modification Authorization",
            StandardPredicate::VersionMonotonicity => "Data Version Monotonicity",
            StandardPredicate::FixationPrevention => "Session Fixation Prevention",
            StandardPredicate::UserBinding => "Session User Binding",
            StandardPredicate::InputBounds => "Input Length Bounds",
        }
    }

    /// The description of the invariant.
    pub open spec fn description_text(self) -> Seq<char> {
        match self {
            StandardPredicate::CrossUserObjectAccess => "User A cannot access objects owned by User B without explicit permission"@,
            StandardPredicate::PrivilegeEscalation => "User cannot gain privileges without proper authorization flow"@,
            StandardPredicate::HorizontalBoundary => "User cannot access resources of another user at the same privilege level"@,
            StandardPredicate::VerticalBoundary => "Lower privilege users cannot perform higher privilege actions"@,
            StandardPredicate::BalanceConservation => "Total system balance must be conserved (no money creation/destruction)"@,
            StandardPredicate::NonNegativeBalance => "Account balances cannot go negative without explicit overdraft permission"@,
            StandardPredicate::TransactionAtomicity => "Financial transactions must be atomic - all or nothing"@,
            StandardPredicate::DoubleSpend => "Same funds cannot be spent twice in concurrent transactions"@,
            StandardPredicate::StepOrdering => "Workflow step N cannot be reached without completing step N-1"@,
            StandardPredicate::CompletionRequirement => "Critical workflows must be completed before final action"@,
            StandardPredicate::StateConsistency => "Workflow state must be consistent with completed steps"@,
            StandardPredicate::ClientInputTrust => "Client-controlled input cannot determine server trust decisions"@,
            StandardPredicate::ServerSideValidation => "All security-critical decisions must be validated server-side"@,
            StandardPredicate::ModificationAuthorization => "Data can only be modified by authorized users"@,
            StandardPredicate::VersionMonotonicity => "Data versions must only increase, never decrease"@,
            StandardPredicate::FixationPrevention => "Session ID must change after authentication"@,
            StandardPredicate::UserBinding => "Session cannot be transferred to a different user"@,
            StandardPredicate::InputBounds => "All inputs must be within defined length bounds"@,
        }
    }

    /// The description of the invariant.
    pub fn description(&self) -> (text: &'static str)
        ensures
            text@ == self.description_text(),
    {
        match self {
            StandardPredicate::CrossUserObjectAccess => "User A cannot access objects owned by User B without explicit permission",
            StandardPredicate::PrivilegeEscalation => "User cannot gain privileges without proper authorization flow",
            StandardPredicate::HorizontalBoundary => "User cannot access resources of another user at the same privilege level",
            StandardPredicate::VerticalBoundary => "Lower privilege users cannot perform higher privilege actions",
            StandardPredicate::BalanceConservation => "Total system balance must be conserved (no money creation/destruction)",
            StandardPredicate::NonNegativeBalance => "Account balances cannot go negative without explicit overdraft permission",
            StandardPredicate::TransactionAtomicity => "Financial transactions must be atomic - all or nothing",
            StandardPredicate::DoubleSpend => "Same funds cannot be spent twice in concurrent transactions",
            StandardPredicate::StepOrdering => "Workflow step N cannot be reached without completing step N-1",
            StandardPredicate::CompletionRequirement => "Critical workflows must be completed before final action",
            StandardPredicate::StateConsistency => "Workflow state must be consistent with completed steps",
            StandardPredicate::ClientInputTrust => "Client-controlled input cannot determine server trust decisions",
            StandardPredicate::ServerSideValidation => "All security-critical decisions must be validated server-side",
            StandardPredicate::ModificationAuthorization => "Data can only be modified by authorized users",
            StandardPredicate::VersionMonotonicity => "Data versions must only increase, never decrease",
            StandardPredicate::FixationPrevention => "Session ID must change after authentication",
            StandardPredicate::UserBinding => "Session cannot be transferred to a different user",
            StandardPredicate::InputBounds => "All inputs must be within defined length bounds",
        }
    }

    /// The message reported when the invariant is violated.
    pub open spec fn message_text(self) -> Seq<char> {
        match self {
            StandardPredicate::CrossUserObjectAccess => "Unauthorized cross-user object access detected"@,
            StandardPredicate::PrivilegeEscalation => "Unauthorized privilege escalation detected"@,
            StandardPredicate::HorizontalBoundary => "Horizontal privilege boundary violation detected"@,
            StandardPredicate::VerticalBoundary => "Vertical privilege boundary violation detected"@,
            StandardPredicate::BalanceConservation => "Balance conservation violation - money created or destroyed"@,
            StandardPredicate::NonNegativeBalance => "Negative balance detected without overdraft permission"@,
            StandardPredicate::TransactionAtomicity => "Partial transaction detected - atomicity violation"@,
            StandardPredicate::DoubleSpend => "Double spend attempt detected"@,
            StandardPredicate::StepOrdering => "Workflow step ordering violation - step skipped"@,
            StandardPredicate::CompletionRequirement => "Critical workflow not completed before final action"@,
            StandardPredicate::StateConsistency => "Workflow state inconsistency detected"@,
            StandardPredicate::ClientInputTrust => "Client input used in trust decision without validation"@,
            StandardPredicate::ServerSideValidation => "Security decision made without server-side validation"@,
            StandardPredicate::ModificationAuthorization => "Unauthorized data modification detected"@,
            StandardPredicate::VersionMonotonicity => "Data version regression detected"@,
            StandardPredicate::FixationPrevention => "Session fixation vulnerability - session ID not rotated after auth"@,
            StandardPredicate::UserBinding => "Session user binding violation - session transferred"@,
            StandardPredicate::InputBounds => "Input length bounds violation detected"@,
        }
    }

    /// The message reported when the invariant is violated.
    pub fn violation_message(&self) -> (text: &'static str)
        ensures
            text@ == self.message_text(),
    {
        match self {
            StandardPredicate::CrossUserObjectAccess => "Unauthorized cross-user object access detected",
            StandardPredicate::PrivilegeEscalation => "Unauthorized privilege escalation detected",
            StandardPredicate::HorizontalBoundary => "Horizontal privilege boundary violation detected",
            StandardPredicate::VerticalBoundary => "Vertical privilege boundary violation detected",
            StandardPredicate::BalanceConservation => "Balance conservation violation - money created or destroyed",
            StandardPredicate::NonNegativeBalance => "Negative balance detected without overdraft permission",
            StandardPredicate::TransactionAtomicity => "Partial transaction detected - atomicity violation",
            StandardPredicate::DoubleSpend => "Double spend attempt detected",
            StandardPredicate::StepOrdering => "Workflow step ordering violation - step skipped",
            StandardPredicate::CompletionRequirement => "Critical workflow not completed before final action",
            StandardPredicate::StateConsistency => "Workflow state inconsistency detected",
            StandardPredicate::ClientInputTrust => "Client input used in trust decision without validation",
            StandardPredicate::ServerSideValidation => "Security decision made without server-side validation",
            StandardPredicate::ModificationAuthorization => "Unauthorized data modification detected",
            StandardPredicate::VersionMonotonicity => "Data version regression detected",
            StandardPredicate::FixationPrevention => "Session fixation vulnerability - session ID not rotated after auth",
            StandardPredicate::UserBinding => "Session user binding violation - session transferred",
            StandardPredicate::InputBounds => "Input length bounds violation detected",
        }
    }

    /// The category of the invariant.
    pub open spec fn category_of(self) -> InvariantCategory {
        match self {
            StandardPredicate::CrossUserObjectAccess => InvariantCategory::Authorization,
            StandardPredicate::PrivilegeEscalation => InvariantCategory::Authorization,
            StandardPredicate::HorizontalBoundary => InvariantCategory::Authorization,
            StandardPredicate::VerticalBoundary => InvariantCategory::Authorization,
            StandardPredicate::BalanceConservation => InvariantCategory::Monetary,
            StandardPredicate::NonNegativeBalance => InvariantCategory::Monetary,
            StandardPredicate::TransactionAtomicity => InvariantCategory::Monetary,
            StandardPredicate::DoubleSpend => InvariantCategory::Monetary,
            StandardPredicate::StepOrdering => InvariantCategory::Workflow,
            StandardPredicate::CompletionRequirement => InvariantCategory::Workflow,
            StandardPredicate::StateConsistency => InvariantCategory::Workflow,
            StandardPredicate::ClientInputTrust => InvariantCategory::Trust,
            StandardPredicate::ServerSideValidation => InvariantCategory::Trust,
            StandardPredicate::ModificationAuthorization => InvariantCategory::DataIntegrity,
            StandardPredicate::VersionMonotonicity => InvariantCategory::DataIntegrity,
            StandardPredicate::FixationPrevention => InvariantCategory::SessionManagement,
            StandardPredicate::UserBinding => InvariantCategory::SessionManagement,
            StandardPredicate::InputBounds => InvariantCategory::InputValidation,
        }
    }

    /// The category of the invariant.
    pub fn category(&self) -> (category: InvariantCategory)
        ensures
            category == self.category_of(),
    {
        match self {
            StandardPredicate::CrossUserObjectAccess => InvariantCategory::Authorization,
            StandardPredicate::PrivilegeEscalation => InvariantCategory::Authorization,
            StandardPredicate::HorizontalBoundary => InvariantCategory::Authorization,
            StandardPredicate::VerticalBoundary => InvariantCategory::Authorization,
            StandardPredicate::BalanceConservation => InvariantCategory::Monetary,
            StandardPredicate::NonNegativeBalance => InvariantCategory::Monetary,
            StandardPredicate::TransactionAtomicity => InvariantCategory::Monetary,
            StandardPredicate::DoubleSpend => InvariantCategory::Monetary,
            StandardPredicate::StepOrdering => InvariantCategory::Workflow,
            StandardPredicate::CompletionRequirement => InvariantCategory::Workflow,
            StandardPredicate::StateConsistency => InvariantCategory::Workflow,
            StandardPredicate::ClientInputTrust => InvariantCategory::Trust,
            StandardPredicate::ServerSideValidation => InvariantCategory::Trust,
            StandardPredicate::ModificationAuthorization => InvariantCategory::DataIntegrity,
            StandardPredicate::VersionMonotonicity => InvariantCategory::DataIntegrity,
            StandardPredicate::FixationPrevention => InvariantCategory::SessionManagement,
            StandardPredicate::UserBinding => InvariantCategory::SessionManagement,
            StandardPredicate::InputBounds => InvariantCategory::InputValidation,
        }
    }

    /// Whether the invariant is recorded with its own provenance.
    pub open spec fn documented(self) -> bool {
        match self {
            StandardPredicate::CrossUserObjectAccess => true,
            StandardPredicate::PrivilegeEscalation => true,
            StandardPredicate::HorizontalBoundary => true,
            StandardPredicate::VerticalBoundary => true,
            _ => false,
        }
    }

    /// The security principle recorded for a documented invariant.
    pub open spec fn principle_text(self) -> Seq<char> {
        match self {
            StandardPredicate::CrossUserObjectAccess => "Principle of Least Privilege / Object-Level Authorization"@,
            StandardPredicate::PrivilegeEscalation => "Defense in Depth / Privilege Separation"@,
            StandardPredicate::HorizontalBoundary => "Horizontal Access Control / IDOR Prevention"@,
            StandardPredicate::VerticalBoundary => "Role-Based Access Control / Vertical Privilege Separation"@,
            _ => "Unspecified"@,
        }
    }

    /// The security principle recorded for a documented invariant.
    pub fn principle(&self) -> (text: &'static str)
        ensures
            text@ == self.principle_text(),
    {
        match self {
            StandardPredicate::CrossUserObjectAccess => "Principle of Least Privilege / Object-Level Authorization",
            StandardPredicate::PrivilegeEscalation => "Defense in Depth / Privilege Separation",
            StandardPredicate::HorizontalBoundary => "Horizontal Access Control / IDOR Prevention",
            StandardPredicate::VerticalBoundary => "Role-Based Access Control / Vertical Privilege Separation",
            _ => "Unspecified",
        }
    }

    /// The assumptions recorded for the invariant.
    pub open spec fn assumption_texts(self) -> Seq<Seq<char>> {
        match self {
            StandardPredicate::CrossUserObjectAccess => seq!["Ownership is tracked accurately in state"@, "Session user_id correctly identifies the acting user"@],
            StandardPredicate::PrivilegeEscalation => seq!["Role grants are recorded in authorization_events"@, "Session roles accurately reflect current privileges"@],
            StandardPredicate::HorizontalBoundary => seq!["Object ownership is correctly tracked"@, "Data object access is recorded in state"@],
            StandardPredicate::VerticalBoundary => seq!["Admin actions are tagged in authorization_events"@, "Session roles accurately reflect privilege level"@],
            _ => Seq::empty(),
        }
    }

    /// The assumptions recorded for the invariant.
    pub fn assumptions(&self) -> (texts: Vec<String>)
        ensures
            texts@.len() == self.assumption_texts().len(),
            forall|i: int| 0 <= i < texts@.len() ==> #[trigger] texts@[i]@ == self.assumption_texts()[i],
    {
        match self {
            StandardPredicate::CrossUserObjectAccess => pair_of("Ownership is tracked accurately in state", "Session user_id correctly identifies the acting user"),
            StandardPredicate::PrivilegeEscalation => pair_of("Role grants are recorded in authorization_events", "Session roles accurately reflect current privileges"),
            StandardPredicate::HorizontalBoundary => pair_of("Object ownership is correctly tracked", "Data object access is recorded in state"),
            StandardPredicate::VerticalBoundary => pair_of("Admin actions are tagged in authorization_events", "Session roles accurately reflect privilege level"),
            _ => Vec::new(),
        }
    }

    /// The blind spots recorded for the invariant.
    pub open spec fn blind_spot_texts(self) -> Seq<Seq<char>> {
        match self {
            StandardPredicate::CrossUserObjectAccess => seq!["Cannot detect indirect access via shared resources"@, "Does not cover implicit permissions from group membership"@],
            StandardPredicate::PrivilegeEscalation => seq!["Cannot detect privilege escalation via misconfigured backend"@, "Does not cover temporary privilege grants"@],
            StandardPredicate::HorizontalBoundary => seq!["Cannot detect access via API endpoints that don't track objects"@, "Does not cover shared/public resources"@],
            StandardPredicate::VerticalBoundary => seq!["Cannot detect privilege bypass via direct database access"@, "Does not cover actions not tagged as admin_action"@],
            _ => Seq::empty(),
        }
    }

    /// The blind spots recorded for the invariant.
    pub fn blind_spots(&self) -> (texts: Vec<String>)
        ensures
            texts@.len() == self.blind_spot_texts().len(),
            forall|i: int| 0 <= i < texts@.len() ==> #[trigger] texts@[i]@ == self.blind_spot_texts()[i],
    {
        match self {
            StandardPredicate::CrossUserObjectAccess => pair_of("Cannot detect indirect access via shared resources", "Does not cover implicit permissions from group membership"),
            StandardPredicate::PrivilegeEscalation => pair_of("Cannot detect privilege escalation via misconfigured backend", "Does not cover temporary privilege grants"),
            StandardPredicate::HorizontalBoundary => pair_of("Cannot detect access via API endpoints that don't track objects", "Does not cover shared/public resources"),
            StandardPredicate::VerticalBoundary => pair_of("Cannot detect privilege bypass via direct database access", "Does not cover actions not tagged as admin_action"),
            _ => Vec::new(),
        }
    }

    /// The standards reference recorded for the invariant.
    pub open spec fn reference_text(self) -> Option<Seq<char>> {
        match self {
            StandardPredicate::CrossUserObjectAccess => Some("OWASP ASVS 4.0.3 - V4.2.1 (Object Level Access Control)"@),
            StandardPredicate::PrivilegeEscalation => Some("OWASP ASVS 4.0.3 - V4.1.2 (Privilege Escalation)"@),
            StandardPredicate::HorizontalBoundary => Some("CWE-639 (Authorization Bypass Through User-Controlled Key)"@),
            StandardPredicate::VerticalBoundary => Some("OWASP ASVS 4.0.3 - V4.1.1 (Vertical Access Control)"@),
            _ => None,
        }
    }

    /// The standards reference recorded for the invariant.
    pub fn standards_reference(&self) -> (text: Option<&'static str>)
        ensures
            text is Some == self.reference_text() is Some,
            text is Some ==> text->0@ == self.reference_text()->0,
    {
        match self {
            StandardPredicate::CrossUserObjectAccess => Some("OWASP ASVS 4.0.3 - V4.2.1 (Object Level Access Control)"),
            StandardPredicate::PrivilegeEscalation => Some("OWASP ASVS 4.0.3 - V4.1.2 (Privilege Escalation)"),
            StandardPredicate::HorizontalBoundary => Some("CWE-639 (Authorization Bypass Through User-Controlled Key)"),
            StandardPredicate::VerticalBoundary => Some("OWASP ASVS 4.0.3 - V4.1.1 (Vertical Access Control)"),
            _ => None,
        }
    }

    /// When the invariant was last reviewed.
    pub open spec fn reviewed_text(self) -> Option<Seq<char>> {
        if self.documented() {
            Some("2024-12"@)
        } else {
            None
        }
    }

    /// When the invariant was last reviewed.
    pub fn last_reviewed(&self) -> (text: Option<&'static str>)
        ensures
            text is Some == self.reviewed_text() is Some,
            text is Some ==> text->0@ == self.reviewed_text()->0,
    {
        match self {
            StandardPredicate::CrossUserObjectAccess => Some("2024-12"),
            StandardPredicate::PrivilegeEscalation => Some("2024-12"),
            StandardPredicate::HorizontalBoundary => Some("2024-12"),
            StandardPredicate::VerticalBoundary => Some("2024-12"),
            _ => None,
        }
    }
}

/// A vector of two texts.
fn pair_of(first: &str, second: &str) -> (texts: Vec<String>)
    ensures
        texts@.len() == 2,
        texts@[0]@ == first@,
        texts@[1]@ == second@,
{
    let mut texts: Vec<String> = Vec::new();
    texts.push(first.to_owned());
    texts.push(second.to_owned());
    texts
}

/// The default predicates in the order in which the catalog registers them.
pub open spec fn standard_order() -> Seq<StandardPredicate> {
    seq![
        StandardPredicate::CrossUserObjectAccess,
        StandardPredicate::PrivilegeEscalation,
        StandardPredicate::HorizontalBoundary,
        StandardPredicate::VerticalBoundary,
        StandardPredicate::BalanceConservation,
        StandardPredicate::NonNegativeBalance,
        StandardPredicate::TransactionAtomicity,
        StandardPredicate::DoubleSpend,
        StandardPredicate::StepOrdering,
        StandardPredicate::CompletionRequirement,
        StandardPredicate::StateConsistency,
        StandardPredicate::ClientInputTrust,
        StandardPredicate::ServerSideValidation,
        StandardPredicate::ModificationAuthorization,
        StandardPredicate::VersionMonotonicity,
        StandardPredicate::FixationPrevention,
        StandardPredicate::UserBinding,
        StandardPredicate::InputBounds,
    ]
}

/// The default predicates in the order in which the catalog registers them.
pub fn standard_predicates() -> (order: Vec<StandardPredicate>)
    ensures
        order@ == standard_order(),
{
    let mut order: Vec<StandardPredicate> = Vec::new();
    order.push(StandardPredicate::CrossUserObjectAccess);
    order.push(StandardPredicate::PrivilegeEscalation);
    order.push(StandardPredicate::HorizontalBoundary);
    order.push(StandardPredicate::VerticalBoundary);
    order.push(StandardPredicate::BalanceConservation);
    order.push(StandardPredicate::NonNegativeBalance);
    order.push(StandardPredicate::TransactionAtomicity);
    order.push(StandardPredicate::DoubleSpend);
    order.push(StandardPredicate::StepOrdering);
    order.push(StandardPredicate::CompletionRequirement);
    order.push(StandardPredicate::StateConsistency);
    order.push(StandardPredicate::ClientInputTrust);
    order.push(StandardPredicate::ServerSideValidation);
    order.push(StandardPredicate::ModificationAuthorization);
    order.push(StandardPredicate::VersionMonotonicity);
    order.push(StandardPredicate::FixationPrevention);
    order.push(StandardPredicate::UserBinding);
    order.push(StandardPredicate::InputBounds);
    order
}

/// No two default invariants share an identifier.
pub proof fn lemma_standard_ids_distinct(first: StandardPredicate, second: StandardPredicate)
    requires
        first != second,
    ensures
        first.id_text() != second.id_text(),
{
    reveal_strlit("AUTH_001");
    reveal_strlit("AUTH_002");
    reveal_strlit("AUTH_003");
    reveal_strlit("AUTH_004");
    reveal_strlit("MON_001");
    reveal_strlit("MON_002");
    reveal_strlit("MON_003");
    reveal_strlit("MON_004");
    reveal_strlit("WF_001");
    reveal_strlit("WF_002");
    reveal_strlit("WF_003");
    reveal_strlit("TRUST_001");
    reveal_strlit("TRUST_002");
    reveal_strlit("DATA_001");
    reveal_strlit("DATA_002");
    reveal_strlit("SESS_001");
    reveal_strlit("SESS_002");
    reveal_strlit("INPUT_001");
    assert(first.id_text().len() == second.id_text().len() ==> first.id_text()[0]
        != second.id_text()[0] || first.id_text()[first.id_text().len() - 1]
        != second.id_text()[second.id_text().len() - 1]);
}

} // verus!
