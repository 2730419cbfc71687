//! The state tracker: a mutable view of the current state that is filled
//! step by step, with side logs of accesses, transactions and sessions.

use vstd::prelude::*;
use crate::collections::{duplicate_all, keep, view_of, views, Duplicate, SortedMap, SortedSet};
use crate::state::{
    Action, ApplicationState, SessionModel, SessionState, StateModel, StateTransition,
};
use crate::text::same_text;
use crate::trusted::random_uuid;
use crate::types::{AccountId, Balance, Currency, ObjectId, Role, SessionId, Timestamp, UserId};

verus! {

/// Types of access.
#[derive(Debug, Clone, Copy, PartialEq, Eq, Structural)]
pub enum AccessType {
    Read,
    Write,
    Delete,
    Transfer,
}

/// Record of object access.
#[derive(Debug)]
pub struct AccessRecord {
    pub object_id: ObjectId,
    pub user_id: UserId,
    pub access_type: AccessType,
    pub timestamp: Timestamp,
    pub authorized: bool,
}

/// What an `AccessRecord` stands for.
pub ghost struct AccessModel {
    pub object_id: Seq<char>,
    pub user_id: Seq<char>,
    pub access_type: AccessType,
    pub timestamp: Timestamp,
    pub authorized: bool,
}

impl View for AccessRecord {
    type V = AccessModel;

    open spec fn view(&self) -> AccessModel {
        AccessModel {
            object_id: self.object_id@,
            user_id: self.user_id@,
            access_type: self.access_type,
            timestamp: self.timestamp,
            authorized: self.authorized,
        }
    }
}

impl Clone for AccessRecord {
    fn clone(&self) -> (copy: Self)
        ensures
            copy@ == self@,
    {
        AccessRecord {
            object_id: self.object_id.clone(),
            user_id: self.user_id.clone(),
            access_type: self.access_type,
            timestamp: self.timestamp,
            authorized: self.authorized,
        }
    }
}

impl Duplicate for AccessRecord {
    fn duplicate(&self) -> (copy: Self) {
        self.clone()
    }
}

/// Tracks object ownership and access patterns.
#[derive(Debug)]
pub struct OwnershipTracker {
    ownership: SortedMap<ObjectId, UserId>,
    access_log: Vec<AccessRecord>,
}

/// What an `OwnershipTracker` stands for.
pub ghost struct OwnershipModel {
    pub owners: Map<Seq<char>, Seq<char>>,
    pub access_log: Seq<AccessModel>,
}

impl View for OwnershipTracker {
    type V = OwnershipModel;

    closed spec fn view(&self) -> OwnershipModel {
        OwnershipModel { owners: self.ownership@, access_log: views(self.access_log@) }
    }
}

impl OwnershipTracker {
    /// A tracker without owners and without accesses.
    pub fn new() -> (tracker: Self)
        ensures
            tracker@.owners == Map::<Seq<char>, Seq<char>>::empty(),
            tracker@.access_log == Seq::<AccessModel>::empty(),
    {
        let tracker = Self { ownership: SortedMap::new(), access_log: Vec::new() };
        tracker
    }

    /// Sets the owner of an object.
    pub fn set_owner(&mut self, object_id: ObjectId, user_id: UserId)
        ensures
            final(self)@ == (OwnershipModel {
                owners: old(self)@.owners.insert(object_id@, user_id@),
                ..old(self)@
            }),
    {
        self.ownership.insert(object_id, user_id);
    }

    /// The owner of an object, if it has one.
    pub fn get_owner(&self, object_id: &ObjectId) -> (owner: Option<UserId>)
        ensures
            owner is Some == self@.owners.contains_key(object_id@),
            owner is Some ==> owner->0@ == self@.owners[object_id@],
    {
        match self.ownership.get(object_id) {
            Some(owner) => Some(owner.clone()),
            None => None,
        }
    }

    /// Whether `user_id` owns `object_id`.
    pub fn is_owner(&self, object_id: &ObjectId, user_id: &UserId) -> (owns: bool)
        ensures
            owns == (self@.owners.contains_key(object_id@) && self@.owners[object_id@] == user_id@),
    {
        match self.ownership.get(object_id) {
            Some(owner) => same_text(owner.0.as_str(), user_id.0.as_str()),
            None => false,
        }
    }

    /// Records an access attempt, stamped with the current time.
    pub fn record_access(
        &mut self,
        object_id: ObjectId,
        user_id: UserId,
        access_type: AccessType,
        authorized: bool,
    )
        ensures
            final(self)@.owners == old(self)@.owners,
            final(self)@.access_log.len() == old(self)@.access_log.len() + 1,
            final(self)@.access_log.drop_last() == old(self)@.access_log,
            final(self)@.access_log.last() == (AccessModel {
                object_id: object_id@,
                user_id: user_id@,
                access_type,
                authorized,
                timestamp: final(self)@.access_log.last().timestamp,
            }),
    {
        let record = AccessRecord {
            object_id,
            user_id,
            access_type,
            timestamp: Timestamp::now(),
            authorized,
        };
        self.access_log.push(record);
    }

    /// The accesses to an object, in the order in which they were recorded.
    pub fn get_access_history(&self, object_id: &ObjectId) -> (history: Vec<AccessRecord>)
        ensures
            views(history@) == keep(
                self@.access_log,
                |record: AccessModel| record.object_id == object_id@,
            ),
    {
        let ghost log = views(self.access_log@);
        let ghost wanted = |record: AccessModel| record.object_id == object_id@;
        let mut history: Vec<AccessRecord> = Vec::new();
        let mut i: usize = 0;
        while i < self.access_log.len()
            invariant
                i <= self.access_log@.len(),
                log == views(self.access_log@),
                wanted == |record: AccessModel| record.object_id == object_id@,
                views(history@) == keep(log.take(i as int), wanted),
            decreases self.access_log@.len() - i,
        {
            let record = &self.access_log[i];
            proof {
                assert(log.take(i + 1).drop_last() =~= log.take(i as int));
            }
            if same_text(record.object_id.0.as_str(), object_id.0.as_str()) {
                history.push(record.clone());
            }
            i = i + 1;
        }
        assert(log.take(self.access_log@.len() as int) =~= log);
        history
    }

    /// The accesses that were not authorized, in the order in which they
    /// were recorded.
    pub fn get_unauthorized_accesses(&self) -> (found: Vec<AccessRecord>)
        ensures
            views(found@) == keep(self@.access_log, |record: AccessModel| !record.authorized),
    {
        let ghost log = views(self.access_log@);
        let ghost wanted = |record: AccessModel| !record.authorized;
        let mut found: Vec<AccessRecord> = Vec::new();
        let mut i: usize = 0;
        while i < self.access_log.len()
            invariant
                i <= self.access_log@.len(),
                log == views(self.access_log@),
                wanted == |record: AccessModel| !record.authorized,
                views(found@) == keep(log.take(i as int), wanted),
            decreases self.access_log@.len() - i,
        {
            let record = &self.access_log[i];
            proof {
                assert(log.take(i + 1).drop_last() =~= log.take(i as int));
            }
            if !record.authorized {
                found.push(record.clone());
            }
            i = i + 1;
        }
        assert(log.take(self.access_log@.len() as int) =~= log);
        found
    }
}

impl Default for OwnershipTracker {
    fn default() -> (tracker: Self)
        ensures
            tracker@.owners == Map::<Seq<char>, Seq<char>>::empty(),
            tracker@.access_log == Seq::<AccessModel>::empty(),
    {
        OwnershipTracker::new()
    }
}

/// Record of a financial transaction.
#[derive(Debug)]
pub struct TransactionRecord {
    pub id: String,
    pub from_account: Option<AccountId>,
    pub to_account: Option<AccountId>,
    pub amount: i64,
    pub currency: Currency,
    pub balance_before: Option<Balance>,
    pub balance_after: Option<Balance>,
    pub timestamp: Timestamp,
}

/// What a `TransactionRecord` stands for.
pub ghost struct TransactionRecordModel {
    pub id: Seq<char>,
    pub from_account: Option<Seq<char>>,
    pub to_account: Option<Seq<char>>,
    pub amount: i64,
    pub currency: Currency,
    pub balance_before: Option<Balance>,
    pub balance_after: Option<Balance>,
    pub timestamp: Timestamp,
}

impl View for TransactionRecord {
    type V = TransactionRecordModel;

    open spec fn view(&self) -> TransactionRecordModel {
        TransactionRecordModel {
            id: self.id@,
            from_account: view_of(self.from_account),
            to_account: view_of(self.to_account),
            amount: self.amount,
            currency: self.currency,
            balance_before: self.balance_before,
            balance_after: self.balance_after,
            timestamp: self.timestamp,
        }
    }
}

impl Clone for TransactionRecord {
    fn clone(&self) -> (copy: Self)
        ensures
            copy@ == self@,
    {
        let from_account = match &self.from_account {
            Some(a) => Some(a.clone()),
            None => None,
        };
        let to_account = match &self.to_account {
            Some(a) => Some(a.clone()),
            None => None,
        };
        TransactionRecord {
            id: self.id.clone(),
            from_account,
            to_account,
            amount: self.amount,
            currency: self.currency,
            balance_before: self.balance_before,
            balance_after: self.balance_after,
            timestamp: self.timestamp,
        }
    }
}

impl Duplicate for TransactionRecord {
    fn duplicate(&self) -> (copy: Self) {
        self.clone()
    }
}

/// The balance of an account, if the account is known.
pub open spec fn balance_of(balances: Map<Seq<char>, Balance>, account: Option<Seq<char>>) -> Option<
    Balance,
> {
    match account {
        Some(a) => if balances.contains_key(a) {
            Some(balances[a])
        } else {
            None
        },
        None => None,
    }
}

/// The balances after `amount` is drawn from `from`, where that account is
/// known.
pub open spec fn debited(balances: Map<Seq<char>, Balance>, from: Option<Seq<char>>, amount: i64) -> Map<
    Seq<char>,
    Balance,
> {
    match from {
        Some(a) => if balances.contains_key(a) {
            balances.insert(
                a,
                Balance { amount: (balances[a].amount - amount) as i64, currency: balances[a].currency },
            )
        } else {
            balances
        },
        None => balances,
    }
}

/// The balances after `amount` is paid to `to`; an unknown account starts
/// at zero in the currency of the transaction.
pub open spec fn credited(
    balances: Map<Seq<char>, Balance>,
    to: Option<Seq<char>>,
    amount: i64,
    currency: Currency,
) -> Map<Seq<char>, Balance> {
    match to {
        Some(a) => if balances.contains_key(a) {
            balances.insert(
                a,
                Balance { amount: (balances[a].amount + amount) as i64, currency: balances[a].currency },
            )
        } else {
            balances.insert(a, Balance { amount, currency })
        },
        None => balances,
    }
}

/// Whether drawing `amount` from `from` and paying it to `to` keeps both
/// balances within the range of amounts.
pub open spec fn transfer_fits(
    balances: Map<Seq<char>, Balance>,
    from: Option<Seq<char>>,
    to: Option<Seq<char>>,
    amount: i64,
) -> bool {
    &&& from is Some && balances.contains_key(from->0) ==> i64::MIN <= balances[from->0].amount
        - amount <= i64::MAX
    &&& to is Some && debited(balances, from, amount).contains_key(to->0) ==> i64::MIN <= debited(
        balances,
        from,
        amount,
    )[to->0].amount + amount <= i64::MAX
}

/// The sum of the amounts that `balances` holds under `keys` in `currency`.
pub open spec fn sum_in_currency(keys: Seq<Seq<char>>, balances: Map<Seq<char>, Balance>, currency: Currency) -> int
    decreases keys.len(),
{
    if keys.len() == 0 {
        0
    } else {
        sum_in_currency(keys.drop_last(), balances, currency) + if balances[keys.last()].currency
            == currency {
            balances[keys.last()].amount as int
        } else {
            0
        }
    }
}

/// The sum of all balances in `currency`.
pub open spec fn total_in_currency(balances: Map<Seq<char>, Balance>, currency: Currency) -> int {
    sum_in_currency(crate::collections::ordered_keys(balances.dom()), balances, currency)
}

/// Monitors financial state changes.
#[derive(Debug)]
pub struct BalanceMonitor {
    balances: SortedMap<AccountId, Balance>,
    transactions: Vec<TransactionRecord>,
}

/// What a `BalanceMonitor` stands for.
pub ghost struct MonitorModel {
    pub balances: Map<Seq<char>, Balance>,
    pub transactions: Seq<TransactionRecordModel>,
}

impl View for BalanceMonitor {
    type V = MonitorModel;

    closed spec fn view(&self) -> MonitorModel {
        MonitorModel { balances: self.balances@, transactions: views(self.transactions@) }
    }
}

impl BalanceMonitor {
    /// A monitor without balances and without transactions.
    pub fn new() -> (monitor: Self)
        ensures
            monitor@.balances == Map::<Seq<char>, Balance>::empty(),
            monitor@.transactions == Seq::<TransactionRecordModel>::empty(),
    {
        let monitor = Self { balances: SortedMap::new(), transactions: Vec::new() };
        monitor
    }

    /// Sets the balance of an account.
    pub fn set_balance(&mut self, account_id: AccountId, balance: Balance)
        ensures
            final(self)@ == (MonitorModel {
                balances: old(self)@.balances.insert(account_id@, balance),
                ..old(self)@
            }),
    {
        self.balances.insert(account_id, balance);
    }

    /// The balance of an account, if the account is known.
    pub fn get_balance(&self, account_id: &AccountId) -> (balance: Option<Balance>)
        ensures
            balance == balance_of(self@.balances, Some(account_id@)),
    {
        match self.balances.get(account_id) {
            Some(balance) => Some(*balance),
            None => None,
        }
    }

    /// The balance of an optional account.
    fn balance_at(&self, account: &Option<AccountId>) -> (balance: Option<Balance>)
        ensures
            balance == balance_of(self@.balances, view_of(*account)),
    {
        match account {
            Some(a) => self.get_balance(a),
            None => None,
        }
    }

    /// Records a transaction and applies it: draws the amount from the first
    /// account, where that is known, and pays it to the second, which starts
    /// at zero where it is unknown. Hands back the identifier of the record.
    pub fn record_transaction(
        &mut self,
        from: Option<AccountId>,
        to: Option<AccountId>,
        amount: i64,
        currency: Currency,
    ) -> (id: String)
        requires
            transfer_fits(old(self)@.balances, view_of(from), view_of(to), amount),
        ensures
            final(self)@.balances == credited(
                debited(old(self)@.balances, view_of(from), amount),
                view_of(to),
                amount,
                currency,
            ),
            final(self)@.transactions.len() == old(self)@.transactions.len() + 1,
            final(self)@.transactions.drop_last() == old(self)@.transactions,
            final(self)@.transactions.last() == (TransactionRecordModel {
                id: id@,
                from_account: view_of(from),
                to_account: view_of(to),
                amount,
                currency,
                balance_before: balance_of(old(self)@.balances, view_of(from)),
                balance_after: balance_of(final(self)@.balances, view_of(from)),
                timestamp: final(self)@.transactions.last().timestamp,
            }),
            id@.len() == 36,
    {
        let id = random_uuid();
        let balance_before = self.balance_at(&from);
        match &from {
            Some(account) => {
                match self.get_balance(account) {
                    Some(balance) => {
                        self.set_balance(
                            account.clone(),
                            Balance { amount: balance.amount - amount, currency: balance.currency },
                        );
                    },
                    None => {},
                }
            },
            None => {},
        }
        match &to {
            Some(account) => {
                let balance = match self.get_balance(account) {
                    Some(balance) => balance,
                    None => Balance::zero(currency),
                };
                self.set_balance(
                    account.clone(),
                    Balance { amount: balance.amount + amount, currency: balance.currency },
                );
            },
            None => {},
        }
        let balance_after = self.balance_at(&from);
        let record = TransactionRecord {
            id: id.clone(),
            from_account: from,
            to_account: to,
            amount,
            currency,
            balance_before,
            balance_after,
            timestamp: Timestamp::now(),
        };
        self.transactions.push(record);
        id
    }

    /// The sum of all balances in `currency`.
    pub fn get_total_balance(&self, currency: Currency) -> (total: i128)
        ensures
            total == total_in_currency(self@.balances, currency),
    {
        let n = self.balances.len();
        let ghost keys = crate::collections::ordered_keys(self.balances@.dom());
        let mut total: i128 = 0;
        let mut i: usize = 0;
        while i < n
            invariant
                i <= n,
                n == self.balances@.len(),
                keys == crate::collections::ordered_keys(self.balances@.dom()),
                keys.len() == n,
                total == sum_in_currency(keys.take(i as int), self.balances@, currency),
                -(i * 0x8000_0000_0000_0000) <= total <= i * 0x8000_0000_0000_0000,
            decreases n - i,
        {
            let balance = self.balances.value_at(i);
            proof {
                assert(keys.take(i + 1).drop_last() =~= keys.take(i as int));
            }
            if balance.currency == currency {
                total = total + balance.amount as i128;
            }
            i = i + 1;
        }
        assert(keys.take(n as int) =~= keys);
        total
    }

    /// Whether the balances in `currency` sum to `expected_total`.
    pub fn verify_conservation(&self, currency: Currency, expected_total: i64) -> (conserved: bool)
        ensures
            conserved == (total_in_currency(self@.balances, currency) == expected_total),
    {
        self.get_total_balance(currency) == expected_total as i128
    }

    /// The transactions recorded, in their order.
    pub fn get_transactions(&self) -> (transactions: Vec<TransactionRecord>)
        ensures
            views(transactions@) == self@.transactions,
    {
        duplicate_all(&self.transactions)
    }
}

impl Default for BalanceMonitor {
    fn default() -> (monitor: Self)
        ensures
            monitor@.balances == Map::<Seq<char>, Balance>::empty(),
            monitor@.transactions == Seq::<TransactionRecordModel>::empty(),
    {
        BalanceMonitor::new()
    }
}

/// Types of session events.
#[derive(Debug, Clone, Copy, PartialEq, Eq, Structural)]
pub enum SessionEventType {
    Created,
    Authenticated,
    RoleChanged,
    Expired,
    Terminated,
}

/// Session event record.
#[derive(Debug)]
pub struct SessionEvent {
    pub session_id: SessionId,
    pub event_type: SessionEventType,
    pub timestamp: Timestamp,
}

/// What a `SessionEvent` stands for.
pub ghost struct SessionEventModel {
    pub session_id: Seq<char>,
    pub event_type: SessionEventType,
    pub timestamp: Timestamp,
}

impl View for SessionEvent {
    type V = SessionEventModel;

    open spec fn view(&self) -> SessionEventModel {
        SessionEventModel {
            session_id: self.session_id@,
            event_type: self.event_type,
            timestamp: self.timestamp,
        }
    }
}

impl Clone for SessionEvent {
    fn clone(&self) -> (copy: Self)
        ensures
            copy@ == self@,
    {
        SessionEvent {
            session_id: self.session_id.clone(),
            event_type: self.event_type,
            timestamp: self.timestamp,
        }
    }
}

impl Duplicate for SessionEvent {
    fn duplicate(&self) -> (copy: Self) {
        self.clone()
    }
}

/// Types of role changes.
#[derive(Debug, Clone, Copy, PartialEq, Eq, Structural)]
pub enum RoleChangeType {
    Added,
    Removed,
}

/// Role change event.
#[derive(Debug)]
pub struct RoleChangeEvent {
    pub session_id: SessionId,
    pub user_id: UserId,
    pub role: Role,
    pub change_type: RoleChangeType,
    pub timestamp: Timestamp,
}

/// What a `RoleChangeEvent` stands for.
pub ghost struct RoleChangeModel {
    pub session_id: Seq<char>,
    pub user_id: Seq<char>,
    pub role: Seq<char>,
    pub change_type: RoleChangeType,
    pub timestamp: Timestamp,
}

impl View for RoleChangeEvent {
    type V = RoleChangeModel;

    open spec fn view(&self) -> RoleChangeModel {
        RoleChangeModel {
            session_id: self.session_id@,
            user_id: self.user_id@,
            role: self.role@,
            change_type: self.change_type,
            timestamp: self.timestamp,
        }
    }
}

impl Clone for RoleChangeEvent {
    fn clone(&self) -> (copy: Self)
        ensures
            copy@ == self@,
    {
        RoleChangeEvent {
            session_id: self.session_id.clone(),
            user_id: self.user_id.clone(),
            role: self.role.clone(),
            change_type: self.change_type,
            timestamp: self.timestamp,
        }
    }
}

impl Duplicate for RoleChangeEvent {
    fn duplicate(&self) -> (copy: Self) {
        self.clone()
    }
}

/// Tracks user sessions and roles.
#[derive(Debug)]
pub struct SessionTracker {
    current_session: Option<SessionState>,
    session_history: Vec<SessionEvent>,
    role_changes: Vec<RoleChangeEvent>,
}

/// What a `SessionTracker` stands for.
pub ghost struct SessionTrackerModel {
    pub current_session: Option<SessionModel>,
    pub session_history: Seq<SessionEventModel>,
    pub role_changes: Seq<RoleChangeModel>,
}

impl View for SessionTracker {
    type V = SessionTrackerModel;

    closed spec fn view(&self) -> SessionTrackerModel {
        SessionTrackerModel {
            current_session: view_of(self.current_session),
            session_history: views(self.session_history@),
            role_changes: views(self.role_changes@),
        }
    }
}

impl SessionTracker {
    /// A tracker without a session and without events.
    pub fn new() -> (tracker: Self)
        ensures
            tracker@.current_session is None,
            tracker@.session_history == Seq::<SessionEventModel>::empty(),
            tracker@.role_changes == Seq::<RoleChangeModel>::empty(),
    {
        let tracker = Self {
            current_session: None,
            session_history: Vec::new(),
            role_changes: Vec::new(),
        };
        tracker
    }

    /// Makes `session` the current session and records the event: an
    /// authentication where the session is authenticated, a creation where
    /// it is not.
    pub fn set_current(&mut self, session: SessionState)
        ensures
            final(self)@.current_session == Some(session@),
            final(self)@.role_changes == old(self)@.role_changes,
            final(self)@.session_history.len() == old(self)@.session_history.len() + 1,
            final(self)@.session_history.drop_last() == old(self)@.session_history,
            final(self)@.session_history.last().session_id == session@.session_id,
            final(self)@.session_history.last().event_type == if session.authenticated {
                SessionEventType::Authenticated
            } else {
                SessionEventType::Created
            },
    {
        let event = SessionEvent {
            session_id: session.session_id.clone(),
            event_type: if session.authenticated {
                SessionEventType::Authenticated
            } else {
                SessionEventType::Created
            },
            timestamp: Timestamp::now(),
        };
        self.session_history.push(event);
        self.current_session = Some(session);
    }

    /// The current session, if there is one.
    pub fn get_current(&self) -> (session: Option<SessionState>)
        ensures
            view_of(session) == self@.current_session,
    {
        match &self.current_session {
            Some(session) => Some(session.clone()),
            None => None,
        }
    }

    /// Records a role change under the current session; without a current
    /// session nothing is recorded.
    pub fn record_role_change(&mut self, user_id: UserId, role: Role, change_type: RoleChangeType)
        ensures
            final(self)@.current_session == old(self)@.current_session,
            final(self)@.session_history == old(self)@.session_history,
            old(self)@.current_session is None ==> final(self)@.role_changes
                == old(self)@.role_changes,
            old(self)@.current_session is Some ==> {
                &&& final(self)@.role_changes.len() == old(self)@.role_changes.len() + 1
                &&& final(self)@.role_changes.drop_last() == old(self)@.role_changes
                &&& final(self)@.role_changes.last() == (RoleChangeModel {
                    session_id: old(self)@.current_session->0.session_id,
                    user_id: user_id@,
                    role: role@,
                    change_type,
                    timestamp: final(self)@.role_changes.last().timestamp,
                })
            },
    {
        match &self.current_session {
            Some(session) => {
                let event = RoleChangeEvent {
                    session_id: session.session_id.clone(),
                    user_id,
                    role,
                    change_type,
                    timestamp: Timestamp::now(),
                };
                self.role_changes.push(event);
            },
            None => {},
        }
    }

    /// Whether the current session carries `role`.
    pub fn has_role(&self, role: &Role) -> (held: bool)
        ensures
            held == (self@.current_session is Some && self@.current_session->0.roles.contains(
                role@,
            )),
    {
        match &self.current_session {
            Some(session) => session.roles.contains(role),
            None => false,
        }
    }

    /// The roles of the current session; none without a current session.
    pub fn get_roles(&self) -> (roles: SortedSet<Role>)
        ensures
            roles@ == match self@.current_session {
                Some(session) => session.roles,
                None => Set::<Seq<char>>::empty(),
            },
    {
        match &self.current_session {
            Some(session) => session.roles.clone(),
            None => SortedSet::new(),
        }
    }

    /// Ends the current session and records its termination; without a
    /// current session nothing changes.
    pub fn terminate(&mut self)
        ensures
            final(self)@.current_session is None,
            final(self)@.role_changes == old(self)@.role_changes,
            old(self)@.current_session is None ==> final(self)@.session_history
                == old(self)@.session_history,
            old(self)@.current_session is Some ==> {
                &&& final(self)@.session_history.len() == old(self)@.session_history.len() + 1
                &&& final(self)@.session_history.drop_last() == old(self)@.session_history
                &&& final(self)@.session_history.last().session_id
                    == old(self)@.current_session->0.session_id
                &&& final(self)@.session_history.last().event_type == SessionEventType::Terminated
            },
    {
        let mut ended: Option<SessionState> = None;
        core::mem::swap(&mut self.current_session, &mut ended);
        match ended {
            Some(session) => {
                let event = SessionEvent {
                    session_id: session.session_id,
                    event_type: SessionEventType::Terminated,
                    timestamp: Timestamp::now(),
                };
                self.session_history.push(event);
            },
            None => {},
        }
    }

    /// The session events recorded, in their order.
    pub fn get_history(&self) -> (history: Vec<SessionEvent>)
        ensures
            views(history@) == self@.session_history,
    {
        duplicate_all(&self.session_history)
    }

    /// The role changes recorded, in their order.
    pub fn get_role_changes(&self) -> (changes: Vec<RoleChangeEvent>)
        ensures
            views(changes@) == self@.role_changes,
    {
        duplicate_all(&self.role_changes)
    }
}

impl Default for SessionTracker {
    fn default() -> (tracker: Self)
        ensures
            tracker@.current_session is None,
            tracker@.session_history == Seq::<SessionEventModel>::empty(),
            tracker@.role_changes == Seq::<RoleChangeModel>::empty(),
    {
        SessionTracker::new()
    }
}

/// Main state tracker that coordinates all tracking subsystems.
#[derive(Debug)]
pub struct StateTracker {
    ownership: OwnershipTracker,
    balance: BalanceMonitor,
    session: SessionTracker,
    current_state: ApplicationState,
}

impl StateTracker {
    /// The current state.
    pub closed spec fn state(&self) -> StateModel {
        self.current_state@
    }

    /// The ownership tracker.
    pub closed spec fn ownership_of(&self) -> OwnershipTracker {
        self.ownership
    }

    /// The balance monitor.
    pub closed spec fn balance_of(&self) -> BalanceMonitor {
        self.balance
    }

    /// The session tracker.
    pub closed spec fn session_of(&self) -> SessionTracker {
        self.session
    }

    /// A tracker whose current state is empty and stamped with the current
    /// time.
    pub fn new() -> (tracker: Self)
        ensures
            tracker.state().timestamp is Some,
            tracker.state() == StateModel::empty(tracker.state().timestamp),
            tracker.ownership_of()@.owners == Map::<Seq<char>, Seq<char>>::empty(),
            tracker.ownership_of()@.access_log == Seq::<AccessModel>::empty(),
            tracker.balance_of()@.balances == Map::<Seq<char>, Balance>::empty(),
            tracker.balance_of()@.transactions == Seq::<TransactionRecordModel>::empty(),
            tracker.session_of()@.current_session is None,
            tracker.session_of()@.session_history == Seq::<SessionEventModel>::empty(),
            tracker.session_of()@.role_changes == Seq::<RoleChangeModel>::empty(),
    {
        Self {
            ownership: OwnershipTracker::new(),
            balance: BalanceMonitor::new(),
            session: SessionTracker::new(),
            current_state: ApplicationState::new(),
        }
    }

    /// A copy of the current state.
    pub fn capture_state(&self) -> (state: ApplicationState)
        ensures
            state@ == self.state(),
    {
        self.current_state.clone()
    }

    /// Replaces the current state and hands back the transition from the
    /// state replaced to the new one.
    pub fn update_state(&mut self, new_state: ApplicationState, action: Action) -> (transition: StateTransition)
        ensures
            final(self).state() == new_state@,
            final(self).ownership_of() == old(self).ownership_of(),
            final(self).balance_of() == old(self).balance_of(),
            final(self).session_of() == old(self).session_of(),
            transition@.from_state == old(self).state(),
            transition@.to_state == new_state@,
            transition@.triggering_action == action@,
            transition@.id.len() == 36,
    {
        let to_state = new_state.clone();
        let mut from_state = new_state;
        core::mem::swap(&mut self.current_state, &mut from_state);
        StateTransition {
            id: random_uuid(),
            from_state,
            to_state,
            triggering_action: action,
            timestamp: Timestamp::now(),
        }
    }

    /// The ownership tracker.
    pub fn ownership(&self) -> (tracker: &OwnershipTracker)
        ensures
            *tracker == self.ownership_of(),
    {
        &self.ownership
    }

    /// The balance monitor.
    pub fn balance(&self) -> (monitor: &BalanceMonitor)
        ensures
            *monitor == self.balance_of(),
    {
        &self.balance
    }

    /// The session tracker.
    pub fn session(&self) -> (tracker: &SessionTracker)
        ensures
            *tracker == self.session_of(),
    {
        &self.session
    }

    /// Sets the owner of an object, in the ownership tracker and in the
    /// current state.
    pub fn set_ownership(&mut self, object_id: ObjectId, user_id: UserId)
        ensures
            final(self).state() == (StateModel {
                ownership: old(self).state().ownership.insert(object_id@, user_id@),
                ..old(self).state()
            }),
            final(self).ownership_of()@ == (OwnershipModel {
                owners: old(self).ownership_of()@.owners.insert(object_id@, user_id@),
                ..old(self).ownership_of()@
            }),
            final(self).balance_of() == old(self).balance_of(),
            final(self).session_of() == old(self).session_of(),
    {
        self.ownership.set_owner(object_id.clone(), user_id.clone());
        self.current_state.ownership.insert(object_id, user_id);
    }

    /// Sets the balance of an account, in the balance monitor and in the
    /// current state.
    pub fn set_balance(&mut self, account_id: AccountId, balance: Balance)
        ensures
            final(self).state() == (StateModel {
                balances: old(self).state().balances.insert(account_id@, balance),
                ..old(self).state()
            }),
            final(self).balance_of()@ == (MonitorModel {
                balances: old(self).balance_of()@.balances.insert(account_id@, balance),
                ..old(self).balance_of()@
            }),
            final(self).ownership_of() == old(self).ownership_of(),
            final(self).session_of() == old(self).session_of(),
    {
        self.balance.set_balance(account_id.clone(), balance);
        self.current_state.balances.insert(account_id, balance);
    }

    /// Sets the current session, in the session tracker and in the current
    /// state.
    pub fn set_session(&mut self, session: SessionState)
        ensures
            final(self).state() == (StateModel {
                current_session: Some(session@),
                ..old(self).state()
            }),
            final(self).session_of()@.current_session == Some(session@),
            final(self).ownership_of() == old(self).ownership_of(),
            final(self).balance_of() == old(self).balance_of(),
    {
        self.session.set_current(session.clone());
        self.current_state.current_session = Some(session);
    }
}

impl Default for StateTracker {
    fn default() -> (tracker: Self)
        ensures
            tracker.state().timestamp is Some,
            tracker.state() == StateModel::empty(tracker.state().timestamp),
    {
        StateTracker::new()
    }
}

} // verus!
