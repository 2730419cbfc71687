//! The ledger: an append-only record of transitions in which every entry
//! carries the hash of its later state and the hash of the entry before it.

use vstd::prelude::*;
use crate::canonical::Canonical;
use crate::collections::{view_of, views, Duplicate, SortedMap};
use crate::state::encoding::state_json;
use crate::state::{ApplicationState, StateModel, StateTransition, TransitionModel};
use crate::text::same_text;
use crate::trusted::{hex_encode, hex_lower, random_uuid, sha256, sha256_digest};
use crate::types::Timestamp;

verus! {

/// The hash of a state: the SHA-256 digest of its canonical encoding, in
/// lower-case hexadecimal.
#[verifier::opaque]
pub open spec fn state_hash(state: StateModel) -> Seq<char> {
    hex_lower(sha256_digest(state_json(state)))
}

/// Computes the hash of a state.
pub fn hash_state(state: &ApplicationState) -> (hash: String)
    ensures
        hash@ == state_hash(state@),
{
    let encoded = state.encode();
    let digest = sha256(encoded.as_slice());
    proof {
        reveal(state_hash);
    }
    hex_encode(digest.as_slice())
}

/// Immutable snapshot of application state.
#[derive(Debug)]
pub struct StateSnapshot {
    pub state: ApplicationState,
    pub captured_at: Timestamp,
}

/// What a `StateSnapshot` stands for.
pub ghost struct SnapshotModel {
    pub state: StateModel,
    pub captured_at: Timestamp,
}

impl View for StateSnapshot {
    type V = SnapshotModel;

    open spec fn view(&self) -> SnapshotModel {
        SnapshotModel { state: self.state@, captured_at: self.captured_at }
    }
}

impl Clone for StateSnapshot {
    fn clone(&self) -> (copy: Self)
        ensures
            copy@ == self@,
    {
        StateSnapshot { state: self.state.clone(), captured_at: self.captured_at }
    }
}

impl Duplicate for StateSnapshot {
    fn duplicate(&self) -> (copy: Self) {
        self.clone()
    }
}

impl StateSnapshot {
    /// A snapshot of `state`, stamped with the current time.
    pub fn new(state: ApplicationState) -> (snapshot: Self)
        ensures
            snapshot.state == state,
    {
        Self { state, captured_at: Timestamp::now() }
    }

    /// The hash of the state, for integrity verification.
    pub fn hash(&self) -> (hash: String)
        ensures
            hash@ == state_hash(self.state@),
    {
        hash_state(&self.state)
    }
}

/// Entry in the state ledger.
#[derive(Debug)]
pub struct LedgerEntry {
    pub id: String,
    pub sequence: u64,
    pub transition: StateTransition,
    pub state_hash: String,
    pub previous_hash: Option<String>,
    pub timestamp: Timestamp,
}

/// What a `LedgerEntry` stands for.
pub ghost struct EntryModel {
    pub id: Seq<char>,
    pub sequence: u64,
    pub transition: TransitionModel,
    pub state_hash: Seq<char>,
    pub previous_hash: Option<Seq<char>>,
    pub timestamp: Timestamp,
}

impl View for LedgerEntry {
    type V = EntryModel;

    open spec fn view(&self) -> EntryModel {
        EntryModel {
            id: self.id@,
            sequence: self.sequence,
            transition: self.transition@,
            state_hash: self.state_hash@,
            previous_hash: view_of(self.previous_hash),
            timestamp: self.timestamp,
        }
    }
}

impl Clone for LedgerEntry {
    fn clone(&self) -> (copy: Self)
        ensures
            copy@ == self@,
    {
        let previous_hash = match &self.previous_hash {
            Some(hash) => Some(hash.clone()),
            None => None,
        };
        LedgerEntry {
            id: self.id.clone(),
            sequence: self.sequence,
            transition: self.transition.clone(),
            state_hash: self.state_hash.clone(),
            previous_hash,
            timestamp: self.timestamp,
        }
    }
}

impl Duplicate for LedgerEntry {
    fn duplicate(&self) -> (copy: Self) {
        self.clone()
    }
}

/// Whether the entry at position `i` is sound: it is numbered `i + 1`, it
/// carries the hash of the entry before it, or none where it is the first,
/// and its hash is the hash of its later state.
pub open spec fn sound_at(entries: Seq<EntryModel>, i: int) -> bool {
    &&& entries[i].sequence == i + 1
    &&& entries[i].previous_hash == if i == 0 {
        None
    } else {
        Some(entries[i - 1].state_hash)
    }
    &&& entries[i].state_hash == state_hash(entries[i].transition.to_state)
}

/// Whether every entry of a chain is sound.
pub open spec fn chain_intact(entries: Seq<EntryModel>) -> bool {
    forall|i: int| 0 <= i < entries.len() ==> #[trigger] sound_at(entries, i)
}

/// The entries stamped between `start` and `end`, both included, in order.
pub open spec fn stamped_within(entries: Seq<EntryModel>, start: Timestamp, end: Timestamp) -> Seq<
    EntryModel,
>
    decreases entries.len(),
{
    if entries.len() == 0 {
        Seq::empty()
    } else if start.at_or_before(entries.last().timestamp) && entries.last().timestamp.at_or_before(
        end,
    ) {
        stamped_within(entries.drop_last(), start, end).push(entries.last())
    } else {
        stamped_within(entries.drop_last(), start, end)
    }
}

/// The entries numbered between `from` and `to`, both included, in order.
pub open spec fn numbered_within(entries: Seq<EntryModel>, from: u64, to: u64) -> Seq<EntryModel>
    decreases entries.len(),
{
    if entries.len() == 0 {
        Seq::empty()
    } else if from <= entries.last().sequence <= to {
        numbered_within(entries.drop_last(), from, to).push(entries.last())
    } else {
        numbered_within(entries.drop_last(), from, to)
    }
}

/// Whether some entry has the identifier `id`.
pub open spec fn has_entry(entries: Seq<EntryModel>, id: Seq<char>) -> bool {
    exists|i: int| 0 <= i < entries.len() && #[trigger] entries[i].id == id
}

/// The position of the first entry with the identifier `id`.
pub open spec fn first_entry(entries: Seq<EntryModel>, id: Seq<char>) -> int {
    choose|i: int|
        0 <= i < entries.len() && #[trigger] entries[i].id == id && forall|j: int|
            0 <= j < i ==> (#[trigger] entries[j]).id != id
}

/// Whether every entry of a chain is sound, found by walking the chain and
/// computing the hash of every later state anew.
pub fn verify_chain(entries: &Vec<LedgerEntry>) -> (intact: bool)
    ensures
        intact == chain_intact(views(entries@)),
{
    let mut i: usize = 0;
    while i < entries.len()
        invariant
            i <= entries@.len(),
            forall|j: int| 0 <= j < i ==> #[trigger] sound_at(views(entries@), j),
        decreases entries@.len() - i,
    {
        let entry = &entries[i];
        if i as u64 >= u64::MAX || entry.sequence != i as u64 + 1 {
            assert(!sound_at(views(entries@), i as int));
            return false;
        }
        let linked = if i == 0 {
            entry.previous_hash.is_none()
        } else {
            match &entry.previous_hash {
                Some(hash) => same_text(hash.as_str(), entries[i - 1].state_hash.as_str()),
                None => false,
            }
        };
        if !linked {
            assert(!sound_at(views(entries@), i as int));
            return false;
        }
        let computed = hash_state(&entry.transition.to_state);
        if !same_text(computed.as_str(), entry.state_hash.as_str()) {
            assert(!sound_at(views(entries@), i as int));
            return false;
        }
        i = i + 1;
    }
    true
}

/// What a ledger holds: its entries, the snapshot of every later state
/// under its hash, and the sequence number given last.
struct Chain {
    entries: Vec<LedgerEntry>,
    snapshots: SortedMap<String, StateSnapshot>,
    current_sequence: u64,
}

/// Append-only ledger of all state transitions.
pub struct StateLedger {
    chain: Chain,
}

impl View for StateLedger {
    type V = Seq<EntryModel>;

    closed spec fn view(&self) -> Seq<EntryModel> {
        views(self.chain.entries@)
    }
}

impl StateLedger {
    #[verifier::type_invariant]
    spec fn sealed(&self) -> bool {
        &&& chain_intact(views(self.chain.entries@))
        &&& self.chain.current_sequence == self.chain.entries@.len()
        &&& forall|i: int|
            0 <= i < self.chain.entries@.len() ==> self.chain.snapshots@.contains_key(
                (#[trigger] self.chain.entries@[i]).state_hash@,
            )
    }

    /// The snapshots stashed, each under the hash of its state.
    pub closed spec fn stashed(&self) -> Map<Seq<char>, SnapshotModel> {
        self.chain.snapshots@
    }

    /// A ledger without entries.
    pub fn new() -> (ledger: Self)
        ensures
            ledger@ == Seq::<EntryModel>::empty(),
            ledger.stashed() == Map::<Seq<char>, SnapshotModel>::empty(),
    {
        let ledger = Self {
            chain: Chain { entries: Vec::new(), snapshots: SortedMap::new(), current_sequence: 0 },
        };
        ledger
    }

    /// Records a transition: appends an entry with the next sequence number,
    /// the hash of the later state and the hash of the entry before it, and
    /// hands back the identifier of the new entry.
    pub fn record_transition(&mut self, transition: StateTransition) -> (entry_id: String)
        requires
            old(self)@.len() < u64::MAX,
        ensures
            final(self)@.len() == old(self)@.len() + 1,
            final(self)@.drop_last() == old(self)@,
            final(self)@.last().id == entry_id@,
            final(self)@.last().sequence == old(self)@.len() + 1,
            final(self)@.last().transition == transition@,
            final(self)@.last().state_hash == state_hash(transition@.to_state),
            final(self)@.last().previous_hash == if old(self)@.len() == 0 {
                None
            } else {
                Some(old(self)@.last().state_hash)
            },
            chain_intact(final(self)@),
            entry_id@.len() == 36,
            final(self).stashed().contains_key(state_hash(transition@.to_state)),
            final(self).stashed()[state_hash(transition@.to_state)].state == transition@.to_state,
            final(self).stashed() == old(self).stashed().insert(
                state_hash(transition@.to_state),
                final(self).stashed()[state_hash(transition@.to_state)],
            ),
    {
        proof {
            use_type_invariant(&*self);
        }
        let entry_id = random_uuid();
        let snapshot = StateSnapshot::new(transition.to_state.clone());
        let state_hash = snapshot.hash();
        let previous_hash = if self.chain.entries.len() == 0 {
            None
        } else {
            Some(self.chain.entries[self.chain.entries.len() - 1].state_hash.clone())
        };
        let sequence: u64 = self.chain.current_sequence + 1;
        let entry = LedgerEntry {
            id: entry_id.clone(),
            sequence,
            transition,
            state_hash: state_hash.clone(),
            previous_hash,
            timestamp: Timestamp::now(),
        };
        let ghost before = self.chain.entries@;
        let mut chain = Chain {
            entries: Vec::new(),
            snapshots: SortedMap::new(),
            current_sequence: 0,
        };
        core::mem::swap(&mut self.chain, &mut chain);
        let mut entries = chain.entries;
        let mut snapshots = chain.snapshots;
        entries.push(entry);
        snapshots.insert(state_hash, snapshot);
        proof {
            assert forall|i: int| 0 <= i < entries@.len() implies #[trigger] sound_at(
                views(entries@),
                i,
            ) by {
                if i < before.len() {
                    assert(sound_at(views(before), i));
                }
            }
        }
        self.chain = Chain { entries, snapshots, current_sequence: sequence };
        entry_id
    }

    /// The snapshot stashed under a hash, if there is one.
    pub fn get_snapshot(&self, hash: &str) -> (snapshot: Option<&StateSnapshot>)
        ensures
            snapshot is Some == self.stashed().contains_key(hash@),
            snapshot is Some ==> snapshot->0@ == self.stashed()[hash@],
    {
        self.chain.snapshots.get_by_text(hash)
    }

    /// The first entry with the given identifier, if there is one.
    pub fn get_entry(&self, id: &str) -> (entry: Option<LedgerEntry>)
        ensures
            entry is Some == has_entry(self@, id@),
            entry is Some ==> entry->0@ == self@[first_entry(self@, id@)],
    {
        let mut i: usize = 0;
        while i < self.chain.entries.len()
            invariant
                i <= self.chain.entries@.len(),
                forall|j: int| 0 <= j < i ==> (#[trigger] self@[j]).id != id@,
            decreases self.chain.entries@.len() - i,
        {
            if same_text(self.chain.entries[i].id.as_str(), id) {
                assert(self@[i as int].id == id@);
                return Some(self.chain.entries[i].clone());
            }
            i = i + 1;
        }
        None
    }

    /// The entry with the given sequence number, if there is one.
    pub fn get_by_sequence(&self, sequence: u64) -> (entry: Option<LedgerEntry>)
        ensures
            entry is Some == (1 <= sequence <= self@.len()),
            entry is Some ==> entry->0@ == self@[sequence - 1] && entry->0.sequence == sequence,
    {
        proof {
            use_type_invariant(self);
        }
        if sequence >= 1 && sequence <= self.chain.current_sequence {
            assert(self.chain.entries@.len() == self.chain.entries.len());
            let at: usize = (sequence - 1) as usize;
            assert(sound_at(self@, at as int));
            let entry = self.chain.entries[at].clone();
            Some(entry)
        } else {
            None
        }
    }

    /// The entries stamped between `start` and `end`, both included.
    pub fn get_range(&self, start: Timestamp, end: Timestamp) -> (found: Vec<LedgerEntry>)
        ensures
            views(found@) == stamped_within(self@, start, end),
    {
        let mut found: Vec<LedgerEntry> = Vec::new();
        let mut i: usize = 0;
        while i < self.chain.entries.len()
            invariant
                i <= self.chain.entries@.len(),
                views(found@) == stamped_within(self@.take(i as int), start, end),
            decreases self.chain.entries@.len() - i,
        {
            let entry = &self.chain.entries[i];
            proof {
                assert(self@.take(i + 1).drop_last() =~= self@.take(i as int));
            }
            if start.is_at_or_before(&entry.timestamp) && entry.timestamp.is_at_or_before(&end) {
                found.push(entry.clone());
            }
            i = i + 1;
        }
        assert(self@.take(self.chain.entries@.len() as int) =~= self@);
        found
    }

    /// The later state of the last entry, if the ledger has an entry.
    pub fn get_latest_state(&self) -> (state: Option<ApplicationState>)
        ensures
            state is Some == (self@.len() > 0),
            state is Some ==> state->0@ == self@.last().transition.to_state,
    {
        if self.chain.entries.len() == 0 {
            None
        } else {
            let last = &self.chain.entries[self.chain.entries.len() - 1];
            Some(last.transition.to_state.clone())
        }
    }

    /// The later state of the entry with the given sequence number.
    pub fn get_state_at(&self, sequence: u64) -> (state: Option<ApplicationState>)
        ensures
            state is Some == (1 <= sequence <= self@.len()),
            state is Some ==> state->0@ == self@[sequence - 1].transition.to_state,
    {
        match self.get_by_sequence(sequence) {
            Some(entry) => Some(entry.transition.to_state),
            None => None,
        }
    }

    /// Whether every entry is sound, found by walking the ledger and
    /// computing the hash of every later state anew.
    pub fn verify_integrity(&self) -> (intact: bool)
        ensures
            intact == chain_intact(self@),
    {
        verify_chain(&self.chain.entries)
    }

    /// The number of entries; every entry of a ledger is sound.
    pub fn len(&self) -> (n: usize)
        ensures
            n == self@.len(),
            chain_intact(self@),
    {
        proof {
            use_type_invariant(self);
        }
        self.chain.entries.len()
    }

    /// Whether the ledger has no entry.
    pub fn is_empty(&self) -> (empty: bool)
        ensures
            empty == (self@.len() == 0),
    {
        self.chain.entries.len() == 0
    }

    /// The entries numbered between `from` and `to`, both included.
    pub fn get_replay_sequence(&self, from: u64, to: u64) -> (found: Vec<LedgerEntry>)
        ensures
            views(found@) == numbered_within(self@, from, to),
    {
        let mut found: Vec<LedgerEntry> = Vec::new();
        let mut i: usize = 0;
        while i < self.chain.entries.len()
            invariant
                i <= self.chain.entries@.len(),
                views(found@) == numbered_within(self@.take(i as int), from, to),
            decreases self.chain.entries@.len() - i,
        {
            let entry = &self.chain.entries[i];
            proof {
                assert(self@.take(i + 1).drop_last() =~= self@.take(i as int));
            }
            if entry.sequence >= from && entry.sequence <= to {
                found.push(entry.clone());
            }
            i = i + 1;
        }
        assert(self@.take(self.chain.entries@.len() as int) =~= self@);
        found
    }
}

impl Default for StateLedger {
    fn default() -> (ledger: Self)
        ensures
            ledger@ == Seq::<EntryModel>::empty(),
            ledger.stashed() == Map::<Seq<char>, SnapshotModel>::empty(),
    {
        StateLedger::new()
    }
}

/// Ledger sequence: the entries of an intact chain are numbered from one
/// without a gap.
pub proof fn lemma_sequence_gap_free(entries: Seq<EntryModel>, i: int)
    requires
        chain_intact(entries),
        0 <= i < entries.len(),
    ensures
        entries[i].sequence == i + 1,
{
    assert(sound_at(entries, i));
}

/// Ledger chain: every entry of an intact chain but the first carries the
/// hash of the entry before it.
pub proof fn lemma_chain_linked(entries: Seq<EntryModel>, i: int)
    requires
        chain_intact(entries),
        0 < i < entries.len(),
    ensures
        entries[i].previous_hash == Some(entries[i - 1].state_hash),
{
    assert(sound_at(entries, i));
}

/// Hash determinism: states with the same contents have the same hash,
/// however their mappings were filled.
pub proof fn lemma_hash_deterministic(first: ApplicationState, second: ApplicationState)
    requires
        first@ == second@,
    ensures
        state_hash(first@) == state_hash(second@),
{
}

/// The order in which two accounts are entered does not change the hash.
pub proof fn lemma_hash_ignores_entry_order(
    state: StateModel,
    first: Seq<char>,
    first_balance: crate::types::Balance,
    second: Seq<char>,
    second_balance: crate::types::Balance,
)
    requires
        first != second,
    ensures
        state_hash(
            StateModel {
                balances: state.balances.insert(first, first_balance).insert(second, second_balance),
                ..state
            },
        ) == state_hash(
            StateModel {
                balances: state.balances.insert(second, second_balance).insert(first, first_balance),
                ..state
            },
        ),
{
    assert(state.balances.insert(first, first_balance).insert(second, second_balance)
        =~= state.balances.insert(second, second_balance).insert(first, first_balance));
}

} // verus!
