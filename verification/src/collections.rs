//! Ordered mappings and sets keyed by text.
//!
//! Entries are kept in ascending key order, so a key occurs at most once and
//! two collections with the same contents are walked in the same order.

use vstd::prelude::*;
use crate::text::{compare_text, precedes, TextOrder, lemma_precedes_asymmetric, lemma_precedes_irreflexive, lemma_precedes_transitive};

verus! {

/// A value that can be copied without changing what it stands for.
pub trait Duplicate: View + Sized {
    fn duplicate(&self) -> (copy: Self)
        ensures
            copy@ == self@,
    ;
}

/// A key that is identified by a text.
pub trait TextKey: Sized {
    spec fn text(&self) -> Seq<char>;

    fn as_text(&self) -> (s: &str)
        ensures
            s@ == self.text(),
    ;

    fn copy_key(&self) -> (copy: Self)
        ensures
            copy.text() == self.text(),
    ;
}

impl TextKey for String {
    open spec fn text(&self) -> Seq<char> {
        self@
    }

    fn as_text(&self) -> (s: &str) {
        self.as_str()
    }

    fn copy_key(&self) -> (copy: Self) {
        self.clone()
    }
}

impl Duplicate for String {
    fn duplicate(&self) -> (copy: Self) {
        self.clone()
    }
}

impl Duplicate for i64 {
    fn duplicate(&self) -> (copy: Self) {
        *self
    }
}

impl Duplicate for () {
    fn duplicate(&self) -> (copy: Self) {
        ()
    }
}

/// The views of a sequence of values, in order.
pub open spec fn views<T: View>(s: Seq<T>) -> Seq<T::V> {
    Seq::new(s.len(), |i: int| s[i]@)
}

/// The view of an optional value.
pub open spec fn view_of<T: View>(o: Option<T>) -> Option<T::V> {
    match o {
        Some(x) => Some(x@),
        None => None,
    }
}

/// The items that satisfy `wanted`, in their order.
pub open spec fn keep<T>(items: Seq<T>, wanted: spec_fn(T) -> bool) -> Seq<T>
    decreases items.len(),
{
    if items.len() == 0 {
        Seq::empty()
    } else if wanted(items.last()) {
        keep(items.drop_last(), wanted).push(items.last())
    } else {
        keep(items.drop_last(), wanted)
    }
}

/// Copies every element of a vector.
pub fn duplicate_all<T: Duplicate>(items: &Vec<T>) -> (copy: Vec<T>)
    ensures
        views(copy@) == views(items@),
{
    let mut copy: Vec<T> = Vec::new();
    let mut i: usize = 0;
    while i < items.len()
        invariant
            i <= items@.len(),
            copy@.len() == i,
            forall|j: int| 0 <= j < i ==> copy@[j]@ == items@[j]@,
        decreases items@.len() - i,
    {
        copy.push(items[i].duplicate());
        i = i + 1;
    }
    copy
}

/// Keys in strictly ascending order.
pub open spec fn ascending(keys: Seq<Seq<char>>) -> bool {
    forall|i: int, j: int| 0 <= i < j < keys.len() ==> precedes(#[trigger] keys[i], #[trigger] keys[j])
}

/// `keys` holds exactly the members of `dom`, in ascending order.
pub open spec fn lists(keys: Seq<Seq<char>>, dom: Set<Seq<char>>) -> bool {
    &&& ascending(keys)
    &&& forall|k: Seq<char>| dom.contains(k) <==> keys.contains(k)
}

/// The members of a finite set of keys in ascending order.
pub open spec fn ordered_keys(dom: Set<Seq<char>>) -> Seq<Seq<char>> {
    choose|keys: Seq<Seq<char>>| lists(keys, dom)
}

/// Keys in ascending order are pairwise distinct.
pub proof fn lemma_ascending_distinct(keys: Seq<Seq<char>>)
    requires
        ascending(keys),
    ensures
        keys.no_duplicates(),
{
    assert forall|i: int, j: int| 0 <= i < keys.len() && 0 <= j < keys.len() && i != j implies keys[i]
        != keys[j] by {
        if i < j {
            lemma_precedes_asymmetric(keys[i], keys[j]);
        } else {
            lemma_precedes_asymmetric(keys[j], keys[i]);
        }
    }
}

/// A set of keys has at most one ascending listing.
pub proof fn lemma_listing_unique(a: Seq<Seq<char>>, b: Seq<Seq<char>>, dom: Set<Seq<char>>)
    requires
        lists(a, dom),
        lists(b, dom),
    ensures
        a == b,
    decreases a.len(),
{
    if a.len() == 0 {
        if b.len() > 0 {
            assert(b.contains(b[0]));
        }
    } else {
        assert(a.contains(a[0]));
        let m = choose|m: int| 0 <= m < b.len() && b[m] == a[0];
        assert(b.contains(b[0]));
        let j = choose|j: int| 0 <= j < a.len() && a[j] == b[0];
        if m > 0 && j > 0 {
            lemma_precedes_asymmetric(a[0], b[0]);
        }
        let rest = dom.remove(a[0]);
        let ta = a.drop_first();
        let tb = b.drop_first();
        lemma_ascending_distinct(a);
        lemma_ascending_distinct(b);
        assert forall|k: Seq<char>| rest.contains(k) <==> ta.contains(k) by {
            if rest.contains(k) {
                let i = choose|i: int| 0 <= i < a.len() && a[i] == k;
                assert(ta[i - 1] == k);
            }
        }
        assert forall|k: Seq<char>| rest.contains(k) <==> tb.contains(k) by {
            if rest.contains(k) {
                let i = choose|i: int| 0 <= i < b.len() && b[i] == k;
                assert(tb[i - 1] == k);
            }
        }
        lemma_listing_unique(ta, tb, rest);
        assert(a =~= seq![a[0]] + ta);
    }
}

/// A listed set is finite and has as many members as the listing has keys.
pub proof fn lemma_listing_size(keys: Seq<Seq<char>>, dom: Set<Seq<char>>)
    requires
        lists(keys, dom),
    ensures
        dom.finite(),
        dom.len() == keys.len(),
        ordered_keys(dom) == keys,
{
    lemma_ascending_distinct(keys);
    keys.unique_seq_to_set();
    vstd::seq_lib::seq_to_set_is_finite(keys);
    assert(dom =~= keys.to_set());
    lemma_listing_unique(ordered_keys(dom), keys, dom);
}

/// The keys of a sequence of entries.
spec fn entry_keys<K: TextKey, V>(entries: Seq<(K, V)>) -> Seq<Seq<char>> {
    Seq::new(entries.len(), |i: int| entries[i].0.text())
}

/// Where `key` stands among `keys`.
spec fn position(keys: Seq<Seq<char>>, key: Seq<char>) -> int {
    choose|i: int| 0 <= i < keys.len() && keys[i] == key
}

/// The mapping that a sequence of entries stands for.
spec fn entries_model<K: TextKey, V: View>(entries: Seq<(K, V)>) -> Map<Seq<char>, V::V> {
    Map::new(
        |k: Seq<char>| entry_keys(entries).contains(k),
        |k: Seq<char>| entries[position(entry_keys(entries), k)].1@,
    )
}

proof fn lemma_model<K: TextKey, V: View>(entries: Seq<(K, V)>)
    requires
        ascending(entry_keys(entries)),
    ensures
        lists(entry_keys(entries), entries_model(entries).dom()),
        ordered_keys(entries_model(entries).dom()) == entry_keys(entries),
        entries_model(entries).dom().finite(),
        entries_model(entries).len() == entries.len(),
        forall|i: int|
            0 <= i < entries.len() ==> {
                &&& entries_model(entries).contains_key(#[trigger] entry_keys(entries)[i])
                &&& entries_model(entries)[entry_keys(entries)[i]] == entries[i].1@
            },
{
    let keys = entry_keys(entries);
    let model = entries_model(entries);
    lemma_ascending_distinct(keys);
    lemma_listing_size(keys, model.dom());
}

/// A mapping from text keys to values, kept in ascending key order.
#[derive(Debug)]
pub struct SortedMap<K: TextKey, V: View> {
    entries: Vec<(K, V)>,
}

impl<K: TextKey, V: View> View for SortedMap<K, V> {
    type V = Map<Seq<char>, V::V>;

    closed spec fn view(&self) -> Map<Seq<char>, V::V> {
        entries_model(self.entries@)
    }
}

impl<K: TextKey, V: View> SortedMap<K, V> {
    #[verifier::type_invariant]
    spec fn in_order(&self) -> bool {
        ascending(entry_keys(self.entries@))
    }

    /// An empty mapping.
    pub fn new() -> (m: Self)
        ensures
            m@ == Map::<Seq<char>, V::V>::empty(),
    {
        let m = SortedMap { entries: Vec::new() };
        m
    }

    /// The number of entries.
    pub fn len(&self) -> (n: usize)
        ensures
            self@.dom().finite(),
            n == self@.len(),
            lists(ordered_keys(self@.dom()), self@.dom()),
            ordered_keys(self@.dom()).len() == n,
    {
        proof {
            use_type_invariant(self);
            lemma_model(self.entries@);
        }
        self.entries.len()
    }

    /// Whether the mapping has no entry.
    pub fn is_empty(&self) -> (empty: bool)
        ensures
            empty == (self@.len() == 0),
            empty == (self@ == Map::<Seq<char>, V::V>::empty()),
            self@.dom().finite(),
    {
        proof {
            use_type_invariant(self);
            lemma_model(self.entries@);
            if self.entries@.len() == 0 {
                assert(self@ =~= Map::<Seq<char>, V::V>::empty());
            }
        }
        self.entries.len() == 0
    }

    /// Finds `key`: whether it is present, and the position where it stands
    /// or would be inserted.
    fn locate(&self, key: &str) -> (found: (bool, usize))
        ensures
            found.1 <= self.entries@.len(),
            found.0 ==> found.1 < self.entries@.len() && entry_keys(self.entries@)[found.1 as int]
                == key@,
            found.0 == entry_keys(self.entries@).contains(key@),
            forall|j: int| 0 <= j < found.1 ==> precedes(#[trigger] entry_keys(self.entries@)[j], key@),
            forall|j: int|
                found.1 <= j < self.entries@.len() && !found.0 ==> precedes(
                    key@,
                    #[trigger] entry_keys(self.entries@)[j],
                ),
    {
        proof {
            use_type_invariant(self);
        }
        let ghost keys = entry_keys(self.entries@);
        let mut lo: usize = 0;
        let mut hi: usize = self.entries.len();
        while lo < hi
            invariant
                lo <= hi <= self.entries@.len(),
                keys == entry_keys(self.entries@),
                ascending(keys),
                forall|j: int| 0 <= j < lo ==> precedes(#[trigger] keys[j], key@),
                forall|j: int| hi <= j < keys.len() ==> precedes(key@, #[trigger] keys[j]),
            decreases hi - lo,
        {
            let mid: usize = lo + (hi - lo) / 2;
            let probe = self.entries[mid].0.as_text();
            assert(probe@ == keys[mid as int]);
            match compare_text(key, probe) {
                TextOrder::Same => {
                    return (true, mid);
                },
                TextOrder::Before => {
                    proof {
                        assert forall|j: int| mid <= j < keys.len() implies precedes(
                            key@,
                            #[trigger] keys[j],
                        ) by {
                            if j > mid {
                                lemma_precedes_transitive(key@, keys[mid as int], keys[j]);
                            }
                        }
                    }
                    hi = mid;
                },
                TextOrder::After => {
                    proof {
                        assert forall|j: int| 0 <= j < mid + 1 implies precedes(
                            #[trigger] keys[j],
                            key@,
                        ) by {
                            if j < mid {
                                lemma_precedes_transitive(keys[j], keys[mid as int], key@);
                            }
                        }
                    }
                    lo = mid + 1;
                },
            }
        }
        proof {
            if keys.contains(key@) {
                lemma_precedes_irreflexive(key@);
            }
        }
        (false, lo)
    }

    /// Whether `key` has an entry.
    pub fn contains_key(&self, key: &K) -> (present: bool)
        ensures
            present == self@.contains_key(key.text()),
    {
        let found = self.locate(key.as_text());
        found.0
    }

    /// The value stored under `key`, if any.
    pub fn get(&self, key: &K) -> (value: Option<&V>)
        ensures
            value is Some == self@.contains_key(key.text()),
            value is Some ==> value->0@ == self@[key.text()],
    {
        self.get_by_text(key.as_text())
    }

    /// The value stored under the key with the given text, if any.
    pub fn get_by_text(&self, key: &str) -> (value: Option<&V>)
        ensures
            value is Some == self@.contains_key(key@),
            value is Some ==> value->0@ == self@[key@],
    {
        proof {
            use_type_invariant(self);
            lemma_model(self.entries@);
        }
        let found = self.locate(key);
        if found.0 {
            Some(&self.entries[found.1].1)
        } else {
            None
        }
    }

    /// Stores `value` under `key` and hands back the value it replaces.
    pub fn insert(&mut self, key: K, value: V) -> (replaced: Option<V>)
        ensures
            final(self)@ == old(self)@.insert(key.text(), value@),
            replaced is Some == old(self)@.contains_key(key.text()),
            replaced is Some ==> replaced->0@ == old(self)@[key.text()],
    {
        proof {
            use_type_invariant(&*self);
            lemma_model(self.entries@);
        }
        let ghost before = self.entries@;
        let ghost k = key.text();
        let ghost v = value@;
        let found = self.locate(key.as_text());
        let at: usize = found.1;
        if found.0 {
            let mut entries: Vec<(K, V)> = Vec::new();
            core::mem::swap(&mut self.entries, &mut entries);
            let slot = entries.remove(at);
            entries.insert(at, (key, value));
            proof {
                let after = entries@;
                assert(entry_keys(after) =~= entry_keys(before));
                lemma_model(after);
            }
            self.entries = entries;
            Some(slot.1)
        } else {
            let mut entries: Vec<(K, V)> = Vec::new();
            core::mem::swap(&mut self.entries, &mut entries);
            entries.insert(at, (key, value));
            proof {
                let after = entries@;
                let kb = entry_keys(before);
                let ka = entry_keys(after);
                assert(ka =~= kb.insert(at as int, k));
                lemma_model(after);
                assert(entries_model(after) =~= entries_model(before).insert(k, v)) by {
                    assert forall|x: Seq<char>| entries_model(before).insert(k, v).contains_key(
                        x,
                    ) implies entries_model(after).contains_key(x) by {
                        if x == k {
                            assert(ka[at as int] == x);
                        } else {
                            let p = position(kb, x);
                            if p < at {
                                assert(ka[p] == x);
                            } else {
                                assert(ka[p + 1] == x);
                            }
                        }
                    }
                    assert forall|x: Seq<char>| entries_model(after).contains_key(x) implies #[trigger] entries_model(
                        after,
                    )[x] == entries_model(before).insert(k, v)[x] by {
                        let p = position(ka, x);
                        if p > at {
                            lemma_precedes_asymmetric(k, x);
                        }
                    }
                }
            }
            self.entries = entries;
            None
        }
    }

    /// The key at position `i` of the ascending key order.
    pub fn key_at(&self, i: usize) -> (key: &K)
        requires
            i < self@.len(),
        ensures
            key.text() == ordered_keys(self@.dom())[i as int],
            self@.contains_key(key.text()),
    {
        proof {
            use_type_invariant(self);
            lemma_model(self.entries@);
        }
        &self.entries[i].0
    }

    /// The value stored under the key at position `i` of the ascending key order.
    pub fn value_at(&self, i: usize) -> (value: &V)
        requires
            i < self@.len(),
        ensures
            value@ == self@[ordered_keys(self@.dom())[i as int]],
    {
        proof {
            use_type_invariant(self);
            lemma_model(self.entries@);
        }
        &self.entries[i].1
    }

    /// All entries, in ascending key order.
    pub fn entries(&self) -> (listed: Vec<(&K, &V)>)
        ensures
            listed@.len() == self@.len(),
            forall|i: int|
                0 <= i < listed@.len() ==> (#[trigger] listed@[i]).0.text() == ordered_keys(self@.dom())[i]
                    && listed@[i].1@ == self@[ordered_keys(self@.dom())[i]],
    {
        let n = self.len();
        let mut listed: Vec<(&K, &V)> = Vec::new();
        let mut i: usize = 0;
        while i < n
            invariant
                i <= n,
                n == self@.len(),
                listed@.len() == i,
                forall|j: int|
                    0 <= j < i ==> (#[trigger] listed@[j]).0.text() == ordered_keys(self@.dom())[j]
                        && listed@[j].1@ == self@[ordered_keys(self@.dom())[j]],
            decreases n - i,
        {
            listed.push((self.key_at(i), self.value_at(i)));
            i = i + 1;
        }
        listed
    }

    /// Removes every entry.
    pub fn clear(&mut self)
        ensures
            final(self)@ == Map::<Seq<char>, V::V>::empty(),
    {
        self.entries = Vec::new();
    }
}

impl<K: TextKey, V: Duplicate> Clone for SortedMap<K, V> {
    fn clone(&self) -> (copy: Self)
        ensures
            copy@ == self@,
    {
        proof {
            use_type_invariant(self);
        }
        let mut entries: Vec<(K, V)> = Vec::new();
        let mut i: usize = 0;
        while i < self.entries.len()
            invariant
                i <= self.entries@.len(),
                entries@.len() == i,
                forall|j: int|
                    0 <= j < i ==> #[trigger] entries@[j].0.text() == self.entries@[j].0.text()
                        && entries@[j].1@ == self.entries@[j].1@,
            decreases self.entries@.len() - i,
        {
            let k = self.entries[i].0.copy_key();
            let v = self.entries[i].1.duplicate();
            let ghost copied = entries@;
            entries.push((k, v));
            proof {
                assert forall|j: int| 0 <= j < i + 1 implies #[trigger] entries@[j].0.text()
                    == self.entries@[j].0.text() && entries@[j].1@ == self.entries@[j].1@ by {
                    if j < i {
                        assert(entries@[j] == copied[j]);
                    }
                }
            }
            i = i + 1;
        }
        proof {
            assert(entry_keys(entries@) =~= entry_keys(self.entries@));
            lemma_model(entries@);
            lemma_model(self.entries@);
        }
        SortedMap { entries }
    }
}

impl<K: TextKey, V: Duplicate> Duplicate for SortedMap<K, V> {
    fn duplicate(&self) -> (copy: Self) {
        self.clone()
    }
}

/// A set of text keys, kept in ascending order.
#[derive(Debug)]
pub struct SortedSet<K: TextKey> {
    members: SortedMap<K, ()>,
}

impl<K: TextKey> View for SortedSet<K> {
    type V = Set<Seq<char>>;

    closed spec fn view(&self) -> Set<Seq<char>> {
        self.members@.dom()
    }
}

impl<K: TextKey> SortedSet<K> {
    /// An empty set.
    pub fn new() -> (s: Self)
        ensures
            s@ == Set::<Seq<char>>::empty(),
    {
        let s = SortedSet { members: SortedMap::new() };
        s
    }

    /// The set of the given keys.
    pub fn from_vec(keys: Vec<K>) -> (s: Self)
        ensures
            forall|k: Seq<char>|
                s@.contains(k) <==> exists|i: int| 0 <= i < keys@.len() && #[trigger] keys@[i].text() == k,
    {
        let mut s = SortedSet::new();
        let mut i: usize = 0;
        while i < keys.len()
            invariant
                i <= keys@.len(),
                forall|k: Seq<char>|
                    s@.contains(k) <==> exists|j: int| 0 <= j < i && #[trigger] keys@[j].text() == k,
            decreases keys@.len() - i,
        {
            let key = keys[i].copy_key();
            s.insert(key);
            i = i + 1;
        }
        s
    }

    /// The number of members.
    pub fn len(&self) -> (n: usize)
        ensures
            self@.finite(),
            n == self@.len(),
            lists(ordered_keys(self@), self@),
            ordered_keys(self@).len() == n,
    {
        self.members.len()
    }

    /// Whether the set has no member.
    pub fn is_empty(&self) -> (empty: bool)
        ensures
            empty == (self@.len() == 0),
            self@.finite(),
    {
        self.members.is_empty()
    }

    /// Whether `key` is a member.
    pub fn contains(&self, key: &K) -> (present: bool)
        ensures
            present == self@.contains(key.text()),
    {
        self.members.contains_key(key)
    }

    /// Whether the key with the given text is a member.
    pub fn contains_text(&self, key: &str) -> (present: bool)
        ensures
            present == self@.contains(key@),
    {
        self.members.get_by_text(key).is_some()
    }

    /// Adds `key`; says whether it was absent before.
    pub fn insert(&mut self, key: K) -> (added: bool)
        ensures
            final(self)@ == old(self)@.insert(key.text()),
            added == !old(self)@.contains(key.text()),
    {
        let replaced = self.members.insert(key, ());
        replaced.is_none()
    }

    /// All members, in ascending order.
    pub fn members(&self) -> (listed: Vec<&K>)
        ensures
            listed@.len() == self@.len(),
            forall|i: int| 0 <= i < listed@.len() ==> (#[trigger] listed@[i]).text() == ordered_keys(self@)[i],
    {
        let n = self.len();
        let mut listed: Vec<&K> = Vec::new();
        let mut i: usize = 0;
        while i < n
            invariant
                i <= n,
                n == self@.len(),
                listed@.len() == i,
                forall|j: int| 0 <= j < i ==> (#[trigger] listed@[j]).text() == ordered_keys(self@)[j],
            decreases n - i,
        {
            listed.push(self.member_at(i));
            i = i + 1;
        }
        listed
    }

    /// The member at position `i` of the ascending order.
    pub fn member_at(&self, i: usize) -> (key: &K)
        requires
            i < self@.len(),
        ensures
            key.text() == ordered_keys(self@)[i as int],
            self@.contains(key.text()),
    {
        self.members.key_at(i)
    }
}

impl<K: TextKey> Clone for SortedSet<K> {
    fn clone(&self) -> (copy: Self)
        ensures
            copy@ == self@,
    {
        SortedSet { members: self.members.clone() }
    }
}

impl<K: TextKey> Duplicate for SortedSet<K> {
    fn duplicate(&self) -> (copy: Self) {
        self.clone()
    }
}

} // verus!
