//! The state store: a small typed key-value map, private to one contract
//! instance.

use vstd::prelude::*;
use crate::identity::{same_bytes, Identifier};

verus! {

/// The keys under which the contract keeps its state.
#[derive(Clone, Copy, Debug, PartialEq, Eq)]
pub enum DataKey {
    /// The administrator, who receives the payment.
    Admin,
    /// The asset in which the price is paid.
    TokenId,
    /// The asset that is sold.
    ItemId,
    /// The price at which the auction starts.
    Price,
    /// The floor under which the price never falls.
    MinPrice,
    /// The ledger time at which the auction started.
    Timestamp,
    /// The seconds that must pass for the price to fall by one unit.
    Slope,
    /// The nonce of one identity.
    Nonce(Identifier),
}

/// What the store can hold.
#[derive(Clone, Copy, Debug, PartialEq, Eq)]
pub enum StoredValue {
    Identity(Identifier),
    Asset([u8; 32]),
    Amount(i128),
    Time(u64),
}

impl DataKey {
    /// The kind of value that belongs under this key.
    pub open spec fn admits(self, value: StoredValue) -> bool {
        match self {
            DataKey::Admin => value is Identity,
            DataKey::TokenId | DataKey::ItemId => value is Asset,
            DataKey::Price | DataKey::MinPrice | DataKey::Slope | DataKey::Nonce(_) => value is Amount,
            DataKey::Timestamp => value is Time,
        }
    }

    /// Whether `value` is of the kind that belongs under this key.
    pub fn accepts(&self, value: &StoredValue) -> (r: bool)
        ensures
            r == self.admits(*value),
    {
        match self {
            DataKey::Admin => match value {
                StoredValue::Identity(_) => true,
                _ => false,
            },
            DataKey::TokenId | DataKey::ItemId => match value {
                StoredValue::Asset(_) => true,
                _ => false,
            },
            DataKey::Price | DataKey::MinPrice | DataKey::Slope | DataKey::Nonce(_) => match value {
                StoredValue::Amount(_) => true,
                _ => false,
            },
            DataKey::Timestamp => match value {
                StoredValue::Time(_) => true,
                _ => false,
            },
        }
    }

    /// Whether `self` and `other` are the same key.
    pub fn same(&self, other: &DataKey) -> (r: bool)
        ensures
            r == (*self == *other),
    {
        match (self, other) {
            (DataKey::Admin, DataKey::Admin) => true,
            (DataKey::TokenId, DataKey::TokenId) => true,
            (DataKey::ItemId, DataKey::ItemId) => true,
            (DataKey::Price, DataKey::Price) => true,
            (DataKey::MinPrice, DataKey::MinPrice) => true,
            (DataKey::Timestamp, DataKey::Timestamp) => true,
            (DataKey::Slope, DataKey::Slope) => true,
            (DataKey::Nonce(a), DataKey::Nonce(b)) => a.same(b),
            _ => false,
        }
    }
}

impl StoredValue {
    /// Whether `self` and `other` are the same value.
    pub fn same(&self, other: &StoredValue) -> (r: bool)
        ensures
            r == (*self == *other),
    {
        match (self, other) {
            (StoredValue::Identity(a), StoredValue::Identity(b)) => a.same(b),
            (StoredValue::Asset(a), StoredValue::Asset(b)) => same_bytes(a, b),
            (StoredValue::Amount(a), StoredValue::Amount(b)) => *a == *b,
            (StoredValue::Time(a), StoredValue::Time(b)) => *a == *b,
            _ => false,
        }
    }
}

/// One key with the value stored under it.
#[derive(Clone, Copy, Debug)]
struct Entry {
    key: DataKey,
    value: StoredValue,
}

/// The state store of one contract instance.
///
/// Its view is the map from the keys that were set to their values. No key
/// occurs twice, and every value is of the kind its key admits.
#[derive(Debug)]
pub struct Store {
    entries: Vec<Entry>,
}

/// No key occurs twice, and each value is of the kind its key admits.
spec fn entries_valid(entries: Seq<Entry>) -> bool {
    &&& forall|i: int| 0 <= i < entries.len() ==> (#[trigger] entries[i]).key.admits(entries[i].value)
    &&& forall|i: int, j: int|
        0 <= i < entries.len() && 0 <= j < entries.len() && i != j ==> (#[trigger] entries[i]).key
            != (#[trigger] entries[j]).key
}

/// Whether some entry has the key.
spec fn entries_hold(entries: Seq<Entry>, key: DataKey) -> bool {
    exists|i: int| 0 <= i < entries.len() && (#[trigger] entries[i]).key == key
}

/// The place of an entry with the key, where there is one.
spec fn entries_place(entries: Seq<Entry>, key: DataKey) -> int {
    choose|i: int| 0 <= i < entries.len() && (#[trigger] entries[i]).key == key
}

/// The map that a sequence of entries stands for.
spec fn entries_map(entries: Seq<Entry>) -> Map<DataKey, StoredValue> {
    Map::new(
        |key: DataKey| entries_hold(entries, key),
        |key: DataKey| entries[entries_place(entries, key)].value,
    )
}

impl View for Store {
    type V = Map<DataKey, StoredValue>;

    closed spec fn view(&self) -> Map<DataKey, StoredValue> {
        entries_map(self.entries@)
    }
}

impl Clone for Store {
    fn clone(&self) -> (r: Store)
        ensures
            r@ == self@,
    {
        proof {
            use_type_invariant(self);
        }
        let mut entries: Vec<Entry> = Vec::new();
        let mut i: usize = 0;
        while i < self.entries.len()
            invariant
                i <= self.entries@.len(),
                entries@ == self.entries@.take(i as int),
            decreases self.entries@.len() - i,
        {
            entries.push(self.entries[i]);
            assert(entries@ =~= self.entries@.take(i + 1));
            i += 1;
        }
        assert(entries@ =~= self.entries@);
        Store { entries }
    }
}

impl Store {
    #[verifier::type_invariant]
    spec fn valid(self) -> bool {
        entries_valid(self.entries@)
    }

    /// A store in which nothing is set.
    pub fn new() -> (r: Store)
        ensures
            r@ == Map::<DataKey, StoredValue>::empty(),
    {
        let r = Store { entries: Vec::new() };
        assert(r@ =~= Map::<DataKey, StoredValue>::empty());
        r
    }

    /// The place of `key` among the entries, if it is set.
    fn find(&self, key: &DataKey) -> (r: Option<usize>)
        ensures
            match r {
                Some(i) => i < self.entries@.len() && self.entries@[i as int].key == *key,
                None => !entries_hold(self.entries@, *key),
            },
    {
        let mut i: usize = 0;
        while i < self.entries.len()
            invariant
                i <= self.entries@.len(),
                forall|j: int| 0 <= j < i ==> (#[trigger] self.entries@[j]).key != *key,
            decreases self.entries@.len() - i,
        {
            if self.entries[i].key.same(key) {
                return Some(i);
            }
            i += 1;
        }
        None
    }

    /// Whether a value is set under `key`.
    pub fn has(&self, key: &DataKey) -> (r: bool)
        ensures
            r == self@.contains_key(*key),
    {
        self.find(key).is_some()
    }

    /// The value set under `key`, or `None` where none is.
    pub fn get(&self, key: &DataKey) -> (r: Option<StoredValue>)
        ensures
            r == (if self@.contains_key(*key) {
                Some(self@[*key])
            } else {
                None
            }),
            r matches Some(value) ==> key.admits(value),
    {
        proof {
            use_type_invariant(self);
        }
        match self.find(key) {
            Some(i) => {
                assert(self.entries@[i as int].key == *key);
                assert(entries_hold(self.entries@, *key));
                Some(self.entries[i].value)
            },
            None => None,
        }
    }

    /// Sets `value` under `key`, in place of what was there.
    pub fn set(&mut self, key: DataKey, value: StoredValue)
        requires
            key.admits(value),
        ensures
            final(self)@ == old(self)@.insert(key, value),
    {
        proof {
            use_type_invariant(&*self);
        }
        let entry = Entry { key, value };
        let place = self.find(&key);
        let mut taken = Store::new();
        std::mem::swap(self, &mut taken);
        let Store { entries } = taken;
        let mut entries = entries;
        match place {
            Some(i) => {
                entries.set(i, entry);
                proof {
                    Self::lemma_replaced(old(self).entries@, i as int, entry);
                }
            },
            None => {
                entries.push(entry);
                proof {
                    Self::lemma_appended(old(self).entries@, entry);
                }
            },
        }
        *self = Store { entries };
    }

    /// Replacing the value of an entry replaces it in the map.
    proof fn lemma_replaced(entries: Seq<Entry>, i: int, entry: Entry)
        requires
            entries_valid(entries),
            0 <= i < entries.len(),
            entries[i].key == entry.key,
            entry.key.admits(entry.value),
        ensures
            entries_valid(entries.update(i, entry)),
            entries_map(entries.update(i, entry)) == entries_map(entries).insert(
                entry.key,
                entry.value,
            ),
    {
        let after = entries.update(i, entry);
        assert forall|key: DataKey| entries_hold(after, key) == (entries_hold(entries, key) || key
            == entry.key) by {
            if entries_hold(after, key) {
                let j = entries_place(after, key);
                assert(entries[j].key == key);
            }
            if entries_hold(entries, key) {
                let j = entries_place(entries, key);
                assert(after[j].key == key);
            }
            if key == entry.key {
                assert(after[i].key == key);
            }
        }
        assert forall|key: DataKey| entries_hold(after, key) implies #[trigger] entries_map(after)[key]
            == entries_map(entries).insert(entry.key, entry.value)[key] by {
            let j = entries_place(after, key);
            if key == entry.key {
                assert(after[i].key == key);
                assert(j == i);
            } else {
                assert(entries[j].key == key);
                let k = entries_place(entries, key);
                assert(after[k].key == key);
                assert(j == k);
            }
        }
        assert(entries_map(after) =~= entries_map(entries).insert(entry.key, entry.value));
    }

    /// Appending an entry with a new key adds it to the map.
    proof fn lemma_appended(entries: Seq<Entry>, entry: Entry)
        requires
            entries_valid(entries),
            !entries_hold(entries, entry.key),
            entry.key.admits(entry.value),
        ensures
            entries_valid(entries.push(entry)),
            entries_map(entries.push(entry)) == entries_map(entries).insert(entry.key, entry.value),
    {
        let after = entries.push(entry);
        let n = entries.len() as int;
        assert forall|i: int, j: int|
            0 <= i < after.len() && 0 <= j < after.len() && i != j implies (#[trigger] after[i]).key
            != (#[trigger] after[j]).key by {
            if i < n && j < n {
                assert(entries[i].key != entries[j].key);
            } else if i < n {
                assert(entries[i].key != entry.key);
            } else {
                assert(entries[j].key != entry.key);
            }
        }
        assert forall|key: DataKey| entries_hold(after, key) == (entries_hold(entries, key) || key
            == entry.key) by {
            if entries_hold(after, key) {
                let j = entries_place(after, key);
                if j < n {
                    assert(entries[j].key == key);
                }
            }
            if entries_hold(entries, key) {
                let j = entries_place(entries, key);
                assert(after[j].key == key);
            }
            if key == entry.key {
                assert(after[n].key == key);
            }
        }
        assert forall|key: DataKey| entries_hold(after, key) implies #[trigger] entries_map(after)[key]
            == entries_map(entries).insert(entry.key, entry.value)[key] by {
            let j = entries_place(after, key);
            if key == entry.key {
                assert(after[n].key == key);
                assert(j == n);
            } else {
                assert(entries[j].key == key);
                let k = entries_place(entries, key);
                assert(after[k].key == key);
                assert(j == k);
            }
        }
        assert(entries_map(after) =~= entries_map(entries).insert(entry.key, entry.value));
    }
}

} // verus!
