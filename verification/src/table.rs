//! A store of records, each kept at an address of its own.

use vstd::prelude::*;
use crate::address::Address;
use crate::error::ErrorCode;
use crate::state::Account;

verus! {

/// No two entries have the same address.
pub open spec fn distinct<T>(entries: Seq<Account<T>>) -> bool {
    forall|i: int, j: int|
        0 <= i < j < entries.len() ==> (#[trigger] entries[i]).key != (#[trigger] entries[j]).key
}

/// Some entry is kept at `key`.
pub open spec fn holds<T>(entries: Seq<Account<T>>, key: Address) -> bool {
    exists|i: int| 0 <= i < entries.len() && (#[trigger] entries[i]).key == key
}

/// The entries as a map from address to record.
pub open spec fn as_map<T>(entries: Seq<Account<T>>) -> Map<Address, T> {
    Map::new(
        |k: Address| holds(entries, k),
        |k: Address|
            entries[choose|i: int| 0 <= i < entries.len() && (#[trigger] entries[i]).key == k].data,
    )
}

proof fn lemma_as_map_index<T>(entries: Seq<Account<T>>, i: int)
    requires
        distinct(entries),
        0 <= i < entries.len(),
    ensures
        as_map(entries).contains_key(entries[i].key),
        as_map(entries)[entries[i].key] == entries[i].data,
{
    let k = entries[i].key;
    assert(holds(entries, k));
    let j = choose|j: int| 0 <= j < entries.len() && (#[trigger] entries[j]).key == k;
    assert(j == i);
}

proof fn lemma_as_map_push<T>(entries: Seq<Account<T>>, a: Account<T>)
    requires
        distinct(entries),
        !holds(entries, a.key),
    ensures
        distinct(entries.push(a)),
        as_map(entries.push(a)) == as_map(entries).insert(a.key, a.data),
        keys_of(entries.push(a)) == keys_of(entries).push(a.key),
{
    let after = entries.push(a);
    assert(keys_of(after) =~= keys_of(entries).push(a.key));
    assert forall|i: int, j: int| 0 <= i < j < after.len() implies (#[trigger] after[i]).key != (
    #[trigger] after[j]).key by {
        if j < entries.len() {
            assert(after[i] == entries[i] && after[j] == entries[j]);
        } else {
            assert(after[i] == entries[i]);
        }
    }
    assert forall|k: Address| #[trigger]
        as_map(after).contains_key(k) == as_map(entries).insert(a.key, a.data).contains_key(
            k,
        ) by {
        if holds(after, k) {
            let i = choose|i: int| 0 <= i < after.len() && (#[trigger] after[i]).key == k;
            if i < entries.len() {
                assert(entries[i].key == k);
            }
        }
        if holds(entries, k) {
            let i = choose|i: int| 0 <= i < entries.len() && (#[trigger] entries[i]).key == k;
            assert(after[i].key == k);
        }
        if k == a.key {
            assert(after[entries.len() as int].key == k);
        }
    }
    assert forall|k: Address| #[trigger] as_map(after).contains_key(k) implies as_map(after)[k]
        == as_map(entries).insert(a.key, a.data)[k] by {
        let i = choose|i: int| 0 <= i < after.len() && (#[trigger] after[i]).key == k;
        lemma_as_map_index(after, i);
        if i < entries.len() {
            assert(after[i] == entries[i]);
            lemma_as_map_index(entries, i);
        }
    }
    assert(as_map(after) =~= as_map(entries).insert(a.key, a.data));
}

proof fn lemma_as_map_update<T>(entries: Seq<Account<T>>, i: int, data: T)
    requires
        distinct(entries),
        0 <= i < entries.len(),
    ensures
        distinct(entries.update(i, entries[i].with_data(data))),
        as_map(entries.update(i, entries[i].with_data(data))) == as_map(entries).insert(
            entries[i].key,
            data,
        ),
        as_map(entries).contains_key(entries[i].key),
        keys_of(entries.update(i, entries[i].with_data(data))) == keys_of(entries),
{
    let key = entries[i].key;
    let after = entries.update(i, entries[i].with_data(data));
    assert(keys_of(after) =~= keys_of(entries));
    assert(holds(entries, key));
    assert forall|m: int| 0 <= m < after.len() implies (#[trigger] after[m]).key
        == entries[m].key by {}
    assert forall|m: int, n: int| 0 <= m < n < after.len() implies (#[trigger] after[m]).key != (
    #[trigger] after[n]).key by {
        assert(entries[m].key != entries[n].key);
    }
    assert forall|k: Address| #[trigger]
        as_map(after).contains_key(k) == as_map(entries).insert(key, data).contains_key(k) by {
        if holds(after, k) {
            let m = choose|m: int| 0 <= m < after.len() && (#[trigger] after[m]).key == k;
            assert(entries[m].key == k);
        }
        if holds(entries, k) {
            let m = choose|m: int| 0 <= m < entries.len() && (#[trigger] entries[m]).key == k;
            assert(after[m].key == k);
        }
        if k == key {
            assert(after[i].key == k);
        }
    }
    assert forall|k: Address| #[trigger] as_map(after).contains_key(k) implies as_map(after)[k]
        == as_map(entries).insert(key, data)[k] by {
        let m = choose|m: int| 0 <= m < after.len() && (#[trigger] after[m]).key == k;
        lemma_as_map_index(after, m);
        if m != i {
            assert(after[m] == entries[m]);
            lemma_as_map_index(entries, m);
        }
    }
    assert(as_map(after) =~= as_map(entries).insert(key, data));
}

/// Records of one kind, at most one at each address.
pub struct Table<T> {
    entries: Vec<Account<T>>,
}

impl<T> View for Table<T> {
    type V = Map<Address, T>;

    closed spec fn view(&self) -> Map<Address, T> {
        as_map(self.entries@)
    }
}

/// The addresses of the entries, in their order.
pub open spec fn keys_of<T>(entries: Seq<Account<T>>) -> Seq<Address> {
    Seq::new(entries.len(), |i: int| entries[i].key)
}

impl<T> Table<T> {
    /// No two records are kept at the same address.
    pub closed spec fn wf(&self) -> bool {
        distinct(self.entries@)
    }

    /// The addresses at which records are kept, in the order in which
    /// they came to be used.
    pub closed spec fn keys(&self) -> Seq<Address> {
        keys_of(self.entries@)
    }

    /// A table without records.
    pub fn new() -> (t: Table<T>)
        ensures
            t.wf(),
            t@ == Map::<Address, T>::empty(),
            t.keys() == Seq::<Address>::empty(),
    {
        let t = Table { entries: Vec::new() };
        assert(t@ =~= Map::<Address, T>::empty());
        assert(t.keys() =~= Seq::<Address>::empty());
        t
    }

    fn find(&self, key: &Address) -> (r: Option<usize>)
        ensures
            match r {
                Some(i) => i < self.entries@.len() && self.entries@[i as int].key == *key,
                None => !holds(self.entries@, *key),
            },
    {
        let mut i: usize = 0;
        while i < self.entries.len()
            invariant
                i <= self.entries@.len(),
                forall|j: int| 0 <= j < i ==> (#[trigger] self.entries@[j]).key != *key,
            decreases self.entries@.len() - i,
        {
            if self.entries[i].key == *key {
                return Some(i);
            }
            i += 1;
        }
        None
    }

    /// Whether a record is kept at `key`.
    pub fn contains(&self, key: &Address) -> (r: bool)
        ensures
            r == self@.contains_key(*key),
    {
        self.find(key).is_some()
    }

    /// The record that is kept at `key`, if there is one.
    pub fn get(&self, key: &Address) -> (r: Option<&T>)
        requires
            self.wf(),
        ensures
            match r {
                Some(v) => self@.contains_key(*key) && *v == self@[*key],
                None => !self@.contains_key(*key),
            },
    {
        match self.find(key) {
            Some(i) => {
                proof {
                    lemma_as_map_index(self.entries@, i as int);
                }
                Some(&self.entries[i].data)
            },
            None => None,
        }
    }

    /// Keeps `value` at `key`, where nothing is kept yet.
    pub fn insert(&mut self, key: Address, value: T) -> (r: Result<(), ErrorCode>)
        requires
            old(self).wf(),
        ensures
            final(self).wf(),
            match r {
                Ok(_) => {
                    &&& !old(self)@.contains_key(key)
                    &&& final(self)@ == old(self)@.insert(key, value)
                    &&& final(self).keys() == old(self).keys().push(key)
                },
                Err(e) => {
                    &&& e == ErrorCode::AlreadyExists
                    &&& old(self)@.contains_key(key)
                    &&& final(self)@ == old(self)@
                    &&& final(self).keys() == old(self).keys()
                },
            },
    {
        match self.find(&key) {
            Some(_) => Err(ErrorCode::AlreadyExists),
            None => {
                proof {
                    lemma_as_map_push(self.entries@, Account { key, data: value });
                }
                self.entries.push(Account { key, data: value });
                Ok(())
            },
        }
    }

    /// Replaces the record that is kept at `key`.
    pub fn set(&mut self, key: &Address, value: T) -> (r: Result<(), ErrorCode>)
        requires
            old(self).wf(),
        ensures
            final(self).wf(),
            match r {
                Ok(_) => {
                    &&& old(self)@.contains_key(*key)
                    &&& final(self)@ == old(self)@.insert(*key, value)
                },
                Err(e) => {
                    &&& e == ErrorCode::NotFound
                    &&& !old(self)@.contains_key(*key)
                    &&& final(self)@ == old(self)@
                },
            },
            final(self).keys() == old(self).keys(),
    {
        match self.find(key) {
            Some(i) => {
                proof {
                    lemma_as_map_update(self.entries@, i as int, value);
                }
                self.entries[i].data = value;
                Ok(())
            },
            None => Err(ErrorCode::NotFound),
        }
    }

    /// Keeps `value` at `key`, in place of what was kept there.
    pub fn put(&mut self, key: Address, value: T)
        requires
            old(self).wf(),
        ensures
            final(self).wf(),
            final(self)@ == old(self)@.insert(key, value),
            final(self).keys() == if old(self)@.contains_key(key) {
                old(self).keys()
            } else {
                old(self).keys().push(key)
            },
    {
        match self.find(&key) {
            Some(i) => {
                proof {
                    lemma_as_map_update(self.entries@, i as int, value);
                }
                self.entries[i].data = value;
            },
            None => {
                proof {
                    lemma_as_map_push(self.entries@, Account { key, data: value });
                }
                self.entries.push(Account { key, data: value });
            },
        }
    }

    /// How many records are kept.
    pub fn len(&self) -> (n: usize)
        requires
            self.wf(),
        ensures
            n == self@.dom().len(),
            self@.dom().finite(),
    {
        proof {
            lemma_as_map_len(self.entries@);
        }
        self.entries.len()
    }
}

proof fn lemma_as_map_len<T>(entries: Seq<Account<T>>)
    requires
        distinct(entries),
    ensures
        as_map(entries).dom().finite(),
        as_map(entries).dom().len() == entries.len(),
    decreases entries.len(),
{
    if entries.len() == 0 {
        assert(as_map(entries).dom() =~= Set::<Address>::empty());
    } else {
        let front = entries.drop_last();
        let last = entries.last();
        assert(distinct(front)) by {
            assert forall|i: int, j: int| 0 <= i < j < front.len() implies (#[trigger] front[i]).key
                != (#[trigger] front[j]).key by {
                assert(front[i] == entries[i] && front[j] == entries[j]);
            }
        }
        assert(!holds(front, last.key)) by {
            if holds(front, last.key) {
                let i = choose|i: int| 0 <= i < front.len() && (#[trigger] front[i]).key == last.key;
                assert(front[i] == entries[i]);
                assert(entries[entries.len() - 1] == last);
            }
        }
        lemma_as_map_len(front);
        lemma_as_map_push(front, last);
        assert(front.push(last) =~= entries);
        assert(as_map(entries).dom() =~= as_map(front).dom().insert(last.key));
    }
}

} // verus!
