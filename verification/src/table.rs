//! A table of values, each under an address of its own.

use crate::address::Address;
use vstd::prelude::*;

verus! {

/// One row of a table.
pub struct Entry<T> {
    pub key: Address,
    pub value: T,
}

/// Values kept under addresses, at most one under each. The table is read as
/// the map from each address that occurs to the value under it.
pub struct Table<T> {
    entries: Vec<Entry<T>>,
}

impl<T> View for Table<T> {
    type V = Map<Seq<u8>, T>;

    closed spec fn view(&self) -> Map<Seq<u8>, T> {
        Map::new(
            |key: Seq<u8>| self.holds(key),
            |key: Seq<u8>| self.entries@[self.row_of(key)].value,
        )
    }
}

impl<T> Table<T> {
    /// Some row lies under `key`.
    closed spec fn holds(&self, key: Seq<u8>) -> bool {
        exists|i: int| 0 <= i < self.entries@.len() && #[trigger] self.entries@[i].key@ == key
    }

    /// A row that lies under `key`, where there is one.
    closed spec fn row_of(&self, key: Seq<u8>) -> int {
        choose|i: int| 0 <= i < self.entries@.len() && #[trigger] self.entries@[i].key@ == key
    }

    /// No address has two rows.
    pub closed spec fn wf(&self) -> bool {
        forall|i: int, j: int|
            0 <= i < self.entries@.len() && 0 <= j < self.entries@.len() && i != j
                ==> #[trigger] self.entries@[i].key@ != #[trigger] self.entries@[j].key@
    }

    /// In a table without double rows, the row under the address of row `i`
    /// is row `i`.
    proof fn lemma_row_of(&self, i: int)
        requires
            self.wf(),
            0 <= i < self.entries@.len(),
        ensures
            self.holds(self.entries@[i].key@),
            self.row_of(self.entries@[i].key@) == i,
            self@.contains_key(self.entries@[i].key@),
            self@[self.entries@[i].key@] == self.entries@[i].value,
    {
        let key = self.entries@[i].key@;
        assert(self.entries@[i].key@ == key);
        let j = self.row_of(key);
        assert(0 <= j < self.entries@.len() && self.entries@[j].key@ == key);
    }

    /// The table without rows.
    pub fn new() -> (table: Table<T>)
        ensures
            table.wf(),
            table@ == Map::<Seq<u8>, T>::empty(),
    {
        let table = Table { entries: Vec::new() };
        assert(table@ =~= Map::<Seq<u8>, T>::empty());
        table
    }

    /// The row under `key`, if there is one.
    fn position(&self, key: &Address) -> (found: Option<usize>)
        ensures
            match found {
                Some(i) => i < self.entries@.len() && self.entries@[i as int].key@ == key@,
                None => !self.holds(key@),
            },
    {
        let mut i: usize = 0;
        while i < self.entries.len()
            invariant
                i <= self.entries@.len(),
                forall|j: int| 0 <= j < i ==> #[trigger] self.entries@[j].key@ != key@,
            decreases self.entries@.len() - i,
        {
            if self.entries[i].key == *key {
                return Some(i);
            }
            i += 1;
        }
        None
    }

    /// Whether a value lies under `key`.
    pub fn contains(&self, key: &Address) -> (found: bool)
        requires
            self.wf(),
        ensures
            found == self@.contains_key(key@),
    {
        match self.position(key) {
            Some(i) => {
                proof {
                    self.lemma_row_of(i as int);
                }
                true
            },
            None => false,
        }
    }

    /// The value under `key`, if there is one.
    pub fn get(&self, key: &Address) -> (found: Option<&T>)
        requires
            self.wf(),
        ensures
            match found {
                Some(value) => self@.contains_key(key@) && self@[key@] == *value,
                None => !self@.contains_key(key@),
            },
    {
        match self.position(key) {
            Some(i) => {
                proof {
                    self.lemma_row_of(i as int);
                }
                Some(&self.entries[i].value)
            },
            None => None,
        }
    }

    /// Puts `value` under `key`, in place of what was there, if anything was.
    pub fn put(&mut self, key: Address, value: T)
        requires
            old(self).wf(),
        ensures
            final(self).wf(),
            final(self)@ == old(self)@.insert(key@, value),
    {
        let ghost at: int;
        match self.position(&key) {
            Some(i) => {
                self.entries[i] = Entry { key, value };
                proof {
                    at = i as int;
                }
                assert(self.entries@.len() == old(self).entries@.len());
                assert(forall|j: int|
                    0 <= j < self.entries@.len() ==> #[trigger] self.entries@[j].key@ == old(
                        self,
                    ).entries@[j].key@);
            },
            None => {
                self.entries.push(Entry { key, value });
                proof {
                    at = old(self).entries@.len() as int;
                }
                assert(forall|j: int|
                    0 <= j < old(self).entries@.len() ==> #[trigger] self.entries@[j] == old(
                        self,
                    ).entries@[j]);
            },
        }
        proof {
            assert(0 <= at < self.entries@.len() && self.entries@[at].key@ == key@);
            assert(self.entries@[at].value == value);
            assert(forall|j: int|
                0 <= j < old(self).entries@.len() && j != at ==> #[trigger] self.entries@[j] == old(
                    self,
                ).entries@[j]);
            assert(self.wf());
            let before = old(self)@;
            let after = self@;
            assert forall|k: Seq<u8>| after.contains_key(k) <==> before.insert(
                key@,
                value,
            ).contains_key(k) by {
                if after.contains_key(k) {
                    let i = self.row_of(k);
                    assert(self.entries@[i].key@ == k);
                    if k != key@ {
                        assert(old(self).entries@[i].key@ == k);
                    }
                }
                if before.contains_key(k) {
                    let i = old(self).row_of(k);
                    assert(old(self).entries@[i].key@ == k);
                    assert(self.entries@[i].key@ == k);
                }
                if k == key@ {
                    assert(self.entries@[at].key@ == k);
                }
            }
            assert forall|k: Seq<u8>| after.contains_key(k) implies after[k] == before.insert(
                key@,
                value,
            )[k] by {
                let i = self.row_of(k);
                assert(self.entries@[i].key@ == k);
                self.lemma_row_of(i);
                if k != key@ {
                    assert(old(self).entries@[i].key@ == k);
                    old(self).lemma_row_of(i);
                }
            }
            assert(after =~= before.insert(key@, value));
        }
    }
}

} // verus!
