use vstd::prelude::*;
use crate::address::Address;

verus! {

/// An amount recorded per address; addresses with no entry read as absent.
pub struct AmountMap {
    entries: Vec<(Address, i128)>,
    model: Ghost<Map<Address, i128>>,
}

impl View for AmountMap {
    type V = Map<Address, i128>;

    closed spec fn view(&self) -> Map<Address, i128> {
        self.model@
    }
}

impl AmountMap {
    /// The entries are keyed by distinct addresses and are exactly the
    /// mapping this map stands for.
    pub closed spec fn wf(&self) -> bool {
        &&& forall|i: int, j: int|
            0 <= i < j < self.entries@.len() ==> #[trigger] self.entries@[i].0
                != #[trigger] self.entries@[j].0
        &&& forall|i: int|
            0 <= i < self.entries@.len() ==> #[trigger] self.model@.contains_key(self.entries@[i].0)
                && self.model@[self.entries@[i].0] == self.entries@[i].1
        &&& forall|a: Address|
            #[trigger] self.model@.contains_key(a) ==> exists|i: int|
                0 <= i < self.entries@.len() && #[trigger] self.entries@[i].0 == a
    }

    /// An empty map.
    pub fn new() -> (m: AmountMap)
        ensures
            m.wf(),
            m@ == Map::<Address, i128>::empty(),
    {
        AmountMap { entries: Vec::new(), model: Ghost(Map::empty()) }
    }

    /// The index of `key`'s entry, if it has one.
    fn find(&self, key: &Address) -> (r: Option<usize>)
        requires
            self.wf(),
        ensures
            match r {
                Some(i) => i < self.entries@.len() && self.entries@[i as int].0 == *key,
                None => !self@.contains_key(*key),
            },
    {
        let n = self.entries.len();
        let mut i: usize = 0;
        while i < n
            invariant
                self.wf(),
                n == self.entries@.len(),
                i <= n,
                forall|j: int| 0 <= j < i ==> self.entries@[j].0 != *key,
            decreases n - i,
        {
            if self.entries[i].0 == *key {
                return Some(i);
            }
            i = i + 1;
        }
        proof {
            if self@.contains_key(*key) {
                let j = choose|j: int| 0 <= j < self.entries@.len() && #[trigger] self.entries@[j].0 == *key;
                assert(self.entries@[j].0 == *key);
            }
        }
        None
    }

    /// The amount recorded for `key`, if any.
    pub fn get(&self, key: &Address) -> (r: Option<i128>)
        requires
            self.wf(),
        ensures
            r == (if self@.contains_key(*key) { Some(self@[*key]) } else { None::<i128> }),
    {
        match self.find(key) {
            Some(i) => Some(self.entries[i].1),
            None => None,
        }
    }

    /// Records `amount` for `key`, replacing any earlier amount.
    pub fn set(&mut self, key: Address, amount: i128)
        requires
            old(self).wf(),
        ensures
            final(self).wf(),
            final(self)@ == old(self)@.insert(key, amount),
    {
        let ghost old_entries = self.entries@;
        let ghost new_model = self.model@.insert(key, amount);
        match self.find(&key) {
            Some(i) => {
                self.entries.set(i, (key, amount));
                self.model = Ghost(new_model);
                assert forall|k: int| 0 <= k < self.entries@.len() implies
                    #[trigger] self.model@.contains_key(self.entries@[k].0)
                    && self.model@[self.entries@[k].0] == self.entries@[k].1 by {
                    if k != i as int {
                        assert(old_entries[k].0 != old_entries[i as int].0);
                    }
                }
                assert forall|x: int, y: int| 0 <= x < y < self.entries@.len() implies
                    #[trigger] self.entries@[x].0 != #[trigger] self.entries@[y].0 by {
                    assert(old_entries[x].0 != old_entries[y].0);
                }
                assert forall|a: Address| #[trigger] self.model@.contains_key(a) implies exists|k: int|
                    0 <= k < self.entries@.len() && #[trigger] self.entries@[k].0 == a by {
                    if a == key {
                        assert(self.entries@[i as int].0 == a);
                    } else {
                        assert(old(self).model@.contains_key(a));
                        let k = choose|k: int| 0 <= k < old_entries.len() && #[trigger] old_entries[k].0 == a;
                        assert(self.entries@[k].0 == a);
                    }
                }
            },
            None => {
                self.entries.push((key, amount));
                self.model = Ghost(new_model);
                assert forall|k: int| 0 <= k < old_entries.len() implies old_entries[k].0 != key by {
                    assert(old(self).model@.contains_key(old_entries[k].0));
                }
                assert forall|k: int| 0 <= k < self.entries@.len() implies
                    #[trigger] self.model@.contains_key(self.entries@[k].0)
                    && self.model@[self.entries@[k].0] == self.entries@[k].1 by {
                    if k < old_entries.len() {
                        assert(self.entries@[k] == old_entries[k]);
                    }
                }
                assert forall|x: int, y: int| 0 <= x < y < self.entries@.len() implies
                    #[trigger] self.entries@[x].0 != #[trigger] self.entries@[y].0 by {
                    if y < old_entries.len() {
                        assert(old_entries[x].0 != old_entries[y].0);
                    } else {
                        assert(self.entries@[x] == old_entries[x]);
                    }
                }
                assert forall|a: Address| #[trigger] self.model@.contains_key(a) implies exists|k: int|
                    0 <= k < self.entries@.len() && #[trigger] self.entries@[k].0 == a by {
                    if a == key {
                        assert(self.entries@[old_entries.len() as int].0 == a);
                    } else {
                        assert(old(self).model@.contains_key(a));
                        let k = choose|k: int| 0 <= k < old_entries.len() && #[trigger] old_entries[k].0 == a;
                        assert(self.entries@[k].0 == a);
                    }
                }
            },
        }
    }
}

} // verus!
