//! The inventory: how many of each item the player holds.

use vstd::prelude::*;
use crate::assoc::{lemma_pairs_absent, lemma_pairs_lookup, lemma_pairs_push, lemma_pairs_remove, lemma_pairs_update, pairs_map};
use crate::components::{ItemType, ItemValue};

verus! {

/// Counts of held items, keyed by the whole value of the item.
///
/// Its model is a finite map from item values to counts. An item that is not
/// held has no entry: a count never rests at zero.
pub struct Inventory {
    items: Vec<(ItemType, u32)>,
}

/// The item values of a listing, in order.
pub open spec fn listed_items(entries: Seq<(ItemType, u32)>) -> Seq<ItemValue> {
    Seq::new(entries.len(), |i: int| entries[i].0@)
}

/// The counts of a listing, in order.
pub open spec fn listed_counts(entries: Seq<(ItemType, u32)>) -> Seq<nat> {
    Seq::new(entries.len(), |i: int| entries[i].1 as nat)
}

impl View for Inventory {
    type V = Map<ItemValue, nat>;

    closed spec fn view(&self) -> Map<ItemValue, nat> {
        pairs_map(listed_items(self.items@), listed_counts(self.items@))
    }
}

impl Inventory {
    /// No item is listed twice and every listed count is at least one.
    pub closed spec fn wf(&self) -> bool {
        &&& listed_items(self.items@).no_duplicates()
        &&& forall|i: int| 0 <= i < self.items@.len() ==> (#[trigger] self.items@[i]).1 >= 1
    }

    /// How many of `item` are held: its count, or zero without an entry.
    pub open spec fn count(&self, item: ItemValue) -> nat {
        if self@.contains_key(item) {
            self@[item]
        } else {
            0
        }
    }

    /// Every entry of a well-formed inventory holds a count between one and
    /// `u32::MAX`, and the entries are finitely many.
    pub proof fn lemma_counts_in_range(&self)
        requires
            self.wf(),
        ensures
            self@.dom().finite(),
            forall|k: ItemValue| self@.contains_key(k) ==> 1 <= #[trigger] self@[k] <= u32::MAX,
    {
        let keys = listed_items(self.items@);
        let vals = listed_counts(self.items@);
        assert forall|k: ItemValue| self@.contains_key(k) implies 1 <= #[trigger] self@[k] <= u32::MAX by {
            let i = keys.index_of(k);
            assert(0 <= i < keys.len() && keys[i] == k);
            assert(self.items@[i].1 >= 1);
        }
        assert(self@.dom() =~= keys.to_set());
        vstd::seq_lib::seq_to_set_is_finite(keys);
    }

    /// An inventory that holds nothing.
    pub fn new() -> (inv: Inventory)
        ensures
            inv.wf(),
            inv@ == Map::<ItemValue, nat>::empty(),
    {
        let inv = Inventory { items: Vec::new() };
        assert(inv@ =~= Map::<ItemValue, nat>::empty());
        inv
    }

    /// The index at which `item` is listed, if it is.
    fn find(&self, item: &ItemType) -> (at: Option<usize>)
        ensures
            match at {
                Some(i) => i < self.items@.len() && self.items@[i as int].0@ == item@,
                None => forall|i: int| 0 <= i < self.items@.len() ==> self.items@[i].0@ != item@,
            },
    {
        let mut i: usize = 0;
        while i < self.items.len()
            invariant
                i <= self.items@.len(),
                forall|j: int| 0 <= j < i ==> self.items@[j].0@ != item@,
            decreases self.items@.len() - i,
        {
            if self.items[i].0.same_as(item) {
                return Some(i);
            }
            i += 1;
        }
        None
    }

    /// How many of `item` are held.
    pub fn count_of(&self, item: &ItemType) -> (n: u32)
        requires
            self.wf(),
        ensures
            n == self.count(item@),
    {
        let keys = Ghost(listed_items(self.items@));
        let vals = Ghost(listed_counts(self.items@));
        match self.find(item) {
            Some(i) => {
                proof {
                    lemma_pairs_lookup(keys@, vals@, i as int);
                }
                self.items[i].1
            },
            None => {
                proof {
                    lemma_pairs_absent(keys@, vals@, item@);
                }
                0
            },
        }
    }

    /// Whether at least one of `item` is held.
    pub fn contains(&self, item: &ItemType) -> (held: bool)
        requires
            self.wf(),
        ensures
            held == self@.contains_key(item@),
    {
        let keys = Ghost(listed_items(self.items@));
        let vals = Ghost(listed_counts(self.items@));
        match self.find(item) {
            Some(i) => {
                proof {
                    lemma_pairs_lookup(keys@, vals@, i as int);
                }
                true
            },
            None => {
                proof {
                    lemma_pairs_absent(keys@, vals@, item@);
                }
                false
            },
        }
    }

    /// The number of distinct items held.
    pub fn len(&self) -> (n: usize)
        requires
            self.wf(),
        ensures
            n == self@.dom().len(),
    {
        proof {
            let keys = listed_items(self.items@);
            assert(self@.dom() =~= keys.to_set());
            keys.unique_seq_to_set();
        }
        self.items.len()
    }

    /// Adds one of `item`: a new entry with count one, or one more on the
    /// entry it already has.
    pub fn add(&mut self, item: &ItemType)
        requires
            old(self).wf(),
            old(self).count(item@) < u32::MAX,
        ensures
            final(self).wf(),
            final(self)@ == old(self)@.insert(item@, old(self).count(item@) + 1),
    {
        let keys = Ghost(listed_items(self.items@));
        let vals = Ghost(listed_counts(self.items@));
        match self.find(item) {
            Some(i) => {
                proof {
                    lemma_pairs_lookup(keys@, vals@, i as int);
                    lemma_pairs_update(keys@, vals@, i as int, (self.items@[i as int].1 + 1) as nat);
                }
                let n: u32 = self.items[i].1;
                self.items.set(i, (item.duplicate(), n + 1));
                assert(listed_items(self.items@) =~= keys@);
                assert(listed_counts(self.items@) =~= vals@.update(i as int, (n + 1) as nat));
            },
            None => {
                proof {
                    lemma_pairs_absent(keys@, vals@, item@);
                    if keys@.contains(item@) {
                        let j = choose|j: int| 0 <= j < keys@.len() && keys@[j] == item@;
                        assert(self.items@[j].0@ != item@);
                    }
                    lemma_pairs_push(keys@, vals@, item@, 1nat);
                }
                self.items.push((item.duplicate(), 1));
                assert(listed_items(self.items@) =~= keys@.push(item@));
                assert(listed_counts(self.items@) =~= vals@.push(1nat));
            },
        }
    }

    /// Takes one of `item` away and deletes its entry when none is left.
    /// Says whether one was held; without one the inventory stays as it was.
    pub fn remove_one(&mut self, item: &ItemType) -> (removed: bool)
        requires
            old(self).wf(),
        ensures
            final(self).wf(),
            removed == old(self)@.contains_key(item@),
            old(self).count(item@) == 0 ==> final(self)@ == old(self)@,
            old(self).count(item@) == 1 ==> final(self)@ == old(self)@.remove(item@),
            old(self).count(item@) > 1 ==> final(self)@ == old(self)@.insert(
                item@,
                (old(self).count(item@) - 1) as nat,
            ),
    {
        let keys = Ghost(listed_items(self.items@));
        let vals = Ghost(listed_counts(self.items@));
        match self.find(item) {
            Some(i) => {
                proof {
                    lemma_pairs_lookup(keys@, vals@, i as int);
                }
                let n: u32 = self.items[i].1;
                if n == 1 {
                    proof {
                        lemma_pairs_remove(keys@, vals@, i as int);
                    }
                    let _ = self.items.remove(i);
                    assert(listed_items(self.items@) =~= keys@.remove(i as int));
                    assert(listed_counts(self.items@) =~= vals@.remove(i as int));
                } else {
                    proof {
                        lemma_pairs_update(keys@, vals@, i as int, (n - 1) as nat);
                    }
                    self.items.set(i, (item.duplicate(), n - 1));
                    assert(listed_items(self.items@) =~= keys@);
                    assert(listed_counts(self.items@) =~= vals@.update(i as int, (n - 1) as nat));
                }
                true
            },
            None => {
                proof {
                    lemma_pairs_absent(keys@, vals@, item@);
                }
                false
            },
        }
    }

    /// The entries as a list, each item with its count. Read as a map, the list
    /// is the inventory.
    pub fn entries(&self) -> (list: Vec<(ItemType, u32)>)
        requires
            self.wf(),
        ensures
            listed_items(list@).no_duplicates(),
            pairs_map(listed_items(list@), listed_counts(list@)) == self@,
    {
        let mut list: Vec<(ItemType, u32)> = Vec::new();
        let mut i: usize = 0;
        while i < self.items.len()
            invariant
                i <= self.items@.len(),
                list@.len() == i,
                forall|j: int| 0 <= j < i ==> list@[j].0@ == self.items@[j].0@ && list@[j].1 == self.items@[j].1,
            decreases self.items@.len() - i,
        {
            list.push((self.items[i].0.duplicate(), self.items[i].1));
            i += 1;
        }
        assert(listed_items(list@) =~= listed_items(self.items@));
        assert(listed_counts(list@) =~= listed_counts(self.items@));
        list
    }
}

impl Default for Inventory {
    fn default() -> (inv: Inventory)
        ensures
            inv.wf(),
            inv@ == Map::<ItemValue, nat>::empty(),
    {
        Inventory::new()
    }
}

} // verus!
