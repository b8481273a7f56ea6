//! The player's inventory: a bounded list of stackable items.

use vstd::prelude::*;

use crate::strutil::str_eq;

verus! {

/// Something the player can carry.
#[derive(Debug, Clone)]
pub struct Item {
    pub id: String,
    pub name: String,
    pub item_type: ItemType,
    pub description: String,
    pub quantity: u32,
}

#[derive(Debug, Clone, Copy, PartialEq, Eq, Structural)]
pub enum ItemType {
    Key,
    Weapon,
    Consumable,
    QuestItem,
}

/// A bounded list of items; items with the same id stack.
#[derive(Debug, Clone)]
pub struct Inventory {
    pub items: Vec<Item>,
    pub max_slots: usize,
}

/// No item in the list carries the given id.
pub open spec fn no_item_with_id(items: Seq<Item>, id: Seq<char>) -> bool {
    forall|j: int| 0 <= j < items.len() ==> (#[trigger] items[j]).id@ != id
}

/// `i` is the position of the first item with the given id.
pub open spec fn first_item_with_id(items: Seq<Item>, id: Seq<char>, i: int) -> bool {
    &&& 0 <= i < items.len()
    &&& items[i].id@ == id
    &&& forall|j: int| 0 <= j < i ==> (#[trigger] items[j]).id@ != id
}

impl Inventory {
    /// An empty inventory with the given capacity.
    pub fn new(max_slots: usize) -> (r: Self)
        ensures
            r.items@.len() == 0,
            r.max_slots == max_slots,
    {
        Inventory { items: Vec::new(), max_slots }
    }

    /// Add an item, stacking it onto the first existing one with the
    /// same id; whether there was room. A full inventory refuses,
    /// without stacking.
    pub fn add_item(&mut self, item: Item) -> (r: bool)
        requires
            forall|i: int|
                0 <= i < old(self).items@.len() && (#[trigger] old(self).items@[i]).id@ == item.id@
                    ==> old(self).items@[i].quantity + item.quantity <= u32::MAX,
        ensures
            r == (old(self).items@.len() < old(self).max_slots),
            final (self).max_slots == old(self).max_slots,
            !r ==> final (self).items@ == old(self).items@,
            r && no_item_with_id(old(self).items@, item.id@) ==> final (self).items@ == old(
                self,
            ).items@.push(item),
            forall|i: int|
                r && first_item_with_id(old(self).items@, item.id@, i) ==> ({
                    &&& final (self).items@.len() == old(self).items@.len()
                    &&& (forall|j: int|
                        0 <= j < old(self).items@.len() && j != i ==> final (self).items@[j] == old(
                            self,
                        ).items@[j])
                    &&& final (self).items@[i].id@ == old(self).items@[i].id@
                    &&& final (self).items@[i].name@ == old(self).items@[i].name@
                    &&& final (self).items@[i].item_type == old(self).items@[i].item_type
                    &&& final (self).items@[i].description@ == old(self).items@[i].description@
                    &&& final (self).items@[i].quantity == old(self).items@[i].quantity
                        + item.quantity
                }),
    {
        if self.items.len() >= self.max_slots {
            return false;
        }
        let mut i: usize = 0;
        while i < self.items.len()
            invariant
                self == old(self),
                old(self).items@.len() < old(self).max_slots,
                i <= self.items@.len(),
                forall|j: int| 0 <= j < i ==> (#[trigger] self.items@[j]).id@ != item.id@,
                forall|j: int|
                    0 <= j < self.items@.len() && (#[trigger] self.items@[j]).id@ == item.id@
                        ==> self.items@[j].quantity + item.quantity <= u32::MAX,
            decreases self.items@.len() - i,
        {
            if str_eq(self.items[i].id.as_str(), item.id.as_str()) {
                let ghost before = self.items@;
                proof {
                    assert(first_item_with_id(before, item.id@, i as int));
                }
                let mut stacked = self.items.remove(i);
                stacked.quantity = stacked.quantity + item.quantity;
                self.items.insert(i, stacked);
                proof {
                    assert forall|w: int|
                        first_item_with_id(before, item.id@, w) implies w == i as int by {
                        if w < i as int {
                            assert(before[w].id@ == item.id@);
                        }
                        if w > i as int {
                            assert(before[i as int].id@ != item.id@);
                        }
                    }
                    assert(forall|j: int|
                        0 <= j < before.len() && j != i as int ==> self.items@[j] == before[j]);
                }
                return true;
            }
            i = i + 1;
        }
        self.items.push(item);
        return true;
    }

    /// Remove the first item with the given id and hand it back.
    pub fn remove_item(&mut self, item_id: &str) -> (r: Option<Item>)
        ensures
            final (self).max_slots == old(self).max_slots,
            no_item_with_id(old(self).items@, item_id@) ==> r is None && final (self).items@ == old(
                self,
            ).items@,
            forall|i: int|
                first_item_with_id(old(self).items@, item_id@, i) ==> r == Some(
                    old(self).items@[i],
                ) && final (self).items@ == old(self).items@.remove(i),
    {
        let mut i: usize = 0;
        while i < self.items.len()
            invariant
                self == old(self),
                i <= self.items@.len(),
                forall|j: int| 0 <= j < i ==> (#[trigger] self.items@[j]).id@ != item_id@,
            decreases self.items@.len() - i,
        {
            if str_eq(self.items[i].id.as_str(), item_id) {
                proof {
                    let ghost before = self.items@;
                    assert(first_item_with_id(before, item_id@, i as int));
                    assert forall|w: int|
                        first_item_with_id(before, item_id@, w) implies w == i as int by {
                        if w < i as int {
                            assert(before[w].id@ == item_id@);
                        }
                        if w > i as int {
                            assert(before[i as int].id@ != item_id@);
                        }
                    }
                }
                let removed = self.items.remove(i);
                return Some(removed);
            }
            i = i + 1;
        }
        None
    }
}

} // verus!
