//! Loot item records and stashes.
//!
//! The item catalogue itself is data read in from outside; the stash
//! holds it as plain records.

use vstd::prelude::*;

verus! {

/// One catalogued loot item: its lookup handle, its display name and
/// how many pieces one person may carry at most.
#[derive(Clone, Debug)]
pub struct LootItemRecord {
    pub handle: String,
    pub name: String,
    pub max_pp: u8,
}

impl LootItemRecord {
    /// Builds a record from its three parts.
    pub fn new(handle: String, name: String, max_pp: u8) -> (r: LootItemRecord)
        ensures
            r.handle == handle,
            r.name == name,
            r.max_pp == max_pp,
    {
        LootItemRecord { handle, name, max_pp }
    }
}

/// The whole catalogue of items loot can be drawn from.
pub struct LootStash {
    pub all_items: Vec<LootItemRecord>,
}

impl LootStash {
    /// Wraps an item catalogue, as loaded from the item database.
    pub fn new(all_items: Vec<LootItemRecord>) -> (s: LootStash)
        ensures
            s.all_items == all_items,
    {
        LootStash { all_items }
    }

    /// How many items the catalogue holds.
    pub fn len(&self) -> (n: usize)
        ensures
            n == self.all_items@.len(),
    {
        self.all_items.len()
    }
}

/// The items dealt to one person: each with its piece count.
pub struct PersonLootItems(pub Vec<(LootItemRecord, u32)>);

} // verus!
