use vstd::prelude::*;
use std::collections::HashMap;
use crate::graphics::model::{attribute_readable, layout_complete, AttributeState, SlotMap};

verus! {

broadcast use vstd::std_specs::hash::group_hash_axioms;

/// The sizes of the stores of the buffers of `buffers`, as numbers.
pub open spec fn store_sizes(buffers: Map<u32, usize>) -> Map<u32, nat> {
    Map::new(|buffer: u32| buffers.contains_key(buffer), |buffer: u32| buffers[buffer] as nat)
}

/// What a vertex array holds for one slot.
pub struct SlotEntry {
    pub slot: u32,
    pub state: AttributeState,
}

/// Whether some entry of `entries` is for `slot`.
pub open spec fn has_slot(entries: Seq<SlotEntry>, slot: u32) -> bool {
    exists|i: int| 0 <= i < entries.len() && (#[trigger] entries[i]).slot == slot
}

/// The position of an entry for `slot`.
pub open spec fn position(entries: Seq<SlotEntry>, slot: u32) -> int {
    choose|i: int| 0 <= i < entries.len() && (#[trigger] entries[i]).slot == slot
}

/// Whether no two entries of `entries` are for one slot.
pub open spec fn distinct_slots(entries: Seq<SlotEntry>) -> bool {
    forall|i: int, j: int|
        0 <= i < j < entries.len() ==> (#[trigger] entries[i]).slot != (#[trigger] entries[j]).slot
}

/// The inputs that `entries` lists, by slot.
pub open spec fn slot_map(entries: Seq<SlotEntry>) -> SlotMap {
    Map::new(|slot: u32| has_slot(entries, slot), |slot: u32| entries[position(entries, slot)].state)
}

/// With distinct slots, the entry at `i` is the one that the map gives for
/// its slot.
pub proof fn lemma_entry_is_mapped(entries: Seq<SlotEntry>, i: int)
    requires
        distinct_slots(entries),
        0 <= i < entries.len(),
    ensures
        has_slot(entries, entries[i].slot),
        position(entries, entries[i].slot) == i,
        slot_map(entries).contains_key(entries[i].slot),
        slot_map(entries)[entries[i].slot] == entries[i].state,
{
    let slot = entries[i].slot;
    assert(has_slot(entries, slot));
    let j = position(entries, slot);
    assert(0 <= j < entries.len() && entries[j].slot == slot);
    if j < i {
        assert(entries[j].slot != entries[i].slot);
    } else if i < j {
        assert(entries[i].slot != entries[j].slot);
    }
}

/// The inputs of one vertex array: a list of entries, no two of them for one
/// slot.
pub struct SlotTable {
    entries: Vec<SlotEntry>,
}

impl View for SlotTable {
    type V = SlotMap;

    closed spec fn view(&self) -> SlotMap {
        slot_map(self.entries@)
    }
}

impl SlotTable {
    #[verifier::type_invariant]
    spec fn distinct(&self) -> bool {
        distinct_slots(self.entries@)
    }

    /// A table without entries.
    pub fn new() -> (table: SlotTable)
        ensures
            table@ == Map::<u32, AttributeState>::empty(),
    {
        let table = SlotTable { entries: Vec::new() };
        assert(table@ =~= Map::<u32, AttributeState>::empty());
        table
    }

    /// The position of the entry for `slot`, if there is one.
    fn find(&self, slot: u32) -> (found: Option<usize>)
        ensures
            match found {
                Some(i) => i < self.entries@.len() && self.entries@[i as int].slot == slot,
                None => !has_slot(self.entries@, slot),
            },
    {
        let mut i: usize = 0;
        while i < self.entries.len()
            invariant
                i <= self.entries@.len(),
                forall|k: int| 0 <= k < i ==> (#[trigger] self.entries@[k]).slot != slot,
            decreases self.entries@.len() - i,
        {
            if self.entries[i].slot == slot {
                return Some(i);
            }
            i += 1;
        }
        None
    }

    /// What the table holds for `slot`; the untouched state where it holds
    /// nothing for it.
    pub fn get(&self, slot: u32) -> (state: AttributeState)
        ensures
            state == if self@.contains_key(slot) {
                self@[slot]
            } else {
                AttributeState::untouched()
            },
    {
        proof {
            use_type_invariant(self);
        }
        match self.find(slot) {
            Some(i) => {
                proof {
                    lemma_entry_is_mapped(self.entries@, i as int);
                }
                self.entries[i].state
            },
            None => AttributeState { layout: None, source: 0, enabled: false },
        }
    }

    /// The table with `state` for `slot`, and all else as it was.
    pub fn with(self, slot: u32, state: AttributeState) -> (table: SlotTable)
        ensures
            table@ == self@.insert(slot, state),
    {
        proof {
            use_type_invariant(&self);
        }
        let ghost before = self.entries@;
        let found = self.find(slot);
        let mut entries = self.entries;
        match found {
            Some(i) => {
                entries[i] = SlotEntry { slot, state };
                proof {
                    let after = entries@;
                    assert(distinct_slots(after));
                    assert forall|s: u32| has_slot(after, s) <==> has_slot(before, s) by {
                        if has_slot(before, s) {
                            let j = position(before, s);
                            assert(after[j].slot == s);
                        }
                        if has_slot(after, s) {
                            let j = position(after, s);
                            assert(before[j].slot == s);
                        }
                    }
                    assert forall|s: u32| has_slot(after, s) implies slot_map(after)[s]
                        == slot_map(before).insert(slot, state)[s] by {
                        let j = position(after, s);
                        lemma_entry_is_mapped(after, j);
                        lemma_entry_is_mapped(before, j);
                    }
                    lemma_entry_is_mapped(before, i as int);
                    assert(slot_map(after) =~= slot_map(before).insert(slot, state));
                }
            },
            None => {
                entries.push(SlotEntry { slot, state });
                proof {
                    let after = entries@;
                    let last = before.len() as int;
                    assert(distinct_slots(after));
                    assert(after[last].slot == slot);
                    assert forall|s: u32| has_slot(after, s) <==> (has_slot(before, s) || s
                        == slot) by {
                        if has_slot(before, s) {
                            let j = position(before, s);
                            assert(after[j].slot == s);
                        }
                        if has_slot(after, s) {
                            let j = position(after, s);
                            if j < last {
                                assert(before[j].slot == s);
                            }
                        }
                    }
                    assert forall|s: u32| has_slot(after, s) implies slot_map(after)[s]
                        == slot_map(before).insert(slot, state)[s] by {
                        let j = position(after, s);
                        lemma_entry_is_mapped(after, j);
                        if j < last {
                            assert(before[j].slot == s);
                            lemma_entry_is_mapped(before, j);
                        }
                    }
                    assert(slot_map(after) =~= slot_map(before).insert(slot, state));
                }
            },
        }
        SlotTable { entries }
    }

    /// Whether the table makes a layout to draw from, given the buffers that
    /// exist.
    pub fn is_complete(&self, buffers: &HashMap<u32, usize>) -> (complete: bool)
        ensures
            complete == layout_complete(store_sizes(buffers@), self@),
    {
        proof {
            use_type_invariant(self);
        }
        let mut any_enabled = false;
        let mut all_readable = true;
        let mut i: usize = 0;
        while i < self.entries.len()
            invariant
                i <= self.entries@.len(),
                distinct_slots(self.entries@),
                any_enabled <==> exists|k: int|
                    0 <= k < i && (#[trigger] self.entries@[k]).state.enabled,
                all_readable <==> forall|k: int|
                    0 <= k < i && (#[trigger] self.entries@[k]).state.enabled
                        ==> attribute_readable(store_sizes(buffers@), self.entries@[k].state),
            decreases self.entries@.len() - i,
        {
            let state = self.entries[i].state;
            if state.enabled {
                any_enabled = true;
                let readable = state.layout.is_some() && buffers.contains_key(&state.source);
                if !readable {
                    all_readable = false;
                }
            }
            i += 1;
        }
        proof {
            let entries = self.entries@;
            let slots = self@;
            if any_enabled {
                let k = choose|k: int| 0 <= k < entries.len() && (#[trigger] entries[k]).state.enabled;
                lemma_entry_is_mapped(entries, k);
                assert(slots.contains_key(entries[k].slot) && slots[entries[k].slot].enabled);
            }
            if exists|slot: u32| #[trigger] slots.contains_key(slot) && slots[slot].enabled {
                let slot = choose|slot: u32| #[trigger]
                    slots.contains_key(slot) && slots[slot].enabled;
                let k = position(entries, slot);
                lemma_entry_is_mapped(entries, k);
                assert(entries[k].state.enabled);
            }
            if all_readable {
                assert forall|slot: u32| #[trigger]
                    slots.contains_key(slot) && slots[slot].enabled implies attribute_readable(
                    store_sizes(buffers@),
                    slots[slot],
                ) by {
                    let k = position(entries, slot);
                    lemma_entry_is_mapped(entries, k);
                    assert(entries[k].state.enabled);
                }
            } else {
                let k = choose|k: int|
                    0 <= k < entries.len() && (#[trigger] entries[k]).state.enabled
                        && !attribute_readable(store_sizes(buffers@), entries[k].state);
                lemma_entry_is_mapped(entries, k);
                assert(slots.contains_key(entries[k].slot) && slots[entries[k].slot].enabled);
            }
        }
        any_enabled && all_readable
    }
}

} // verus!
