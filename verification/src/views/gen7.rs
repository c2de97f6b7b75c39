//! The generation 7 RNG view: which of its two pages shows.

use vstd::prelude::*;

verus! {

/// The last page of the generation 7 RNG view; the first is 0.
pub const RNG_SLOT_MAX: usize = 1;

/// The page after `value` when paging up from 0 to `RNG_SLOT_MAX` and around.
pub open spec fn counted_up(value: usize) -> usize {
    if value >= RNG_SLOT_MAX {
        0
    } else {
        (value + 1) as usize
    }
}

/// The page after `value` when paging down from `RNG_SLOT_MAX` to 0 and around.
pub open spec fn counted_down(value: usize) -> usize {
    if value == 0 {
        RNG_SLOT_MAX
    } else {
        (value - 1) as usize
    }
}

/// The page of the generation 7 RNG view: 0 for the main RNG, 1 for SOS.
#[derive(Clone, Copy, Debug, PartialEq, Eq, Structural)]
pub struct RngSlot {
    value: usize,
}

impl View for RngSlot {
    type V = usize;

    closed spec fn view(&self) -> usize {
        self.value
    }
}

impl RngSlot {
    /// The page lies between the first and the last.
    pub open spec fn wf(&self) -> bool {
        self@ <= RNG_SLOT_MAX
    }

    /// The first page.
    pub fn new() -> (s: RngSlot)
        ensures
            s@ == 0,
    {
        RngSlot { value: 0 }
    }

    /// The page number.
    pub fn value(&self) -> (r: usize)
        ensures
            r == self@,
    {
        self.value
    }

    /// Pages up; from the last page, back to the first.
    pub fn increment(&mut self)
        ensures
            final(self)@ == counted_up(old(self)@),
    {
        if self.value >= RNG_SLOT_MAX {
            self.value = 0;
        } else {
            self.value = self.value + 1;
        }
    }

    /// Pages down; from the first page, back to the last.
    pub fn decrement(&mut self)
        ensures
            final(self)@ == counted_down(old(self)@),
    {
        if self.value == 0 {
            self.value = RNG_SLOT_MAX;
        } else {
            self.value = self.value - 1;
        }
    }
}

impl Default for RngSlot {
    /// The first page.
    fn default() -> (s: RngSlot)
        ensures
            s@ == 0,
    {
        RngSlot { value: 0 }
    }
}

/// The page after one frame in which the page-up combination was pressed or
/// not (`increment`), and the page-down combination was pressed or not
/// (`decrement`): paged up first, then down.
pub open spec fn next_slot(slot: usize, increment: bool, decrement: bool) -> usize {
    let up = if increment { counted_up(slot) } else { slot };
    if decrement { counted_down(up) } else { up }
}

/// The page after one frame of input.
pub fn next_rng_slot(slot: RngSlot, increment: bool, decrement: bool) -> (r: RngSlot)
    ensures
        r@ == next_slot(slot@, increment, decrement),
{
    let mut slot = slot;
    if increment {
        slot.increment();
    }
    if decrement {
        slot.decrement();
    }
    slot
}

/// Paging keeps the page between the first and the last.
pub proof fn lemma_paging_in_range(slot: usize, increment: bool, decrement: bool)
    requires
        slot <= RNG_SLOT_MAX,
    ensures
        counted_up(slot) <= RNG_SLOT_MAX,
        counted_down(slot) <= RNG_SLOT_MAX,
        next_slot(slot, increment, decrement) <= RNG_SLOT_MAX,
{
}

/// Paging up and then down, or down and then up, comes back to the same page;
/// pressing both combinations in one frame leaves the page as it was.
pub proof fn lemma_paging_inverse(slot: usize)
    requires
        slot <= RNG_SLOT_MAX,
    ensures
        counted_down(counted_up(slot)) == slot,
        counted_up(counted_down(slot)) == slot,
        next_slot(slot, true, true) == slot,
        next_slot(slot, false, false) == slot,
{
}

/// Paging up or down always changes the page (there are two), and paging up
/// from the first page reaches the last.
pub proof fn lemma_paging_moves(slot: usize)
    requires
        slot <= RNG_SLOT_MAX,
    ensures
        counted_up(slot) != slot,
        counted_down(slot) != slot,
        counted_up(0) == 1,
        counted_down(0) == 1,
        next_slot(slot, true, false) != slot,
        next_slot(slot, false, true) != slot,
{
}

} // verus!
