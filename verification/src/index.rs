//! Slot identity: the index a component instance currently occupies inside
//! its container.

use vstd::prelude::*;

verus! {

/// The current position of a component instance within its container.
///
/// The container owns and updates the index as sibling slots are inserted or
/// removed; the instance only reads it. The view of a `DynamicIndex` is the
/// slot number it currently holds.
#[derive(Clone, Copy, PartialEq, Eq, Structural, Debug)]
pub struct DynamicIndex {
    current: usize,
}

impl View for DynamicIndex {
    type V = int;

    closed spec fn view(&self) -> int {
        self.current as int
    }
}

impl DynamicIndex {
    /// Makes an index for the given slot number.
    pub fn new(position: usize) -> (index: DynamicIndex)
        ensures
            index@ == position as int,
    {
        DynamicIndex { current: position }
    }

    /// The slot number the index currently holds.
    pub fn current_index(&self) -> (position: usize)
        ensures
            position as int == self@,
    {
        self.current
    }

    /// Moves the index to a new slot number; called by the container when
    /// sibling slots are inserted or removed.
    pub fn set_index(&mut self, position: usize)
        ensures
            final(self)@ == position as int,
    {
        self.current = position;
    }
}

} // verus!
