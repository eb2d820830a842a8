//! Food items placed on the field for the snake to consume.

use vstd::prelude::*;

verus! {

/// A food item is `Fresh` until the snake's head reaches its cell; it is
/// then marked `Eaten` and purged from the collection on the next tick.
#[derive(Copy, Clone, PartialEq, Eq, Structural, Debug)]
pub enum FoodState {
    Fresh,
    Eaten,
}

/// A food item: a cell of the field and its consumption state.
/// Its on-screen color is cosmetic and is left to the rendering shell.
#[derive(Copy, Clone, PartialEq, Eq, Structural, Debug)]
pub struct Food {
    pub pos_x: i32,
    pub pos_y: i32,
    pub state: FoodState,
}

impl Food {
    /// Replaces the consumption state.
    pub fn set_state(&mut self, state: FoodState)
        ensures
            final(self).state == state,
            final(self).pos_x == old(self).pos_x,
            final(self).pos_y == old(self).pos_y,
    {
        self.state = state;
    }
}

/// Every food item in `s` is fresh and lies within a `fw` by `fh` field.
pub open spec fn fresh_in_field(s: Seq<Food>, fw: int, fh: int) -> bool {
    forall|i: int|
        0 <= i < s.len() ==> {
            &&& (#[trigger] s[i]).state == FoodState::Fresh
            &&& 0 <= s[i].pos_x < fw
            &&& 0 <= s[i].pos_y < fh
        }
}

} // verus!
