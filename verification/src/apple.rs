//! The apple: one position, respawned to a random cell on consumption.

use vstd::prelude::*;
use crate::pos::{in_bounds, from_random_spec, Pos};
use crate::rng::{queue_after, random_position, RandSource};

verus! {

#[derive(Clone, Copy, PartialEq, Eq, Structural, Debug)]
pub struct Apple {
    pub pos: Pos,
}

impl Apple {
    pub fn new(pos: Pos) -> (a: Apple)
        ensures
            a == (Apple { pos }),
    {
        Apple { pos }
    }

    /// Assign a new position drawn uniformly at random over the full
    /// grid, independent of snake or tail occupancy: the new cell may
    /// legally overlap the snake, deliberately and with no retry.
    pub fn respawn(&mut self, rng: &mut RandSource)
        ensures
            in_bounds(final(self).pos),
            final(rng).queue() == queue_after(old(rng).queue(), 2),
            old(rng).queue().len() >= 2 ==> final(self).pos == from_random_spec(
                old(rng).queue()[0],
                old(rng).queue()[1],
            ),
    {
        self.pos = random_position(rng);
    }
}

} // verus!
