//! Cardinal headings and the 180-degree-turn veto.

use vstd::prelude::*;

verus! {

/// Encoding of the four headings, chosen so that opposite pairs differ by
/// 2 modulo 4.
pub const UP: u32 = 0;

pub const LEFT: u32 = 1;

pub const DOWN: u32 = 2;

pub const RIGHT: u32 = 3;

/// One of four cardinal headings. The four constant fields carry the
/// encoding; `current` is the active heading.
#[derive(Clone, Copy, PartialEq, Eq, Structural, Debug)]
pub struct Direction {
    pub up: u32,
    pub down: u32,
    pub left: u32,
    pub right: u32,
    pub current: u32,
}

/// The heading opposite a given one: encodings differ by 2 modulo 4.
pub open spec fn opposite(cur: u32) -> int {
    (cur + 2) % 4
}

/// The active heading after at most one directional request: a request
/// for the exact opposite of the current heading is silently ignored,
/// any other request (the current heading itself included) is applied.
pub open spec fn dir_after(cur: u32, input: Option<u32>) -> u32 {
    match input {
        Option::Some(d) => if opposite(cur) == d {
            cur
        } else {
            d
        },
        Option::None => cur,
    }
}

impl Direction {
    /// The encoding fields hold their fixed values and the active heading
    /// is one of the four.
    pub open spec fn wf(self) -> bool {
        &&& self.up == UP
        &&& self.down == DOWN
        &&& self.left == LEFT
        &&& self.right == RIGHT
        &&& self.current < 4
    }

    pub fn new(current: u32) -> (d: Direction)
        requires
            current < 4,
        ensures
            d.wf(),
            d.current == current,
    {
        Direction { up: UP, down: DOWN, left: LEFT, right: RIGHT, current }
    }

    /// Map a raw random word to a heading, uniform over the four.
    pub fn from_random(w: u32) -> (d: Direction)
        ensures
            d.wf(),
            d.current == (w as int) % 4,
    {
        Direction::new(w % 4)
    }
}

/// The no-reverse invariant: requesting the opposite of the current
/// heading leaves it unchanged; requesting any of the other three (the
/// current heading itself included) sets it.
pub proof fn lemma_no_reverse(cur: u32, requested: u32)
    requires
        cur < 4,
        requested < 4,
    ensures
        requested == opposite(cur) ==> dir_after(cur, Some(requested)) == cur,
        requested != opposite(cur) ==> dir_after(cur, Some(requested)) == requested,
        dir_after(cur, None) == cur,
{
}

} // verus!
