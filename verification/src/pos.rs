//! Grid positions and the boundary wrap rule.

use vstd::prelude::*;

verus! {

/// Grid width in cells, fixed at build time.
pub const WIDTH: i32 = 200;

/// Grid height in cells, fixed at build time.
pub const HEIGHT: i32 = 200;

/// A 2D integer coordinate. It carries no inherent bounds; positions are
/// normalized by the wrap rule after every move, never before.
#[derive(Clone, Copy, PartialEq, Eq, Structural, Debug)]
pub struct Pos {
    pub x: i32,
    pub y: i32,
}

/// The wrap rule for the x axis. Deliberately asymmetric: a coordinate
/// leaving through the left edge lands on `WIDTH` itself (not `WIDTH - 1`),
/// momentarily one past the last column; the bounds-checked draw call is
/// the only consumer of that value.
pub open spec fn wrap_x(x: int) -> int {
    if x < 0 {
        WIDTH as int
    } else if x > WIDTH as int {
        0
    } else {
        x
    }
}

/// The wrap rule for the y axis: leaving through the top lands on
/// `HEIGHT - 1`, leaving through the bottom lands on `0`.
pub open spec fn wrap_y(y: int) -> int {
    if y < 0 {
        HEIGHT as int - 1
    } else if y > HEIGHT as int - 1 {
        0
    } else {
        y
    }
}

/// A whole position normalized by the wrap rule.
pub open spec fn wrap_spec(p: Pos) -> Pos {
    Pos { x: wrap_x(p.x as int) as i32, y: wrap_y(p.y as int) as i32 }
}

/// The range a freshly spawned position is drawn from.
pub open spec fn in_bounds(p: Pos) -> bool {
    &&& 0 <= p.x < WIDTH
    &&& 0 <= p.y < HEIGHT
}

/// The range the wrap rule maps into: because of the asymmetric x rule,
/// `x == WIDTH` is reachable, while y always stays strictly inside.
pub open spec fn in_wrapped_range(p: Pos) -> bool {
    &&& 0 <= p.x <= WIDTH
    &&& 0 <= p.y < HEIGHT
}

/// The position a pair of raw random words is mapped to: each word is
/// reduced modulo the grid extent on its axis.
pub open spec fn from_random_spec(wx: u32, wy: u32) -> Pos {
    Pos { x: ((wx as int) % (WIDTH as int)) as i32, y: ((wy as int) % (HEIGHT as int)) as i32 }
}

impl Pos {
    pub fn new(x: i32, y: i32) -> (p: Pos)
        ensures
            p == (Pos { x, y }),
    {
        Pos { x, y }
    }

    /// Normalize this position by the wrap rule. Total: no coordinate can
    /// overflow, every branch assigns a small constant.
    pub fn wrap(self) -> (r: Pos)
        ensures
            r == wrap_spec(self),
    {
        let mut p = self;
        if p.x < 0 {
            p.x = WIDTH;
        }
        if p.x > WIDTH {
            p.x = 0;
        }
        if p.y < 0 {
            p.y = HEIGHT - 1;
        }
        if p.y > HEIGHT - 1 {
            p.y = 0;
        }
        p
    }

    /// Map two raw random words to an in-bounds position.
    pub fn from_random(wx: u32, wy: u32) -> (p: Pos)
        ensures
            p == from_random_spec(wx, wy),
            in_bounds(p),
    {
        Pos { x: (wx % (WIDTH as u32)) as i32, y: (wy % (HEIGHT as u32)) as i32 }
    }
}

/// The wrap invariant, branch by branch: coordinates below zero land on
/// `WIDTH` (x) or `HEIGHT - 1` (y), coordinates past the far edge land on
/// zero, and values already in range are unchanged.
pub proof fn lemma_wrap_cases(p: Pos)
    ensures
        p.x < 0 ==> wrap_spec(p).x == WIDTH,
        p.x > WIDTH ==> wrap_spec(p).x == 0,
        p.y < 0 ==> wrap_spec(p).y == HEIGHT - 1,
        p.y > HEIGHT - 1 ==> wrap_spec(p).y == 0,
        0 <= p.x <= WIDTH ==> wrap_spec(p).x == p.x,
        0 <= p.y <= HEIGHT - 1 ==> wrap_spec(p).y == p.y,
        in_wrapped_range(wrap_spec(p)),
{
}

} // verus!
