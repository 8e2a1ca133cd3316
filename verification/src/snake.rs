//! The snake: one head position and one heading, advanced one cell per
//! tick.

use vstd::prelude::*;
use crate::dir::{dir_after, Direction, DOWN, LEFT, RIGHT, UP};
use crate::pos::{in_wrapped_range, wrap_spec, Pos, HEIGHT, WIDTH};

verus! {

/// The head position moved one cell along a heading, before the wrap
/// rule is applied: `UP` decrements y, `DOWN` increments y, `LEFT`
/// decrements x, `RIGHT` increments x.
pub open spec fn stepped_pos(p: Pos, cur: u32) -> Pos {
    if cur == UP {
        Pos { x: p.x, y: (p.y - 1) as i32 }
    } else if cur == DOWN {
        Pos { x: p.x, y: (p.y + 1) as i32 }
    } else if cur == LEFT {
        Pos { x: (p.x - 1) as i32, y: p.y }
    } else if cur == RIGHT {
        Pos { x: (p.x + 1) as i32, y: p.y }
    } else {
        p
    }
}

/// The head position after one whole move: one cell along the heading,
/// then the wrap rule.
pub open spec fn advanced_pos(p: Pos, cur: u32) -> Pos {
    wrap_spec(stepped_pos(p, cur))
}

#[derive(Clone, Copy, PartialEq, Eq, Structural, Debug)]
pub struct Snake {
    pub pos: Pos,
    pub dir: Direction,
}

impl Snake {
    /// The heading is well formed and the head lies in the wrap rule's
    /// range, so a move can never overflow a coordinate.
    pub open spec fn wf(self) -> bool {
        &&& self.dir.wf()
        &&& in_wrapped_range(self.pos)
    }

    pub fn new(pos: Pos, dir: Direction) -> (s: Snake)
        ensures
            s == (Snake { pos, dir }),
    {
        Snake { pos, dir }
    }

    /// Normalize the head by the wrap rule. Applied after every move,
    /// never before.
    pub fn wall(&mut self)
        ensures
            final(self).pos == wrap_spec(old(self).pos),
            final(self).dir == old(self).dir,
    {
        if self.pos.x < 0 {
            self.pos.x = WIDTH;
        }
        if self.pos.x > WIDTH {
            self.pos.x = 0;
        }
        if self.pos.y < 0 {
            self.pos.y = HEIGHT - 1;
        }
        if self.pos.y > HEIGHT - 1 {
            self.pos.y = 0;
        }
    }

    /// Move the head exactly one cell along the current heading, apply
    /// the wrap rule, and return the new head position. This is the only
    /// way the head position changes during a tick.
    pub fn advance(&mut self) -> (p: Pos)
        requires
            old(self).wf(),
        ensures
            final(self).dir == old(self).dir,
            final(self).pos == advanced_pos(old(self).pos, old(self).dir.current),
            p == final(self).pos,
            final(self).wf(),
    {
        if self.dir.current == self.dir.up {
            self.pos.y = self.pos.y - 1;
        }
        if self.dir.current == self.dir.down {
            self.pos.y = self.pos.y + 1;
        }
        if self.dir.current == self.dir.left {
            self.pos.x = self.pos.x - 1;
        }
        if self.dir.current == self.dir.right {
            self.pos.x = self.pos.x + 1;
        }
        self.wall();
        self.pos
    }

    /// Apply one directional request, vetoing an exact reversal: the
    /// heading opposite the current one is silently ignored, anything
    /// else is taken.
    pub fn change_dir(&mut self, dir: u32)
        requires
            old(self).dir.wf(),
            dir < 4,
        ensures
            final(self).pos == old(self).pos,
            final(self).dir.current == dir_after(old(self).dir.current, Some(dir)),
            final(self).dir.wf(),
            final(self).dir.up == old(self).dir.up,
            final(self).dir.down == old(self).dir.down,
            final(self).dir.left == old(self).dir.left,
            final(self).dir.right == old(self).dir.right,
    {
        if (self.dir.current + 2) % 4 != dir {
            self.dir.current = dir;
        }
    }

    /// Exact coordinate equality between the head and `pos`; the one
    /// predicate serves both the apple-consumption and the self-collision
    /// check.
    pub fn collides(&self, pos: Pos) -> (r: bool)
        ensures
            r == (self.pos == pos),
    {
        self.pos.x == pos.x && self.pos.y == pos.y
    }
}

} // verus!
