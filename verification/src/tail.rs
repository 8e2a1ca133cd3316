//! Tail segments and the shift/grow state machine of the trailing body.

use vstd::prelude::*;
use crate::pos::Pos;

verus! {

/// One trailing body segment.
#[derive(Clone, Copy, PartialEq, Eq, Structural, Debug)]
pub struct Tail {
    pub pos: Pos,
}

impl Tail {
    pub fn new(pos: Pos) -> (t: Tail)
        ensures
            t == (Tail { pos }),
    {
        Tail { pos }
    }
}

/// Whether the advanced head position coincides with any existing
/// segment's position (not just the most recent).
pub open spec fn hits_tail(ts: Seq<Tail>, h: Pos) -> bool {
    exists|i: int| 0 <= i < ts.len() && ts[i].pos == h
}

/// The tail after one reset-free tick with advanced head position `h`.
/// On a non-empty tail the oldest segment (at the back) is removed and a
/// new segment holding `h` is inserted at the front; on a consumption
/// tick a segment holding `h` is additionally appended at the back, so
/// the net length grows by one.
pub open spec fn next_tail(ts: Seq<Tail>, h: Pos, eats: bool) -> Seq<Tail> {
    let shifted = if ts.len() > 0 {
        seq![Tail { pos: h }] + ts.drop_last()
    } else {
        ts
    };
    if eats {
        shifted.push(Tail { pos: h })
    } else {
        shifted
    }
}

/// One reset-free tick changes the tail's length by exactly the number
/// of apples consumed on it: one on a consumption tick, none otherwise.
pub proof fn lemma_next_tail_len(ts: Seq<Tail>, h: Pos, eats: bool)
    ensures
        next_tail(ts, h, eats).len() == ts.len() + if eats {
            1int
        } else {
            0int
        },
{
}

/// How many of a sequence of ticks were consumption ticks.
pub open spec fn consumption_count(eats: Seq<bool>) -> int
    decreases eats.len(),
{
    if eats.len() == 0 {
        0
    } else {
        consumption_count(eats.drop_last()) + if eats.last() {
            1int
        } else {
            0int
        }
    }
}

/// The growth invariant: starting from an empty tail, over any run of
/// ticks none of which triggers a reset, the tail's length equals the
/// number of consumptions. `tails` holds the tail before each tick and
/// after the last, `heads[i]` the advanced head position of tick `i`,
/// and `eats[i]` whether tick `i` consumed the apple.
pub proof fn lemma_tail_growth(tails: Seq<Seq<Tail>>, heads: Seq<Pos>, eats: Seq<bool>)
    requires
        tails.len() == heads.len() + 1,
        eats.len() == heads.len(),
        tails[0].len() == 0,
        forall|i: int| 0 <= i < heads.len() ==> !hits_tail(#[trigger] tails[i], heads[i]),
        forall|i: int| 0 <= i < heads.len() ==> tails[i + 1] == next_tail(
            #[trigger] tails[i],
            heads[i],
            eats[i],
        ),
    ensures
        tails.last().len() == consumption_count(eats),
    decreases heads.len(),
{
    if heads.len() == 0 {
        assert(tails.last() == tails[0]);
    } else {
        let n = heads.len() as int;
        lemma_tail_growth(tails.drop_last(), heads.drop_last(), eats.drop_last());
        assert(tails.drop_last().last() == tails[n - 1]);
        assert(tails.last() == next_tail(tails[n - 1], heads[n - 1], eats[n - 1]));
        lemma_next_tail_len(tails[n - 1], heads[n - 1], eats[n - 1]);
        assert(eats.last() == eats[n - 1]);
    }
}

} // verus!
