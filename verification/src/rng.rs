//! The source of random words, with an injectable script for
//! deterministic use.

use vstd::prelude::*;
use crate::dir::Direction;
use crate::pos::{in_bounds, from_random_spec, Pos};

verus! {

/// Relies on rand::random: draws one word from the thread-local
/// generator. Nothing is promised of the value.
#[verifier::external_body]
fn random_word() -> (w: u32) {
    rand::random::<u32>()
}

/// A queue `q` after `n` words were taken from its front; once the queue
/// runs dry, further words leave it empty.
pub open spec fn queue_after(q: Seq<u32>, n: nat) -> Seq<u32> {
    if n >= q.len() {
        Seq::empty()
    } else {
        q.skip(n as int)
    }
}

/// Taking words one run after another takes them all: dropping `a`
/// words and then `b` more is dropping `a + b` at once.
pub proof fn lemma_queue_after_add(q: Seq<u32>, a: nat, b: nat)
    ensures
        queue_after(queue_after(q, a), b) == queue_after(q, a + b),
{
    assert(queue_after(queue_after(q, a), b) =~= queue_after(q, a + b));
}

/// A source of random words. While its script is non-empty, words come
/// from the script's front, so a caller can make a run fully
/// deterministic; once it is empty, words come from the process-wide
/// generator.
pub struct RandSource {
    pub words: Vec<u32>,
}

impl RandSource {
    /// The words still scripted, front first.
    pub open spec fn queue(self) -> Seq<u32> {
        self.words@
    }

    /// A source with no script: every word is drawn from the
    /// process-wide generator.
    pub fn system() -> (r: RandSource)
        ensures
            r.queue().len() == 0,
    {
        RandSource { words: Vec::new() }
    }

    /// A source that hands out the given words first.
    pub fn scripted(words: Vec<u32>) -> (r: RandSource)
        ensures
            r.queue() == words@,
    {
        RandSource { words }
    }

    /// Draw one word: the script's front while one is left, a word of
    /// the process-wide generator otherwise.
    pub fn next_word(&mut self) -> (w: u32)
        ensures
            final(self).queue() == queue_after(old(self).queue(), 1),
            old(self).queue().len() > 0 ==> w == old(self).queue()[0],
    {
        if self.words.len() > 0 {
            let w = self.words.remove(0);
            proof {
                assert(self.words@ =~= queue_after(old(self).words@, 1));
            }
            w
        } else {
            random_word()
        }
    }
}

/// Draw a uniformly random in-bounds position: one word per axis,
/// reduced modulo the grid extent.
pub fn random_position(rng: &mut RandSource) -> (p: Pos)
    ensures
        in_bounds(p),
        final(rng).queue() == queue_after(old(rng).queue(), 2),
        old(rng).queue().len() >= 2 ==> p == from_random_spec(
            old(rng).queue()[0],
            old(rng).queue()[1],
        ),
{
    let wx = rng.next_word();
    let wy = rng.next_word();
    proof {
        assert(rng.queue() =~= queue_after(old(rng).queue(), 2));
    }
    Pos::from_random(wx, wy)
}

/// Draw a uniformly random heading among the four.
pub fn random_direction(rng: &mut RandSource) -> (d: Direction)
    ensures
        d.wf(),
        final(rng).queue() == queue_after(old(rng).queue(), 1),
        old(rng).queue().len() >= 1 ==> d.current == (old(rng).queue()[0] as int) % 4,
{
    let w = rng.next_word();
    Direction::from_random(w)
}

} // verus!
