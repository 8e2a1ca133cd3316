//! The per-tick orchestration: one simulation step ties snake, apple,
//! tail and the rendered pixel surface together.

use std::collections::VecDeque;
use vstd::prelude::*;
use vstd::pervasive::VecAdditionalExecFns;
use crate::apple::Apple;
use crate::dir::dir_after;
use crate::pos::{in_bounds, in_wrapped_range, from_random_spec, Pos, HEIGHT, WIDTH};
use crate::rng::{queue_after, random_direction, random_position, RandSource};
use crate::snake::{advanced_pos, Snake};
use crate::tail::{consumption_count, hits_tail, lemma_tail_growth, next_tail, Tail};

verus! {

/// Packed-RGB color of a cleared cell.
pub const BACKGROUND: u32 = 0;

/// Packed-RGB color of the apple's cell.
pub const APPLE_COLOR: u32 = 0xFF0000;

/// Packed-RGB color of the head's cell.
pub const HEAD_COLOR: u32 = 0x00FF00;

/// Packed-RGB color of a body segment's cell.
pub const BODY_COLOR: u32 = 0xAAAAAA;

/// Number of cells of the rendered surface.
pub const BUF_LEN: usize = 40000;

/// The surface after one bounds-checked draw call: the pixel at (x, y)
/// takes `color` when the write lands inside the surface, and the draw
/// is a silent no-op otherwise. The guard is deliberately loose at the
/// far edge (`x == WIDTH` passes it): the row arithmetic then decides.
pub open spec fn draw_spec(buf: Seq<u32>, x: int, y: int, color: u32) -> Seq<u32> {
    if x <= WIDTH as int && y <= HEIGHT as int && (WIDTH as int) * y + x < buf.len() {
        buf.update((WIDTH as int) * y + x, color)
    } else {
        buf
    }
}

/// The surface after the first `n` of the positions `ps` were drawn in
/// `color`, in order.
pub open spec fn painted_upto(buf: Seq<u32>, ps: Seq<Pos>, color: u32, n: int) -> Seq<u32>
    decreases n,
{
    if n <= 0 {
        buf
    } else {
        draw_spec(painted_upto(buf, ps, color, n - 1), ps[n - 1].x as int, ps[n - 1].y as int, color)
    }
}

/// The surface after all the positions `ps` were drawn in `color`.
pub open spec fn painted(buf: Seq<u32>, ps: Seq<Pos>, color: u32) -> Seq<u32> {
    painted_upto(buf, ps, color, ps.len() as int)
}

/// The positions a sequence of tail segments occupies.
pub open spec fn tail_positions(ts: Seq<Tail>) -> Seq<Pos> {
    ts.map_values(|t: Tail| t.pos)
}

/// The whole simulation state of one tick-driven run: the snake, the
/// apple, the trailing segments (front holds the newest), the rendered
/// surface, and the cells to clear at the start of the next tick.
pub struct Game {
    pub snake: Snake,
    pub apple: Apple,
    pub tail: VecDeque<Tail>,
    pub buffer: Vec<u32>,
    pub erase: Vec<Pos>,
}

/// The head position a tick starting from `g` advances to, after at
/// most one directional request was applied.
pub open spec fn tick_head(g: Game, input: Option<u32>) -> Pos {
    advanced_pos(g.snake.pos, dir_after(g.snake.dir.current, input))
}

/// Whether a tick starting from `g` runs the advanced head into the
/// tail and so triggers a reset.
pub open spec fn tick_resets(g: Game, input: Option<u32>) -> bool {
    hits_tail(g.tail@, tick_head(g, input))
}

/// Whether a tick starting from `g` moves the head onto the apple.
pub open spec fn tick_eats(g: Game, input: Option<u32>) -> bool {
    tick_head(g, input) == g.apple.pos
}

/// The surface after the deterministic drawing of one reset-free tick:
/// the cells recorded last tick are cleared, the apple and the advanced
/// head are drawn, then every old tail segment is drawn.
pub open spec fn buffer_after_tick(g: Game, input: Option<u32>) -> Seq<u32> {
    let h = tick_head(g, input);
    let erased = painted(g.buffer@, g.erase@, BACKGROUND);
    let with_apple = draw_spec(erased, g.apple.pos.x as int, g.apple.pos.y as int, APPLE_COLOR);
    let with_head = draw_spec(with_apple, h.x as int, h.y as int, HEAD_COLOR);
    painted(with_head, tail_positions(g.tail@), BODY_COLOR)
}

/// What one tick does: the relation between the state and the random
/// script before (`pre`, `qpre`) and after (`post`, `qpost`) one call of
/// `Game::step`. On a reset-free tick everything but a consumed apple's
/// new position is deterministic; on a reset tick the fresh state is
/// random, pinned exactly when the script holds enough words.
pub open spec fn tick_rel(
    pre: Game,
    input: Option<u32>,
    post: Game,
    qpre: Seq<u32>,
    qpost: Seq<u32>,
) -> bool {
    let h = tick_head(pre, input);
    &&& post.buffer@.len() == BUF_LEN as int
    &&& (!tick_resets(pre, input) ==> {
        &&& post.snake.dir.current == dir_after(pre.snake.dir.current, input)
        &&& post.snake.dir.up == pre.snake.dir.up
        &&& post.snake.dir.down == pre.snake.dir.down
        &&& post.snake.dir.left == pre.snake.dir.left
        &&& post.snake.dir.right == pre.snake.dir.right
        &&& post.snake.pos == h
        &&& post.tail@ == next_tail(pre.tail@, h, tick_eats(pre, input))
        &&& post.buffer@ == buffer_after_tick(pre, input)
        &&& post.erase@ == if pre.tail@.len() > 0 {
            seq![h, pre.apple.pos].push(pre.tail@.last().pos)
        } else {
            seq![h, pre.apple.pos]
        }
        &&& (!tick_eats(pre, input) ==> post.apple == pre.apple && qpost == qpre)
        &&& (tick_eats(pre, input) ==> {
            &&& in_bounds(post.apple.pos)
            &&& qpost == queue_after(qpre, 2)
            &&& (qpre.len() >= 2 ==> post.apple.pos == from_random_spec(qpre[0], qpre[1]))
        })
    })
    &&& (tick_resets(pre, input) ==> {
        &&& (forall|i: int| 0 <= i < post.buffer@.len() ==> post.buffer@[i] == BACKGROUND)
        &&& post.erase@ == seq![h, pre.apple.pos]
        &&& in_bounds(post.snake.pos)
        &&& in_bounds(post.apple.pos)
        &&& post.snake.dir.wf()
        &&& post.tail@.len() <= 1
        &&& (post.tail@.len() == 1 ==> post.tail@[0].pos == post.snake.pos)
        &&& (qpre.len() >= 5 ==> {
            let fresh_pos = from_random_spec(qpre[0], qpre[1]);
            let first_apple = from_random_spec(qpre[3], qpre[4]);
            &&& post.snake.pos == fresh_pos
            &&& post.snake.dir.current == (qpre[2] as int) % 4
            &&& (fresh_pos != first_apple ==> {
                &&& post.apple.pos == first_apple
                &&& post.tail@.len() == 0
                &&& qpost == queue_after(qpre, 5)
            })
            &&& (fresh_pos == first_apple ==> {
                &&& post.tail@ == seq![(Tail { pos: fresh_pos })]
                &&& qpost == queue_after(qpre, 7)
                &&& (qpre.len() >= 7 ==> post.apple.pos == from_random_spec(qpre[5], qpre[6]))
            })
        })
    })
}

/// Write one pixel, ignoring writes that fall outside the surface: an
/// out-of-range draw is a silent no-op, never an error. Returns 2 when
/// the loose edge guard rejected the coordinates and 1 otherwise.
pub fn draw(x: usize, y: usize, buffer: &mut Vec<u32>, color: u32) -> (r: i32)
    ensures
        final(buffer)@ == draw_spec(old(buffer)@, x as int, y as int, color),
        r == if x > WIDTH as usize || y > HEIGHT as usize {
            2int
        } else {
            1int
        },
{
    if x > (WIDTH as usize) || y > (HEIGHT as usize) {
        return 2;
    }
    let pos: usize = (WIDTH as usize) * y + x;
    if pos < buffer.len() {
        buffer.set(pos, color);
    }
    1
}

/// Whether any segment of `ts` sits exactly on `h`.
fn tail_contains(ts: &VecDeque<Tail>, h: Pos) -> (r: bool)
    ensures
        r == hits_tail(ts@, h),
{
    let mut i: usize = 0;
    while i < ts.len()
        invariant
            i <= ts@.len(),
            forall|j: int| 0 <= j < i ==> ts@[j].pos != h,
        decreases ts@.len() - i,
    {
        if ts[i].pos == h {
            assert(0 <= i < ts@.len() && ts@[i as int].pos == h);
            return true;
        }
        i = i + 1;
    }
    false
}

impl Game {
    /// The state a step preserves: the snake and its heading are well
    /// formed, the apple is in bounds, the surface has its fixed size,
    /// and every recorded tail or erase cell lies in the wrap rule's
    /// range (so its coordinates are non-negative).
    pub open spec fn wf(self) -> bool {
        &&& self.snake.wf()
        &&& in_bounds(self.apple.pos)
        &&& self.buffer@.len() == BUF_LEN as int
        &&& (forall|i: int| 0 <= i < self.tail@.len() ==> in_wrapped_range(
            #[trigger] self.tail@[i].pos,
        ))
        &&& (forall|i: int| 0 <= i < self.erase@.len() ==> in_wrapped_range(
            #[trigger] self.erase@[i],
        ))
    }

    /// A fresh run: random snake and apple, empty tail, a surface of
    /// background everywhere, nothing recorded for erasure. Draws five
    /// scripted-or-system words: head x, head y, heading, apple x,
    /// apple y.
    #[verifier::loop_isolation(false)]
    pub fn new(rng: &mut RandSource) -> (g: Game)
        ensures
            g.wf(),
            g.tail@.len() == 0,
            g.erase@.len() == 0,
            forall|i: int| 0 <= i < g.buffer@.len() ==> g.buffer@[i] == BACKGROUND,
            final(rng).queue() == queue_after(old(rng).queue(), 5),
            old(rng).queue().len() >= 5 ==> {
                &&& g.snake.pos == from_random_spec(old(rng).queue()[0], old(rng).queue()[1])
                &&& g.snake.dir.current == (old(rng).queue()[2] as int) % 4
                &&& g.apple.pos == from_random_spec(old(rng).queue()[3], old(rng).queue()[4])
            },
    {
        let p = random_position(rng);
        let d = random_direction(rng);
        let ap = random_position(rng);
        proof {
            crate::rng::lemma_queue_after_add(old(rng).queue(), 2, 1);
            crate::rng::lemma_queue_after_add(old(rng).queue(), 3, 2);
        }
        let mut buffer: Vec<u32> = Vec::new();
        while buffer.len() < BUF_LEN
            invariant
                buffer@.len() <= BUF_LEN,
                forall|i: int| 0 <= i < buffer@.len() ==> buffer@[i] == BACKGROUND,
            decreases BUF_LEN - buffer@.len(),
        {
            buffer.push(BACKGROUND);
        }
        Game {
            snake: Snake::new(p, d),
            apple: Apple::new(ap),
            tail: VecDeque::new(),
            buffer,
            erase: Vec::new(),
        }
    }

    /// Restore a fresh randomized state: the snake and the apple are
    /// reassigned fresh random instances, the tail is cleared, and the
    /// whole surface is cleared to background — the one operation that
    /// touches every cell rather than a diff. The erase record is left
    /// alone. Draws five words, in the order `Game::new` does.
    #[verifier::loop_isolation(false)]
    pub fn reset(&mut self, rng: &mut RandSource)
        requires
            old(self).wf(),
        ensures
            final(self).wf(),
            final(self).tail@.len() == 0,
            forall|i: int| 0 <= i < final(self).buffer@.len() ==> final(self).buffer@[i]
                == BACKGROUND,
            final(self).erase@ == old(self).erase@,
            in_bounds(final(self).snake.pos),
            in_bounds(final(self).apple.pos),
            final(rng).queue() == queue_after(old(rng).queue(), 5),
            old(rng).queue().len() >= 5 ==> {
                &&& final(self).snake.pos == from_random_spec(
                    old(rng).queue()[0],
                    old(rng).queue()[1],
                )
                &&& final(self).snake.dir.current == (old(rng).queue()[2] as int) % 4
                &&& final(self).apple.pos == from_random_spec(
                    old(rng).queue()[3],
                    old(rng).queue()[4],
                )
            },
    {
        let p = random_position(rng);
        let d = random_direction(rng);
        let ap = random_position(rng);
        proof {
            crate::rng::lemma_queue_after_add(old(rng).queue(), 2, 1);
            crate::rng::lemma_queue_after_add(old(rng).queue(), 3, 2);
        }
        self.snake = Snake::new(p, d);
        self.apple = Apple::new(ap);
        self.tail.clear();
        let ghost mid = *self;
        let mut i: usize = 0;
        while i < self.buffer.len()
            invariant
                i <= self.buffer@.len(),
                self.buffer@.len() == mid.buffer@.len(),
                self.snake == mid.snake,
                self.apple == mid.apple,
                self.tail@ == mid.tail@,
                self.erase@ == mid.erase@,
                forall|j: int| 0 <= j < i ==> self.buffer@[j] == BACKGROUND,
            decreases self.buffer@.len() - i,
        {
            self.buffer.set(i, BACKGROUND);
            i = i + 1;
        }
    }

    /// One tick, in the exact order the rules fix: apply at most one
    /// directional request; clear the cells recorded last tick; advance
    /// the head and record the new head and the apple for next tick's
    /// clearing; draw the apple and the head; on a self-collision,
    /// reset; else shift a non-empty tail (draw its cells, drop the
    /// oldest segment and record it, put a new segment holding the head
    /// at the front); finally, if the head sits on the apple, respawn
    /// the apple and append a segment holding the head at the back.
    #[verifier::loop_isolation(false)]
    pub fn step(&mut self, input: Option<u32>, rng: &mut RandSource)
        requires
            old(self).wf(),
            input matches Some(d) ==> d < 4,
        ensures
            final(self).wf(),
            tick_rel(*old(self), input, *final(self), old(rng).queue(), final(rng).queue()),
    {
        match input {
            Some(d) => self.snake.change_dir(d),
            None => {},
        }
        let ghost g0 = *self;
        let mut i: usize = 0;
        while i < self.erase.len()
            invariant
                i <= self.erase@.len(),
                self.snake == g0.snake,
                self.apple == g0.apple,
                self.tail@ == g0.tail@,
                self.erase@ == g0.erase@,
                self.buffer@.len() == g0.buffer@.len(),
                self.buffer@ == painted_upto(g0.buffer@, g0.erase@, BACKGROUND, i as int),
            decreases self.erase@.len() - i,
        {
            let p = self.erase[i];
            draw(p.x as usize, p.y as usize, &mut self.buffer, BACKGROUND);
            i = i + 1;
        }
        self.erase.clear();
        let h = self.snake.advance();
        self.erase.push(h);
        self.erase.push(self.apple.pos);
        draw(self.apple.pos.x as usize, self.apple.pos.y as usize, &mut self.buffer, APPLE_COLOR);
        draw(h.x as usize, h.y as usize, &mut self.buffer, HEAD_COLOR);
        proof {
            assert(self.erase@ =~= seq![h, old(self).apple.pos]);
        }
        if tail_contains(&self.tail, h) {
            self.reset(rng);
        }
        if self.tail.len() > 0 {
            let ghost g1 = *self;
            let mut j: usize = 0;
            while j < self.tail.len()
                invariant
                    j <= self.tail@.len(),
                    self.snake == g1.snake,
                    self.apple == g1.apple,
                    self.tail@ == g1.tail@,
                    self.erase@ == g1.erase@,
                    self.buffer@.len() == g1.buffer@.len(),
                    self.buffer@ == painted_upto(
                        g1.buffer@,
                        tail_positions(g1.tail@),
                        BODY_COLOR,
                        j as int,
                    ),
                decreases self.tail@.len() - j,
            {
                let t = self.tail[j];
                draw(t.pos.x as usize, t.pos.y as usize, &mut self.buffer, BODY_COLOR);
                j = j + 1;
            }
            match self.tail.pop_back() {
                Some(t) => self.erase.push(t.pos),
                None => {},
            }
            self.tail.push_front(Tail::new(self.snake.pos));
        }
        if self.snake.collides(self.apple.pos) {
            self.apple.respawn(rng);
            self.tail.push_back(Tail::new(self.snake.pos));
        }
        proof {
            let pre = *old(self);
            let qpre = old(rng).queue();
            if tick_resets(pre, input) {
                crate::rng::lemma_queue_after_add(qpre, 5, 2);
                if self.tail@.len() == 1 {
                    assert(self.tail@ =~= seq![(Tail { pos: self.snake.pos })]);
                }
            }
        }
    }
}

/// The self-collision law: on a tick whose advanced head position
/// coincides with some tail segment's position, the snake and the apple
/// are reinitialized to fresh in-bounds values, the tail is cleared (one
/// fresh segment remains only when the fresh apple appeared under the
/// fresh head and was consumed the same tick), and the rendered surface
/// is background everywhere — all within that tick.
pub proof fn lemma_self_collision_resets(
    pre: Game,
    input: Option<u32>,
    post: Game,
    qpre: Seq<u32>,
    qpost: Seq<u32>,
)
    requires
        tick_rel(pre, input, post, qpre, qpost),
        tick_resets(pre, input),
    ensures
        in_bounds(post.snake.pos),
        in_bounds(post.apple.pos),
        post.snake.dir.wf(),
        post.tail@.len() <= 1,
        post.buffer@.len() == BUF_LEN as int,
        forall|i: int| 0 <= i < post.buffer@.len() ==> post.buffer@[i] == BACKGROUND,
{
}

/// The growth invariant over whole runs: starting from an empty tail,
/// over any run of ticks none of which triggers a reset, the tail's
/// length after the run equals the number of ticks that consumed the
/// apple. `states` holds the state before each tick and after the last,
/// `inputs[i]` the directional request of tick `i`, and `queues[i]` the
/// random script before tick `i`.
pub proof fn lemma_growth_over_run(
    states: Seq<Game>,
    inputs: Seq<Option<u32>>,
    queues: Seq<Seq<u32>>,
)
    requires
        states.len() == inputs.len() + 1,
        queues.len() == states.len(),
        states[0].tail@.len() == 0,
        forall|i: int| 0 <= i < inputs.len() ==> !tick_resets(#[trigger] states[i], inputs[i]),
        forall|i: int| 0 <= i < inputs.len() ==> tick_rel(
            #[trigger] states[i],
            inputs[i],
            states[i + 1],
            queues[i],
            queues[i + 1],
        ),
    ensures
        states.last().tail@.len() == consumption_count(
            Seq::new(inputs.len(), |i: int| tick_eats(states[i], inputs[i])),
        ),
{
    let tails = Seq::new(states.len(), |i: int| states[i].tail@);
    let heads = Seq::new(inputs.len(), |i: int| tick_head(states[i], inputs[i]));
    let eats = Seq::new(inputs.len(), |i: int| tick_eats(states[i], inputs[i]));
    lemma_tail_growth(tails, heads, eats);
    assert(tails.last() == states.last().tail@);
}

/// The consumption law: on a reset-free tick whose advanced head lands
/// on the apple, the tail grows by exactly one segment and the apple is
/// respawned in bounds, within the same tick; and whenever the scripted
/// draw differs from the old apple's position, the apple's position
/// changes. This happens whether or not the tick also shifted a
/// non-empty tail.
pub proof fn lemma_consumption_growth(
    pre: Game,
    input: Option<u32>,
    post: Game,
    qpre: Seq<u32>,
    qpost: Seq<u32>,
)
    requires
        tick_rel(pre, input, post, qpre, qpost),
        !tick_resets(pre, input),
        tick_eats(pre, input),
    ensures
        post.tail@.len() == pre.tail@.len() + 1,
        in_bounds(post.apple.pos),
        qpre.len() >= 2 && from_random_spec(qpre[0], qpre[1]) != pre.apple.pos
            ==> post.apple.pos != pre.apple.pos,
{
    crate::tail::lemma_next_tail_len(pre.tail@, tick_head(pre, input), true);
}

} // verus!
