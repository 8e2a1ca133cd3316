//! A fixed-grid snake simulation: a snake moves one cell per tick on a
//! 200 x 200 grid, grows by consuming a respawning apple, and resets its
//! whole state on self-collision. The per-tick state machine (boundary
//! wrap, the 180-degree-turn veto, tail shift/growth, collision policy,
//! and the rendered pixel surface) is specified and verified here; the
//! window, keyboard and frame pacing live outside the library.

pub mod apple;
pub mod dir;
pub mod game;
pub mod pos;
pub mod rng;
pub mod snake;
pub mod tail;
