use std::collections::VecDeque;

use snek::apple::Apple;
use snek::dir::{Direction, LEFT, RIGHT, UP};
use snek::game::{draw, Game, APPLE_COLOR, BODY_COLOR, BUF_LEN, HEAD_COLOR};
use snek::pos::Pos;
use snek::rng::RandSource;
use snek::snake::Snake;
use snek::tail::Tail;

fn fresh_game(snake: Snake, apple: Apple) -> Game {
    Game { snake, apple, tail: VecDeque::new(), buffer: vec![0u32; BUF_LEN], erase: Vec::new() }
}

fn cell(g: &Game, x: i32, y: i32) -> u32 {
    g.buffer[(200 * y + x) as usize]
}

#[test]
fn left_edge_wrap_lands_on_width() {
    let mut rng = RandSource::scripted(vec![]);
    let mut g = fresh_game(
        Snake::new(Pos::new(0, 50), Direction::new(LEFT)),
        Apple::new(Pos::new(100, 100)),
    );
    g.step(None, &mut rng);
    // The asymmetric rule: (200, 50), not (199, 50).
    assert_eq!(g.snake.pos, Pos::new(200, 50));
    assert_eq!(g.apple.pos, Pos::new(100, 100));
    assert_eq!(g.tail.len(), 0);
    // The next tick re-enters the grid from the far column.
    g.step(None, &mut rng);
    assert_eq!(g.snake.pos, Pos::new(199, 50));
}

#[test]
fn consumption_respawns_and_grows_same_tick() {
    let mut rng = RandSource::scripted(vec![55, 66]);
    let mut g = fresh_game(
        Snake::new(Pos::new(10, 10), Direction::new(RIGHT)),
        Apple::new(Pos::new(11, 10)),
    );
    g.tail.push_back(Tail::new(Pos::new(9, 10)));
    g.tail.push_back(Tail::new(Pos::new(8, 10)));
    g.step(None, &mut rng);
    assert_eq!(g.snake.pos, Pos::new(11, 10));
    // The apple moved, to the scripted cell.
    assert_ne!(g.apple.pos, Pos::new(11, 10));
    assert_eq!(g.apple.pos, Pos::new(55, 66));
    // The tick both shifted and grew: a fresh segment at the head's cell
    // was put at the front by the shift and one appended by the growth;
    // the oldest segment left through the back.
    assert_eq!(g.tail.len(), 3);
    assert_eq!(g.tail[0].pos, Pos::new(11, 10));
    assert_eq!(g.tail[1].pos, Pos::new(9, 10));
    assert_eq!(g.tail[2].pos, Pos::new(11, 10));
}

#[test]
fn consumption_with_empty_tail_grows_to_one() {
    let mut rng = RandSource::scripted(vec![9, 9]);
    let mut g = fresh_game(
        Snake::new(Pos::new(5, 5), Direction::new(RIGHT)),
        Apple::new(Pos::new(6, 5)),
    );
    g.step(None, &mut rng);
    assert_eq!(g.tail.len(), 1);
    assert_eq!(g.tail[0].pos, Pos::new(6, 5));
    assert_eq!(g.apple.pos, Pos::new(9, 9));
}

#[test]
fn apple_under_departing_head_is_not_consumed() {
    // Consumption tests the head after the move: an apple sitting on the
    // cell the head leaves this tick stays where it is.
    let mut rng = RandSource::scripted(vec![]);
    let mut g = fresh_game(
        Snake::new(Pos::new(10, 10), Direction::new(RIGHT)),
        Apple::new(Pos::new(10, 10)),
    );
    g.tail.push_back(Tail::new(Pos::new(9, 10)));
    g.tail.push_back(Tail::new(Pos::new(8, 10)));
    g.step(None, &mut rng);
    assert_eq!(g.snake.pos, Pos::new(11, 10));
    assert_eq!(g.apple.pos, Pos::new(10, 10));
    // A plain shift: front mirrors the head, the oldest segment left.
    assert_eq!(g.tail.len(), 2);
    assert_eq!(g.tail[0].pos, Pos::new(11, 10));
    assert_eq!(g.tail[1].pos, Pos::new(9, 10));
}

#[test]
fn growth_equals_number_of_consumptions() {
    // Three consumptions in a row, each apple scripted one cell ahead.
    let mut rng = RandSource::scripted(vec![2, 0, 3, 0, 4, 0]);
    let mut g = fresh_game(
        Snake::new(Pos::new(0, 0), Direction::new(RIGHT)),
        Apple::new(Pos::new(1, 0)),
    );
    for n in 1..=3 {
        g.step(None, &mut rng);
        assert_eq!(g.tail.len(), n);
    }
    assert_eq!(g.apple.pos, Pos::new(4, 0));
}

#[test]
fn self_collision_resets_everything() {
    let mut rng = RandSource::scripted(vec![20, 30, 1, 70, 80]);
    let mut g = fresh_game(
        Snake::new(Pos::new(10, 10), Direction::new(RIGHT)),
        Apple::new(Pos::new(0, 0)),
    );
    g.tail.push_back(Tail::new(Pos::new(11, 10)));
    g.buffer[17] = 0xFFFFFF;
    g.step(None, &mut rng);
    // Snake, apple and tail all differ from their pre-tick values.
    assert_eq!(g.snake.pos, Pos::new(20, 30));
    assert_eq!(g.snake.dir.current, 1);
    assert_eq!(g.apple.pos, Pos::new(70, 80));
    assert_eq!(g.tail.len(), 0);
    // The surface is background everywhere, the full-buffer clear.
    assert!(g.buffer.iter().all(|&c| c == 0));
}

#[test]
fn reset_consumes_coincident_apple_same_tick() {
    // The fresh apple is drawn onto the fresh head: it is consumed on
    // the very tick it appears, and the apple respawns once more.
    let mut rng = RandSource::scripted(vec![20, 30, 1, 20, 30, 7, 8]);
    let mut g = fresh_game(
        Snake::new(Pos::new(10, 10), Direction::new(RIGHT)),
        Apple::new(Pos::new(0, 0)),
    );
    g.tail.push_back(Tail::new(Pos::new(11, 10)));
    g.step(None, &mut rng);
    assert_eq!(g.snake.pos, Pos::new(20, 30));
    assert_eq!(g.apple.pos, Pos::new(7, 8));
    assert_eq!(g.tail.len(), 1);
    assert_eq!(g.tail[0].pos, Pos::new(20, 30));
}

#[test]
fn reversal_request_is_ignored_during_step() {
    let mut rng = RandSource::scripted(vec![]);
    let mut g = fresh_game(
        Snake::new(Pos::new(5, 5), Direction::new(RIGHT)),
        Apple::new(Pos::new(100, 100)),
    );
    g.step(Some(LEFT), &mut rng);
    assert_eq!(g.snake.dir.current, RIGHT);
    assert_eq!(g.snake.pos, Pos::new(6, 5));
}

#[test]
fn direction_request_is_applied_during_step() {
    let mut rng = RandSource::scripted(vec![]);
    let mut g = fresh_game(
        Snake::new(Pos::new(5, 5), Direction::new(RIGHT)),
        Apple::new(Pos::new(100, 100)),
    );
    g.step(Some(UP), &mut rng);
    assert_eq!(g.snake.dir.current, UP);
    assert_eq!(g.snake.pos, Pos::new(5, 4));
}

#[test]
fn step_renders_head_apple_and_body() {
    let mut rng = RandSource::scripted(vec![]);
    let mut g = fresh_game(
        Snake::new(Pos::new(5, 5), Direction::new(RIGHT)),
        Apple::new(Pos::new(50, 50)),
    );
    g.tail.push_back(Tail::new(Pos::new(4, 5)));
    g.step(None, &mut rng);
    assert_eq!(cell(&g, 6, 5), HEAD_COLOR);
    assert_eq!(cell(&g, 50, 50), APPLE_COLOR);
    assert_eq!(cell(&g, 4, 5), BODY_COLOR);
}

#[test]
fn step_erases_last_ticks_cells() {
    let mut rng = RandSource::scripted(vec![]);
    let mut g = fresh_game(
        Snake::new(Pos::new(5, 5), Direction::new(RIGHT)),
        Apple::new(Pos::new(50, 50)),
    );
    g.step(None, &mut rng);
    assert_eq!(cell(&g, 6, 5), HEAD_COLOR);
    g.step(None, &mut rng);
    // The head's old cell was cleared at the start of the next tick.
    assert_eq!(cell(&g, 6, 5), 0);
    assert_eq!(cell(&g, 7, 5), HEAD_COLOR);
    assert_eq!(cell(&g, 50, 50), APPLE_COLOR);
}

#[test]
fn draw_outside_the_guard_is_a_no_op() {
    let mut buffer = vec![0u32; BUF_LEN];
    assert_eq!(draw(201, 10, &mut buffer, 0xABCDEF), 2);
    assert_eq!(draw(10, 201, &mut buffer, 0xABCDEF), 2);
    assert!(buffer.iter().all(|&c| c == 0));
}

#[test]
fn draw_past_the_last_cell_writes_nothing() {
    let mut buffer = vec![0u32; BUF_LEN];
    // (200, 199) passes the loose guard but lands one past the buffer.
    assert_eq!(draw(200, 199, &mut buffer, 0xABCDEF), 1);
    assert!(buffer.iter().all(|&c| c == 0));
}

#[test]
fn draw_on_the_loose_edge_spills_into_the_next_row() {
    let mut buffer = vec![0u32; BUF_LEN];
    assert_eq!(draw(200, 0, &mut buffer, 0xABCDEF), 1);
    assert_eq!(buffer[200], 0xABCDEF);
}

#[test]
fn new_game_follows_the_script() {
    let mut rng = RandSource::scripted(vec![220, 35, 6, 470, 99]);
    let g = Game::new(&mut rng);
    assert_eq!(g.snake.pos, Pos::new(20, 35));
    assert_eq!(g.snake.dir.current, 2);
    assert_eq!(g.apple.pos, Pos::new(70, 99));
    assert_eq!(g.tail.len(), 0);
    assert_eq!(g.erase.len(), 0);
    assert_eq!(g.buffer.len(), BUF_LEN);
    assert!(g.buffer.iter().all(|&c| c == 0));
}

#[test]
fn new_game_from_system_source_is_in_bounds() {
    let mut rng = RandSource::system();
    let g = Game::new(&mut rng);
    assert!(0 <= g.snake.pos.x && g.snake.pos.x < 200);
    assert!(0 <= g.snake.pos.y && g.snake.pos.y < 200);
    assert!(g.snake.dir.current < 4);
    assert!(0 <= g.apple.pos.x && g.apple.pos.x < 200);
    assert!(0 <= g.apple.pos.y && g.apple.pos.y < 200);
}

#[test]
fn reset_clears_tail_and_surface() {
    let mut rng = RandSource::scripted(vec![1, 2, 3, 4, 5]);
    let mut g = fresh_game(
        Snake::new(Pos::new(10, 10), Direction::new(RIGHT)),
        Apple::new(Pos::new(0, 0)),
    );
    g.tail.push_back(Tail::new(Pos::new(9, 10)));
    g.buffer[0] = 0x123456;
    g.reset(&mut rng);
    assert_eq!(g.tail.len(), 0);
    assert_eq!(g.snake.pos, Pos::new(1, 2));
    assert_eq!(g.snake.dir.current, 3);
    assert_eq!(g.apple.pos, Pos::new(4, 5));
    assert!(g.buffer.iter().all(|&c| c == 0));
}
