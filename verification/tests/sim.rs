use snek::game::Game;
use snek::grid::{BoardConfig, Direction, Pos};
use snek::snake::Snake;

fn cfg20() -> BoardConfig {
    BoardConfig { half_width: 20, half_height: 20, tick_interval: 50 }
}

fn pos(x: i32, y: i32) -> Pos {
    Pos { x, y }
}

fn game_with(body: Vec<Pos>, direction: Direction, food: Option<Pos>) -> Game {
    Game::with_state(cfg20(), body, direction, true, food).unwrap()
}

#[test]
fn tick_moves_head_and_tail() {
    let mut g = game_with(vec![pos(1, 0), pos(0, 0)], Direction::Right, None);
    let out = g.tick();
    assert_eq!(g.snake.body, vec![pos(2, 0), pos(1, 0)]);
    assert!(g.snake.alive);
    assert!(!out.died && !out.ate);
}

#[test]
fn tick_moves_head_only_body() {
    let mut g = game_with(vec![pos(0, 0)], Direction::Up, None);
    let out = g.tick();
    assert_eq!(g.snake.body, vec![pos(0, 1)]);
    assert!(g.snake.alive);
    assert!(!out.died && !out.ate);
}

#[test]
fn wall_boundary_is_deadly() {
    let mut g = game_with(vec![pos(20, 0), pos(19, 0)], Direction::Right, None);
    let out = g.tick();
    assert!(out.died);
    assert!(!g.snake.alive);
    assert_eq!(g.snake.body, vec![pos(21, 0), pos(20, 0)]);
}

#[test]
fn reaching_the_boundary_cell_is_deadly() {
    let mut g = game_with(vec![pos(18, 0), pos(17, 0)], Direction::Right, None);
    assert!(!g.tick().died);
    assert_eq!(g.snake.body[0], pos(19, 0));
    let out = g.tick();
    assert!(out.died);
    assert!(!g.snake.alive);
    assert_eq!(g.snake.body[0], pos(20, 0));
}

#[test]
fn self_collision_is_deadly() {
    let mut g = game_with(vec![pos(0, 0), pos(0, 1), pos(0, 2)], Direction::Up, None);
    let out = g.tick();
    assert!(out.died);
    assert!(!out.ate);
    assert!(!g.snake.alive);
    assert_eq!(g.snake.body.len(), 3);
    assert_eq!(g.snake.body, vec![pos(0, 1), pos(0, 0), pos(0, 1)]);
}

#[test]
fn eating_grows_by_one_and_consumes_the_food() {
    let mut g = game_with(vec![pos(1, 0), pos(0, 0)], Direction::Right, Some(pos(2, 0)));
    let out = g.tick();
    assert!(out.ate);
    assert!(!out.died);
    assert!(g.snake.alive);
    assert_eq!(g.snake.body, vec![pos(2, 0), pos(1, 0), pos(0, 0)]);
    assert_eq!(g.food, None);
}

#[test]
fn missing_the_food_leaves_it_in_place() {
    let mut g = game_with(vec![pos(1, 0), pos(0, 0)], Direction::Right, Some(pos(5, 5)));
    let out = g.tick();
    assert!(!out.ate);
    assert_eq!(g.food, Some(pos(5, 5)));
    assert_eq!(g.snake.body.len(), 2);
}

#[test]
fn reversal_requests_are_ignored() {
    let pairs = [
        (Direction::Right, Direction::Left),
        (Direction::Left, Direction::Right),
        (Direction::Up, Direction::Down),
        (Direction::Down, Direction::Up),
    ];
    for (current, reverse) in pairs {
        let mut s = Snake {
            body: vec![pos(1, 0), pos(0, 0)],
            current_direction: current,
            pending_direction: current,
            alive: true,
        };
        s.request_direction(reverse);
        assert_eq!(s.pending_direction, current);
        assert_eq!(s.current_direction, current);
    }
}

#[test]
fn sideways_requests_are_stored() {
    let mut s = Snake {
        body: vec![pos(1, 0), pos(0, 0)],
        current_direction: Direction::Right,
        pending_direction: Direction::Right,
        alive: true,
    };
    s.request_direction(Direction::Up);
    assert_eq!(s.pending_direction, Direction::Up);
    assert_eq!(s.current_direction, Direction::Right);
}

#[test]
fn reversal_through_a_frame_is_ignored() {
    let mut g = game_with(vec![pos(1, 0), pos(0, 0)], Direction::Right, None);
    let out = g.frame(Some(Direction::Left), 0);
    assert!(!out.ticked);
    assert_eq!(g.snake.pending_direction, Direction::Right);
    assert_eq!(g.snake.current_direction, Direction::Right);
}

#[test]
fn turn_applies_at_the_tick() {
    let mut g = game_with(vec![pos(1, 0), pos(0, 0)], Direction::Right, None);
    let out = g.frame(Some(Direction::Up), 50);
    assert!(out.ticked);
    assert_eq!(g.snake.body, vec![pos(1, 1), pos(1, 0)]);
    assert_eq!(g.snake.current_direction, Direction::Up);
}

#[test]
fn dead_snake_is_inert() {
    let mut g = Game::with_state(
        cfg20(),
        vec![pos(3, 0), pos(2, 0)],
        Direction::Right,
        false,
        None,
    )
    .unwrap();
    for _ in 0..5 {
        let out = g.tick();
        assert!(!out.died && !out.ate);
        assert_eq!(g.snake.body, vec![pos(3, 0), pos(2, 0)]);
        assert!(!g.snake.alive);
    }
    let out = g.frame(Some(Direction::Up), 1000);
    assert!(!out.ticked);
    assert_eq!(g.snake.body, vec![pos(3, 0), pos(2, 0)]);
    assert_eq!(g.elapsed_accum, 0);
}

#[test]
fn death_is_reached_once_and_then_kept() {
    let mut g = game_with(vec![pos(19, 0), pos(18, 0)], Direction::Right, None);
    assert!(g.tick().died);
    let body_at_death = g.snake.body.clone();
    for _ in 0..3 {
        let out = g.tick();
        assert!(!out.died);
        assert_eq!(g.snake.body, body_at_death);
    }
}

#[test]
fn length_is_kept_while_not_eating() {
    let mut g = game_with(vec![pos(0, 0), pos(-1, 0), pos(-2, 0)], Direction::Right, None);
    for _ in 0..10 {
        let out = g.tick();
        assert!(!out.ate);
        assert_eq!(g.snake.body.len(), 3);
    }
    assert_eq!(g.snake.body[0], pos(10, 0));
}

#[test]
fn gate_accumulates_and_drops_excess() {
    let cfg = BoardConfig { half_width: 20, half_height: 20, tick_interval: 10 };
    let mut g = Game::with_state(cfg, vec![pos(1, 0), pos(0, 0)], Direction::Right, true, None)
        .unwrap();
    let out = g.frame(None, 4);
    assert!(!out.ticked);
    assert_eq!(g.elapsed_accum, 4);
    assert_eq!(g.snake.body[0], pos(1, 0));
    let out = g.frame(None, 7);
    assert!(out.ticked);
    assert_eq!(g.elapsed_accum, 0);
    assert_eq!(g.snake.body[0], pos(2, 0));
    let out = g.frame(None, 9);
    assert!(!out.ticked);
    assert_eq!(g.elapsed_accum, 9);
    assert_eq!(g.snake.body[0], pos(2, 0));
}

#[test]
fn new_game_starts_at_the_known_cells() {
    let g = Game::new(cfg20()).unwrap();
    assert_eq!(g.snake.body, vec![pos(1, 0), pos(0, 0)]);
    assert_eq!(g.snake.current_direction, Direction::Right);
    assert_eq!(g.snake.pending_direction, Direction::Right);
    assert!(g.snake.alive);
    assert_eq!(g.food, None);
    assert_eq!(g.elapsed_accum, 0);
}

#[test]
fn bad_configurations_are_refused() {
    assert!(Game::new(BoardConfig { half_width: 0, half_height: 20, tick_interval: 50 }).is_none());
    assert!(Game::new(BoardConfig { half_width: 20, half_height: -3, tick_interval: 50 }).is_none());
    assert!(Game::new(BoardConfig { half_width: 20, half_height: 20, tick_interval: 0 }).is_none());
    assert!(Game::new(cfg20()).is_some());
}

#[test]
fn bad_states_are_refused() {
    assert!(Game::with_state(cfg20(), vec![], Direction::Right, true, None).is_none());
    // a segment further than one cell beyond the wall
    assert!(
        Game::with_state(cfg20(), vec![pos(22, 0)], Direction::Right, true, None).is_none()
    );
    // a living head beyond the closed boundary rectangle
    assert!(
        Game::with_state(cfg20(), vec![pos(21, 0)], Direction::Right, true, None).is_none()
    );
    // the same cell is acceptable for a dead snake
    assert!(
        Game::with_state(cfg20(), vec![pos(21, 0)], Direction::Right, false, None).is_some()
    );
    // food on the wall boundary
    assert!(
        Game::with_state(cfg20(), vec![pos(0, 0)], Direction::Right, true, Some(pos(20, 0)))
            .is_none()
    );
}
