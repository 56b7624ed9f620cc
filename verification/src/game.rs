//! One simulation run: the board, the snake, the single optional food
//! item, and the fixed-interval tick scheduler, advanced frame by frame.
//!
//! A frame handles the direction request first, then the timing gate,
//! then — when enough time has passed — one movement step together with
//! its collision checks, and the food spawner last. Movement and
//! collision checks always run as one unit, and nothing moves once the
//! snake is dead.

use vstd::prelude::*;

use crate::grid::{BoardConfig, Direction, Pos};
use crate::rng::random_in_range;
use crate::snake::{check_occupies, moved_body, occupies, self_collides, Snake};

verus! {

/// What one tick did: whether the snake died this tick (wall or self
/// collision, a signal for the host to recolor it) and whether it ate.
/// The two never hold together: a dying snake does not grow.
#[derive(Clone, Copy, Debug, PartialEq, Eq, Structural)]
pub struct TickOutcome {
    pub died: bool,
    pub ate: bool,
}

/// What one frame did: whether the tick gate fired, what the tick then
/// did, and whether the spawner placed a new food item.
#[derive(Clone, Copy, Debug, PartialEq, Eq, Structural)]
pub struct FrameOutcome {
    pub ticked: bool,
    pub died: bool,
    pub ate: bool,
    pub spawned: bool,
}

/// The whole simulation state. Exactly one food item may exist at a time,
/// so the food is an `Option`: its very type keeps the count at 0 or 1.
#[derive(Debug)]
pub struct Game {
    pub config: BoardConfig,
    pub snake: Snake,
    pub food: Option<Pos>,
    pub elapsed_accum: u64,
}

/// Whether a tick taken from `body` in direction `d` ends in death: the
/// advanced head rests on or beyond a wall, or on another segment.
pub open spec fn tick_dies(body: Seq<Pos>, d: Direction, cfg: BoardConfig) -> bool {
    ||| cfg.hits_wall(moved_body(body, d)[0])
    ||| self_collides(moved_body(body, d))
}

/// Whether a tick taken from `body` in direction `d` eats: the snake
/// survives and the advanced head rests on the food cell.
pub open spec fn tick_eats(body: Seq<Pos>, d: Direction, food: Option<Pos>, cfg: BoardConfig) -> bool {
    !tick_dies(body, d, cfg) && food == Some(moved_body(body, d)[0])
}

/// The body after a tick taken from `body` in direction `d`: the moved
/// body, with one segment appended at the pre-tick tail cell when the
/// snake eats.
pub open spec fn tick_body(body: Seq<Pos>, d: Direction, food: Option<Pos>, cfg: BoardConfig) -> Seq<Pos> {
    if tick_eats(body, d, food, cfg) {
        moved_body(body, d).push(body[body.len() - 1])
    } else {
        moved_body(body, d)
    }
}

/// The pending direction after a frame that carries `input`: an input
/// opposite to the current direction is ignored, any other replaces the
/// pending one.
pub open spec fn updated_pending(s: Snake, input: Option<Direction>) -> Direction {
    match input {
        Option::None => s.pending_direction,
        Option::Some(d) => if d == crate::grid::opposite(s.current_direction) {
            s.pending_direction
        } else {
            d
        },
    }
}

/// Whether the tick gate fires on a frame with `elapsed` time units: the
/// snake is alive and the accumulated time reaches the interval.
pub open spec fn gate_fires(g: Game, elapsed: u32) -> bool {
    g.snake.alive && g.elapsed_accum + elapsed >= g.config.tick_interval
}

impl Game {
    /// Well-formedness: a usable board, a well-formed snake on it, an
    /// accumulator still below the interval, and any food strictly inside
    /// the walls.
    pub open spec fn wf(self) -> bool {
        &&& self.config.wf()
        &&& self.snake.wf(self.config)
        &&& self.elapsed_accum < self.config.tick_interval
        &&& self.food matches Some(p) ==> self.config.interior(p)
    }

    /// How many food items exist: 0 or 1, by the shape of the type.
    pub open spec fn food_count(self) -> nat {
        if self.food is Some {
            1
        } else {
            0
        }
    }

    /// A fresh simulation on `config`: a two-segment snake at the start
    /// cells, heading right, alive, with no food yet and an empty time
    /// accumulator. Returns `None` exactly when the configuration is
    /// unusable.
    pub fn new(config: BoardConfig) -> (r: Option<Game>)
        ensures
            r is Some <==> config.wf(),
            r matches Some(g) ==> ({
                &&& g.wf()
                &&& g.config == config
                &&& g.snake.body@ == seq![(Pos { x: 1, y: 0 }), (Pos { x: 0, y: 0 })]
                &&& g.snake.current_direction == Direction::Right
                &&& g.snake.pending_direction == Direction::Right
                &&& g.snake.alive
                &&& g.food is None
                &&& g.elapsed_accum == 0
            }),
    {
        if !config.check_wf() {
            return None;
        }
        let mut body: Vec<Pos> = Vec::new();
        body.push(Pos { x: 1, y: 0 });
        body.push(Pos { x: 0, y: 0 });
        assert(body@ =~= seq![(Pos { x: 1, y: 0 }), (Pos { x: 0, y: 0 })]);
        Some(
            Game {
                config,
                snake: Snake {
                    body,
                    current_direction: Direction::Right,
                    pending_direction: Direction::Right,
                    alive: true,
                },
                food: None,
                elapsed_accum: 0,
            },
        )
    }

    /// A simulation in a chosen state, for hosts that restore one and for
    /// scenario set-ups: the given body (head first), one direction as
    /// both current and pending, and the given food. Returns `None`
    /// exactly when the pieces do not form a well-formed state.
    pub fn with_state(
        config: BoardConfig,
        body: Vec<Pos>,
        direction: Direction,
        alive: bool,
        food: Option<Pos>,
    ) -> (r: Option<Game>)
        ensures
            r is Some <==> state_ok(config, body@, alive, food),
            r matches Some(g) ==> ({
                &&& g.wf()
                &&& g.config == config
                &&& g.snake.body@ == body@
                &&& g.snake.current_direction == direction
                &&& g.snake.pending_direction == direction
                &&& g.snake.alive == alive
                &&& g.food == food
                &&& g.elapsed_accum == 0
            }),
    {
        if !config.check_wf() {
            return None;
        }
        if body.len() == 0 {
            return None;
        }
        let mut i: usize = 0;
        while i < body.len()
            invariant
                config.wf(),
                0 <= i <= body@.len(),
                forall|j: int| 0 <= j < i ==> config.coord_bound(#[trigger] body@[j]),
            decreases body@.len() - i,
        {
            if !config.check_coord_bound(body[i]) {
                return None;
            }
            i = i + 1;
        }
        if alive && !config.check_head_bound(body[0]) {
            return None;
        }
        match food {
            Some(p) => {
                if config.check_hits_wall(p) {
                    return None;
                }
            },
            None => {},
        }
        Some(
            Game {
                config,
                snake: Snake {
                    body,
                    current_direction: direction,
                    pending_direction: direction,
                    alive,
                },
                food,
                elapsed_accum: 0,
            },
        )
    }

    /// One movement step with its collision resolution, taken
    /// unconditionally (the frame gate lives in `frame`). A dead snake is
    /// inert: nothing moves and no collision is re-evaluated. A living
    /// snake advances one cell in the pending direction; it then dies if
    /// the head rests on a wall or on its own body (death before growth),
    /// and otherwise eats if the head rests on the food cell, which
    /// destroys that food and appends one segment at the pre-tick tail
    /// cell.
    pub fn tick(&mut self) -> (out: TickOutcome)
        requires
            old(self).wf(),
        ensures
            final(self).wf(),
            final(self).config == old(self).config,
            final(self).elapsed_accum == old(self).elapsed_accum,
            final(self).snake.pending_direction == old(self).snake.pending_direction,
            !old(self).snake.alive ==> ({
                &&& final(self).snake.body@ == old(self).snake.body@
                &&& final(self).snake.current_direction == old(self).snake.current_direction
                &&& !final(self).snake.alive
                &&& final(self).food == old(self).food
                &&& out == (TickOutcome { died: false, ate: false })
            }),
            old(self).snake.alive ==> ({
                let body0 = old(self).snake.body@;
                let d = old(self).snake.pending_direction;
                let cfg = old(self).config;
                let food0 = old(self).food;
                &&& final(self).snake.current_direction == d
                &&& final(self).snake.body@ == tick_body(body0, d, food0, cfg)
                &&& final(self).snake.alive == !tick_dies(body0, d, cfg)
                &&& out.died == tick_dies(body0, d, cfg)
                &&& out.ate == tick_eats(body0, d, food0, cfg)
                &&& final(self).food == (if tick_eats(body0, d, food0, cfg) {
                    Option::<Pos>::None
                } else {
                    food0
                })
            }),
            old(self).snake.alive && !out.ate ==> final(self).snake.body@.len() == old(
                self,
            ).snake.body@.len(),
            out.ate ==> ({
                &&& final(self).snake.body@.len() == old(self).snake.body@.len() + 1
                &&& old(self).food is Some
                &&& final(self).food is None
            }),
            !(out.died && out.ate),
    {
        if !self.snake.alive {
            return TickOutcome { died: false, ate: false };
        }
        let old_tail = self.snake.move_step(&self.config);
        let head = self.snake.body[0];
        let wall = self.config.check_hits_wall(head);
        let self_hit = self.snake.check_self_collision();
        if wall || self_hit {
            self.snake.alive = false;
            return TickOutcome { died: true, ate: false };
        }
        let ate = match self.food {
            Some(f) => f == head,
            None => false,
        };
        if ate {
            self.food = None;
            self.snake.body.push(old_tail);
            return TickOutcome { died: false, ate: true };
        }
        TickOutcome { died: false, ate: false }
    }

    /// Place the food at `candidate` if no food exists, the cell lies
    /// strictly inside the walls and no body segment occupies it;
    /// otherwise leave the food exactly as it was. Nothing else changes.
    pub fn try_place_food(&mut self, candidate: Pos)
        requires
            old(self).wf(),
        ensures
            final(self).wf(),
            final(self).config == old(self).config,
            final(self).snake.body@ == old(self).snake.body@,
            final(self).snake.current_direction == old(self).snake.current_direction,
            final(self).snake.pending_direction == old(self).snake.pending_direction,
            final(self).snake.alive == old(self).snake.alive,
            final(self).elapsed_accum == old(self).elapsed_accum,
            old(self).food is Some ==> final(self).food == old(self).food,
            old(self).food is None ==> final(self).food == (if old(self).config.interior(candidate)
                && !occupies(old(self).snake.body@, candidate) {
                Option::Some(candidate)
            } else {
                Option::<Pos>::None
            }),
    {
        if self.food.is_none() {
            let inside = !self.config.check_hits_wall(candidate);
            if inside {
                if !check_occupies(&self.snake.body, candidate) {
                    self.food = Some(candidate);
                }
            }
        }
    }

    /// The food spawner, run once per frame: when no food exists, draw one
    /// uniform candidate cell strictly inside the walls and place the food
    /// there unless a body segment occupies it (then this frame spawns
    /// nothing and a later one draws afresh). Existing food is never
    /// touched, so at most one item ever exists.
    pub fn maintain_food(&mut self)
        requires
            old(self).wf(),
        ensures
            final(self).wf(),
            final(self).config == old(self).config,
            final(self).snake.body@ == old(self).snake.body@,
            final(self).snake.current_direction == old(self).snake.current_direction,
            final(self).snake.pending_direction == old(self).snake.pending_direction,
            final(self).snake.alive == old(self).snake.alive,
            final(self).elapsed_accum == old(self).elapsed_accum,
            old(self).food is Some ==> final(self).food == old(self).food,
            old(self).food is None ==> (final(self).food is None || (final(self).food matches Some(p)
                && old(self).config.interior(p) && !occupies(old(self).snake.body@, p))),
    {
        if self.food.is_none() {
            let x = random_in_range(1 - self.config.half_width, self.config.half_width - 1);
            let y = random_in_range(1 - self.config.half_height, self.config.half_height - 1);
            self.try_place_food(Pos { x, y });
        }
    }

    /// One frame: poll the input into the pending direction (a reversal is
    /// ignored), add the elapsed time to the accumulator, run exactly one
    /// tick once the accumulated time reaches the interval — resetting the
    /// accumulator to zero, so that any surplus is forgotten rather than
    /// saved towards the next tick, and never firing while dead — then run
    /// the food spawner. After any frame at most one food item exists.
    pub fn frame(&mut self, input: Option<Direction>, elapsed: u32) -> (out: FrameOutcome)
        requires
            old(self).wf(),
        ensures
            final(self).wf(),
            final(self).config == old(self).config,
            final(self).snake.pending_direction == updated_pending(old(self).snake, input),
            out.ticked == gate_fires(*old(self), elapsed),
            !old(self).snake.alive ==> final(self).elapsed_accum == old(self).elapsed_accum,
            old(self).snake.alive && !gate_fires(*old(self), elapsed) ==> final(self).elapsed_accum
                == old(self).elapsed_accum + elapsed,
            gate_fires(*old(self), elapsed) ==> final(self).elapsed_accum == 0,
            !gate_fires(*old(self), elapsed) ==> ({
                &&& final(self).snake.body@ == old(self).snake.body@
                &&& final(self).snake.current_direction == old(self).snake.current_direction
                &&& final(self).snake.alive == old(self).snake.alive
                &&& !out.died
                &&& !out.ate
            }),
            gate_fires(*old(self), elapsed) ==> ({
                let body0 = old(self).snake.body@;
                let d = updated_pending(old(self).snake, input);
                let cfg = old(self).config;
                let food0 = old(self).food;
                &&& final(self).snake.current_direction == d
                &&& final(self).snake.body@ == tick_body(body0, d, food0, cfg)
                &&& final(self).snake.alive == !tick_dies(body0, d, cfg)
                &&& out.died == tick_dies(body0, d, cfg)
                &&& out.ate == tick_eats(body0, d, food0, cfg)
            }),
            old(self).food is Some && !out.ate ==> final(self).food == old(self).food,
            out.spawned == (final(self).food is Some && (old(self).food is None || out.ate)),
            out.spawned ==> (final(self).food matches Some(p) && old(self).config.interior(p)
                && !occupies(final(self).snake.body@, p)),
            final(self).food_count() <= 1,
    {
        match input {
            Some(d) => self.snake.request_direction(d),
            None => {},
        }
        let mut out = FrameOutcome { ticked: false, died: false, ate: false, spawned: false };
        if self.snake.alive {
            let total: u64 = self.elapsed_accum + (elapsed as u64);
            if total >= self.config.tick_interval {
                self.elapsed_accum = 0;
                let t = self.tick();
                out.ticked = true;
                out.died = t.died;
                out.ate = t.ate;
            } else {
                self.elapsed_accum = total;
            }
        }
        let had_food = self.food.is_some();
        self.maintain_food();
        out.spawned = !had_food && self.food.is_some();
        out
    }
}

/// Whether the pieces handed to `Game::with_state` form a well-formed
/// simulation state.
pub open spec fn state_ok(config: BoardConfig, body: Seq<Pos>, alive: bool, food: Option<Pos>) -> bool {
    &&& config.wf()
    &&& body.len() >= 1
    &&& forall|i: int| 0 <= i < body.len() ==> config.coord_bound(#[trigger] body[i])
    &&& alive ==> config.head_bound(body[0])
    &&& food matches Some(p) ==> config.interior(p)
}

} // verus!
