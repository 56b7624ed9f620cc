//! The lattice: cell positions, movement directions, and the rectangular
//! board with its wall boundary and tick interval.

use vstd::prelude::*;

verus! {

/// A cell of the grid. Coordinates are exact integers; two cells are the
/// same cell exactly when both coordinates agree.
#[derive(Clone, Copy, Debug, PartialEq, Eq, Structural)]
pub struct Pos {
    pub x: i32,
    pub y: i32,
}

/// One of the four directions the snake can move in. `Up` increases `y`,
/// `Down` decreases it; `Right` increases `x`, `Left` decreases it.
#[derive(Clone, Copy, Debug, PartialEq, Eq, Structural)]
pub enum Direction {
    Up,
    Down,
    Left,
    Right,
}

/// The direction pointing exactly the opposite way.
pub open spec fn opposite(d: Direction) -> Direction {
    match d {
        Direction::Up => Direction::Down,
        Direction::Down => Direction::Up,
        Direction::Left => Direction::Right,
        Direction::Right => Direction::Left,
    }
}

/// The cell one step from `p` in direction `d`. The casts are exact
/// whenever `p` satisfies `BoardConfig::head_bound`, the only situation in
/// which the simulation steps a cell.
pub open spec fn stepped(p: Pos, d: Direction) -> Pos {
    match d {
        Direction::Up => (Pos { x: p.x, y: (p.y + 1) as i32 }),
        Direction::Down => (Pos { x: p.x, y: (p.y - 1) as i32 }),
        Direction::Left => (Pos { x: (p.x - 1) as i32, y: p.y }),
        Direction::Right => (Pos { x: (p.x + 1) as i32, y: p.y }),
    }
}

/// Board shape and timing, fixed at load time. The playable region is the
/// rectangle `[-half_width, half_width] x [-half_height, half_height]`;
/// a cell on the boundary of that rectangle counts as wall. A movement
/// tick fires once the accumulated elapsed time reaches `tick_interval`
/// time units.
#[derive(Clone, Copy, Debug, PartialEq, Eq, Structural)]
pub struct BoardConfig {
    pub half_width: i32,
    pub half_height: i32,
    pub tick_interval: u64,
}

/// The largest half-extent a board may have; small enough that one step
/// past the boundary can never overflow an `i32`.
pub const MAX_HALF_EXTENT: i32 = 1_000_000;

/// The longest tick interval a board may have; small enough that adding a
/// frame's elapsed time (a `u32`) to an accumulator below the interval can
/// never overflow a `u64`.
pub const MAX_TICK_INTERVAL: u64 = 0xffff_ffff;

impl BoardConfig {
    /// A usable configuration: positive extents and interval, both bounded.
    pub open spec fn wf(self) -> bool {
        &&& 1 <= self.half_width <= MAX_HALF_EXTENT
        &&& 1 <= self.half_height <= MAX_HALF_EXTENT
        &&& 1 <= self.tick_interval <= MAX_TICK_INTERVAL
    }

    /// Whether the cell `p` lies on or outside the wall boundary; a head
    /// resting on such a cell dies (the boundary itself is included).
    pub open spec fn hits_wall(self, p: Pos) -> bool {
        ||| p.x >= self.half_width
        ||| p.x <= -self.half_width
        ||| p.y >= self.half_height
        ||| p.y <= -self.half_height
    }

    /// Whether the cell `p` lies strictly inside the walls: the region
    /// where food may be placed.
    pub open spec fn interior(self, p: Pos) -> bool {
        !self.hits_wall(p)
    }

    /// Where a living head may rest: on or inside the closed boundary
    /// rectangle. Stepping from such a cell stays within `coord_bound`.
    pub open spec fn head_bound(self, p: Pos) -> bool {
        &&& -self.half_width <= p.x <= self.half_width
        &&& -self.half_height <= p.y <= self.half_height
    }

    /// Every coordinate a body segment may ever hold: at most one step
    /// beyond the boundary (the head reaches that far on the tick that
    /// kills it, and never moves again).
    pub open spec fn coord_bound(self, p: Pos) -> bool {
        &&& -self.half_width - 1 <= p.x <= self.half_width + 1
        &&& -self.half_height - 1 <= p.y <= self.half_height + 1
    }

    /// Executable form of `wf`.
    pub fn check_wf(&self) -> (ok: bool)
        ensures
            ok == self.wf(),
    {
        1 <= self.half_width && self.half_width <= MAX_HALF_EXTENT
            && 1 <= self.half_height && self.half_height <= MAX_HALF_EXTENT
            && 1 <= self.tick_interval && self.tick_interval <= MAX_TICK_INTERVAL
    }

    /// Executable form of `hits_wall`.
    pub fn check_hits_wall(&self, p: Pos) -> (r: bool)
        requires
            self.wf(),
        ensures
            r == self.hits_wall(p),
    {
        p.x >= self.half_width || p.x <= -self.half_width || p.y >= self.half_height
            || p.y <= -self.half_height
    }

    /// Executable form of `head_bound`.
    pub fn check_head_bound(&self, p: Pos) -> (r: bool)
        requires
            self.wf(),
        ensures
            r == self.head_bound(p),
    {
        -self.half_width <= p.x && p.x <= self.half_width && -self.half_height <= p.y
            && p.y <= self.half_height
    }

    /// Executable form of `coord_bound`.
    pub fn check_coord_bound(&self, p: Pos) -> (r: bool)
        requires
            self.wf(),
        ensures
            r == self.coord_bound(p),
    {
        -self.half_width - 1 <= p.x && p.x <= self.half_width + 1 && -self.half_height - 1 <= p.y
            && p.y <= self.half_height + 1
    }
}

/// Executable form of `opposite`.
pub fn opposite_of(d: Direction) -> (r: Direction)
    ensures
        r == opposite(d),
{
    match d {
        Direction::Up => Direction::Down,
        Direction::Down => Direction::Up,
        Direction::Left => Direction::Right,
        Direction::Right => Direction::Left,
    }
}

/// Executable form of `stepped`: the neighbouring cell in direction `d`.
pub fn step_from(p: Pos, d: Direction, cfg: &BoardConfig) -> (r: Pos)
    requires
        cfg.wf(),
        cfg.head_bound(p),
    ensures
        r == stepped(p, d),
        cfg.coord_bound(r),
{
    match d {
        Direction::Up => Pos { x: p.x, y: p.y + 1 },
        Direction::Down => Pos { x: p.x, y: p.y - 1 },
        Direction::Left => Pos { x: p.x - 1, y: p.y },
        Direction::Right => Pos { x: p.x + 1, y: p.y },
    }
}

} // verus!
