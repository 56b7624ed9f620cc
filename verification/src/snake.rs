//! The snake itself: the ordered body, the direction state machine, and
//! the one-cell movement step.

use vstd::prelude::*;

use crate::grid::{opposite, opposite_of, step_from, stepped, BoardConfig, Direction, Pos};

verus! {

/// The player's snake. `body[0]` is the head and the last element the
/// tail; the order of the segments carries the snake's shape, so only the
/// movement step and the collision rules may rearrange it. The pending
/// direction holds the latest accepted input and becomes the current
/// direction at the moment the head next moves.
#[derive(Debug)]
pub struct Snake {
    pub body: Vec<Pos>,
    pub current_direction: Direction,
    pub pending_direction: Direction,
    pub alive: bool,
}

/// The body after one movement step in direction `d`: the head advances
/// one cell and every trailing segment takes the old cell of its
/// predecessor, so the old tail cell is vacated.
pub open spec fn moved_body(body: Seq<Pos>, d: Direction) -> Seq<Pos>
    recommends
        body.len() >= 1,
{
    seq![stepped(body[0], d)] + body.drop_last()
}

/// Whether the head rests on some other segment's cell.
pub open spec fn self_collides(body: Seq<Pos>) -> bool {
    exists|i: int| 1 <= i < body.len() && #[trigger] body[i] == body[0]
}

/// Whether the cell `p` is occupied by any segment of `body`.
pub open spec fn occupies(body: Seq<Pos>, p: Pos) -> bool {
    exists|i: int| 0 <= i < body.len() && #[trigger] body[i] == p
}

impl Snake {
    /// Well-formedness against a board: the body is never empty, every
    /// segment lies at most one cell beyond the walls, and a living head
    /// rests within the closed boundary rectangle.
    pub open spec fn wf(self, cfg: BoardConfig) -> bool {
        &&& self.body@.len() >= 1
        &&& forall|i: int| 0 <= i < self.body@.len() ==> cfg.coord_bound(#[trigger] self.body@[i])
        &&& self.alive ==> cfg.head_bound(self.head())
    }

    /// The head's cell.
    pub open spec fn head(self) -> Pos {
        self.body@[0]
    }

    /// The tail's cell.
    pub open spec fn tail(self) -> Pos {
        self.body@[self.body@.len() - 1]
    }

    /// Store a requested direction as the pending one, unless it points
    /// exactly opposite to the current direction: such a request would
    /// reverse the snake into its own neck and is silently ignored.
    pub fn request_direction(&mut self, d: Direction)
        ensures
            final(self).pending_direction == (if d == opposite(old(self).current_direction) {
                old(self).pending_direction
            } else {
                d
            }),
            final(self).body@ == old(self).body@,
            final(self).current_direction == old(self).current_direction,
            final(self).alive == old(self).alive,
    {
        if !(d == opposite_of(self.current_direction)) {
            self.pending_direction = d;
        }
    }

    /// One movement step: the current direction is reloaded from the
    /// pending one, every trailing segment shifts into its predecessor's
    /// old cell, and the head advances one cell. Returns the cell the tail
    /// occupied before the shift — the cell a new segment fills if the
    /// snake grows this tick.
    pub fn move_step(&mut self, cfg: &BoardConfig) -> (old_tail: Pos)
        requires
            cfg.wf(),
            old(self).wf(*cfg),
            old(self).alive,
        ensures
            final(self).body@ == moved_body(old(self).body@, old(self).pending_direction),
            final(self).body@.len() == old(self).body@.len(),
            forall|i: int|
                0 <= i < final(self).body@.len() ==> cfg.coord_bound(#[trigger] final(self).body@[i]),
            final(self).current_direction == old(self).pending_direction,
            final(self).pending_direction == old(self).pending_direction,
            final(self).alive,
            old_tail == old(self).tail(),
    {
        let ghost old_body = self.body@;
        self.current_direction = self.pending_direction;
        let len = self.body.len();
        let old_tail = self.body[len - 1];
        let new_head = step_from(self.body[0], self.current_direction, cfg);
        let mut i: usize = len - 1;
        while i >= 1
            invariant
                len == self.body@.len(),
                old_body.len() == len,
                1 <= len,
                i < len,
                self.alive == old(self).alive,
                self.current_direction == old(self).pending_direction,
                self.pending_direction == old(self).pending_direction,
                forall|j: int| 0 <= j <= i ==> self.body@[j] == old_body[j],
                forall|j: int| i < j < len ==> self.body@[j] == old_body[j - 1],
            decreases i,
        {
            let shifted = self.body[i - 1];
            self.body.set(i, shifted);
            i = i - 1;
        }
        self.body.set(0, new_head);
        assert(self.body@ =~= moved_body(old_body, self.pending_direction));
        old_tail
    }

    /// Whether the head currently rests on another segment's cell.
    pub fn check_self_collision(&self) -> (r: bool)
        requires
            self.body@.len() >= 1,
        ensures
            r == self_collides(self.body@),
    {
        let head = self.body[0];
        let mut i: usize = 1;
        while i < self.body.len()
            invariant
                1 <= i <= self.body@.len(),
                head == self.body@[0],
                forall|j: int| 1 <= j < i ==> self.body@[j] != head,
            decreases self.body@.len() - i,
        {
            if self.body[i] == head {
                return true;
            }
            i = i + 1;
        }
        false
    }
}

/// Whether the cell `p` is occupied by any segment of `body`.
pub fn check_occupies(body: &Vec<Pos>, p: Pos) -> (r: bool)
    ensures
        r == occupies(body@, p),
{
    let mut i: usize = 0;
    while i < body.len()
        invariant
            0 <= i <= body@.len(),
            forall|j: int| 0 <= j < i ==> body@[j] != p,
        decreases body@.len() - i,
    {
        if body[i] == p {
            return true;
        }
        i = i + 1;
    }
    false
}

} // verus!
