//! The snake: heading, head cell, and the body as a sequence of headings.

use vstd::prelude::*;
use crate::direction::{Direction, unwind_step_x, unwind_step_y};

verus! {

/// The player-controlled snake.
///
/// `body` records, front to back, the heading the snake had when each body
/// segment was laid down: `body[0]` is the segment next to the head and the
/// last element is the tail.  Walking from the head and reverse-applying
/// each heading in turn reconstructs every occupied cell (see
/// `body_cell_x` / `body_cell_y`).  Its on-screen color is cosmetic and is
/// left to the rendering shell.
pub struct Snake {
    pub dir: Direction,
    pub body: Vec<Direction>,
    pub pos_x: i32,
    pub pos_y: i32,
}

impl Snake {
    /// A fresh snake: heading `Right`, empty body, head at `position`.
    pub fn new(position: (i32, i32)) -> (s: Snake)
        ensures
            s.dir == Direction::Right,
            s.body@.len() == 0,
            s.pos_x == position.0,
            s.pos_y == position.1,
    {
        Snake { dir: Direction::Right, body: Vec::new(), pos_x: position.0, pos_y: position.1 }
    }

    /// Appends one segment at the tail, duplicating the tail's heading so
    /// the tail cell is doubled for one tick.  A snake with no body yet
    /// grows by inserting its current heading as the first segment.
    pub fn grow(&mut self)
        ensures
            final(self).body@ == grown_body(old(self).body@, old(self).dir),
            final(self).dir == old(self).dir,
            final(self).pos_x == old(self).pos_x,
            final(self).pos_y == old(self).pos_y,
    {
        if self.body.len() == 0 {
            self.body.push(self.dir);
        } else {
            let tail = self.body[self.body.len() - 1];
            self.body.push(tail);
        }
    }
}

/// The body after one growth step: the tail heading is duplicated, or the
/// current heading becomes the first segment of an empty body.
pub open spec fn grown_body(body: Seq<Direction>, dir: Direction) -> Seq<Direction> {
    if body.len() == 0 {
        seq![dir]
    } else {
        body.push(body.last())
    }
}

/// The heading a growth step appends: the tail's, or the snake's own when
/// the body is still empty.
pub open spec fn fill_dir(body: Seq<Direction>, dir: Direction) -> Direction {
    if body.len() == 0 {
        dir
    } else {
        body.last()
    }
}

/// The body after `k` growth steps: `k` copies of the fill heading at the tail.
pub open spec fn grown_body_k(body: Seq<Direction>, dir: Direction, k: nat) -> Seq<Direction> {
    body + Seq::new(k, |i: int| fill_dir(body, dir))
}

/// One growth step takes `grown_body_k(body, dir, k)` to
/// `grown_body_k(body, dir, k + 1)`.
pub proof fn lemma_grow_step(body: Seq<Direction>, dir: Direction, k: nat)
    ensures
        grown_body(grown_body_k(body, dir, k), dir) == grown_body_k(body, dir, k + 1),
{
    let fill = fill_dir(body, dir);
    let a = grown_body(grown_body_k(body, dir, k), dir);
    let b = grown_body_k(body, dir, (k + 1) as nat);
    if body.len() == 0 && k == 0 {
        assert(a =~= b);
    } else {
        assert(grown_body_k(body, dir, k).len() > 0);
        assert(grown_body_k(body, dir, k).last() == fill);
        assert(a =~= b);
    }
}

/// The body after a movement tick: the tail segment is dropped and the
/// heading just moved in is recorded as the new first segment.
pub open spec fn moved_body(body: Seq<Direction>, dir: Direction) -> Seq<Direction> {
    if body.len() == 0 {
        seq![dir]
    } else {
        seq![dir] + body.drop_last()
    }
}

/// The x coordinate of the cell reached by reverse-applying the first `n`
/// body headings, starting at head coordinate `hx`; `n == 0` is the head
/// itself, `n == body.len()` the tail cell.
pub open spec fn body_cell_x(hx: int, body: Seq<Direction>, fw: int, n: int) -> int
    decreases n,
{
    if n <= 0 {
        hx
    } else {
        unwind_step_x(body_cell_x(hx, body, fw, n - 1), body[n - 1], fw)
    }
}

/// The y coordinate of the cell reached by reverse-applying the first `n`
/// body headings, starting at head coordinate `hy`.
pub open spec fn body_cell_y(hy: int, body: Seq<Direction>, fh: int, n: int) -> int
    decreases n,
{
    if n <= 0 {
        hy
    } else {
        unwind_step_y(body_cell_y(hy, body, fh, n - 1), body[n - 1], fh)
    }
}

/// Some reconstructed body cell coincides with the head cell.
pub open spec fn self_collision_at(
    hx: int,
    hy: int,
    body: Seq<Direction>,
    fw: int,
    fh: int,
) -> bool {
    exists|n: int|
        1 <= n <= body.len() && body_cell_x(hx, body, fw, n) == hx && body_cell_y(
            hy,
            body,
            fh,
            n,
        ) == hy
}

/// `self_collision_at` for a snake value.
pub open spec fn self_collision(s: Snake, fw: int, fh: int) -> bool {
    self_collision_at(s.pos_x as int, s.pos_y as int, s.body@, fw, fh)
}

} // verus!
