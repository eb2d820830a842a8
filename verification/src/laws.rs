//! Laws of the engine: properties that relate the operations to each other.

use vstd::prelude::*;
use crate::direction::{Direction, wrap_step_x};
use crate::food::{Food, FoodState};
use crate::game::{
    Game, GameInput, at_head, consumed_in_tick, tick_result, turned_dir, update_rel_with,
};
use crate::snake::{body_cell_x, body_cell_y, self_collision_at};

verus! {

/// Turning into the exact opposite of the current heading is rejected: the
/// heading after such an input equals the heading before it.
pub proof fn lemma_reverse_turn_rejected(cur: Direction)
    ensures
        turned_dir(cur, GameInput::Turn(cur.opposite_spec())) == cur,
{
}

/// Movement wraps exactly at the field boundaries: a head on the right
/// edge moving right re-enters at column 0, and a head on the left edge
/// moving left re-enters at the right edge.
pub proof fn lemma_wrap_at_boundaries(fw: int)
    requires
        0 < fw,
    ensures
        wrap_step_x(fw - 1, Direction::Right, fw) == 0,
        wrap_step_x(0, Direction::Left, fw) == fw - 1,
{
    vstd::arithmetic::div_mod::lemma_mod_multiples_basic(2, fw);
    vstd::arithmetic::div_mod::lemma_small_mod((fw - 1) as nat, fw as nat);
}

/// A body whose reverse-applied headings trace back to the head cell is a
/// self-collision, wherever along the body the loop closes.
pub proof fn lemma_closed_loop_is_collision(
    hx: int,
    hy: int,
    body: Seq<Direction>,
    fw: int,
    fh: int,
    n: int,
)
    requires
        1 <= n <= body.len(),
        body_cell_x(hx, body, fw, n) == hx,
        body_cell_y(hy, body, fh, n) == hy,
    ensures
        self_collision_at(hx, hy, body, fw, fh),
{
}

/// Across one tick that does not end in a reset, the body grows by exactly
/// the number of food items consumed at the head that tick, and never
/// shrinks.  The one excluded input is a snake with no body yet on an
/// unpaused tick that consumes nothing: there the movement step mints the
/// first body segment out of nothing.
pub proof fn lemma_body_length_tracks_consumption(
    pre: Game,
    post: Game,
    spawned: Seq<Food>,
    reset_spawn: Seq<Food>,
)
    requires
        update_rel_with(pre, post, spawned, reset_spawn),
        !tick_result(pre, spawned).reset,
        pre.snake.body@.len() >= 1 || pre.game_paused || consumed_in_tick(pre, spawned) >= 1,
    ensures
        post.snake.body@.len() == pre.snake.body@.len() + consumed_in_tick(pre, spawned),
        post.snake.body@.len() >= pre.snake.body@.len(),
{
}

/// The total number of food items consumed over the first `n` ticks of a
/// run: tick `i` leads from `states[i]` to `states[i + 1]` with the food
/// wave `spawns[i]`.
pub open spec fn total_consumed(states: Seq<Game>, spawns: Seq<Seq<Food>>, n: int) -> nat
    decreases n,
{
    if n <= 0 {
        0
    } else {
        total_consumed(states, spawns, n - 1) + consumed_in_tick(states[n - 1], spawns[n - 1])
    }
}

/// `total_consumed` only reads the first `n` ticks, so it is the same on
/// any run that agrees on them.
pub proof fn lemma_total_consumed_prefix(
    states1: Seq<Game>,
    spawns1: Seq<Seq<Food>>,
    states2: Seq<Game>,
    spawns2: Seq<Seq<Food>>,
    n: int,
)
    requires
        0 <= n,
        forall|i: int| 0 <= i < n ==> #[trigger] states1[i] == states2[i],
        forall|i: int| 0 <= i < n ==> #[trigger] spawns1[i] == spawns2[i],
    ensures
        total_consumed(states1, spawns1, n) == total_consumed(states2, spawns2, n),
    decreases n,
{
    if n > 0 {
        lemma_total_consumed_prefix(states1, spawns1, states2, spawns2, n - 1);
    }
}

/// Over a run of ticks none of which ends in a reset, starting from a
/// snake that already has a body, the body length after every tick equals
/// the starting length plus the total number of food items consumed so
/// far — so it also never shrinks and is never negative.
pub proof fn lemma_body_length_over_run(
    states: Seq<Game>,
    spawns: Seq<Seq<Food>>,
    reset_spawns: Seq<Seq<Food>>,
)
    requires
        states.len() >= 1,
        spawns.len() == states.len() - 1,
        reset_spawns.len() == states.len() - 1,
        states[0].snake.body@.len() >= 1,
        forall|i: int|
            0 <= i < states.len() - 1 ==> update_rel_with(
                #[trigger] states[i],
                states[i + 1],
                spawns[i],
                reset_spawns[i],
            ),
        forall|i: int|
            0 <= i < states.len() - 1 ==> !tick_result(#[trigger] states[i], spawns[i]).reset,
    ensures
        states.last().snake.body@.len() == states[0].snake.body@.len() + total_consumed(
            states,
            spawns,
            states.len() - 1,
        ),
    decreases states.len(),
{
    if states.len() > 1 {
        let shorter = states.drop_last();
        let n = states.len() - 2;
        lemma_body_length_over_run(shorter, spawns.take(n), reset_spawns.take(n));
        lemma_total_consumed_prefix(shorter, spawns.take(n), states, spawns, n);
        assert(shorter.last() == states[n]);
        lemma_body_length_tracks_consumption(
            states[n],
            states[n + 1],
            spawns[n],
            reset_spawns[n],
        );
    }
}

/// After the tick that consumes the food on a cell, no food item of that
/// cell is still fresh; and when exactly one item was consumed, the body
/// is longer by exactly one segment.
pub proof fn lemma_consumed_cell_not_fresh(
    pre: Game,
    post: Game,
    spawned: Seq<Food>,
    reset_spawn: Seq<Food>,
)
    requires
        update_rel_with(pre, post, spawned, reset_spawn),
        !tick_result(pre, spawned).reset,
    ensures
        forall|j: int|
            0 <= j < post.snacks@.len() && at_head(
                #[trigger] post.snacks@[j],
                pre.snake.pos_x as int,
                pre.snake.pos_y as int,
            ) ==> post.snacks@[j].state == FoodState::Eaten,
        consumed_in_tick(pre, spawned) == 1 ==> post.snake.body@.len() == pre.snake.body@.len()
            + 1,
{
}

} // verus!
