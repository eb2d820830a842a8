//! The game engine: simulation state and the tick-based update logic.

use vstd::prelude::*;
use crate::direction::{Direction, wrap_step_x, wrap_step_y};
use crate::food::{Food, FoodState, fresh_in_field};
use crate::snake::{
    Snake, grown_body_k, lemma_grow_step, moved_body, body_cell_x, body_cell_y, self_collision,
    self_collision_at,
};
use crate::rng::random_coordinate;

verus! {

/// A decoded player intent, as the input collaborator hands it over.
/// Unrecognized key presses are forwarded as `Unrecognized` and ignored.
#[derive(Copy, Clone, PartialEq, Eq, Structural, Debug)]
pub enum GameInput {
    TogglePause,
    Turn(Direction),
    Unrecognized,
}

/// The whole simulation state.  `square_size` is rendering metadata carried
/// for the drawing shell; it plays no part in the logic.
pub struct Game {
    pub snake: Snake,
    pub snacks: Vec<Food>,
    pub square_size: i32,
    pub game_paused: bool,
    pub field_width: i32,
    pub field_height: i32,
    pub level: u8,
}

/// `f` lies on the cell `(hx, hy)`.
pub open spec fn at_head(f: Food, hx: int, hy: int) -> bool {
    f.pos_x as int == hx && f.pos_y as int == hy
}

/// The food collection with every eaten item removed, order kept.
pub open spec fn purged(s: Seq<Food>) -> Seq<Food>
    decreases s.len(),
{
    if s.len() == 0 {
        Seq::empty()
    } else if s.last().state == FoodState::Fresh {
        purged(s.drop_last()).push(s.last())
    } else {
        purged(s.drop_last())
    }
}

/// `f` after the consumption check: marked eaten when it lies on the head cell.
pub open spec fn mark_one(f: Food, hx: int, hy: int) -> Food {
    if at_head(f, hx, hy) {
        Food { pos_x: f.pos_x, pos_y: f.pos_y, state: FoodState::Eaten }
    } else {
        f
    }
}

/// The food collection after the consumption check on every item.
pub open spec fn marked(s: Seq<Food>, hx: int, hy: int) -> Seq<Food> {
    Seq::new(s.len(), |i: int| mark_one(s[i], hx, hy))
}

/// How many items of `s` lie on the head cell `(hx, hy)`.
pub open spec fn eaten_count(s: Seq<Food>, hx: int, hy: int) -> nat
    decreases s.len(),
{
    if s.len() == 0 {
        0
    } else {
        eaten_count(s.drop_last(), hx, hy) + (if at_head(s.last(), hx, hy) {
            1nat
        } else {
            0nat
        })
    }
}

/// The state a tick computes before a possible reset: what `update` leaves
/// behind when no self-collision is found, plus the `reset` verdict itself.
/// `spawned` stands for the food wave drawn at the start of the tick; it is
/// only consulted when the collection was empty.
pub ghost struct TickState {
    pub paused: bool,
    pub dir: Direction,
    pub hx: int,
    pub hy: int,
    pub body: Seq<Direction>,
    pub snacks: Seq<Food>,
    pub level: int,
    pub reset: bool,
}

/// The deterministic part of one tick, given the food wave `spawned` that
/// the random source produced (consulted only when the collection was empty):
/// spawn if empty, purge eaten items, consume and grow at the head cell,
/// move unless paused, then test for self-collision.
pub open spec fn tick_result(pre: Game, spawned: Seq<Food>) -> TickState {
    let fw = pre.field_width as int;
    let fh = pre.field_height as int;
    let hx = pre.snake.pos_x as int;
    let hy = pre.snake.pos_y as int;
    let snacks_a = if pre.snacks@.len() == 0 {
        spawned
    } else {
        pre.snacks@
    };
    let level_a = if pre.snacks@.len() == 0 {
        pre.level as int + 1
    } else {
        pre.level as int
    };
    let snacks_b = purged(snacks_a);
    let k = eaten_count(snacks_b, hx, hy);
    let body_c = grown_body_k(pre.snake.body@, pre.snake.dir, k);
    let px = if pre.game_paused {
        hx
    } else {
        wrap_step_x(hx, pre.snake.dir, fw)
    };
    let py = if pre.game_paused {
        hy
    } else {
        wrap_step_y(hy, pre.snake.dir, fh)
    };
    let body_d = if pre.game_paused {
        body_c
    } else {
        moved_body(body_c, pre.snake.dir)
    };
    TickState {
        paused: pre.game_paused,
        dir: pre.snake.dir,
        hx: px,
        hy: py,
        body: body_d,
        snacks: marked(snacks_b, hx, hy),
        level: level_a,
        reset: self_collision_at(px, py, body_d, fw, fh),
    }
}

/// How many food items the tick consumes.
pub open spec fn consumed_in_tick(pre: Game, spawned: Seq<Food>) -> nat {
    let snacks_a = if pre.snacks@.len() == 0 {
        spawned
    } else {
        pre.snacks@
    };
    eaten_count(purged(snacks_a), pre.snake.pos_x as int, pre.snake.pos_y as int)
}

/// When the tick begins with an empty collection, `spawned` must be a wave
/// of `pre.level + 2` fresh items within the field: the level is bumped
/// first, and a wave holds one item more than the new level.
pub open spec fn spawn_shape_ok(pre: Game, spawned: Seq<Food>) -> bool {
    pre.snacks@.len() == 0 ==> {
        &&& spawned.len() == pre.level as int + 2
        &&& fresh_in_field(spawned, pre.field_width as int, pre.field_height as int)
    }
}

/// `post` is the outcome of one `update` tick on `pre` in which the random
/// source produced `spawned` (when a wave was due) and `reset_spawn` (when
/// a self-collision forced a reset).
pub open spec fn update_rel_with(
    pre: Game,
    post: Game,
    spawned: Seq<Food>,
    reset_spawn: Seq<Food>,
) -> bool {
    let fw = pre.field_width as int;
    let fh = pre.field_height as int;
    let t = tick_result(pre, spawned);
    &&& spawn_shape_ok(pre, spawned)
    &&& post.square_size == pre.square_size
    &&& post.field_width == pre.field_width
    &&& post.field_height == pre.field_height
    &&& post.snake.dir == t.dir
    &&& if t.reset {
        &&& post.game_paused == true
        &&& post.snake.pos_x == 10
        &&& post.snake.pos_y == 10
        &&& post.snake.body@.len() == 0
        &&& post.level == 1
        &&& post.snacks@ == reset_spawn
        &&& reset_spawn.len() == 2
        &&& fresh_in_field(reset_spawn, fw, fh)
    } else {
        &&& post.game_paused == t.paused
        &&& post.snake.pos_x as int == t.hx
        &&& post.snake.pos_y as int == t.hy
        &&& post.snake.body@ == t.body
        &&& post.snacks@ == t.snacks
        &&& post.level as int == t.level
    }
}

/// `post` is a possible outcome of one `update` tick on `pre`, for some
/// outcome of the random source.
pub open spec fn update_rel(pre: Game, post: Game) -> bool {
    exists|spawned: Seq<Food>, reset_spawn: Seq<Food>|
        update_rel_with(pre, post, spawned, reset_spawn)
}

impl Game {
    /// The state invariant: the field is large enough to hold the fixed
    /// start cell (10, 10), small enough that wrap arithmetic cannot
    /// overflow, and the head lies within it.
    pub open spec fn well_formed(self) -> bool {
        &&& 10 < self.field_width < 0x4000_0000
        &&& 10 < self.field_height < 0x4000_0000
        &&& 0 <= self.snake.pos_x < self.field_width
        &&& 0 <= self.snake.pos_y < self.field_height
    }

    /// A fresh, paused game: head at the fixed start cell, no body, no
    /// food, level 0.
    pub fn new(sqr_size: i32, field_size: (i32, i32)) -> (g: Game)
        requires
            10 < field_size.0 < 0x4000_0000,
            10 < field_size.1 < 0x4000_0000,
        ensures
            g.well_formed(),
            g.snake.pos_x == 10,
            g.snake.pos_y == 10,
            g.snake.dir == Direction::Right,
            g.snake.body@.len() == 0,
            g.snacks@.len() == 0,
            g.square_size == sqr_size,
            g.game_paused == true,
            g.field_width == field_size.0,
            g.field_height == field_size.1,
            g.level == 0,
    {
        Game {
            snake: Snake::new((10, 10)),
            snacks: Vec::new(),
            square_size: sqr_size,
            game_paused: true,
            field_width: field_size.0,
            field_height: field_size.1,
            level: 0,
        }
    }

    /// Clears the remaining food, bumps the level, and spawns a wave of
    /// `level + 1` fresh items at random cells of the field.
    pub fn next_level(&mut self)
        requires
            old(self).well_formed(),
            old(self).level < 255,
        ensures
            final(self).well_formed(),
            final(self).level == old(self).level + 1,
            final(self).snacks@.len() == final(self).level as int + 1,
            fresh_in_field(
                final(self).snacks@,
                old(self).field_width as int,
                old(self).field_height as int,
            ),
            final(self).snake == old(self).snake,
            final(self).game_paused == old(self).game_paused,
            final(self).square_size == old(self).square_size,
            final(self).field_width == old(self).field_width,
            final(self).field_height == old(self).field_height,
    {
        self.snacks.clear();
        self.level = self.level + 1;
        let count: u16 = self.level as u16 + 1;
        let mut i: u16 = 0;
        while i < count
            invariant
                i <= count,
                count == self.level as int + 1,
                self.snacks@.len() == i as int,
                fresh_in_field(self.snacks@, self.field_width as int, self.field_height as int),
                self.well_formed(),
                self.level == old(self).level + 1,
                self.snake == old(self).snake,
                self.game_paused == old(self).game_paused,
                self.square_size == old(self).square_size,
                self.field_width == old(self).field_width,
                self.field_height == old(self).field_height,
            decreases count - i,
        {
            let pos_x = random_coordinate(self.field_width);
            let pos_y = random_coordinate(self.field_height);
            self.snacks.push(Food { pos_x, pos_y, state: FoodState::Fresh });
            i = i + 1;
        }
    }

    /// Resets after a self-collision: pause, head back to the start cell,
    /// body cleared, level back to 0, and immediately spawn the level-1
    /// wave of two fresh items, so play can resume at once.
    pub fn game_over(&mut self)
        requires
            old(self).well_formed(),
        ensures
            final(self).well_formed(),
            final(self).game_paused == true,
            final(self).snake.pos_x == 10,
            final(self).snake.pos_y == 10,
            final(self).snake.dir == old(self).snake.dir,
            final(self).snake.body@.len() == 0,
            final(self).level == 1,
            final(self).snacks@.len() == 2,
            fresh_in_field(
                final(self).snacks@,
                old(self).field_width as int,
                old(self).field_height as int,
            ),
            final(self).square_size == old(self).square_size,
            final(self).field_width == old(self).field_width,
            final(self).field_height == old(self).field_height,
    {
        self.game_paused = true;
        self.snake.pos_x = 10;
        self.snake.pos_y = 10;
        self.level = 0;
        self.snake.body.clear();
        self.next_level();
    }

    /// Moves the snake one cell in its heading with wrap-around: the tail
    /// segment is freed and the heading just moved in becomes the first
    /// body segment.
    pub fn move_snake(&mut self)
        requires
            old(self).well_formed(),
        ensures
            final(self).well_formed(),
            final(self).snake.pos_x as int == wrap_step_x(
                old(self).snake.pos_x as int,
                old(self).snake.dir,
                old(self).field_width as int,
            ),
            final(self).snake.pos_y as int == wrap_step_y(
                old(self).snake.pos_y as int,
                old(self).snake.dir,
                old(self).field_height as int,
            ),
            final(self).snake.body@ == moved_body(old(self).snake.body@, old(self).snake.dir),
            final(self).snake.dir == old(self).snake.dir,
            final(self).snacks == old(self).snacks,
            final(self).game_paused == old(self).game_paused,
            final(self).level == old(self).level,
            final(self).square_size == old(self).square_size,
            final(self).field_width == old(self).field_width,
            final(self).field_height == old(self).field_height,
    {
        self.snake.body.pop();
        match self.snake.dir {
            Direction::Right => {
                self.snake.pos_x = (self.snake.pos_x + 1 + self.field_width) % self.field_width;
            },
            Direction::Left => {
                self.snake.pos_x = (self.snake.pos_x - 1 + self.field_width) % self.field_width;
            },
            Direction::Up => {
                self.snake.pos_y = (self.snake.pos_y - 1 + self.field_height) % self.field_height;
            },
            Direction::Down => {
                self.snake.pos_y = (self.snake.pos_y + 1 + self.field_height) % self.field_height;
            },
        }
        self.snake.body.insert(0, self.snake.dir);
        proof {
            let b0 = old(self).snake.body@;
            let d = old(self).snake.dir;
            if b0.len() == 0 {
                assert(self.snake.body@ =~= moved_body(b0, d));
            } else {
                assert(b0.subrange(0, b0.len() - 1) =~= b0.drop_last());
                assert(self.snake.body@ =~= moved_body(b0, d));
            }
        }
    }

    /// Applies a decoded input: a pause toggle flips the paused flag; a
    /// turn request is accepted unless it is the exact opposite of the
    /// current heading; anything else is ignored.
    pub fn react_on(&mut self, input: GameInput)
        ensures
            final(self).game_paused == (if input == GameInput::TogglePause {
                !old(self).game_paused
            } else {
                old(self).game_paused
            }),
            final(self).snake.dir == turned_dir(old(self).snake.dir, input),
            final(self).snake.body@ == old(self).snake.body@,
            final(self).snake.pos_x == old(self).snake.pos_x,
            final(self).snake.pos_y == old(self).snake.pos_y,
            final(self).snacks == old(self).snacks,
            final(self).level == old(self).level,
            final(self).square_size == old(self).square_size,
            final(self).field_width == old(self).field_width,
            final(self).field_height == old(self).field_height,
    {
        match input {
            GameInput::TogglePause => {
                self.game_paused = !self.game_paused;
            },
            GameInput::Turn(d) => {
                if self.snake.dir != d.opposite() {
                    self.snake.dir = d;
                }
            },
            GameInput::Unrecognized => {},
        }
    }

    /// Walks the body from the head, reverse-applying each segment's
    /// heading, and reports whether some body cell coincides with the head.
    pub fn detects_self_collision(&self) -> (r: bool)
        requires
            self.well_formed(),
        ensures
            r == self_collision(self.snake, self.field_width as int, self.field_height as int),
    {
        let ghost hx = self.snake.pos_x as int;
        let ghost hy = self.snake.pos_y as int;
        let ghost body = self.snake.body@;
        let ghost fw = self.field_width as int;
        let ghost fh = self.field_height as int;
        let mut x = self.snake.pos_x;
        let mut y = self.snake.pos_y;
        let mut i: usize = 0;
        while i < self.snake.body.len()
            invariant
                self.well_formed(),
                i <= body.len(),
                body == self.snake.body@,
                0 <= x < self.field_width,
                0 <= y < self.field_height,
                x as int == body_cell_x(hx, body, fw, i as int),
                y as int == body_cell_y(hy, body, fh, i as int),
                hx == self.snake.pos_x as int,
                hy == self.snake.pos_y as int,
                fw == self.field_width as int,
                fh == self.field_height as int,
                forall|m: int|
                    1 <= m <= i ==> !(body_cell_x(hx, body, fw, m) == hx && body_cell_y(
                        hy,
                        body,
                        fh,
                        m,
                    ) == hy),
            decreases body.len() - i,
        {
            let d = self.snake.body[i];
            match d {
                Direction::Right => {
                    x = (x - 1 + self.field_width) % self.field_width;
                },
                Direction::Left => {
                    x = (x + 1 + self.field_width) % self.field_width;
                },
                Direction::Up => {
                    y = (y + 1 + self.field_height) % self.field_height;
                },
                Direction::Down => {
                    y = (y - 1 + self.field_height) % self.field_height;
                },
            }
            i = i + 1;
            proof {
                assert(x as int == body_cell_x(hx, body, fw, i as int));
                assert(y as int == body_cell_y(hy, body, fh, i as int));
            }
            if x == self.snake.pos_x && y == self.snake.pos_y {
                assert(self_collision_at(hx, hy, body, fw, fh));
                return true;
            }
        }
        false
    }

    /// The cells the body occupies, front to back, reconstructed from the
    /// head as the rendering shell needs them.
    pub fn body_cells(&self) -> (cells: Vec<(i32, i32)>)
        requires
            self.well_formed(),
        ensures
            cells@.len() == self.snake.body@.len(),
            forall|n: int|
                0 <= n < cells@.len() ==> {
                    &&& (#[trigger] cells@[n]).0 as int == body_cell_x(
                        self.snake.pos_x as int,
                        self.snake.body@,
                        self.field_width as int,
                        n + 1,
                    )
                    &&& cells@[n].1 as int == body_cell_y(
                        self.snake.pos_y as int,
                        self.snake.body@,
                        self.field_height as int,
                        n + 1,
                    )
                },
    {
        let ghost hx = self.snake.pos_x as int;
        let ghost hy = self.snake.pos_y as int;
        let ghost body = self.snake.body@;
        let ghost fw = self.field_width as int;
        let ghost fh = self.field_height as int;
        let mut cells: Vec<(i32, i32)> = Vec::new();
        let mut x = self.snake.pos_x;
        let mut y = self.snake.pos_y;
        let mut i: usize = 0;
        while i < self.snake.body.len()
            invariant
                self.well_formed(),
                i <= body.len(),
                body == self.snake.body@,
                cells@.len() == i as int,
                0 <= x < self.field_width,
                0 <= y < self.field_height,
                x as int == body_cell_x(hx, body, fw, i as int),
                y as int == body_cell_y(hy, body, fh, i as int),
                hx == self.snake.pos_x as int,
                hy == self.snake.pos_y as int,
                fw == self.field_width as int,
                fh == self.field_height as int,
                forall|n: int|
                    0 <= n < i ==> {
                        &&& (#[trigger] cells@[n]).0 as int == body_cell_x(hx, body, fw, n + 1)
                        &&& cells@[n].1 as int == body_cell_y(hy, body, fh, n + 1)
                    },
            decreases body.len() - i,
        {
            let d = self.snake.body[i];
            match d {
                Direction::Right => {
                    x = (x - 1 + self.field_width) % self.field_width;
                },
                Direction::Left => {
                    x = (x + 1 + self.field_width) % self.field_width;
                },
                Direction::Up => {
                    y = (y + 1 + self.field_height) % self.field_height;
                },
                Direction::Down => {
                    y = (y - 1 + self.field_height) % self.field_height;
                },
            }
            cells.push((x, y));
            i = i + 1;
        }
        cells
    }

    /// Removes every eaten food item, keeping the fresh ones in order.
    fn purge_eaten(&mut self)
        ensures
            final(self).snacks@ == purged(old(self).snacks@),
            final(self).snake == old(self).snake,
            final(self).game_paused == old(self).game_paused,
            final(self).level == old(self).level,
            final(self).square_size == old(self).square_size,
            final(self).field_width == old(self).field_width,
            final(self).field_height == old(self).field_height,
    {
        let ghost snacks0 = self.snacks@;
        let mut kept: Vec<Food> = Vec::new();
        let mut i: usize = 0;
        while i < self.snacks.len()
            invariant
                i <= snacks0.len(),
                snacks0 == self.snacks@,
                kept@ == purged(snacks0.take(i as int)),
            decreases snacks0.len() - i,
        {
            let f = self.snacks[i];
            proof {
                assert(snacks0.take(i as int + 1).drop_last() =~= snacks0.take(i as int));
                assert(snacks0.take(i as int + 1).last() == snacks0[i as int]);
            }
            if f.state == FoodState::Fresh {
                kept.push(f);
            }
            i = i + 1;
        }
        proof {
            assert(snacks0.take(snacks0.len() as int) =~= snacks0);
        }
        self.snacks = kept;
    }

    /// Marks every food item on the head cell as eaten and grows the snake
    /// once for each such item.
    fn consume_at_head(&mut self)
        ensures
            final(self).snacks@ == marked(
                old(self).snacks@,
                old(self).snake.pos_x as int,
                old(self).snake.pos_y as int,
            ),
            final(self).snake.body@ == grown_body_k(
                old(self).snake.body@,
                old(self).snake.dir,
                eaten_count(
                    old(self).snacks@,
                    old(self).snake.pos_x as int,
                    old(self).snake.pos_y as int,
                ),
            ),
            final(self).snake.dir == old(self).snake.dir,
            final(self).snake.pos_x == old(self).snake.pos_x,
            final(self).snake.pos_y == old(self).snake.pos_y,
            final(self).game_paused == old(self).game_paused,
            final(self).level == old(self).level,
            final(self).square_size == old(self).square_size,
            final(self).field_width == old(self).field_width,
            final(self).field_height == old(self).field_height,
    {
        let ghost snacks0 = self.snacks@;
        let ghost body0 = self.snake.body@;
        let ghost dir0 = self.snake.dir;
        let ghost hx = self.snake.pos_x as int;
        let ghost hy = self.snake.pos_y as int;
        let mut i: usize = 0;
        while i < self.snacks.len()
            invariant
                i <= snacks0.len(),
                self.snacks@.len() == snacks0.len(),
                forall|j: int| 0 <= j < i ==> self.snacks@[j] == mark_one(snacks0[j], hx, hy),
                forall|j: int| i <= j < snacks0.len() ==> self.snacks@[j] == snacks0[j],
                self.snake.body@ == grown_body_k(
                    body0,
                    dir0,
                    eaten_count(snacks0.take(i as int), hx, hy),
                ),
                self.snake.dir == dir0,
                hx == self.snake.pos_x as int,
                hy == self.snake.pos_y as int,
                self.game_paused == old(self).game_paused,
                self.level == old(self).level,
                self.square_size == old(self).square_size,
                self.field_width == old(self).field_width,
                self.field_height == old(self).field_height,
            decreases snacks0.len() - i,
        {
            let ghost k = eaten_count(snacks0.take(i as int), hx, hy);
            proof {
                assert(snacks0.take(i as int + 1).drop_last() =~= snacks0.take(i as int));
                assert(snacks0.take(i as int + 1).last() == snacks0[i as int]);
            }
            let hits = self.snacks[i].pos_x == self.snake.pos_x && self.snacks[i].pos_y
                == self.snake.pos_y;
            if hits {
                self.snacks[i].state = FoodState::Eaten;
                self.snake.grow();
                proof {
                    lemma_grow_step(body0, dir0, k);
                }
            }
            i = i + 1;
        }
        proof {
            assert(snacks0.take(snacks0.len() as int) =~= snacks0);
            assert(self.snacks@ =~= marked(snacks0, hx, hy));
        }
    }

    /// One simulation tick: spawn a wave when the collection is empty,
    /// purge eaten items, consume and grow at the head cell, move unless
    /// paused, and reset on self-collision.
    pub fn update(&mut self)
        requires
            old(self).well_formed(),
            old(self).snacks@.len() == 0 ==> old(self).level < 255,
        ensures
            final(self).well_formed(),
            update_rel(*old(self), *final(self)),
    {
        let ghost pre = *self;
        if self.snacks.len() < 1 {
            self.next_level();
        }
        let ghost spawned = self.snacks@;
        self.purge_eaten();
        self.consume_at_head();
        if !self.game_paused {
            self.move_snake();
        }
        let collided = self.detects_self_collision();
        if collided {
            self.game_over();
        }
        let ghost reset_spawn = self.snacks@;
        proof {
            assert(update_rel_with(pre, *self, spawned, reset_spawn));
        }
    }
}

/// The heading after a decoded input: a turn is accepted unless it is the
/// exact opposite of the current heading; other inputs leave it unchanged.
pub open spec fn turned_dir(cur: Direction, input: GameInput) -> Direction {
    match input {
        GameInput::Turn(d) => if cur == d.opposite_spec() {
            cur
        } else {
            d
        },
        _ => cur,
    }
}

} // verus!
