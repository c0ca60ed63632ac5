use crate::food::Food;
use crate::snake::{
    Direction, Snake, SnakePiece, opposite, in_grid, occupies, hits_wall, step, kept,
    advance_succeeds, parts_after,
};
use vstd::prelude::*;

verus! {

#[verifier::external_type_specification]
#[verifier::external_body]
pub struct ExThreadRng(rand::rngs::ThreadRng);

/// Relies on rand::thread_rng: the thread's random number generator.
#[verifier::external_body]
fn new_rng() -> (r: rand::rngs::ThreadRng) {
    rand::thread_rng()
}

/// Relies on rand::Rng::gen_range: a value drawn from [0, n), which panics
/// where the range is empty.
#[verifier::external_body]
fn random_below(rng: &mut rand::rngs::ThreadRng, n: u64) -> (r: u64)
    requires
        n > 0,
    ensures
        r < n,
{
    rand::Rng::gen_range(rng, 0, n)
}

/// A session: the grid, the snake, the food, the score, and whether the
/// snake ate on the last tick (it then grows and scores on the next one).
pub struct Game {
    pub rows: u32,
    pub cols: u32,
    pub square_width: u32,
    pub just_eaten: bool,
    pub snake: Snake,
    pub food: Food,
    pub score: u32,
}

/// The heading after `requested` is asked for while heading `current`: a
/// reversal is refused, anything else is taken.
pub open spec fn gated(current: Direction, requested: Direction) -> Direction {
    if requested == opposite(current) {
        current
    } else {
        requested
    }
}

/// Whether some cell of the grid is free of the snake.
pub open spec fn has_free_cell(parts: Seq<SnakePiece>, cols: u32, rows: u32) -> bool {
    exists|x: u32, y: u32| #[trigger] occupies(parts, x, y) == false && in_grid(x, y, cols, rows)
}

/// Where the food may be after a respawn from `before`: on a free cell of the
/// grid where there is one, else where it was.
pub open spec fn respawned(
    parts: Seq<SnakePiece>,
    before: SnakePiece,
    after: SnakePiece,
    cols: u32,
    rows: u32,
) -> bool {
    if has_free_cell(parts, cols, rows) {
        in_grid(after.0, after.1, cols, rows) && !occupies(parts, after.0, after.1)
    } else {
        after == before
    }
}

impl Game {
    /// The snake is well formed on the session's grid.
    pub open spec fn wf(&self) -> bool {
        self.snake.wf(self.cols, self.rows)
    }

    /// What one tick does to a session `g0`, giving `g1` and the result `r`:
    /// the snake moves, growing where `g0` had just eaten; on failure nothing
    /// else changes; on success a pending growth is scored, the flag is set
    /// anew from whether the head is on the food, and eaten food respawns.
    pub open spec fn ticked(g0: Game, g1: Game, r: bool) -> bool {
        &&& g1.rows == g0.rows
        &&& g1.cols == g0.cols
        &&& g1.square_width == g0.square_width
        &&& g1.snake.dir == g0.snake.dir
        &&& g1.snake.width == g0.snake.width
        &&& r == advance_succeeds(g0.snake.parts(), g0.snake.dir, g0.just_eaten, g0.cols, g0.rows)
        &&& g1.snake.parts() == parts_after(
            g0.snake.parts(),
            g0.snake.dir,
            g0.just_eaten,
            g0.cols,
            g0.rows,
        )
        &&& !r ==> {
            &&& g1.score == g0.score
            &&& g1.just_eaten == g0.just_eaten
            &&& g1.food == g0.food
        }
        &&& r ==> {
            &&& g1.score == g0.score + if g0.just_eaten {
                1int
            } else {
                0int
            }
            &&& g1.just_eaten == (g1.snake.parts()[0] == g0.food.cell())
            &&& if g1.just_eaten {
                respawned(g1.snake.parts(), g0.food.cell(), g1.food.cell(), g1.cols, g1.rows)
            } else {
                g1.food == g0.food
            }
        }
    }

    /// A session whose snake is one cell at the grid's centre, heading right.
    pub fn new(cols: u32, rows: u32, square_width: u32, food: Food) -> (g: Game)
        requires
            cols > 0,
            rows > 0,
        ensures
            g.wf(),
            g.cols == cols,
            g.rows == rows,
            g.square_width == square_width,
            g.snake.parts() == seq![SnakePiece(cols / 2, rows / 2)],
            g.snake.dir == Direction::RIGHT,
            g.snake.width == square_width,
            g.food == food,
            g.score == 0,
            !g.just_eaten,
    {
        let snake = Snake::new(cols / 2, rows / 2, Direction::RIGHT, square_width);
        Game { rows, cols, square_width, just_eaten: false, snake, food, score: 0 }
    }

    /// Puts the food on (x, y) where that cell is on the grid and free of the
    /// snake, and says whether it did.
    pub fn place_food(&mut self, x: u32, y: u32) -> (placed: bool)
        ensures
            placed == (in_grid(x, y, old(self).cols, old(self).rows) && !occupies(
                old(self).snake.parts(),
                x,
                y,
            )),
            placed ==> *final(self) == (Game { food: Food { x, y }, ..*old(self) }),
            !placed ==> *final(self) == *old(self),
    {
        if x < self.cols && y < self.rows && !self.snake.is_collide(x, y) {
            self.food = Food { x, y };
            true
        } else {
            false
        }
    }

    /// Every cell of the grid that is free of the snake, row by row.
    pub fn free_cells(&self) -> (free: Vec<SnakePiece>)
        ensures
            forall|i: int|
                0 <= i < free@.len() ==> in_grid(#[trigger] free@[i].0, free@[i].1, self.cols, self.rows)
                    && !occupies(self.snake.parts(), free@[i].0, free@[i].1),
            forall|x: u32, y: u32|
                #[trigger] occupies(self.snake.parts(), x, y) == false && in_grid(x, y, self.cols, self.rows)
                    ==> free@.contains(SnakePiece(x, y)),
    {
        let ghost parts = self.snake.parts();
        let mut free: Vec<SnakePiece> = Vec::new();
        let mut y: u32 = 0;
        while y < self.rows
            invariant
                y <= self.rows,
                parts == self.snake.parts(),
                forall|i: int|
                    0 <= i < free@.len() ==> in_grid(#[trigger] free@[i].0, free@[i].1, self.cols, self.rows)
                        && !occupies(parts, free@[i].0, free@[i].1),
                forall|cx: u32, cy: u32|
                    #[trigger] occupies(parts, cx, cy) == false && cx < self.cols && cy < y
                        ==> free@.contains(SnakePiece(cx, cy)),
            decreases self.rows - y,
        {
            let mut x: u32 = 0;
            while x < self.cols
                invariant
                    y < self.rows,
                    x <= self.cols,
                    parts == self.snake.parts(),
                    forall|i: int|
                        0 <= i < free@.len() ==> in_grid(#[trigger] free@[i].0, free@[i].1, self.cols, self.rows)
                            && !occupies(parts, free@[i].0, free@[i].1),
                    forall|cx: u32, cy: u32|
                        #[trigger] occupies(parts, cx, cy) == false && cx < self.cols && (cy < y || (cy
                            == y && cx < x)) ==> free@.contains(SnakePiece(cx, cy)),
                decreases self.cols - x,
            {
                if !self.snake.is_collide(x, y) {
                    let ghost before = free@;
                    free.push(SnakePiece(x, y));
                    assert(free@[free@.len() - 1] == SnakePiece(x, y));
                    assert forall|cx: u32, cy: u32|
                        #[trigger] occupies(parts, cx, cy) == false && cx < self.cols && (cy < y || (cy
                            == y && cx <= x)) implies free@.contains(SnakePiece(cx, cy)) by {
                        if cx != x || cy != y {
                            let j = choose|j: int| 0 <= j < before.len() && before[j] == SnakePiece(cx, cy);
                            assert(free@[j] == before[j]);
                        }
                    }
                }
                x += 1;
            }
            y += 1;
        }
        free
    }

    /// Moves the food to a free cell of the grid, drawn uniformly at random.
    /// Cells are drawn as a column and a row until one is free; after as many
    /// draws as the grid has cells, the cell is drawn from the free ones
    /// instead, which ends the search where few cells are free. Where the
    /// snake fills the grid the food stays where it is.
    pub fn generate_food(&mut self)
        requires
            old(self).wf(),
        ensures
            *final(self) == (Game { food: final(self).food, ..*old(self) }),
            respawned(
                old(self).snake.parts(),
                old(self).food.cell(),
                final(self).food.cell(),
                old(self).cols,
                old(self).rows,
            ),
    {
        let ghost parts = self.snake.parts();
        assert(in_grid(parts[0].0, parts[0].1, self.cols, self.rows));
        let mut r = new_rng();
        let cols = self.cols as u64;
        let rows = self.rows as u64;
        assert(cols * rows <= 0xFFFF_FFFF * 0xFFFF_FFFF) by (nonlinear_arith)
            requires
                cols <= 0xFFFF_FFFF,
                rows <= 0xFFFF_FFFF,
        ;
        let limit: u64 = cols * rows;
        let mut tries: u64 = 0;
        while tries < limit
            invariant
                *self == *old(self),
                parts == self.snake.parts(),
                cols == self.cols,
                rows == self.rows,
                cols > 0,
                rows > 0,
            decreases limit - tries,
        {
            let new_x = random_below(&mut r, cols) as u32;
            let new_y = random_below(&mut r, rows) as u32;
            if self.place_food(new_x, new_y) {
                assert(has_free_cell(parts, self.cols, self.rows)) by {
                    assert(occupies(parts, new_x, new_y) == false);
                }
                return;
            }
            tries += 1;
        }
        let free = self.free_cells();
        if free.len() > 0 {
            let k = random_below(&mut r, free.len() as u64);
            let cell = free[k as usize];
            assert(in_grid(free@[k as int].0, free@[k as int].1, self.cols, self.rows));
            assert(occupies(parts, cell.0, cell.1) == false);
            self.food = Food { x: cell.0, y: cell.1 };
        } else {
            assert(!has_free_cell(parts, self.cols, self.rows)) by {
                if has_free_cell(parts, self.cols, self.rows) {
                    let (x, y) = choose|x: u32, y: u32|
                        #[trigger] occupies(parts, x, y) == false && in_grid(x, y, self.cols, self.rows);
                    assert(free@.contains(SnakePiece(x, y)));
                }
            }
        }
    }
    /// Runs one tick and says whether the session goes on.
    pub fn update(&mut self) -> (r: bool)
        requires
            old(self).wf(),
            old(self).just_eaten ==> old(self).score < u32::MAX,
        ensures
            Self::ticked(*old(self), *final(self), r),
            final(self).wf(),
            ({
                let parts = old(self).snake.parts();
                let nh = step(parts[0], old(self).snake.dir);
                !hits_wall(parts[0], old(self).snake.dir, old(self).cols, old(self).rows)
                    && !occupies(kept(parts, old(self).just_eaten), nh.0, nh.1) ==> r
                    && final(self).snake.parts().len() == parts.len() + if old(self).just_eaten {
                    1int
                } else {
                    0int
                }
            }),
            hits_wall(
                old(self).snake.parts()[0],
                old(self).snake.dir,
                old(self).cols,
                old(self).rows,
            ) ==> !r && final(self).snake.parts() == old(self).snake.parts() && final(self).score
                == old(self).score,
    {
        if !self.snake.update(self.just_eaten, self.cols, self.rows) {
            return false;
        }
        if self.just_eaten {
            self.score += 1;
            self.just_eaten = false;
        }
        self.just_eaten = self.food.update(&self.snake);
        if self.just_eaten {
            self.generate_food();
        }
        true
    }

    /// Asks for the heading `requested`; a reversal of the current heading is
    /// refused.
    pub fn pressed(&mut self, requested: Direction)
        ensures
            final(self).snake.dir == gated(old(self).snake.dir, requested),
            *final(self) == (Game {
                snake: Snake { dir: final(self).snake.dir, ..old(self).snake },
                ..*old(self)
            }),
    {
        let last_dir = self.snake.dir;
        self.snake.dir = match requested {
            Direction::UP if last_dir != Direction::DOWN => Direction::UP,
            Direction::RIGHT if last_dir != Direction::LEFT => Direction::RIGHT,
            Direction::LEFT if last_dir != Direction::RIGHT => Direction::LEFT,
            Direction::DOWN if last_dir != Direction::UP => Direction::DOWN,
            _ => last_dir,
        };
    }
}


/// A snake of three cells or more whose second cell lies right behind its head
/// turns round when asked first for a perpendicular heading and then for the
/// reverse of its own, and its next move then runs into its body, whether it
/// grows or not.
pub proof fn lemma_turn_back_collides(s: Snake, cols: u32, rows: u32, q: Direction, grow: bool)
    requires
        s.wf(cols, rows),
        s.parts().len() >= 3,
        s.parts()[1] == step(s.parts()[0], opposite(s.dir)),
        q != s.dir,
        q != opposite(s.dir),
    ensures
        gated(gated(s.dir, q), opposite(s.dir)) == opposite(s.dir),
        !advance_succeeds(s.parts(), opposite(s.dir), grow, cols, rows),
{
    let parts = s.parts();
    let nh = step(parts[0], opposite(s.dir));
    assert(kept(parts, grow)[1] == parts[1]);
    assert(occupies(kept(parts, grow), nh.0, nh.1));
}

/// Growth and score lag one tick behind eating: on the tick that reaches the
/// food neither the score nor the length changes, and on the next tick that
/// goes on both rise by one.
pub proof fn lemma_growth_lag(g0: Game, g1: Game, g2: Game)
    requires
        g0.wf(),
        !g0.just_eaten,
        Game::ticked(g0, g1, true),
        g1.just_eaten,
        Game::ticked(g1, g2, true),
    ensures
        g1.score == g0.score,
        g1.snake.parts().len() == g0.snake.parts().len(),
        g2.score == g1.score + 1,
        g2.snake.parts().len() == g1.snake.parts().len() + 1,
{
}

} // verus!
