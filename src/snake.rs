use std::collections::VecDeque;
use vstd::prelude::*;

verus! {

/// The heading of the snake.
#[derive(Clone, Copy, Debug, PartialEq, Eq, Structural)]
pub enum Direction {
    RIGHT,
    LEFT,
    UP,
    DOWN,
}

/// One occupied grid cell, as (column, row).
#[derive(Clone, Copy, Debug, PartialEq, Eq, Structural)]
pub struct SnakePiece(pub u32, pub u32);

/// The snake: its cells from head to tail, its heading, and the pixel width
/// of one cell for drawing.
pub struct Snake {
    pub snake_parts: VecDeque<SnakePiece>,
    pub dir: Direction,
    pub width: u32,
}

/// The heading that reverses `d`.
pub open spec fn opposite(d: Direction) -> Direction {
    match d {
        Direction::RIGHT => Direction::LEFT,
        Direction::LEFT => Direction::RIGHT,
        Direction::UP => Direction::DOWN,
        Direction::DOWN => Direction::UP,
    }
}

/// Whether the cell (x, y) lies on the grid of `cols` columns and `rows` rows.
pub open spec fn in_grid(x: u32, y: u32, cols: u32, rows: u32) -> bool {
    x < cols && y < rows
}

/// Whether some cell of `parts` is (x, y).
pub open spec fn occupies(parts: Seq<SnakePiece>, x: u32, y: u32) -> bool {
    exists|i: int| 0 <= i < parts.len() && #[trigger] parts[i] == SnakePiece(x, y)
}

/// Whether a step from `head` in direction `dir` leaves the grid.
pub open spec fn hits_wall(head: SnakePiece, dir: Direction, cols: u32, rows: u32) -> bool {
    match dir {
        Direction::UP => head.1 == 0,
        Direction::LEFT => head.0 == 0,
        Direction::DOWN => head.1 == rows - 1,
        Direction::RIGHT => head.0 == cols - 1,
    }
}

/// The cell one step from `head` in direction `dir` (meaningful where the
/// step does not leave the grid).
pub open spec fn step(head: SnakePiece, dir: Direction) -> SnakePiece {
    match dir {
        Direction::UP => SnakePiece(head.0, (head.1 - 1) as u32),
        Direction::DOWN => SnakePiece(head.0, (head.1 + 1) as u32),
        Direction::LEFT => SnakePiece((head.0 - 1) as u32, head.1),
        Direction::RIGHT => SnakePiece((head.0 + 1) as u32, head.1),
    }
}

/// The cells that stay in place during a move: all of them when growing,
/// else all but the tail.
pub open spec fn kept(parts: Seq<SnakePiece>, grow: bool) -> Seq<SnakePiece> {
    if grow {
        parts
    } else {
        parts.drop_last()
    }
}

/// Whether a move of `parts` in direction `dir` succeeds: it stays on the grid
/// and the new head meets none of the cells that stay in place.
pub open spec fn advance_succeeds(
    parts: Seq<SnakePiece>,
    dir: Direction,
    grow: bool,
    cols: u32,
    rows: u32,
) -> bool {
    let nh = step(parts[0], dir);
    !hits_wall(parts[0], dir, cols, rows) && !occupies(kept(parts, grow), nh.0, nh.1)
}

/// The cells after a move: unchanged where it would leave the grid; the new
/// head in front of the kept cells where it succeeds; the kept cells alone
/// where the new head meets the body.
pub open spec fn parts_after(
    parts: Seq<SnakePiece>,
    dir: Direction,
    grow: bool,
    cols: u32,
    rows: u32,
) -> Seq<SnakePiece> {
    if hits_wall(parts[0], dir, cols, rows) {
        parts
    } else if advance_succeeds(parts, dir, grow, cols, rows) {
        seq![step(parts[0], dir)] + kept(parts, grow)
    } else {
        kept(parts, grow)
    }
}

impl Snake {
    /// The snake's cells, head first.
    pub open spec fn parts(&self) -> Seq<SnakePiece> {
        self.snake_parts@
    }

    /// The snake has a head and every cell lies on the grid.
    pub open spec fn wf(&self, cols: u32, rows: u32) -> bool {
        &&& self.parts().len() > 0
        &&& forall|i: int|
            0 <= i < self.parts().len() ==> in_grid(
                #[trigger] self.parts()[i].0,
                self.parts()[i].1,
                cols,
                rows,
            )
    }

    /// A snake of one cell at (x, y).
    pub fn new(x: u32, y: u32, dir: Direction, width: u32) -> (s: Snake)
        ensures
            s.parts() == seq![SnakePiece(x, y)],
            s.dir == dir,
            s.width == width,
    {
        let mut snake_parts = VecDeque::new();
        snake_parts.push_back(SnakePiece(x, y));
        Snake { snake_parts, dir, width }
    }

    /// Whether some cell of the snake is (x, y).
    pub fn is_collide(&self, x: u32, y: u32) -> (r: bool)
        ensures
            r == occupies(self.parts(), x, y),
    {
        let n = self.snake_parts.len();
        let mut i: usize = 0;
        while i < n
            invariant
                n == self.parts().len(),
                i <= n,
                forall|j: int| 0 <= j < i ==> self.parts()[j] != SnakePiece(x, y),
            decreases n - i,
        {
            let piece = self.snake_parts[i];
            if piece.0 == x && piece.1 == y {
                return true;
            }
            i += 1;
        }
        false
    }

    /// Moves the snake one cell in its heading, keeping the tail when `just_eaten`.
    /// Returns false where the move leaves the grid (nothing changes) or where
    /// the new head meets a cell that stays in place (the tail has then already
    /// been given up, and the session is over).
    pub fn update(&mut self, just_eaten: bool, cols: u32, rows: u32) -> (r: bool)
        requires
            old(self).wf(cols, rows),
        ensures
            r == advance_succeeds(old(self).parts(), old(self).dir, just_eaten, cols, rows),
            final(self).parts() == parts_after(
                old(self).parts(),
                old(self).dir,
                just_eaten,
                cols,
                rows,
            ),
            final(self).dir == old(self).dir,
            final(self).width == old(self).width,
            final(self).wf(cols, rows),
    {
        let ghost parts = self.parts();
        let head = self.snake_parts[0];
        if (self.dir == Direction::UP && head.1 == 0) || (self.dir == Direction::LEFT && head.0
            == 0) || (self.dir == Direction::DOWN && head.1 == rows - 1) || (self.dir
            == Direction::RIGHT && head.0 == cols - 1) {
            return false;
        }
        let new_head = match self.dir {
            Direction::UP => SnakePiece(head.0, head.1 - 1),
            Direction::DOWN => SnakePiece(head.0, head.1 + 1),
            Direction::LEFT => SnakePiece(head.0 - 1, head.1),
            Direction::RIGHT => SnakePiece(head.0 + 1, head.1),
        };
        assert(new_head == step(parts[0], self.dir));
        if !just_eaten {
            self.snake_parts.pop_back();
        }
        assert(self.parts() == kept(parts, just_eaten));
        if self.is_collide(new_head.0, new_head.1) {
            return false;
        }
        self.snake_parts.push_front(new_head);
        assert forall|i: int| 0 <= i < self.parts().len() implies in_grid(
            #[trigger] self.parts()[i].0,
            self.parts()[i].1,
            cols,
            rows,
        ) by {
            if i > 0 {
                assert(self.parts()[i] == parts[i - 1]);
            }
        }
        true
    }
}

} // verus!
