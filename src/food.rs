use crate::snake::{Snake, SnakePiece};
use vstd::prelude::*;

verus! {

/// The food: the one cell the snake is after.
pub struct Food {
    pub x: u32,
    pub y: u32,
}

impl Food {
    /// The food's cell.
    pub open spec fn cell(&self) -> SnakePiece {
        SnakePiece(self.x, self.y)
    }

    /// Whether the snake's head is on the food.
    pub fn update(&mut self, snake: &Snake) -> (r: bool)
        requires
            snake.parts().len() > 0,
        ensures
            *final(self) == *old(self),
            r == (snake.parts()[0] == old(self).cell()),
    {
        let front = snake.snake_parts[0];
        front.0 == self.x && front.1 == self.y
    }
}

} // verus!
