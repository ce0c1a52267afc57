//! The frame renderer: a pure function from the game state to a character
//! grid, row by row. Writing the rows out is the display device's business,
//! not this module's.

use vstd::prelude::*;
use crate::{GAME_HEIGHT, GAME_WIDTH};
use crate::container::{contains_point, fsv_get};
use crate::engine::{GameView, SnakeGame};
use crate::geometry::Point;

verus! {

/// The character shown at 0-based column `col` of 0-based row `row`: the food
/// marker wins, then the head marker, then the body marker, else background.
pub open spec fn spec_cell(v: GameView, col: int, row: int) -> char {
    let p = Point { x: (col + 1) as u8, y: (row + 1) as u8 };
    if p == v.food {
        '$'
    } else if v.body.len() > 0 && p == v.body[0] {
        '&'
    } else if v.body.contains(p) {
        '@'
    } else {
        '.'
    }
}

impl<'a> SnakeGame<'a> {
    /// The marker drawn at the 1-based field position `(x, y)`.
    fn cell_char(&self, x: u8, y: u8) -> (ch: char)
        requires
            self.wf(),
            1 <= x <= GAME_WIDTH,
            1 <= y <= GAME_HEIGHT,
        ensures
            ch == spec_cell(self@, x - 1, y - 1),
    {
        let p = Point { x, y };
        if p == self.food {
            return '$';
        }
        let head = fsv_get(&self.body, 0);
        if p == head {
            return '&';
        }
        if contains_point(&self.body, p) {
            return '@';
        }
        '.'
    }

    /// Draws the full frame: one row of characters per field row, each cell
    /// holding exactly the marker the model prescribes.
    #[verifier::loop_isolation(false)]
    pub fn render(&self) -> (grid: Vec<Vec<char>>)
        requires
            self.wf(),
        ensures
            grid@.len() == GAME_HEIGHT as int,
            forall|r: int| 0 <= r < GAME_HEIGHT ==> (#[trigger] grid@[r])@.len()
                == GAME_WIDTH as int,
            forall|r: int, c: int| 0 <= r < GAME_HEIGHT && 0 <= c < GAME_WIDTH
                ==> #[trigger] grid@[r]@[c] == spec_cell(self@, c, r),
    {
        let mut grid: Vec<Vec<char>> = Vec::new();
        let mut y: u8 = 1;
        while y <= GAME_HEIGHT
            invariant
                1 <= y <= GAME_HEIGHT + 1,
                grid@.len() == y - 1,
                forall|r: int| 0 <= r < y - 1 ==> (#[trigger] grid@[r])@.len()
                    == GAME_WIDTH as int,
                forall|r: int, c: int| 0 <= r < y - 1 && 0 <= c < GAME_WIDTH
                    ==> #[trigger] grid@[r]@[c] == spec_cell(self@, c, r),
            decreases GAME_HEIGHT + 1 - y,
        {
            let mut row: Vec<char> = Vec::new();
            let mut x: u8 = 1;
            while x <= GAME_WIDTH
                invariant
                    1 <= x <= GAME_WIDTH + 1,
                    row@.len() == x - 1,
                    forall|c: int| 0 <= c < x - 1 ==> #[trigger] row@[c] == spec_cell(
                        self@,
                        c,
                        y - 1,
                    ),
                decreases GAME_WIDTH + 1 - x,
            {
                let ch = self.cell_char(x, y);
                row.push(ch);
                x += 1;
            }
            grid.push(row);
            y += 1;
        }
        grid
    }
}

} // verus!
