//! Grid positions and travel directions.

use vstd::prelude::*;
use crate::{GAME_WIDTH, GAME_HEIGHT};

verus! {

/// One cell of the playing field, 1-indexed on both axes.
#[derive(Clone, Copy, Debug, PartialEq, Eq, Structural)]
pub struct Point {
    pub x: u8,
    pub y: u8,
}

/// Direction of travel for the snake head.
#[derive(Clone, Copy, Debug, PartialEq, Eq, Structural)]
pub enum Direction {
    Up,
    Down,
    Left,
    Right,
}

impl Direction {
    /// The direction pointing the opposite way.
    pub open spec fn opposite(self) -> Direction {
        match self {
            Direction::Up => Direction::Down,
            Direction::Down => Direction::Up,
            Direction::Left => Direction::Right,
            Direction::Right => Direction::Left,
        }
    }

    /// Computes the opposite direction; a request for this direction is the
    /// one the debouncer must refuse.
    pub fn get_opposite(&self) -> (d: Direction)
        ensures
            d == self.opposite(),
    {
        match self {
            Direction::Up => Direction::Down,
            Direction::Down => Direction::Up,
            Direction::Left => Direction::Right,
            Direction::Right => Direction::Left,
        }
    }
}

/// `opposite` is an involution: applying it twice returns the argument.
pub proof fn lemma_opposite_involutive(d: Direction)
    ensures
        d.opposite().opposite() == d,
{
}

/// The position lies on the playing field.
pub open spec fn in_bounds(p: Point) -> bool {
    1 <= p.x <= GAME_WIDTH && 1 <= p.y <= GAME_HEIGHT
}

/// The position is strictly inside the field on both axes: food candidates
/// never touch the last column or row.
pub open spec fn food_candidate_ok(p: Point) -> bool {
    1 <= p.x < GAME_WIDTH && 1 <= p.y < GAME_HEIGHT
}

/// Column the head reaches by one move from `p` in direction `d`.
pub open spec fn next_x(p: Point, d: Direction) -> int {
    match d {
        Direction::Left => p.x - 1,
        Direction::Right => p.x + 1,
        _ => p.x as int,
    }
}

/// Row the head reaches by one move from `p` in direction `d`.
pub open spec fn next_y(p: Point, d: Direction) -> int {
    match d {
        Direction::Up => p.y - 1,
        Direction::Down => p.y + 1,
        _ => p.y as int,
    }
}

/// The one-step move leaves the playing field.
pub open spec fn escapes_bounds(p: Point, d: Direction) -> bool {
    next_x(p, d) < 1 || next_x(p, d) > GAME_WIDTH || next_y(p, d) < 1 || next_y(p, d) > GAME_HEIGHT
}

/// The head cell after a surviving move: defined when the move stays on the
/// field, so both coordinates fit in their byte.
pub open spec fn next_head(p: Point, d: Direction) -> Point
    recommends
        !escapes_bounds(p, d),
{
    Point { x: next_x(p, d) as u8, y: next_y(p, d) as u8 }
}

} // verus!
