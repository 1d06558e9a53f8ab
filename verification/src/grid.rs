//! Cells, headings and tiles of the game board.

use vstd::prelude::*;

verus! {

/// A cell of the board: column `x`, counted from the left, and row `y`, counted
/// from the top.
#[derive(Clone, Copy, Debug, PartialEq, Eq, Structural)]
pub struct Coord {
    pub x: u16,
    pub y: u16,
}

/// A heading of the snake.
#[derive(Clone, Copy, Debug, PartialEq, Eq, Structural)]
pub enum Direction {
    /// Towards row 0.
    Up,
    /// Away from row 0.
    Down,
    /// Towards column 0.
    Left,
    /// Away from column 0.
    Right,
}

/// What a cell of the board shows.
#[derive(Clone, Copy, Debug, PartialEq, Eq, Structural)]
pub enum Tile {
    /// Nothing.
    Empty,
    /// The first cell of the snake.
    SnakeHead,
    /// A cell of the snake behind the head.
    SnakeBody,
    /// The end of a snake, where a board marks it. The game itself shows every
    /// cell behind the head as `SnakeBody`; a head that meets a `SnakeTail`
    /// has run into the snake all the same.
    SnakeTail,
    /// The apple.
    Apple,
}

impl Direction {
    /// The heading that points the other way.
    pub open spec fn reverse_spec(self) -> Direction {
        match self {
            Direction::Up => Direction::Down,
            Direction::Down => Direction::Up,
            Direction::Left => Direction::Right,
            Direction::Right => Direction::Left,
        }
    }

    /// The heading that points the other way.
    pub fn reverse(self) -> (r: Direction)
        ensures
            r == self.reverse_spec(),
    {
        match self {
            Direction::Up => Direction::Down,
            Direction::Down => Direction::Up,
            Direction::Left => Direction::Right,
            Direction::Right => Direction::Left,
        }
    }
}

impl Tile {
    /// Whether the tile is a part of the snake.
    pub open spec fn is_snake_spec(self) -> bool {
        self == Tile::SnakeHead || self == Tile::SnakeBody || self == Tile::SnakeTail
    }

    /// Whether the tile is a part of the snake.
    pub fn is_snake(self) -> (r: bool)
        ensures
            r == self.is_snake_spec(),
    {
        match self {
            Tile::SnakeHead | Tile::SnakeBody | Tile::SnakeTail => true,
            _ => false,
        }
    }
}

impl Coord {
    /// Whether the cell lies on a board of `width` columns and `height` rows.
    pub open spec fn within(self, width: u16, height: u16) -> bool {
        self.x < width && self.y < height
    }

    /// The cell one step from `self` towards `direction`, where the board of
    /// `width` columns and `height` rows has one. `Up` leads to the row above,
    /// which has the smaller `y`.
    pub open spec fn neighbor_spec(self, direction: Direction, width: u16, height: u16) -> Option<
        Coord,
    > {
        match direction {
            Direction::Up => if 0 < self.y && self.y - 1 < height && self.x < width {
                Some(Coord { x: self.x, y: (self.y - 1) as u16 })
            } else {
                None
            },
            Direction::Down => if self.y + 1 < height && self.x < width {
                Some(Coord { x: self.x, y: (self.y + 1) as u16 })
            } else {
                None
            },
            Direction::Left => if 0 < self.x && self.x - 1 < width && self.y < height {
                Some(Coord { x: (self.x - 1) as u16, y: self.y })
            } else {
                None
            },
            Direction::Right => if self.x + 1 < width && self.y < height {
                Some(Coord { x: (self.x + 1) as u16, y: self.y })
            } else {
                None
            },
        }
    }

    /// Whether the two cells share an edge.
    pub open spec fn adjacent(self, other: Coord) -> bool {
        ||| (self.x == other.x && (self.y - other.y == 1 || other.y - self.y == 1))
        ||| (self.y == other.y && (self.x - other.x == 1 || other.x - self.x == 1))
    }

    /// The cell one step from `self` towards `direction`, or `None` where that
    /// step leaves the board.
    pub fn neighbor(self, direction: Direction, width: u16, height: u16) -> (r: Option<Coord>)
        ensures
            r == self.neighbor_spec(direction, width, height),
            r matches Some(c) ==> c.within(width, height) && c.adjacent(self) && c != self,
    {
        match direction {
            Direction::Up => if 0 < self.y && self.y - 1 < height && self.x < width {
                Some(Coord { x: self.x, y: self.y - 1 })
            } else {
                None
            },
            Direction::Down => if self.y < height && self.y + 1 < height && self.x < width {
                Some(Coord { x: self.x, y: self.y + 1 })
            } else {
                None
            },
            Direction::Left => if 0 < self.x && self.x - 1 < width && self.y < height {
                Some(Coord { x: self.x - 1, y: self.y })
            } else {
                None
            },
            Direction::Right => if self.x < width && self.x + 1 < width && self.y < height {
                Some(Coord { x: self.x + 1, y: self.y })
            } else {
                None
            },
        }
    }
}

} // verus!
