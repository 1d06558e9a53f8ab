//! The game as a mathematical value, and its rules as functions on that value.

use vstd::prelude::*;
use crate::grid::{Coord, Direction, Tile};
use crate::input::{map_spec, TouchPoint};

verus! {

/// Column in which the snake starts on a board that is wide enough.
pub const START_X: u16 = 25;

/// Row in which the snake starts on a board that is high enough.
pub const START_Y: u16 = 10;

/// The state of a game: the size of the board, the cells of the snake from head
/// to tail, the apple if one lies on the board, the heading of the last move and
/// whether the game is over.
pub struct GameView {
    pub width: u16,
    pub height: u16,
    pub snake: Seq<Coord>,
    pub apple: Option<Coord>,
    pub heading: Direction,
    pub over: bool,
}

/// The cell in which the snake starts: column 25 and row 10, each moved back to
/// the last column or row of a board that is smaller.
pub open spec fn start_cell(width: u16, height: u16) -> Coord {
    Coord {
        x: if width > START_X { START_X } else { (width - 1) as u16 },
        y: if height > START_Y { START_Y } else { (height - 1) as u16 },
    }
}

impl GameView {
    /// The state in which every game starts: a snake of one cell at the start
    /// cell, heading right, no apple.
    pub open spec fn initial(width: u16, height: u16) -> GameView {
        GameView {
            width,
            height,
            snake: seq![start_cell(width, height)],
            apple: None,
            heading: Direction::Right,
            over: false,
        }
    }

    /// The state in which the game starts again on the same board.
    pub open spec fn reset(self) -> GameView {
        GameView::initial(self.width, self.height)
    }

    /// The cell of the head.
    pub open spec fn head(self) -> Coord {
        self.snake[0]
    }

    /// The tile that cell `c` shows.
    pub open spec fn tile_at(self, c: Coord) -> Tile {
        if c == self.snake[0] {
            Tile::SnakeHead
        } else if self.snake.contains(c) {
            Tile::SnakeBody
        } else if self.apple == Some(c) {
            Tile::Apple
        } else {
            Tile::Empty
        }
    }

    /// The states that a game can be in: the board has a cell, the snake has a
    /// head, lies on the board, visits no cell twice and runs through cells that
    /// share an edge, the head lies one step along the heading from the cell
    /// behind it, and the apple lies on the board and not on the snake.
    pub open spec fn wf(self) -> bool {
        &&& self.width > 0
        &&& self.height > 0
        &&& self.snake.len() > 0
        &&& forall|i: int|
            0 <= i < self.snake.len() ==> (#[trigger] self.snake[i]).within(self.width, self.height)
        &&& forall|i: int, j: int|
            0 <= i < j < self.snake.len() ==> #[trigger] self.snake[i] != #[trigger] self.snake[j]
        &&& forall|i: int|
            0 <= i < self.snake.len() - 1 ==> (#[trigger] self.snake[i]).adjacent(self.snake[i + 1])
        &&& self.snake.len() >= 2 ==> self.snake[1].neighbor_spec(
            self.heading,
            self.width,
            self.height,
        ) == Some(self.snake[0])
        &&& self.apple matches Some(a) ==> a.within(self.width, self.height) && !self.snake.contains(
            a,
        )
    }

    /// The cell that a step towards `direction` leads the head to, with the
    /// heading of that step. A direction that leads off the board gives way to
    /// the heading of the last move; where that leads off the board too, there
    /// is no such cell.
    pub open spec fn next_head(self, direction: Direction) -> Option<(Coord, Direction)> {
        match self.head().neighbor_spec(direction, self.width, self.height) {
            Some(c) => Some((c, direction)),
            None => match self.head().neighbor_spec(self.heading, self.width, self.height) {
                Some(c) => Some((c, self.heading)),
                None => None,
            },
        }
    }

    /// The cell that a step towards `direction` leads the head to, if any.
    pub open spec fn next_cell(self, direction: Direction) -> Option<Coord> {
        match self.next_head(direction) {
            Some((c, _)) => Some(c),
            None => None,
        }
    }

    /// The heading of a step towards `direction`: `direction` itself where it
    /// leads to a cell of the board, and else the heading of the last move.
    pub open spec fn next_heading(self, direction: Direction) -> Direction {
        match self.next_head(direction) {
            Some((_, heading)) => heading,
            None => self.heading,
        }
    }

    /// The state after the head went to the free cell `target`: every other
    /// segment takes the place of the one before it.
    pub open spec fn moved(self, target: Coord, heading: Direction) -> GameView {
        GameView { snake: seq![target] + self.snake.drop_last(), heading, ..self }
    }

    /// The state after the head went to `target` and ate the apple there: the
    /// snake keeps all its cells and the board has no apple.
    pub open spec fn grown(self, target: Coord, heading: Direction) -> GameView {
        GameView { snake: seq![target] + self.snake, apple: None, heading, ..self }
    }

    /// The empty cells of column `x` above row `y`, from the top down.
    pub open spec fn column_empties(self, x: u16, y: int) -> Seq<Coord>
        decreases y,
    {
        if y <= 0 {
            Seq::empty()
        } else {
            let above = self.column_empties(x, y - 1);
            let c = Coord { x, y: (y - 1) as u16 };
            if self.tile_at(c) == Tile::Empty {
                above.push(c)
            } else {
                above
            }
        }
    }

    /// The empty cells of the columns left of column `x`, column by column.
    pub open spec fn empties_before(self, x: int) -> Seq<Coord>
        decreases x,
    {
        if x <= 0 {
            Seq::empty()
        } else {
            self.empties_before(x - 1) + self.column_empties((x - 1) as u16, self.height as int)
        }
    }

    /// The empty cells of the board: column by column from the left, each from
    /// the top down.
    pub open spec fn empty_cells(self) -> Seq<Coord> {
        self.empties_before(self.width as int)
    }

    /// The state after an apple was asked for: where the game runs, the board
    /// has no apple and some cell is empty, the apple lies on the empty cell
    /// whose number is `entropy` modulo the number of empty cells.
    pub open spec fn with_apple(self, entropy: u32) -> GameView {
        let cells = self.empty_cells();
        if self.over || self.apple is Some || cells.len() == 0 {
            self
        } else {
            GameView { apple: Some(cells[entropy as int % cells.len() as int]), ..self }
        }
    }

    /// The state after one step towards `direction`. A game that is over stays
    /// as it is, and so does one whose head has no cell to go to. A head that
    /// would run into the snake ends the game. On an apple the snake grows and a
    /// new apple is asked for; on an empty cell the snake moves.
    pub open spec fn step(self, direction: Direction, entropy: u32) -> GameView {
        if self.over {
            self
        } else {
            match self.next_head(direction) {
                None => self,
                Some((target, heading)) => match self.tile_at(target) {
                    Tile::Empty => self.moved(target, heading),
                    Tile::Apple => self.grown(target, heading).with_apple(entropy),
                    _ => GameView { over: true, ..self },
                },
            }
        }
    }

    /// The state after one tick: a step towards the direction that the
    /// touches of the tick give, mapped against the heading of the last move.
    pub open spec fn tick(self, touches: Seq<TouchPoint>, entropy: u32) -> GameView {
        self.step(map_spec(touches, self.heading), entropy)
    }

    /// The state after one round of play. A game that is over starts again
    /// where the screen is touched, and else stays as it is. A game that runs
    /// gets an apple where the board has none, placed by `apple_entropy`, and
    /// then goes through one tick, in which `step_entropy` places the next
    /// apple where the snake eats this one.
    pub open spec fn round(
        self,
        touches: Seq<TouchPoint>,
        apple_entropy: u32,
        step_entropy: u32,
    ) -> GameView {
        if self.over {
            if touches.len() > 0 {
                self.reset()
            } else {
                self
            }
        } else {
            self.with_apple(apple_entropy).tick(touches, step_entropy)
        }
    }
}

} // verus!
