//! The game as it runs: the board of tiles, kept in step with the snake.

use vstd::prelude::*;
use crate::grid::{Coord, Direction, Tile};
use crate::input::{map_spec, map_touches, TouchPoint};
use crate::model::{GameView, START_X, START_Y};
use crate::packet::PeerState;
use crate::render::{draw, square_of, Square};
use crate::rules::{lemma_grown, lemma_moved, lemma_with_apple};
use vstd::arithmetic::div_mod::{lemma_div_pos_is_pos, lemma_mod_pos_bound, lemma_multiply_divide_lt};

verus! {

/// Why no game could be made.
#[derive(Clone, Copy, Debug, PartialEq, Eq, Structural)]
pub enum GameError {
    /// The board would have no column or no row.
    EmptyBoard,
}

/// A game of snake. `grid[x][y]` is the tile of column `x` and row `y`; `snake`
/// holds the cells of the snake from head to tail.
pub struct Game {
    width: u16,
    height: u16,
    grid: Vec<Vec<Tile>>,
    snake: Vec<Coord>,
    apple: Option<Coord>,
    heading: Direction,
    over: bool,
}

impl View for Game {
    type V = GameView;

    closed spec fn view(&self) -> GameView {
        GameView {
            width: self.width,
            height: self.height,
            snake: self.snake@,
            apple: self.apple,
            heading: self.heading,
            over: self.over,
        }
    }
}

/// A column of `height` empty tiles.
fn empty_column(height: u16) -> (column: Vec<Tile>)
    ensures
        column@.len() == height,
        forall|y: int| 0 <= y < height ==> #[trigger] column@[y] == Tile::Empty,
{
    let mut column: Vec<Tile> = Vec::new();
    let mut y: u16 = 0;
    while y < height
        invariant
            y <= height,
            column@.len() == y,
            forall|j: int| 0 <= j < y ==> #[trigger] column@[j] == Tile::Empty,
        decreases height - y,
    {
        column.push(Tile::Empty);
        y = y + 1;
    }
    column
}

/// A board of `width` columns of `height` empty tiles.
fn empty_grid(width: u16, height: u16) -> (grid: Vec<Vec<Tile>>)
    ensures
        grid@.len() == width,
        forall|x: int| 0 <= x < width ==> (#[trigger] grid@[x])@.len() == height,
        forall|x: int, y: int|
            0 <= x < width && 0 <= y < height ==> #[trigger] grid@[x]@[y] == Tile::Empty,
{
    let mut grid: Vec<Vec<Tile>> = Vec::new();
    let mut x: u16 = 0;
    while x < width
        invariant
            x <= width,
            grid@.len() == x,
            forall|i: int| 0 <= i < x ==> (#[trigger] grid@[i])@.len() == height,
            forall|i: int, j: int|
                0 <= i < x && 0 <= j < height ==> #[trigger] grid@[i]@[j] == Tile::Empty,
        decreases width - x,
    {
        grid.push(empty_column(height));
        x = x + 1;
    }
    grid
}

impl Game {
    /// Whether the board has the size of the game and shows, cell by cell, the
    /// tiles of the state.
    pub closed spec fn shows_view(&self) -> bool {
        &&& self.grid@.len() == self.width
        &&& forall|x: int| 0 <= x < self.width ==> (#[trigger] self.grid@[x])@.len() == self.height
        &&& forall|x: int, y: int|
            0 <= x < self.width && 0 <= y < self.height ==> #[trigger] self.grid@[x]@[y]
                == self@.tile_at(Coord { x: x as u16, y: y as u16 })
    }

    /// The values that the functions of this type make and keep: the state is
    /// one that a game can be in, and the board shows it.
    pub open spec fn wf(&self) -> bool {
        self@.wf() && self.shows_view()
    }

    /// A game on a board of `width` columns and `height` rows: all cells empty
    /// but the start cell, which holds the head. A board without a cell is
    /// refused.
    pub fn new(width: u16, height: u16) -> (r: Result<Game, GameError>)
        ensures
            r is Err <==> width == 0 || height == 0,
            r matches Err(e) ==> e == GameError::EmptyBoard,
            r matches Ok(game) ==> game.wf() && game@ == GameView::initial(width, height),
    {
        if width == 0 || height == 0 {
            return Err(GameError::EmptyBoard);
        }
        let start = Coord {
            x: if width > START_X { START_X } else { width - 1 },
            y: if height > START_Y { START_Y } else { height - 1 },
        };
        let mut snake: Vec<Coord> = Vec::new();
        snake.push(start);
        let mut game = Game {
            width,
            height,
            grid: empty_grid(width, height),
            snake,
            apple: None,
            heading: Direction::Right,
            over: false,
        };
        game.set_tile(start, Tile::SnakeHead);
        proof {
            assert forall|x: int, y: int|
                0 <= x < game.width && 0 <= y < game.height implies #[trigger] game.grid@[x]@[y]
                == game@.tile_at(Coord { x: x as u16, y: y as u16 }) by {
                let c = Coord { x: x as u16, y: y as u16 };
                assert(game@.snake.contains(c) ==> c == start);
            }
        }
        Ok(game)
    }

    /// Whether the board has the size of the game.
    spec fn shaped(&self) -> bool {
        &&& self.grid@.len() == self.width
        &&& forall|x: int| 0 <= x < self.width ==> (#[trigger] self.grid@[x])@.len() == self.height
    }

    /// Puts `tile` on cell `c` of the board and leaves the rest of the game as
    /// it is.
    fn set_tile(&mut self, c: Coord, tile: Tile)
        requires
            old(self).shaped(),
            c.within(old(self).width, old(self).height),
        ensures
            final(self).shaped(),
            final(self)@ == old(self)@,
            forall|x: int, y: int|
                0 <= x < old(self).width && 0 <= y < old(self).height
                    ==> #[trigger] final(self).grid@[x]@[y] == (if x == c.x && y == c.y {
                    tile
                } else {
                    old(self).grid@[x]@[y]
                }),
    {
        self.grid[c.x as usize][c.y as usize] = tile;
    }

    /// The empty cells of the board: column by column from the left, each from
    /// the top down.
    pub fn empty_cells(&self) -> (cells: Vec<Coord>)
        requires
            self.wf(),
        ensures
            cells@ == self@.empty_cells(),
    {
        let mut cells: Vec<Coord> = Vec::new();
        let mut x: u16 = 0;
        while x < self.width
            invariant
                self.wf(),
                x <= self.width,
                cells@ == self@.empties_before(x as int),
            decreases self.width - x,
        {
            let ghost left = cells@;
            let mut y: u16 = 0;
            while y < self.height
                invariant
                    self.wf(),
                    x < self.width,
                    y <= self.height,
                    left == self@.empties_before(x as int),
                    cells@ == left + self@.column_empties(x, y as int),
                decreases self.height - y,
            {
                if self.grid[x as usize][y as usize] == Tile::Empty {
                    cells.push(Coord { x, y });
                }
                y = y + 1;
            }
            x = x + 1;
        }
        cells
    }

    /// Puts an apple on the board where the game runs and the board has none:
    /// on the empty cell whose number, in the order of `empty_cells`, is
    /// `entropy` modulo the number of empty cells. A board without an empty
    /// cell gets no apple.
    pub fn place_apple(&mut self, entropy: u32)
        requires
            old(self).wf(),
        ensures
            final(self).wf(),
            final(self)@ == old(self)@.with_apple(entropy),
    {
        if self.over || self.apple.is_some() {
            return ;
        }
        let cells = self.empty_cells();
        if cells.len() == 0 {
            return ;
        }
        let k = entropy as usize % cells.len();
        let c = cells[k];
        proof {
            lemma_with_apple(self@, entropy);
        }
        self.apple = Some(c);
        self.set_tile(c, Tile::Apple);
    }

    /// One step of the game towards `direction`. A direction that leads off
    /// the board gives way to the heading of the last move, and a head that
    /// cannot move that way either stays where it is. Running into the snake
    /// ends the game; a game that is over does not change. On an apple the
    /// snake grows by one cell and `entropy` picks the cell of the next apple;
    /// on an empty cell the snake moves on.
    pub fn step(&mut self, direction: Direction, entropy: u32)
        requires
            old(self).wf(),
        ensures
            final(self).wf(),
            final(self)@ == old(self)@.step(direction, entropy),
    {
        if self.over {
            return ;
        }
        let head = self.snake[0];
        let (target, heading) = match head.neighbor(direction, self.width, self.height) {
            Some(c) => (c, direction),
            None => match head.neighbor(self.heading, self.width, self.height) {
                Some(c) => (c, self.heading),
                None => {
                    return ;
                },
            },
        };
        let tile = self.grid[target.x as usize][target.y as usize];
        match tile {
            Tile::Empty => {
                proof {
                    lemma_moved(self@, target, heading);
                }
                let tail = self.snake[self.snake.len() - 1];
                self.set_tile(tail, Tile::Empty);
                if self.snake.len() >= 2 {
                    self.set_tile(head, Tile::SnakeBody);
                }
                self.set_tile(target, Tile::SnakeHead);
                self.snake.insert(0, target);
                self.snake.pop();
                self.heading = heading;
                assert(self.snake@ =~= seq![target] + old(self).snake@.drop_last());
            },
            Tile::Apple => {
                proof {
                    lemma_grown(self@, target, heading);
                }
                self.set_tile(head, Tile::SnakeBody);
                self.set_tile(target, Tile::SnakeHead);
                self.snake.insert(0, target);
                self.apple = None;
                self.heading = heading;
                assert(self.snake@ =~= seq![target] + old(self).snake@);
                self.place_apple(entropy);
            },
            _ => {
                self.over = true;
            },
        }
    }

    /// Starts the game again on the same board: all cells empty but the start
    /// cell, which holds the head.
    pub fn reset(&mut self)
        requires
            old(self).wf(),
        ensures
            final(self).wf(),
            final(self)@ == old(self)@.reset(),
    {
        match Game::new(self.width, self.height) {
            Ok(game) => {
                *self = game;
            },
            Err(_) => {},
        }
    }

    /// The squares of all cells of the board of state `v`, column by column
    /// from the left and each column from the top down.
    pub open spec fn squares_spec(v: GameView) -> Seq<Square> {
        Seq::new(
            (v.width * v.height) as nat,
            |i: int|
                square_of(
                    i / v.height as int,
                    i % v.height as int,
                    v.tile_at(
                        Coord { x: (i / v.height as int) as u16, y: (i % v.height as int) as u16 },
                    ),
                ),
        )
    }

    /// The squares to paint for the board as it is: one for each cell, column
    /// by column from the left and each column from the top down.
    pub fn draw_game(&self) -> (squares: Vec<Square>)
        requires
            self.wf(),
        ensures
            squares@ == Game::squares_spec(self@),
    {
        let squares = draw(&self.grid);
        proof {
            let v = self@;
            assert(squares@.len() == v.height * v.width) by (nonlinear_arith)
                requires
                    squares@.len() == v.width * v.height,
            ;
            assert forall|i: int| 0 <= i < squares@.len() implies squares@[i] == Game::squares_spec(
                v,
            )[i] by {
                lemma_multiply_divide_lt(i, v.height as int, v.width as int);
                lemma_div_pos_is_pos(i, v.height as int);
                lemma_mod_pos_bound(i, v.height as int);
            }
        }
        squares
    }

    /// One step up, towards row 0.
    pub fn move_up(&mut self, entropy: u32)
        requires
            old(self).wf(),
        ensures
            final(self).wf(),
            final(self)@ == old(self)@.step(Direction::Up, entropy),
    {
        self.step(Direction::Up, entropy)
    }

    /// One step down, away from row 0.
    pub fn move_down(&mut self, entropy: u32)
        requires
            old(self).wf(),
        ensures
            final(self).wf(),
            final(self)@ == old(self)@.step(Direction::Down, entropy),
    {
        self.step(Direction::Down, entropy)
    }

    /// One step to the right, away from column 0.
    pub fn move_right(&mut self, entropy: u32)
        requires
            old(self).wf(),
        ensures
            final(self).wf(),
            final(self)@ == old(self)@.step(Direction::Right, entropy),
    {
        self.step(Direction::Right, entropy)
    }

    /// One step to the left, towards column 0.
    pub fn move_left(&mut self, entropy: u32)
        requires
            old(self).wf(),
        ensures
            final(self).wf(),
            final(self)@ == old(self)@.step(Direction::Left, entropy),
    {
        self.step(Direction::Left, entropy)
    }

    /// The direction of the next step, from the touches of this tick and the
    /// heading of the last step. It never points against that heading.
    pub fn choose_direction(&self, touches: &[TouchPoint]) -> (direction: Direction)
        ensures
            direction == map_spec(touches@, self@.heading),
            direction != self@.heading.reverse_spec(),
    {
        map_touches(touches, self.heading)
    }

    /// One tick of the game: the touches of the tick give the direction, as
    /// `choose_direction` maps them, and the game steps towards it. Returns
    /// that direction.
    pub fn tick(&mut self, touches: &[TouchPoint], entropy: u32) -> (direction: Direction)
        requires
            old(self).wf(),
        ensures
            final(self).wf(),
            direction == map_spec(touches@, old(self)@.heading),
            final(self)@ == old(self)@.tick(touches@, entropy),
    {
        let direction = self.choose_direction(touches);
        self.step(direction, entropy);
        direction
    }

    /// One round of play. A game that is over starts again where the screen
    /// is touched, and else stays as it is. A game that runs gets an apple
    /// where the board has none, placed by `apple_entropy`, and then goes
    /// through one tick with `step_entropy`.
    pub fn round(&mut self, touches: &[TouchPoint], apple_entropy: u32, step_entropy: u32)
        requires
            old(self).wf(),
        ensures
            final(self).wf(),
            final(self)@ == old(self)@.round(touches@, apple_entropy, step_entropy),
    {
        if self.over {
            if touches.len() > 0 {
                self.reset();
            }
        } else {
            self.place_apple(apple_entropy);
            self.tick(touches, step_entropy);
        }
    }

    /// What player `id` tells its peer about this game: the cell of the head
    /// and the heading of the last step.
    pub fn peer_state(&self, id: u8) -> (state: PeerState)
        requires
            self.wf(),
        ensures
            state == (PeerState { id, head: self@.head(), direction: self@.heading }),
    {
        PeerState { id, head: self.snake[0], direction: self.heading }
    }

    /// Number of columns of the board.
    pub fn width(&self) -> (width: u16)
        ensures
            width == self@.width,
    {
        self.width
    }

    /// Number of rows of the board.
    pub fn height(&self) -> (height: u16)
        ensures
            height == self@.height,
    {
        self.height
    }

    /// The cells of the snake, from head to tail.
    pub fn snake(&self) -> (snake: &Vec<Coord>)
        ensures
            snake@ == self@.snake,
    {
        &self.snake
    }

    /// The cell of the head.
    pub fn head(&self) -> (head: Coord)
        requires
            self.wf(),
        ensures
            head == self@.head(),
    {
        self.snake[0]
    }

    /// The cell of the apple, if the board has one.
    pub fn apple(&self) -> (apple: Option<Coord>)
        ensures
            apple == self@.apple,
    {
        self.apple
    }

    /// The heading of the last step; `Right` before the first.
    pub fn heading(&self) -> (heading: Direction)
        ensures
            heading == self@.heading,
    {
        self.heading
    }

    /// Whether the game is over.
    pub fn is_over(&self) -> (over: bool)
        ensures
            over == self@.over,
    {
        self.over
    }

    /// The board, column by column: `tiles()[x][y]` is the tile of column `x`
    /// and row `y`.
    pub fn tiles(&self) -> (grid: &Vec<Vec<Tile>>)
        requires
            self.wf(),
        ensures
            grid@.len() == self@.width,
            forall|x: int| 0 <= x < self@.width ==> (#[trigger] grid@[x])@.len() == self@.height,
            forall|x: int, y: int|
                0 <= x < self@.width && 0 <= y < self@.height ==> #[trigger] grid@[x]@[y]
                    == self@.tile_at(Coord { x: x as u16, y: y as u16 }),
    {
        &self.grid
    }
}

} // verus!
