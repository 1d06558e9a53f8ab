//! The picture of the board: one filled square for each cell.

use vstd::prelude::*;
use vstd::arithmetic::div_mod::lemma_fundamental_div_mod_converse;
use crate::grid::Tile;

verus! {

/// Edge of the square of one cell, in pixels.
pub const GRID_BLOCK_SIZE: usize = 10;

/// A colour with its four channels.
#[derive(Clone, Copy, Debug, PartialEq, Eq, Structural)]
pub struct Color {
    pub red: u8,
    pub green: u8,
    pub blue: u8,
    pub alpha: u8,
}

/// A filled square to paint: the pixel of its upper left corner, the length of
/// its edge and its colour.
#[derive(Clone, Copy, Debug, PartialEq, Eq, Structural)]
pub struct Square {
    pub x: usize,
    pub y: usize,
    pub size: usize,
    pub color: Color,
}

/// The colour of a tile: black for an empty cell, green for the apple, red for
/// every part of the snake.
pub open spec fn color_of(tile: Tile) -> Color {
    match tile {
        Tile::Empty => Color { red: 0, green: 0, blue: 0, alpha: 255 },
        Tile::Apple => Color { red: 0, green: 255, blue: 0, alpha: 255 },
        _ => Color { red: 255, green: 0, blue: 0, alpha: 255 },
    }
}

/// The square of the cell in column `x` and row `y` where it shows `tile`: ten
/// pixels wide, with its corner at ten times the column and ten times the row.
pub open spec fn square_of(x: int, y: int, tile: Tile) -> Square {
    Square {
        x: (x * GRID_BLOCK_SIZE) as usize,
        y: (y * GRID_BLOCK_SIZE) as usize,
        size: GRID_BLOCK_SIZE,
        color: color_of(tile),
    }
}

/// Number of rows of a board that is given column by column.
pub open spec fn rows_of(tiles: Seq<Vec<Tile>>) -> int {
    if tiles.len() == 0 {
        0
    } else {
        tiles[0]@.len() as int
    }
}

/// Whether every column of the board has as many rows as the first.
pub open spec fn rectangular(tiles: Seq<Vec<Tile>>) -> bool {
    forall|x: int| 0 <= x < tiles.len() ==> (#[trigger] tiles[x])@.len() == rows_of(tiles)
}

/// The squares of all cells of a board that is given column by column, in the
/// order of the cells: column by column from the left, each column from the
/// top down. The cell in column `x` and row `y` has number `x * rows + y`.
pub open spec fn squares_of(tiles: Seq<Vec<Tile>>) -> Seq<Square> {
    let rows = rows_of(tiles);
    Seq::new(
        (tiles.len() * rows) as nat,
        |i: int| square_of(i / rows, i % rows, tiles[i / rows]@[i % rows]),
    )
}

/// The colour of a tile.
pub fn tile_color(tile: Tile) -> (color: Color)
    ensures
        color == color_of(tile),
{
    match tile {
        Tile::Empty => Color { red: 0, green: 0, blue: 0, alpha: 255 },
        Tile::Apple => Color { red: 0, green: 255, blue: 0, alpha: 255 },
        _ => Color { red: 255, green: 0, blue: 0, alpha: 255 },
    }
}

/// The square of the cell in column `x` and row `y` where it shows `tile`.
pub fn tile_square(x: usize, y: usize, tile: Tile) -> (square: Square)
    requires
        x * GRID_BLOCK_SIZE <= usize::MAX,
        y * GRID_BLOCK_SIZE <= usize::MAX,
    ensures
        square == square_of(x as int, y as int, tile),
{
    Square {
        x: x * GRID_BLOCK_SIZE,
        y: y * GRID_BLOCK_SIZE,
        size: GRID_BLOCK_SIZE,
        color: tile_color(tile),
    }
}

/// The squares to paint for a board: one for each cell, column by column from
/// the left and each column from the top down. The board has to be a
/// rectangle, and the pixels of its last column and row have to fit the
/// machine's integers.
pub fn draw(tiles: &Vec<Vec<Tile>>) -> (squares: Vec<Square>)
    requires
        rectangular(tiles@),
        tiles@.len() * GRID_BLOCK_SIZE <= usize::MAX,
        rows_of(tiles@) * GRID_BLOCK_SIZE <= usize::MAX,
    ensures
        squares@ == squares_of(tiles@),
{
    let mut squares: Vec<Square> = Vec::new();
    let columns = tiles.len();
    let rows = if columns == 0 {
        0
    } else {
        tiles[0].len()
    };
    let mut x: usize = 0;
    while x < columns
        invariant
            rectangular(tiles@),
            columns == tiles@.len(),
            rows == rows_of(tiles@),
            columns * GRID_BLOCK_SIZE <= usize::MAX,
            rows * GRID_BLOCK_SIZE <= usize::MAX,
            x <= columns,
            squares@.len() == x * rows,
            forall|i: int|
                0 <= i < squares@.len() ==> #[trigger] squares@[i] == square_of(
                    i / rows as int,
                    i % rows as int,
                    tiles@[i / rows as int]@[i % rows as int],
                ),
        decreases columns - x,
    {
        let column = &tiles[x];
        let mut y: usize = 0;
        while y < rows
            invariant
                rectangular(tiles@),
                columns == tiles@.len(),
                rows == rows_of(tiles@),
                columns * GRID_BLOCK_SIZE <= usize::MAX,
                rows * GRID_BLOCK_SIZE <= usize::MAX,
                x < columns,
                y <= rows,
                column == tiles@[x as int],
                squares@.len() == x * rows + y,
                forall|i: int|
                    0 <= i < squares@.len() ==> #[trigger] squares@[i] == square_of(
                        i / rows as int,
                        i % rows as int,
                        tiles@[i / rows as int]@[i % rows as int],
                    ),
            decreases rows - y,
        {
            proof {
                lemma_fundamental_div_mod_converse(x * rows + y, rows as int, x as int, y as int);
                assert(x * GRID_BLOCK_SIZE <= columns * GRID_BLOCK_SIZE) by (nonlinear_arith)
                    requires
                        x <= columns,
                ;
                assert(y * GRID_BLOCK_SIZE <= rows * GRID_BLOCK_SIZE) by (nonlinear_arith)
                    requires
                        y <= rows,
                ;
            }
            squares.push(tile_square(x, y, column[y]));
            y = y + 1;
        }
        assert(x * rows + rows == (x + 1) * rows) by (nonlinear_arith);
        x = x + 1;
    }
    squares
}

} // verus!
