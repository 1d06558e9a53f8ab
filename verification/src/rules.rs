//! What the rules of the game do to the snake and to the tiles of the board.

use vstd::prelude::*;
use crate::grid::{Coord, Direction, Tile};
use crate::model::GameView;

verus! {

/// A move to a free cell keeps the state sound, and changes three tiles at
/// most: the new head, the old head and the cell that the tail left.
pub proof fn lemma_moved(v: GameView, target: Coord, heading: Direction)
    requires
        v.wf(),
        v.head().neighbor_spec(heading, v.width, v.height) == Some(target),
        v.tile_at(target) == Tile::Empty,
    ensures
        v.moved(target, heading).wf(),
        forall|c: Coord| #[trigger]
            v.moved(target, heading).tile_at(c) == (if c == target {
                Tile::SnakeHead
            } else if c == v.head() {
                if v.snake.len() >= 2 {
                    Tile::SnakeBody
                } else {
                    Tile::Empty
                }
            } else if c == v.snake.last() {
                Tile::Empty
            } else {
                v.tile_at(c)
            }),
{
    let s = v.snake;
    let t = v.moved(target, heading).snake;
    assert forall|c: Coord| s.contains(c) && c != s.last() implies t.contains(c) by {
        let i = choose|i: int| 0 <= i < s.len() && s[i] == c;
        assert(t[i + 1] == c);
    }
    assert forall|c: Coord| t.contains(c) && c != target implies s.contains(c) && c != s.last() by {
        let i = choose|i: int| 0 <= i < t.len() && t[i] == c;
        assert(s[i - 1] == c);
    }
}

/// A move onto the apple keeps the state sound, and changes two tiles: the
/// new head and the old head.
pub proof fn lemma_grown(v: GameView, target: Coord, heading: Direction)
    requires
        v.wf(),
        v.head().neighbor_spec(heading, v.width, v.height) == Some(target),
        v.tile_at(target) == Tile::Apple,
    ensures
        v.grown(target, heading).wf(),
        forall|c: Coord| #[trigger]
            v.grown(target, heading).tile_at(c) == (if c == target {
                Tile::SnakeHead
            } else if c == v.head() {
                Tile::SnakeBody
            } else {
                v.tile_at(c)
            }),
{
    let s = v.snake;
    let t = v.grown(target, heading).snake;
    assert forall|c: Coord| s.contains(c) implies t.contains(c) by {
        let i = choose|i: int| 0 <= i < s.len() && s[i] == c;
        assert(t[i + 1] == c);
    }
    assert forall|c: Coord| t.contains(c) && c != target implies s.contains(c) by {
        let i = choose|i: int| 0 <= i < t.len() && t[i] == c;
        assert(s[i - 1] == c);
    }
}

/// The empty cells of column `x` above row `y` are the cells of that column
/// above row `y` that show `Empty`, each once.
pub proof fn lemma_column_empties(v: GameView, x: u16, y: int)
    requires
        0 <= y <= v.height,
        x < v.width,
    ensures
        v.column_empties(x, y).len() <= y,
        forall|c: Coord| #[trigger]
            v.column_empties(x, y).contains(c) <==> c.x == x && c.y < y && v.tile_at(c)
                == Tile::Empty,
        forall|i: int, j: int|
            0 <= i < j < v.column_empties(x, y).len() ==> v.column_empties(x, y)[i].y
                < v.column_empties(x, y)[j].y,
    decreases y,
{
    if y > 0 {
        lemma_column_empties(v, x, y - 1);
        let above = v.column_empties(x, y - 1);
        let cell = Coord { x, y: (y - 1) as u16 };
        let all = v.column_empties(x, y);
        if v.tile_at(cell) == Tile::Empty {
            assert(all[above.len() as int] == cell);
            assert forall|c: Coord| above.contains(c) implies all.contains(c) by {
                let i = choose|i: int| 0 <= i < above.len() && above[i] == c;
                assert(all[i] == c);
            }
            assert forall|c: Coord| all.contains(c) && c != cell implies above.contains(c) by {
                let i = choose|i: int| 0 <= i < all.len() && all[i] == c;
                assert(above[i] == c);
            }
            assert forall|i: int, j: int| 0 <= i < j < all.len() implies all[i].y < all[j].y by {
                assert(above.contains(above[i]));
            }
        }
    }
}

/// Whether `a` comes before `b` where the cells are counted column by column
/// from the left and each column from the top down.
pub open spec fn before(a: Coord, b: Coord) -> bool {
    a.x < b.x || (a.x == b.x && a.y < b.y)
}

/// The empty cells of the columns left of column `x` are the cells of those
/// columns that show `Empty`, each once and in the order of the cells.
pub proof fn lemma_empties_before(v: GameView, x: int)
    requires
        0 <= x <= v.width,
    ensures
        v.empties_before(x).len() <= x * v.height,
        forall|c: Coord| #[trigger]
            v.empties_before(x).contains(c) <==> c.x < x && c.y < v.height && v.tile_at(c)
                == Tile::Empty,
        forall|i: int, j: int|
            0 <= i < j < v.empties_before(x).len() ==> before(
                #[trigger] v.empties_before(x)[i],
                #[trigger] v.empties_before(x)[j],
            ),
    decreases x,
{
    if x > 0 {
        lemma_empties_before(v, x - 1);
        lemma_column_empties(v, (x - 1) as u16, v.height as int);
        let left = v.empties_before(x - 1);
        let column = v.column_empties((x - 1) as u16, v.height as int);
        let all = v.empties_before(x);
        assert(all.len() <= x * v.height) by (nonlinear_arith)
            requires
                all.len() == left.len() + column.len(),
                left.len() <= (x - 1) * v.height,
                column.len() <= v.height,
        ;
        assert forall|c: Coord| left.contains(c) implies all.contains(c) by {
            let i = choose|i: int| 0 <= i < left.len() && left[i] == c;
            assert(all[i] == c);
        }
        assert forall|c: Coord| column.contains(c) implies all.contains(c) by {
            let i = choose|i: int| 0 <= i < column.len() && column[i] == c;
            assert(all[left.len() + i] == c);
        }
        assert forall|c: Coord| all.contains(c) implies left.contains(c) || column.contains(c) by {
            let i = choose|i: int| 0 <= i < all.len() && all[i] == c;
            if i < left.len() {
                assert(left[i] == c);
            } else {
                assert(column[i - left.len()] == c);
            }
        }
        assert forall|i: int, j: int| 0 <= i < j < all.len() implies before(
            #[trigger] all[i],
            #[trigger] all[j],
        ) by {
            if i < left.len() {
                assert(left.contains(left[i]));
            } else {
                assert(column.contains(column[i - left.len()]));
            }
            if j >= left.len() {
                assert(column.contains(column[j - left.len()]));
            }
        }
    }
}

/// The empty cells of the board are the cells of the board that show `Empty`,
/// each once and in the order of the cells. So each of them is the cell of
/// the apple for exactly one value of `entropy` modulo their number.
pub proof fn lemma_empty_cells(v: GameView)
    ensures
        v.empty_cells().len() <= v.width * v.height,
        forall|c: Coord| #[trigger]
            v.empty_cells().contains(c) <==> c.within(v.width, v.height) && v.tile_at(c)
                == Tile::Empty,
        forall|i: int, j: int|
            0 <= i < j < v.empty_cells().len() ==> before(
                #[trigger] v.empty_cells()[i],
                #[trigger] v.empty_cells()[j],
            ),
{
    lemma_empties_before(v, v.width as int);
}

/// Asking for an apple keeps the state sound. Where it changes the state, the
/// apple lies on a cell of the board that showed `Empty`, and no other tile
/// has changed.
pub proof fn lemma_with_apple(v: GameView, entropy: u32)
    requires
        v.wf(),
    ensures
        v.with_apple(entropy).wf(),
        v.with_apple(entropy) != v ==> v.with_apple(entropy).apple is Some && v.tile_at(
            v.with_apple(entropy).apple->0,
        ) == Tile::Empty && v.with_apple(entropy).apple->0.within(v.width, v.height),
        forall|c: Coord| #[trigger]
            v.with_apple(entropy).tile_at(c) == (if v.with_apple(entropy) != v && Some(c)
                == v.with_apple(entropy).apple {
                Tile::Apple
            } else {
                v.tile_at(c)
            }),
{
    let cells = v.empty_cells();
    if v.with_apple(entropy) != v {
        lemma_empty_cells(v);
        assert(cells.contains(cells[entropy as int % cells.len() as int]));
    }
}

} // verus!
