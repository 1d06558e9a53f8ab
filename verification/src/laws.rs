//! What holds of every game, whatever the moves.

use vstd::prelude::*;
use crate::grid::{Coord, Direction, Tile};
use crate::input::{map_spec, TouchPoint};
use crate::model::{start_cell, GameView};
use crate::rules::{lemma_grown, lemma_moved, lemma_with_apple};

verus! {

/// What the board shows: the head on exactly one cell, the cell of the head;
/// the body on the other cells of the snake and nowhere else; the apple on at
/// most one cell, the cell of the apple; and nowhere a tail.
pub proof fn lemma_board(v: GameView)
    requires
        v.wf(),
    ensures
        v.head().within(v.width, v.height),
        forall|c: Coord| #[trigger] v.tile_at(c) == Tile::SnakeHead <==> c == v.head(),
        forall|c: Coord| #[trigger]
            v.tile_at(c) == Tile::SnakeBody <==> v.snake.contains(c) && c != v.head(),
        forall|c: Coord| #[trigger] v.tile_at(c) == Tile::Apple <==> v.apple == Some(c),
        forall|c: Coord| #[trigger] v.tile_at(c) != Tile::SnakeTail,
{
}

/// A step leads from a state that a game can be in to another such state.
pub proof fn lemma_step_wf(v: GameView, direction: Direction, entropy: u32)
    requires
        v.wf(),
    ensures
        v.step(direction, entropy).wf(),
{
    if !v.over {
        if let Some((target, heading)) = v.next_head(direction) {
            match v.tile_at(target) {
                Tile::Empty => {
                    lemma_moved(v, target, heading);
                },
                Tile::Apple => {
                    lemma_grown(v, target, heading);
                    lemma_with_apple(v.grown(target, heading), entropy);
                },
                _ => {},
            }
        }
    }
}

/// Where the cell next to the head towards `direction` lies on the board and
/// not on the snake, a step takes the head to that cell, makes `direction` the
/// heading, and moves every other segment to the place of the segment before
/// it. The snake keeps its length, or grows by one cell where that cell held the
/// apple, and the game goes on.
pub proof fn lemma_step_moves_snake(v: GameView, direction: Direction, entropy: u32)
    requires
        v.wf(),
        !v.over,
        v.head().neighbor_spec(direction, v.width, v.height) is Some,
        !v.snake.contains(v.head().neighbor_spec(direction, v.width, v.height)->0),
    ensures
        v.step(direction, entropy).head() == v.head().neighbor_spec(
            direction,
            v.width,
            v.height,
        )->0,
        v.step(direction, entropy).heading == direction,
        !v.step(direction, entropy).over,
        v.step(direction, entropy).snake.len() == v.snake.len() + (if v.apple == Some(
            v.step(direction, entropy).head(),
        ) {
            1int
        } else {
            0int
        }),
        forall|i: int|
            1 <= i < v.step(direction, entropy).snake.len() ==> #[trigger] v.step(
                direction,
                entropy,
            ).snake[i] == v.snake[i - 1],
{
}

/// A step onto the apple makes the snake one cell longer and puts the head
/// on the cell of the apple. The next apple, if the board gets one, lies on a
/// cell of the board that was empty once the snake had grown.
pub proof fn lemma_step_eats_apple(v: GameView, direction: Direction, entropy: u32)
    requires
        v.wf(),
        !v.over,
        v.next_cell(direction) is Some,
        v.tile_at(v.next_cell(direction)->0) == Tile::Apple,
    ensures
        v.step(direction, entropy).snake.len() == v.snake.len() + 1,
        v.step(direction, entropy).tile_at(v.next_cell(direction)->0) == Tile::SnakeHead,
        v.step(direction, entropy).apple matches Some(a) ==> a.within(v.width, v.height)
            && v.grown(v.next_cell(direction)->0, v.next_heading(direction)).tile_at(a)
            == Tile::Empty,
{
    let (target, heading) = v.next_head(direction)->0;
    lemma_grown(v, target, heading);
    lemma_with_apple(v.grown(target, heading), entropy);
}

/// A step that would take the head onto the snake ends the game and changes
/// nothing else.
pub proof fn lemma_step_collision(v: GameView, direction: Direction, entropy: u32)
    requires
        v.wf(),
        !v.over,
        v.next_cell(direction) is Some,
        v.tile_at(v.next_cell(direction)->0) == Tile::SnakeBody || v.tile_at(
            v.next_cell(direction)->0,
        ) == Tile::SnakeTail,
    ensures
        v.step(direction, entropy) == (GameView { over: true, ..v }),
        forall|c: Coord| #[trigger] v.step(direction, entropy).tile_at(c) == v.tile_at(c),
{
}

/// A game that is over stays as it is, whatever step is asked for.
pub proof fn lemma_step_when_over(v: GameView, direction: Direction, entropy: u32)
    requires
        v.over,
    ensures
        v.step(direction, entropy) == v,
{
}

/// Starting again gives the board of a new game: the head on the start cell
/// and every other cell empty. Starting again twice is starting again once.
pub proof fn lemma_reset(v: GameView)
    requires
        v.width > 0,
        v.height > 0,
    ensures
        v.reset().wf(),
        v.reset() == GameView::initial(v.width, v.height),
        v.reset().reset() == v.reset(),
        forall|c: Coord| #[trigger]
            v.reset().tile_at(c) == (if c == start_cell(v.width, v.height) {
                Tile::SnakeHead
            } else {
                Tile::Empty
            }),
{
    let n = v.reset();
    assert forall|c: Coord| n.snake.contains(c) implies c == n.snake[0] by {
        let i = choose|i: int| 0 <= i < n.snake.len() && n.snake[i] == c;
    }
}

/// The cell behind the head is the one cell that no step reaches but the
/// step against the heading.
pub proof fn lemma_forward_misses_neck(v: GameView, direction: Direction)
    requires
        v.wf(),
        v.snake.len() >= 2,
        direction != v.heading.reverse_spec(),
        v.next_cell(direction) is Some,
    ensures
        v.next_cell(direction)->0 != v.snake[1],
{
}

/// A tick never takes the head back onto the cell behind it: the direction
/// that the touches give is mapped against the heading before the game steps,
/// so that the snake is never turned round into itself.
pub proof fn lemma_tick_misses_neck(v: GameView, touches: Seq<TouchPoint>, entropy: u32)
    requires
        v.wf(),
        v.snake.len() >= 2,
    ensures
        v.next_cell(map_spec(touches, v.heading)) matches Some(c) ==> c != v.snake[1],
        !v.over && !v.tick(touches, entropy).over ==> v.tick(touches, entropy).head()
            != v.snake[1],
{
    let direction = map_spec(touches, v.heading);
    if v.next_cell(direction) is Some {
        lemma_forward_misses_neck(v, direction);
    }
}

/// A round of play leads from a state that a game can be in to another such
/// state, and only a touch on a game that is over leads out of that game.
pub proof fn lemma_round(
    v: GameView,
    touches: Seq<TouchPoint>,
    apple_entropy: u32,
    step_entropy: u32,
)
    requires
        v.wf(),
    ensures
        v.round(touches, apple_entropy, step_entropy).wf(),
        v.over && touches.len() == 0 ==> v.round(touches, apple_entropy, step_entropy) == v,
        v.over && touches.len() > 0 ==> v.round(touches, apple_entropy, step_entropy)
            == GameView::initial(v.width, v.height),
{
    if v.over {
        lemma_reset(v);
    } else {
        lemma_with_apple(v, apple_entropy);
        lemma_step_wf(
            v.with_apple(apple_entropy),
            map_spec(touches, v.with_apple(apple_entropy).heading),
            step_entropy,
        );
    }
}

} // verus!
