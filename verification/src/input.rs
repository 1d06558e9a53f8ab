//! From touches on the screen to the heading of the next step.

use vstd::prelude::*;
use crate::grid::Direction;

verus! {

/// Left edge of the strip along the left side of the screen, in pixels; the
/// strip itself begins right of it.
pub const LEFT_STRIP_MIN: u16 = 10;

/// Right edge of the strip along the left side of the screen.
pub const LEFT_STRIP_MAX: u16 = 70;

/// Left edge of the strip along the right side of the screen.
pub const RIGHT_STRIP_MIN: u16 = 410;

/// Right edge of the strip along the right side of the screen.
pub const RIGHT_STRIP_MAX: u16 = 470;

/// Upper edge of the strip along the top of the screen.
pub const TOP_STRIP_MIN: u16 = 10;

/// Lower edge of the strip along the top of the screen.
pub const TOP_STRIP_MAX: u16 = 70;

/// Upper edge of the strip along the bottom of the screen.
pub const BOTTOM_STRIP_MIN: u16 = 202;

/// Lower edge of the strip along the bottom of the screen.
pub const BOTTOM_STRIP_MAX: u16 = 262;

/// A touch on the screen, in pixels from its upper left corner.
#[derive(Clone, Copy, Debug, PartialEq, Eq, Structural)]
pub struct TouchPoint {
    pub x: u16,
    pub y: u16,
}

/// Whether `p` lies in the zone of `direction`. The strip along the left side
/// turns the snake down and the strip along the right side turns it up, over
/// the whole height of the screen; between them the strip along the top turns
/// it left and the strip along the bottom turns it right. The edges of a strip
/// do not belong to it.
pub open spec fn in_zone(p: TouchPoint, direction: Direction) -> bool {
    match direction {
        Direction::Down => LEFT_STRIP_MIN < p.x < LEFT_STRIP_MAX,
        Direction::Up => RIGHT_STRIP_MIN < p.x < RIGHT_STRIP_MAX,
        Direction::Left => LEFT_STRIP_MAX <= p.x <= RIGHT_STRIP_MIN && TOP_STRIP_MIN < p.y
            < TOP_STRIP_MAX,
        Direction::Right => LEFT_STRIP_MAX <= p.x <= RIGHT_STRIP_MIN && BOTTOM_STRIP_MIN < p.y
            < BOTTOM_STRIP_MAX,
    }
}

/// The direction in whose zone `p` lies, if it lies in one.
pub open spec fn zone_of(p: TouchPoint) -> Option<Direction> {
    if in_zone(p, Direction::Down) {
        Some(Direction::Down)
    } else if in_zone(p, Direction::Up) {
        Some(Direction::Up)
    } else if in_zone(p, Direction::Left) {
        Some(Direction::Left)
    } else if in_zone(p, Direction::Right) {
        Some(Direction::Right)
    } else {
        None
    }
}

/// The direction of the first touch that lies in a zone, if there is one.
pub open spec fn first_zone(touches: Seq<TouchPoint>) -> Option<Direction>
    decreases touches.len(),
{
    if touches.len() == 0 {
        None
    } else {
        match zone_of(touches[0]) {
            Some(direction) => Some(direction),
            None => first_zone(touches.skip(1)),
        }
    }
}

/// The heading of the next step: the direction of the first touch that lies in
/// a zone, unless there is none or it points against `last`; then `last`.
pub open spec fn map_spec(touches: Seq<TouchPoint>, last: Direction) -> Direction {
    match first_zone(touches) {
        Some(direction) => if direction == last.reverse_spec() {
            last
        } else {
            direction
        },
        None => last,
    }
}

/// The zones do not overlap: a touch lies in the zone of `direction` exactly
/// if `zone_of` gives that direction.
pub proof fn lemma_zones_disjoint(p: TouchPoint, direction: Direction)
    ensures
        in_zone(p, direction) <==> zone_of(p) == Some(direction),
{
}

/// `first_zone` gives the direction of the touch at `i` where that touch lies
/// in a zone and no touch before it does, and nothing where no touch lies in a
/// zone.
pub proof fn lemma_first_zone(touches: Seq<TouchPoint>, i: int)
    requires
        0 <= i <= touches.len(),
        forall|j: int| 0 <= j < i ==> zone_of(#[trigger] touches[j]) is None,
    ensures
        i < touches.len() && zone_of(touches[i]) is Some ==> first_zone(touches) == zone_of(
            touches[i],
        ),
        i == touches.len() ==> first_zone(touches) is None,
        first_zone(touches) == first_zone(touches.skip(i)),
    decreases i,
{
    if i > 0 {
        lemma_first_zone(touches, i - 1);
        assert(touches.skip(i - 1).skip(1) =~= touches.skip(i));
    } else {
        assert(touches.skip(0) =~= touches);
    }
}

/// The heading that `map_spec` gives never points against `last`.
pub proof fn lemma_map_never_reverses(touches: Seq<TouchPoint>, last: Direction)
    ensures
        map_spec(touches, last) != last.reverse_spec(),
{
}

/// Touches that stay the same turn the snake once: mapped against the
/// heading that they gave, they give that heading again.
pub proof fn lemma_map_settles(touches: Seq<TouchPoint>, last: Direction)
    ensures
        map_spec(touches, map_spec(touches, last)) == map_spec(touches, last),
{
}

/// The touches of a tick, from what reading the touch screen gave: the
/// touches that were read, and none where the read failed. A screen that does
/// not answer counts as a screen that is not touched.
pub fn touches_of_read(read: Option<Vec<TouchPoint>>) -> (touches: Vec<TouchPoint>)
    ensures
        touches@ == (match read {
            Some(t) => t@,
            None => Seq::empty(),
        }),
{
    match read {
        Some(t) => t,
        None => Vec::new(),
    }
}

/// The direction in whose zone `p` lies, if it lies in one.
pub fn zone(p: TouchPoint) -> (r: Option<Direction>)
    ensures
        r == zone_of(p),
{
    if LEFT_STRIP_MIN < p.x && p.x < LEFT_STRIP_MAX {
        Some(Direction::Down)
    } else if RIGHT_STRIP_MIN < p.x && p.x < RIGHT_STRIP_MAX {
        Some(Direction::Up)
    } else if LEFT_STRIP_MAX <= p.x && p.x <= RIGHT_STRIP_MIN && TOP_STRIP_MIN < p.y && p.y
        < TOP_STRIP_MAX {
        Some(Direction::Left)
    } else if LEFT_STRIP_MAX <= p.x && p.x <= RIGHT_STRIP_MIN && BOTTOM_STRIP_MIN < p.y && p.y
        < BOTTOM_STRIP_MAX {
        Some(Direction::Right)
    } else {
        None
    }
}

/// The heading of the next step, from the touches of this tick in the order
/// in which they were reported and the heading of the last step. The first
/// touch that lies in a zone decides; a direction against `last` is not
/// taken, and without a touch in a zone the snake keeps its heading.
pub fn map_touches(touches: &[TouchPoint], last: Direction) -> (r: Direction)
    ensures
        r == map_spec(touches@, last),
        r != last.reverse_spec(),
{
    let mut i: usize = 0;
    while i < touches.len()
        invariant
            i <= touches.len(),
            forall|j: int| 0 <= j < i ==> zone_of(#[trigger] touches@[j]) is None,
        decreases touches.len() - i,
    {
        match zone(touches[i]) {
            Some(direction) => {
                proof {
                    lemma_first_zone(touches@, i as int);
                }
                if direction == last.reverse() {
                    return last;
                }
                return direction;
            },
            None => {},
        }
        i = i + 1;
    }
    proof {
        lemma_first_zone(touches@, i as int);
    }
    last
}

} // verus!
