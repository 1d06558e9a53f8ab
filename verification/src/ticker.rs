//! The pace of the game: one tick every 100 ms.

use vstd::prelude::*;

verus! {

/// Length of a tick, in milliseconds.
pub const TICK_MILLIS: u32 = 100;

/// The milliseconds that passed between two readings of a clock that counts
/// milliseconds in 32 bits and starts again at 0 after the largest number.
pub open spec fn elapsed_spec(started: u32, now: u32) -> int {
    if now >= started {
        now - started
    } else {
        now - started + 0x1_0000_0000
    }
}

/// How long to sleep at the end of a tick that began at `started`, when the
/// clock shows `now`: what is left of the 100 ms, and nothing where the tick
/// took that long or longer.
pub open spec fn rest_spec(started: u32, now: u32) -> int {
    if elapsed_spec(started, now) >= TICK_MILLIS {
        0
    } else {
        TICK_MILLIS - elapsed_spec(started, now)
    }
}

/// How long to sleep at the end of a tick that began at `started`, when the
/// clock shows `now`.
pub fn rest_of_tick(started: u32, now: u32) -> (millis: u32)
    ensures
        millis == rest_spec(started, now),
        millis <= TICK_MILLIS,
{
    let elapsed: u32 = if now >= started {
        now - started
    } else {
        u32::MAX - started + now + 1
    };
    if elapsed >= TICK_MILLIS {
        0
    } else {
        TICK_MILLIS - elapsed
    }
}

} // verus!
