use vstd::prelude::*;

verus! {

/// Lengths are counted in units where the screen spans `-HALF_EXTENT ..= HALF_EXTENT`
/// on each axis, with `+y` pointing up.
pub const HALF_EXTENT: i64 = 600;

/// A third of the half extent: the edge of each player's zone.
pub const ZONE_EDGE: i64 = 200;

/// Time is counted in whole microseconds.
pub const MICROS_PER_SECOND: u64 = 1_000_000;

/// Seconds of one-sided accumulation that bring a score from empty to full.
pub const GAME_TIME: u64 = 5_000_000;

/// How long the celebration after a win lasts.
pub const END_TIMER: u64 = 3_000_000;

/// Period of the winner's bar blinking during the celebration.
pub const END_BLINKING_TIMER: u64 = 100_000;

/// A countdown after `dt` has elapsed, stopped at zero.
pub open spec fn countdown(t: u64, dt: u64) -> u64 {
    if dt >= t { 0 } else { (t - dt) as u64 }
}

/// Advances a countdown by `dt`; a result of zero means it has run out.
pub fn tick_down(t: u64, dt: u64) -> (r: u64)
    ensures
        r == countdown(t, dt),
{
    if dt >= t { 0 } else { t - dt }
}

} // verus!
