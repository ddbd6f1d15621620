//! The tick-driven translation logic: the bounded horizontal step a piece
//! takes in response to the pressed keys, and the gravity tick intervals.

use vstd::prelude::*;
use crate::BLOCK_WIDTH;

verus! {

/// Leftmost horizontal translation a piece may reach, in pixels.
pub const X_MIN: i32 = -380;

/// Rightmost horizontal translation a piece may reach, in pixels.
pub const X_MAX: i32 = 380;

/// Horizontal step, in cells, that the pressed keys request: right minus left.
pub open spec fn direction(left: bool, right: bool) -> int {
    (if right { 1int } else { 0int }) - (if left { 1int } else { 0int })
}

/// `v` forced into the closed range from `lo` to `hi`.
pub open spec fn clamp(lo: int, hi: int, v: int) -> int {
    if v < lo {
        lo
    } else if v > hi {
        hi
    } else {
        v
    }
}

/// The piece's horizontal translation after one input tick: moved one cell
/// toward the requested direction and forced back inside the board range.
pub fn step_x(x: i32, left: bool, right: bool) -> (nx: i32)
    requires
        i32::MIN + BLOCK_WIDTH <= x <= i32::MAX - BLOCK_WIDTH,
    ensures
        nx == clamp(X_MIN as int, X_MAX as int, x + direction(left, right) * BLOCK_WIDTH),
        X_MIN <= nx <= X_MAX,
{
    let mut dir: i32 = 0;
    if left {
        dir = dir - 1;
    }
    if right {
        dir = dir + 1;
    }
    let mut nx = x + dir * (BLOCK_WIDTH as i32);
    if nx < X_MIN {
        nx = X_MIN;
    }
    if nx > X_MAX {
        nx = X_MAX;
    }
    nx
}

/// Gravity tick interval, in milliseconds, at each difficulty level: the
/// intervals shorten as the level rises.
pub open spec fn tick_ms(level: int) -> int {
    if level == 0 {
        2000
    } else if level == 1 {
        1800
    } else if level == 2 {
        1600
    } else if level == 3 {
        1400
    } else if level == 4 {
        1200
    } else if level == 5 {
        1000
    } else if level == 6 {
        800
    } else if level == 7 {
        600
    } else {
        200
    }
}

/// The gravity tick interval at the given difficulty level, in milliseconds.
pub fn tick_interval_ms(level: usize) -> (ms: u32)
    requires
        level < 9,
    ensures
        ms == tick_ms(level as int),
{
    match level {
        0 => 2000,
        1 => 1800,
        2 => 1600,
        3 => 1400,
        4 => 1200,
        5 => 1000,
        6 => 800,
        7 => 600,
        _ => 200,
    }
}

} // verus!
