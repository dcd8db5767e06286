//! Units of length and time, the sizes and speeds of the game, and the
//! arithmetic shared by rackets and ball.

use vstd::prelude::*;

verus! {

/// Ticks in one second: a tick is a microsecond.
pub const TICKS_PER_SECOND: u64 = 1_000_000;

/// Units of length in one pixel. It equals [`TICKS_PER_SECOND`], so one pixel
/// per second is one unit per tick.
pub const UNITS_PER_PIXEL: i64 = 1_000_000;

/// Units of length in half a pixel.
pub const UNITS_PER_HALF_PIXEL: i64 = 500_000;

/// Height of a racket, in pixels.
pub const RACKET_HEIGHT_PIXELS: u32 = 150;

/// Height of a racket.
pub const RACKET_HEIGHT: i64 = 150_000_000;

/// Width of a racket.
pub const RACKET_WIDTH: i64 = 30_000_000;

/// Half the height of a racket.
pub const RACKET_HEIGHT_HALF: i64 = 75_000_000;

/// Half the width of a racket.
pub const RACKET_WIDTH_HALF: i64 = 15_000_000;

/// Side of the square ball.
pub const BALL_SIZE: i64 = 30_000_000;

/// Half the side of the ball.
pub const BALL_SIZE_HALF: i64 = 15_000_000;

/// Speed of a racket while a key is held, in pixels per second.
pub const PLAYER_SPEED: i32 = 600;

/// Speed of the ball along each axis, in pixels per second.
pub const BALL_SPEED: i32 = 200;

/// `value` brought into `low ..= high`: values under `low` become `low`, all
/// other values over `high` become `high`. Where `low > high` the range is
/// empty and the result is one of the two bounds.
pub open spec fn clamped(value: int, low: int, high: int) -> int {
    if value < low {
        low
    } else if value > high {
        high
    } else {
        value
    }
}

/// `value` brought into the range of a coordinate.
pub open spec fn saturate(value: int) -> int {
    clamped(value, i64::MIN as int, i64::MAX as int)
}

/// Where a coordinate `start` stands after moving at `speed` units per tick
/// for `dt` ticks.
pub open spec fn displaced(start: int, speed: int, dt: int) -> int {
    saturate(start + speed * dt)
}

/// Brings `value` into `low ..= high`, leaving it alone where it already is.
pub fn clamp(value: &mut i64, low: i64, high: i64)
    ensures
        *final(value) == clamped(*old(value) as int, low as int, high as int),
        low <= high ==> low <= *final(value) <= high,
        low <= *old(value) <= high ==> *final(value) == *old(value),
{
    if *value < low {
        *value = low;
    } else if *value > high {
        *value = high;
    }
}

/// Moves a coordinate at `speed` units per tick for `dt` ticks, stopping at
/// the ends of the coordinate range.
pub fn displace(start: i64, speed: i64, dt: u64) -> (end: i64)
    ensures
        end == displaced(start as int, speed as int, dt as int),
        i64::MIN <= start + speed * dt <= i64::MAX ==> end == start + speed * dt,
{
    proof {
        lemma_product_bounds(speed as int, dt as int);
    }
    let travel: i128 = (speed as i128) * (dt as i128);
    let target: i128 = (start as i128) + travel;
    if target < i64::MIN as i128 {
        i64::MIN
    } else if target > i64::MAX as i128 {
        i64::MAX
    } else {
        target as i64
    }
}

/// A coordinate speed times a tick count stays well inside 128 bits.
proof fn lemma_product_bounds(speed: int, dt: int)
    requires
        i64::MIN <= speed <= i64::MAX,
        0 <= dt <= u64::MAX,
    ensures
        -0x8000_0000_0000_0000 * 0xffff_ffff_ffff_ffff <= speed * dt,
        speed * dt <= 0x7fff_ffff_ffff_ffff * 0xffff_ffff_ffff_ffff,
{
    assert(speed * dt <= 0x7fff_ffff_ffff_ffff * dt) by (nonlinear_arith)
        requires
            speed <= 0x7fff_ffff_ffff_ffff,
            0 <= dt,
    ;
    assert(0x7fff_ffff_ffff_ffff * dt <= 0x7fff_ffff_ffff_ffff * 0xffff_ffff_ffff_ffff)
        by (nonlinear_arith)
        requires
            dt <= 0xffff_ffff_ffff_ffff,
    ;
    assert(-0x8000_0000_0000_0000 * dt <= speed * dt) by (nonlinear_arith)
        requires
            -0x8000_0000_0000_0000 <= speed,
            0 <= dt,
    ;
    assert(-0x8000_0000_0000_0000 * 0xffff_ffff_ffff_ffff <= -0x8000_0000_0000_0000 * dt)
        by (nonlinear_arith)
        requires
            dt <= 0xffff_ffff_ffff_ffff,
    ;
}

} // verus!
