//! The racket controller: a racket follows its two keys up and down and never
//! leaves the screen.

use vstd::prelude::*;
use crate::geometry::Point;
use crate::units::{clamp, clamped, displace, PLAYER_SPEED, RACKET_HEIGHT_HALF, RACKET_HEIGHT_PIXELS, UNITS_PER_PIXEL};

verus! {

/// The way the held keys pull a racket: `-1` is up, `1` is down, `0` is rest.
/// Both keys together cancel.
pub open spec fn direction(up: bool, down: bool) -> int {
    (if down { 1int } else { 0int }) - (if up { 1int } else { 0int })
}

/// The highest place for the center of a racket.
pub open spec fn racket_top() -> int {
    RACKET_HEIGHT_HALF as int
}

/// The lowest place for the center of a racket on a screen `screen_h` pixels
/// high.
pub open spec fn racket_bottom(screen_h: u32) -> int {
    screen_h * UNITS_PER_PIXEL - RACKET_HEIGHT_HALF
}

/// Whether a racket centered at height `y` lies wholly on a screen `screen_h`
/// pixels high.
pub open spec fn on_screen(y: int, screen_h: u32) -> bool {
    racket_top() <= y <= racket_bottom(screen_h)
}

/// The height of a racket's center after `dt` ticks with the given keys held,
/// starting from `y`: it travels at [`PLAYER_SPEED`] and is then brought back
/// onto the screen.
pub open spec fn racket_y(y: int, up: bool, down: bool, dt: int, screen_h: u32) -> int {
    clamped(y + direction(up, down) * PLAYER_SPEED * dt, racket_top(), racket_bottom(screen_h))
}

/// Moves a racket for one frame of `dt` ticks on a screen `screen_h` pixels
/// high. The `up` key takes it towards the top at [`PLAYER_SPEED`], the `down`
/// key towards the bottom, and both together leave it at rest; then it is
/// brought back onto the screen. It never moves sideways.
pub fn move_racket(pos: &mut Point, up: bool, down: bool, dt: u64, screen_h: u32)
    ensures
        final(pos).x == old(pos).x,
        final(pos).y == racket_y(old(pos).y as int, up, down, dt as int, screen_h),
        screen_h >= RACKET_HEIGHT_PIXELS ==> on_screen(final(pos).y as int, screen_h),
        !up && !down && on_screen(old(pos).y as int, screen_h) ==> final(pos).y == old(pos).y,
        dt == 0 && on_screen(old(pos).y as int, screen_h) ==> final(pos).y == old(pos).y,
{
    let mut speed: i64 = 0;
    if up {
        speed = speed - (PLAYER_SPEED as i64);
    }
    if down {
        speed = speed + (PLAYER_SPEED as i64);
    }
    assert(speed == direction(up, down) * PLAYER_SPEED);
    let bottom: i64 = (screen_h as i64) * UNITS_PER_PIXEL - RACKET_HEIGHT_HALF;
    let mut y: i64 = displace(pos.y, speed, dt);
    clamp(&mut y, RACKET_HEIGHT_HALF, bottom);
    pos.y = y;
}

/// A racket that is on the screen stays on it, whatever keys are held and
/// however long the frame, as long as the screen is high enough to hold a
/// racket.
pub proof fn lemma_racket_stays_on_screen(y: int, up: bool, down: bool, dt: int, screen_h: u32)
    requires
        screen_h >= RACKET_HEIGHT_PIXELS,
    ensures
        on_screen(racket_y(y, up, down, dt, screen_h), screen_h),
{
}

/// With no key held a racket keeps its height, except that one off the screen
/// is brought back to the nearer edge.
pub proof fn lemma_idle_racket_rests(y: int, dt: int, screen_h: u32)
    ensures
        racket_y(y, false, false, dt, screen_h) == clamped(y, racket_top(), racket_bottom(screen_h)),
        on_screen(y, screen_h) ==> racket_y(y, false, false, dt, screen_h) == y,
{
    let pull = direction(false, false);
    assert(pull * PLAYER_SPEED * dt == 0) by (nonlinear_arith)
        requires
            pull == 0,
    ;
}

/// With both keys held the two pulls cancel, and the racket behaves as with
/// none.
pub proof fn lemma_opposite_keys_cancel(y: int, dt: int, screen_h: u32)
    ensures
        racket_y(y, true, true, dt, screen_h) == racket_y(y, false, false, dt, screen_h),
{
}

/// In a frame that takes no time a racket keeps its height, whatever keys are
/// held, except that one off the screen is brought back to the nearer edge.
pub proof fn lemma_still_frame_racket_rests(y: int, up: bool, down: bool, screen_h: u32)
    ensures
        racket_y(y, up, down, 0, screen_h) == clamped(y, racket_top(), racket_bottom(screen_h)),
{
}

} // verus!
