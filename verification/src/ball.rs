//! The ball: straight-line flight, and the random direction of a serve.

use vstd::prelude::*;
use rand::Rng;
use crate::geometry::{Point, Vector};
use crate::units::{displace, displaced, BALL_SPEED};

verus! {

/// A speed along one axis with its direction chosen: kept as it is, or turned
/// round.
pub open spec fn oriented(speed: int, keep: bool) -> int {
    if keep {
        speed
    } else {
        -speed
    }
}

/// Whether `vel` is a serve: [`BALL_SPEED`] along each axis, towards either
/// side.
pub open spec fn is_serve(vel: Vector) -> bool {
    &&& (vel.x == BALL_SPEED || vel.x == -BALL_SPEED)
    &&& (vel.y == BALL_SPEED || vel.y == -BALL_SPEED)
}

/// Where a ball at `pos` flying at `vel` is after `dt` ticks.
pub open spec fn flown(pos: Point, vel: Vector, dt: u64) -> Point {
    Point {
        x: displaced(pos.x as int, vel.x as int, dt as int) as i64,
        y: displaced(pos.y as int, vel.y as int, dt as int) as i64,
    }
}

/// Tosses a coin that shows heads `numerator` times in `denominator`, with
/// `rand`'s thread-local generator and `Rng::gen_ratio`. That call panics on
/// a zero denominator and on a numerator above the denominator, so both are
/// left out. The outcome is left open: nothing is claimed of it.
#[verifier::external_body]
fn toss(numerator: u32, denominator: u32) -> (heads: bool)
    requires
        denominator != 0,
        numerator <= denominator,
{
    rand::thread_rng().gen_ratio(numerator, denominator)
}

/// Gives `speed` its direction: kept where `keep` holds, turned round
/// otherwise.
pub fn orient(speed: i32, keep: bool) -> (component: i64)
    ensures
        component == oriented(speed as int, keep),
{
    if keep {
        speed as i64
    } else {
        -(speed as i64)
    }
}

/// Sets `vec` to the speeds `x` and `y`, each kept or turned round as its
/// flag says.
pub fn orient_vec(vec: &mut Vector, x: i32, y: i32, keep_x: bool, keep_y: bool)
    ensures
        final(vec).x == oriented(x as int, keep_x),
        final(vec).y == oriented(y as int, keep_y),
{
    vec.x = orient(x, keep_x);
    vec.y = orient(y, keep_y);
}

/// Sets `vec` to the speeds `x` and `y`, each kept or turned round on the toss
/// of a fair coin, one toss for each axis. The speeds themselves are never
/// changed: only their signs are left to chance.
pub fn randomize_vec(vec: &mut Vector, x: i32, y: i32)
    ensures
        final(vec).x == x || final(vec).x == -x,
        final(vec).y == y || final(vec).y == -y,
        x == BALL_SPEED && y == BALL_SPEED ==> is_serve(*final(vec)),
{
    let keep_x = toss(1, 2);
    let keep_y = toss(1, 2);
    orient_vec(vec, x, y, keep_x, keep_y);
}

/// Lets the ball fly for `dt` ticks: each coordinate moves by the velocity
/// times the time, in one step, and stops at the end of the coordinate range.
/// Nothing is tested here against the edges of the screen.
pub fn integrate(pos: &mut Point, vel: Vector, dt: u64)
    ensures
        *final(pos) == flown(*old(pos), vel, dt),
        i64::MIN <= old(pos).x + vel.x * dt <= i64::MAX ==> final(pos).x == old(pos).x + vel.x * dt,
        i64::MIN <= old(pos).y + vel.y * dt <= i64::MAX ==> final(pos).y == old(pos).y + vel.y * dt,
{
    pos.x = displace(pos.x, vel.x, dt);
    pos.y = displace(pos.y, vel.y, dt);
}

/// Turning a speed round changes its sign and nothing else: the result is the
/// speed or its opposite, and its square is the speed's.
pub proof fn lemma_oriented_keeps_magnitude(speed: int, keep: bool)
    ensures
        oriented(speed, keep) == speed || oriented(speed, keep) == -speed,
        oriented(speed, keep) * oriented(speed, keep) == speed * speed,
        oriented(speed, keep) == speed <==> keep || speed == 0,
{
    assert((-speed) * (-speed) == speed * speed) by (nonlinear_arith);
}

/// A velocity made of [`BALL_SPEED`] along both axes is a serve, whichever
/// way it was turned.
pub proof fn lemma_oriented_ball_speed_is_serve(keep_x: bool, keep_y: bool)
    ensures
        is_serve(
            Vector {
                x: oriented(BALL_SPEED as int, keep_x) as i64,
                y: oriented(BALL_SPEED as int, keep_y) as i64,
            },
        ),
{
}

/// While the ball stays inside the coordinate range its flight is exact: the
/// new position is the old one plus velocity times time.
pub proof fn lemma_flight_is_exact(pos: Point, vel: Vector, dt: u64)
    requires
        i64::MIN <= pos.x + vel.x * dt <= i64::MAX,
        i64::MIN <= pos.y + vel.y * dt <= i64::MAX,
    ensures
        flown(pos, vel, dt).x == pos.x + vel.x * dt,
        flown(pos, vel, dt).y == pos.y + vel.y * dt,
{
}

/// A flight that takes no time leaves the ball where it was.
pub proof fn lemma_still_flight(pos: Point, vel: Vector)
    ensures
        flown(pos, vel, 0) == pos,
{
}

} // verus!
