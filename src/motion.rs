use vstd::prelude::*;

verus! {

/// How fast the road and the obstacles move left, in pixels per second.
pub const ROAD_SPEED: i64 = 300;

/// How fast the player moves up or down, in pixels per second.
pub const MOVEMENT_SPEED: i64 = 150;

/// The largest window side, in milli-pixels.
pub const MAX_EXTENT: i64 = 1099511627776;

/// The largest distance of a sprite from the centre, in milli-pixels.
pub const MAX_COORD: i64 = 1152921504606846976;

/// The largest distance covered in one frame, in milli-pixels: the road's
/// speed over the longest elapsed time a `u64` can hold.
pub const MAX_TRAVEL: i64 = 5534023222112865484;

/// The tilt of the player's car.
#[derive(Clone, Copy, Debug, PartialEq, Eq, Structural)]
pub enum Tilt {
    Level,
    Up,
    Down,
}

/// Milli-pixels covered at `speed` pixels per second in `micros` microseconds,
/// rounded down.
pub open spec fn travel_spec(speed: int, micros: int) -> int {
    speed * micros / 1000
}

/// A coordinate that the frame rules accept.
pub open spec fn coord_ok(v: int) -> bool {
    -MAX_COORD <= v <= MAX_COORD
}

/// A window side that the frame rules accept.
pub open spec fn extent_ok(v: int) -> bool {
    2 <= v <= MAX_EXTENT
}

/// A point at `x` has reached the left edge, at minus half the width.
pub open spec fn at_left_edge(x: int, width: int) -> bool {
    2 * x <= -width
}

/// A roadline's new x: moved left by `dx`, and carried one window width to
/// the right once it reaches the left edge.
pub open spec fn roadline_x(x: int, dx: int, width: int) -> int {
    if at_left_edge(x - dx, width) {
        x - dx + width
    } else {
        x - dx
    }
}

/// An obstacle moved left by `dx` has reached the left edge.
pub open spec fn obstacle_expired(x: int, dx: int, width: int) -> bool {
    at_left_edge(x - dx, width)
}

/// The "up" move applies: the key is held and the car is not above the top half.
pub open spec fn climbs(y: int, up: bool, height: int) -> bool {
    up && y <= height / 2
}

/// The player's y after the "up" move.
pub open spec fn after_up(y: int, up: bool, step: int, height: int) -> int {
    if climbs(y, up, height) {
        y + step
    } else {
        y
    }
}

/// The "down" move applies, judged on the y left by the "up" move.
pub open spec fn dives(y: int, up: bool, down: bool, step: int, height: int) -> bool {
    down && after_up(y, up, step, height) >= -(height / 2)
}

/// The player's y after a frame of steering.
pub open spec fn steered_y(y: int, up: bool, down: bool, step: int, height: int) -> int {
    if dives(y, up, down, step, height) {
        after_up(y, up, step, height) - step
    } else {
        after_up(y, up, step, height)
    }
}

/// The player's tilt after a frame of steering: level, unless a move
/// applied; "down" wins when both did.
pub open spec fn steered_tilt(y: int, up: bool, down: bool, step: int, height: int) -> Tilt {
    if dives(y, up, down, step, height) {
        Tilt::Down
    } else if climbs(y, up, height) {
        Tilt::Up
    } else {
        Tilt::Level
    }
}

/// Distance covered in one frame, in milli-pixels.
pub fn travel(speed: i64, micros: u64) -> (r: i64)
    requires
        0 <= speed <= ROAD_SPEED,
    ensures
        r == travel_spec(speed as int, micros as int),
        0 <= r <= MAX_TRAVEL,
{
    assert(0 <= speed * micros <= ROAD_SPEED * 18446744073709551615) by (nonlinear_arith)
        requires
            0 <= speed <= ROAD_SPEED,
            0 <= micros <= 18446744073709551615,
    ;
    assert(speed * micros / 1000 <= ROAD_SPEED * 18446744073709551615 / 1000) by (nonlinear_arith)
        requires
            0 <= speed * micros <= ROAD_SPEED * 18446744073709551615,
    ;
    let wide = (speed as u128) * (micros as u128);
    (wide / 1000) as i64
}

/// A roadline's x after a frame in which the road moved `dx` to the left.
pub fn scroll_roadline(x: i64, dx: i64, width: i64) -> (r: i64)
    requires
        coord_ok(x as int),
        0 <= dx <= MAX_TRAVEL,
        extent_ok(width as int),
    ensures
        r == roadline_x(x as int, dx as int, width as int),
        2 * (x - dx) <= -width ==> r == x - dx + width,
        2 * (x - dx) > -width ==> r == x - dx,
{
    let moved = x - dx;
    // the left-edge test `2 * moved <= -width`, kept within `i64`
    if moved <= -width - moved {
        moved + width
    } else {
        moved
    }
}

/// The player's y and tilt after a frame of steering with the given keys
/// held, where one move covers `step`.
pub fn steer(y: i64, up: bool, down: bool, step: i64, height: i64) -> (r: (i64, Tilt))
    requires
        coord_ok(y as int),
        0 <= step <= MAX_TRAVEL,
        extent_ok(height as int),
    ensures
        r.0 == steered_y(y as int, up, down, step as int, height as int),
        r.1 == steered_tilt(y as int, up, down, step as int, height as int),
{
    let mut y1 = y;
    let mut tilt = Tilt::Level;
    if up && y1 <= height / 2 {
        y1 = y1 + step;
        tilt = Tilt::Up;
    }
    if down && y1 >= -(height / 2) {
        y1 = y1 - step;
        tilt = Tilt::Down;
    }
    (y1, tilt)
}

} // verus!
