//! Screen geometry shared by the whole crate.

use vstd::prelude::*;

verus! {

/// Width of the virtual screen.
pub const VIRTUAL_WIDTH: i64 = 320_000;

/// Height of the virtual screen.
pub const VIRTUAL_HEIGHT: i64 = 240_000;

/// No coordinate of the play field lies further from the origin than this.
pub const COORD_LIMIT: i64 = 1_099_511_627_776;

/// No two things touch from further apart than this.
pub const REACH_LIMIT: i64 = 8_589_934_592;

/// A point of the play field: origin at the centre of the screen, `y` upwards.
#[derive(Debug, Clone, Copy, PartialEq, Eq, Structural)]
pub struct Vec2 {
    pub x: i64,
    pub y: i64,
}

impl Vec2 {
    /// Both coordinates lie within the limit.
    pub open spec fn in_range(self) -> bool {
        &&& -COORD_LIMIT <= self.x <= COORD_LIMIT
        &&& -COORD_LIMIT <= self.y <= COORD_LIMIT
    }

    /// Tells whether both coordinates lie within the limit.
    pub fn check(&self) -> (ok: bool)
        ensures
            ok == self.in_range(),
    {
        -COORD_LIMIT <= self.x && self.x <= COORD_LIMIT && -COORD_LIMIT <= self.y && self.y
            <= COORD_LIMIT
    }
}

/// Converts screen coordinates (origin top left, `y` downwards) to play-field
/// coordinates (origin at the centre, `y` upwards).
pub fn love_to_bevy_coords(x: i32, y: i32) -> (p: Vec2)
    ensures
        p.x == x - VIRTUAL_WIDTH / 2,
        p.y == VIRTUAL_HEIGHT / 2 - y,
        p.in_range(),
{
    Vec2 { x: x as i64 - VIRTUAL_WIDTH / 2, y: VIRTUAL_HEIGHT / 2 - y as i64 }
}

/// The square of the distance between two points.
pub open spec fn distance_squared(p: Vec2, q: Vec2) -> int {
    (p.x - q.x) * (p.x - q.x) + (p.y - q.y) * (p.y - q.y)
}

/// Two points are closer to each other than `reach`.
pub open spec fn spec_within(p: Vec2, q: Vec2, reach: int) -> bool {
    distance_squared(p, q) < reach * reach
}

/// Tells whether two points are closer to each other than `reach`.
pub fn within(p: Vec2, q: Vec2, reach: i64) -> (near: bool)
    requires
        p.in_range(),
        q.in_range(),
        0 <= reach <= REACH_LIMIT,
    ensures
        near == spec_within(p, q, reach as int),
{
    let dx: i128 = p.x as i128 - q.x as i128;
    let dy: i128 = p.y as i128 - q.y as i128;
    let r: i128 = reach as i128;
    assert(0 <= dx * dx <= 4_835_703_278_458_516_698_824_704) by (nonlinear_arith)
        requires
            -2_199_023_255_552 <= dx <= 2_199_023_255_552,
    ;
    assert(0 <= dy * dy <= 4_835_703_278_458_516_698_824_704) by (nonlinear_arith)
        requires
            -2_199_023_255_552 <= dy <= 2_199_023_255_552,
    ;
    assert(0 <= r * r <= 73_786_976_294_838_206_464) by (nonlinear_arith)
        requires
            0 <= r <= 8_589_934_592,
    ;
    dx * dx + dy * dy < r * r
}

} // verus!
