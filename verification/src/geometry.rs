//! World coordinates and the two distance notions the colony uses.
use vstd::prelude::*;

verus! {

/// Lowest valid world coordinate (inclusive): 128 rooms of 50 tiles west or north of the origin.
pub const WORLD_MIN: i32 = -6400;

/// Highest valid world coordinate (exclusive).
pub const WORLD_END: i32 = 6400;

/// A tile given by its world coordinates: `50 * room_x + x` and `50 * room_y + y`.
#[derive(Clone, Copy, Debug, PartialEq, Eq, Structural)]
pub struct WorldPos {
    pub x: i32,
    pub y: i32,
}

impl WorldPos {
    /// The position lies inside the representable world.
    pub open spec fn valid(self) -> bool {
        WORLD_MIN <= self.x < WORLD_END && WORLD_MIN <= self.y < WORLD_END
    }
}

pub open spec fn abs_diff(a: i32, b: i32) -> int {
    if a >= b { a - b } else { b - a }
}

/// Room column (or row) of a world coordinate: rooms are 50 tiles wide.
pub open spec fn room_of(c: i32) -> int {
    (c as int) / 50
}

/// Two tiles are near when they are in the same room and at most one tile
/// apart along each axis.
pub open spec fn near(a: WorldPos, b: WorldPos) -> bool {
    &&& room_of(a.x) == room_of(b.x)
    &&& room_of(a.y) == room_of(b.y)
    &&& abs_diff(a.x, b.x) <= 1
    &&& abs_diff(a.y, b.y) <= 1
}

/// Linear (Chebyshev) range between two tiles, across room borders.
pub open spec fn range(a: WorldPos, b: WorldPos) -> int {
    let dx = abs_diff(a.x, b.x);
    let dy = abs_diff(a.y, b.y);
    if dx >= dy { dx } else { dy }
}

/// `screeps::Position::is_near_to` on the positions with the given world
/// coordinates. Claimed: the result is `near(a, b)`, i.e. same room name and
/// local coordinates at most one apart on each axis (the crate compares the
/// room names and the local `x`/`y`, which `from_world_coords` takes as the
/// quotient and remainder by 50 of the shifted world coordinate).
#[verifier::external_body]
pub fn is_near(a: WorldPos, b: WorldPos) -> (r: bool)
    requires
        a.valid(),
        b.valid(),
    ensures
        r == near(a, b),
{
    let pa = screeps::Position::from_world_coords(a.x, a.y);
    let pb = screeps::Position::from_world_coords(b.x, b.y);
    pa.is_near_to(pb)
}

/// `screeps::Position::get_range_to` on the positions with the given world
/// coordinates. Claimed: the result is the larger of the absolute world
/// coordinate differences, as the crate computes it from `Sub<Position>`.
#[verifier::external_body]
pub fn range_to(a: WorldPos, b: WorldPos) -> (r: u32)
    requires
        a.valid(),
        b.valid(),
    ensures
        r == range(a, b),
{
    let pa = screeps::Position::from_world_coords(a.x, a.y);
    let pb = screeps::Position::from_world_coords(b.x, b.y);
    pa.get_range_to(pb)
}

} // verus!
