//! Room positions, held by their packed integer representation, and the
//! distance tests that the bot makes on them.
use vstd::prelude::*;

verus! {

/// In-room x coordinate stored in a packed position.
pub open spec fn packed_x(packed: u32) -> int {
    ((packed >> 8u32) & 0xFFu32) as int
}

/// In-room y coordinate stored in a packed position.
pub open spec fn packed_y(packed: u32) -> int {
    (packed & 0xFFu32) as int
}

/// Room part (room x and room y bytes) of a packed position.
pub open spec fn packed_room(packed: u32) -> int {
    (packed >> 16u32) as int
}

/// Horizontal world coordinate: `50 * room_x + x`, where the packed room x
/// byte holds `room_x + 128`.
pub open spec fn world_x(packed: u32) -> int {
    50 * (((packed >> 24u32) & 0xFFu32) as int - 128) + packed_x(packed)
}

/// Vertical world coordinate: `50 * room_y + y`, where the packed room y
/// byte holds `room_y + 128`.
pub open spec fn world_y(packed: u32) -> int {
    50 * (((packed >> 16u32) & 0xFFu32) as int - 128) + packed_y(packed)
}

pub open spec fn abs_int(v: int) -> int {
    if v < 0 { -v } else { v }
}

/// Linear (Chebyshev) range between two packed positions, in world coordinates.
pub open spec fn linear_range(a: u32, b: u32) -> int {
    let dx = abs_int(world_x(a) - world_x(b));
    let dy = abs_int(world_y(a) - world_y(b));
    if dx >= dy { dx } else { dy }
}

/// Same room, and at most one tile apart along each axis.
pub open spec fn near(a: u32, b: u32) -> bool {
    &&& packed_room(a) == packed_room(b)
    &&& abs_int(packed_x(a) - packed_x(b)) <= 1
    &&& abs_int(packed_y(a) - packed_y(b)) <= 1
}

/// A position in the game world, in the packed form that the game engine uses:
/// from the highest byte down, room x + 128, room y + 128, x, y.
/// The in-room coordinates are always below 50, so rebuilding a
/// `screeps::Position` from the packed form (whose `from_packed` panics on
/// coordinates of 50 or more) never panics.
#[derive(Clone, Copy, Debug, PartialEq, Eq, Hash, Structural)]
pub struct Pos {
    packed: u32,
}

impl Pos {
    #[verifier::type_invariant]
    pub closed spec fn inv(self) -> bool {
        packed_x(self.packed) < 50 && packed_y(self.packed) < 50
    }

    /// Builds a position from its packed form; `None` when the in-room
    /// coordinates are out of the room (50 by 50 tiles).
    pub fn from_packed(packed: u32) -> (r: Option<Pos>)
        ensures
            r is Some <==> (packed_x(packed) < 50 && packed_y(packed) < 50),
            r matches Some(p) ==> p@ == packed,
    {
        let x: u32 = (packed >> 8u32) & 0xFFu32;
        let y: u32 = packed & 0xFFu32;
        if x < 50 && y < 50 {
            Some(Pos { packed })
        } else {
            None
        }
    }

    /// The packed form.
    pub fn packed(&self) -> (r: u32)
        ensures
            r == self@,
    {
        self.packed
    }
}

impl View for Pos {
    type V = u32;

    closed spec fn view(&self) -> u32 {
        self.packed
    }
}

/// In-room x coordinate, through `screeps::Position::x`. The contract claims
/// that it reads the second-lowest byte of the packed form, as the layout
/// documented on `screeps::Position` says.
#[verifier::external_body]
pub(crate) fn pos_x(p: Pos) -> (r: u8)
    ensures
        r == packed_x(p@),
{
    u8::from(screeps::Position::from_packed(p.packed).x())
}

/// In-room y coordinate, through `screeps::Position::y`. The contract claims
/// that it reads the lowest byte of the packed form.
#[verifier::external_body]
pub(crate) fn pos_y(p: Pos) -> (r: u8)
    ensures
        r == packed_y(p@),
{
    u8::from(screeps::Position::from_packed(p.packed).y())
}

/// `screeps::Position::in_range_to`: the contract claims that the result
/// tells whether the linear range in world coordinates, the larger of the
/// two axis distances, is at most `range`.
#[verifier::external_body]
pub(crate) fn pos_in_range_to(a: Pos, b: Pos, range: u32) -> (r: bool)
    ensures
        r == (linear_range(a@, b@) <= range),
{
    screeps::Position::from_packed(a.packed).in_range_to(screeps::Position::from_packed(b.packed), range)
}

/// `screeps::Position::is_near_to`: the contract claims that the result
/// tells whether both positions are in the same room and at most one tile
/// apart along each axis.
#[verifier::external_body]
pub(crate) fn pos_is_near_to(a: Pos, b: Pos) -> (r: bool)
    ensures
        r == near(a@, b@),
{
    screeps::Position::from_packed(a.packed).is_near_to(screeps::Position::from_packed(b.packed))
}

} // verus!
