//! Arena geometry: four wall segments computed from boundary constants.
//!
//! The arena is the axis-aligned rectangle between the four boundary
//! coordinates. Each wall is a thin segment centred on its boundary line;
//! its length exceeds the arena side by one wall thickness so that the
//! corners of adjacent walls overlap and the rectangle is sealed.

use vstd::prelude::*;

verus! {

/// Milli-units per world unit: all coordinates are integers at this scale.
pub const MILLI: i64 = 1000;

/// Wall thickness, in milli-units (10 world units).
pub const WALL_THICKNESS: i64 = 10_000;
/// x coordinate of the left boundary, in milli-units (-450 world units).
pub const LEFT_WALL: i64 = -450_000;
/// x coordinate of the right boundary, in milli-units (450 world units).
pub const RIGHT_WALL: i64 = 450_000;
/// y coordinate of the bottom boundary, in milli-units (-300 world units).
pub const BOTTOM_WALL: i64 = -300_000;
/// y coordinate of the top boundary, in milli-units (300 world units).
pub const TOP_WALL: i64 = 300_000;

/// Coordinate magnitudes are kept below this bound so that the derived
/// sizes and the motion arithmetic stay far from `i64` overflow.
pub const COORD_LIMIT: i64 = 1_000_000_000;

/// A two-dimensional vector in milli-units.
#[derive(Clone, Copy, Debug, PartialEq, Eq, Structural)]
pub struct Vec2 {
    pub x: i64,
    pub y: i64,
}

/// The four boundary lines of the arena plus the wall thickness,
/// in milli-units.
#[derive(Clone, Copy, Debug, PartialEq, Eq, Structural)]
pub struct ArenaBounds {
    pub left: i64,
    pub right: i64,
    pub bottom: i64,
    pub top: i64,
    pub thickness: i64,
}

impl ArenaBounds {
    /// A configuration is valid when the arena has strictly positive
    /// width and height, the walls have strictly positive thickness,
    /// and every length stays within the coordinate limit.
    pub open spec fn wf(self) -> bool {
        &&& self.left < self.right
        &&& self.bottom < self.top
        &&& 0 < self.thickness
        &&& -COORD_LIMIT < self.left
        &&& self.right < COORD_LIMIT
        &&& -COORD_LIMIT < self.bottom
        &&& self.top < COORD_LIMIT
        &&& self.thickness < COORD_LIMIT
    }

    /// Runtime check of `wf`, for callers that receive an unvalidated
    /// configuration. A configuration that fails this check is a fatal
    /// startup error for the surrounding application.
    pub fn is_valid(&self) -> (r: bool)
        ensures
            r == self.wf(),
    {
        self.left < self.right
            && self.bottom < self.top
            && 0 < self.thickness
            && -COORD_LIMIT < self.left
            && self.right < COORD_LIMIT
            && -COORD_LIMIT < self.bottom
            && self.top < COORD_LIMIT
            && self.thickness < COORD_LIMIT
    }

    /// The default arena used by the game.
    pub fn standard() -> (b: ArenaBounds)
        ensures
            b == standard_bounds(),
            b.wf(),
    {
        ArenaBounds {
            left: LEFT_WALL,
            right: RIGHT_WALL,
            bottom: BOTTOM_WALL,
            top: TOP_WALL,
            thickness: WALL_THICKNESS,
        }
    }

    pub open spec fn arena_width(self) -> int {
        self.right - self.left
    }

    pub open spec fn arena_height(self) -> int {
        self.top - self.bottom
    }
}

pub open spec fn standard_bounds() -> ArenaBounds {
    ArenaBounds {
        left: LEFT_WALL,
        right: RIGHT_WALL,
        bottom: BOTTOM_WALL,
        top: TOP_WALL,
        thickness: WALL_THICKNESS,
    }
}

/// Identifies one of the four walls enclosing the arena.
#[derive(Clone, Copy, Debug, PartialEq, Eq, Structural)]
pub enum WallLocation {
    Left,
    Right,
    Bottom,
    Top,
}

/// Centre of the given wall: vertical walls sit on their boundary's x
/// coordinate at y = 0, horizontal walls at x = 0 on their boundary's
/// y coordinate.
pub open spec fn wall_position_spec(w: WallLocation, b: ArenaBounds) -> (int, int) {
    match w {
        WallLocation::Left => (b.left as int, 0int),
        WallLocation::Right => (b.right as int, 0int),
        WallLocation::Bottom => (0int, b.bottom as int),
        WallLocation::Top => (0int, b.top as int),
    }
}

/// Size of the given wall: the long side spans the arena plus one
/// thickness (sealing the corners), the short side is the thickness.
pub open spec fn wall_size_spec(w: WallLocation, b: ArenaBounds) -> (int, int) {
    match w {
        WallLocation::Left | WallLocation::Right => (
            b.thickness as int,
            b.arena_height() + b.thickness,
        ),
        WallLocation::Bottom | WallLocation::Top => (
            b.arena_width() + b.thickness,
            b.thickness as int,
        ),
    }
}

impl WallLocation {
    /// Centre position of this wall within the given arena.
    pub fn position(&self, b: &ArenaBounds) -> (p: Vec2)
        requires
            b.wf(),
        ensures
            (p.x as int, p.y as int) == wall_position_spec(*self, *b),
    {
        match self {
            WallLocation::Left => Vec2 { x: b.left, y: 0 },
            WallLocation::Right => Vec2 { x: b.right, y: 0 },
            WallLocation::Bottom => Vec2 { x: 0, y: b.bottom },
            WallLocation::Top => Vec2 { x: 0, y: b.top },
        }
    }

    /// Extent of this wall within the given arena.
    pub fn size(&self, b: &ArenaBounds) -> (s: Vec2)
        requires
            b.wf(),
        ensures
            (s.x as int, s.y as int) == wall_size_spec(*self, *b),
            s.x > 0,
            s.y > 0,
    {
        let arena_width = b.right - b.left;
        let arena_height = b.top - b.bottom;
        match self {
            WallLocation::Left | WallLocation::Right => Vec2 {
                x: b.thickness,
                y: arena_height + b.thickness,
            },
            WallLocation::Bottom | WallLocation::Top => Vec2 {
                x: arena_width + b.thickness,
                y: b.thickness,
            },
        }
    }
}

/// Every wall of a valid arena has strictly positive width and height.
pub proof fn lemma_wall_sizes_positive(w: WallLocation, b: ArenaBounds)
    requires
        b.wf(),
    ensures
        wall_size_spec(w, b).0 > 0,
        wall_size_spec(w, b).1 > 0,
{
}

/// Opposite walls are separated by exactly the distance between their
/// boundary lines: the right wall's centre lies `right - left` to the
/// right of the left wall's, and the top wall's centre `top - bottom`
/// above the bottom wall's.
pub proof fn lemma_opposite_wall_separation(b: ArenaBounds)
    requires
        b.wf(),
    ensures
        wall_position_spec(WallLocation::Right, b).0 - wall_position_spec(
            WallLocation::Left,
            b,
        ).0 == b.arena_width(),
        wall_position_spec(WallLocation::Top, b).1 - wall_position_spec(
            WallLocation::Bottom,
            b,
        ).1 == b.arena_height(),
        b.arena_width() > 0,
        b.arena_height() > 0,
{
}

/// Lowest x coordinate covered by the wall, doubled (doubling keeps the
/// half-thickness offsets integral).
pub open spec fn wall_min_x2(w: WallLocation, b: ArenaBounds) -> int {
    2 * wall_position_spec(w, b).0 - wall_size_spec(w, b).0
}

/// Highest x coordinate covered by the wall, doubled.
pub open spec fn wall_max_x2(w: WallLocation, b: ArenaBounds) -> int {
    2 * wall_position_spec(w, b).0 + wall_size_spec(w, b).0
}

/// Lowest y coordinate covered by the wall, doubled.
pub open spec fn wall_min_y2(w: WallLocation, b: ArenaBounds) -> int {
    2 * wall_position_spec(w, b).1 - wall_size_spec(w, b).1
}

/// Highest y coordinate covered by the wall, doubled.
pub open spec fn wall_max_y2(w: WallLocation, b: ArenaBounds) -> int {
    2 * wall_position_spec(w, b).1 + wall_size_spec(w, b).1
}

/// In an origin-centred arena the horizontal and vertical walls overlap
/// at each corner in a square region whose side equals the wall
/// thickness, so the enclosure has no gaps for any positive thickness.
/// (When the arena is not centred on the origin the wall centres, which
/// sit on the coordinate axes, do not line up with the corners, so the
/// overlap claim is stated for the centred case that the game uses.)
pub proof fn lemma_corner_overlap(b: ArenaBounds)
    requires
        b.wf(),
        b.left == -b.right,
        b.bottom == -b.top,
    ensures
        // Along x, the top wall reaches past both edges of each vertical wall.
        wall_min_x2(WallLocation::Top, b) == wall_min_x2(WallLocation::Left, b),
        wall_max_x2(WallLocation::Left, b) - wall_min_x2(WallLocation::Top, b) == 2
            * b.thickness,
        wall_max_x2(WallLocation::Top, b) == wall_max_x2(WallLocation::Right, b),
        // Along y, each vertical wall reaches past both edges of the top wall.
        wall_max_y2(WallLocation::Left, b) - wall_min_y2(WallLocation::Top, b) == 2
            * b.thickness,
        // The shared region is nonempty because the thickness is positive.
        2 * b.thickness > 0,
{
}

} // verus!

