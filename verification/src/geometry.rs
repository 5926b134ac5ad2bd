use vstd::prelude::*;

verus! {

/// Fixed-point units per logical pixel: pointer coordinates carry
/// 1/256-pixel resolution, window positions are whole pixels.
pub const SUBPIXEL: i64 = 256;

/// Largest magnitude a whole-pixel coordinate may take. Keeping stored
/// positions inside this bound makes every coordinate computation below
/// (differences of fixed-point values, pixel-to-fixed-point conversion)
/// fit comfortably in an `i64`.
pub const COORD_LIMIT: i64 = 0x1000000000000;

/// A position in whole logical pixels.
#[derive(Clone, Copy, PartialEq, Eq, Structural, Debug)]
pub struct Point {
    pub x: i64,
    pub y: i64,
}

/// A position in 1/256-pixel fixed-point units (the pointer location).
#[derive(Clone, Copy, PartialEq, Eq, Structural, Debug)]
pub struct SubPoint {
    pub x: i64,
    pub y: i64,
}

pub open spec fn valid_coord(v: i64) -> bool {
    -COORD_LIMIT <= v <= COORD_LIMIT
}

pub open spec fn valid_point(p: Point) -> bool {
    valid_coord(p.x) && valid_coord(p.y)
}

pub open spec fn valid_sub_coord(v: i64) -> bool {
    -COORD_LIMIT * SUBPIXEL <= v <= COORD_LIMIT * SUBPIXEL
}

pub open spec fn valid_sub_point(p: SubPoint) -> bool {
    valid_sub_coord(p.x) && valid_sub_coord(p.y)
}

/// Round a fixed-point value to the nearest whole pixel, with halves
/// rounded away from zero.
pub open spec fn round_near(n: int) -> int {
    if n >= 0 {
        (n + 128) / 256
    } else {
        -((-n + 128) / 256)
    }
}

/// Saturate a pixel coordinate into the representable range.
pub open spec fn clamp_spec(v: int) -> int {
    if v < -COORD_LIMIT {
        -(COORD_LIMIT as int)
    } else if v > COORD_LIMIT {
        COORD_LIMIT as int
    } else {
        v
    }
}

pub fn round_to_coord(n: i64) -> (r: i64)
    requires
        -0x4000000000000000 <= n <= 0x4000000000000000,
    ensures
        r == round_near(n as int),
{
    if n >= 0 {
        (n + 128) / 256
    } else {
        -((-n + 128) / 256)
    }
}

pub fn clamp_coord(v: i64) -> (r: i64)
    ensures
        r == clamp_spec(v as int),
        valid_coord(r),
{
    if v < -COORD_LIMIT {
        -COORD_LIMIT
    } else if v > COORD_LIMIT {
        COORD_LIMIT
    } else {
        v
    }
}

impl Point {
    /// Accepts a pixel position only when both coordinates are representable.
    pub fn checked(x: i64, y: i64) -> (r: Option<Point>)
        ensures
            match r {
                Some(p) => p.x == x && p.y == y && valid_point(p),
                None => !(valid_coord(x) && valid_coord(y)),
            },
    {
        if -COORD_LIMIT <= x && x <= COORD_LIMIT && -COORD_LIMIT <= y && y <= COORD_LIMIT {
            Some(Point { x, y })
        } else {
            None
        }
    }
}

impl SubPoint {
    /// Accepts a fixed-point position only when both coordinates are
    /// representable.
    pub fn checked(x: i64, y: i64) -> (r: Option<SubPoint>)
        ensures
            match r {
                Some(p) => p.x == x && p.y == y && valid_sub_point(p),
                None => !(valid_sub_coord(x) && valid_sub_coord(y)),
            },
    {
        let limit: i64 = COORD_LIMIT * SUBPIXEL;
        if -limit <= x && x <= limit && -limit <= y && y <= limit {
            Some(SubPoint { x, y })
        } else {
            None
        }
    }
}

} // verus!
