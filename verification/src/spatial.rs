//! Positions and directions on the terminal grid.
//!
//! [`Vec2`] is a two-dimensional integer vector, used both as a position
//! (a point on the grid, origin at the top-left corner, `y` growing
//! downwards) and as a size. [`Direction`] names the four axis directions
//! plus a neutral `Still` value.

use vstd::prelude::*;

verus! {

/// A two-dimensional spatial vector with integer components.
#[derive(Debug, Clone, Copy, PartialEq, Eq, Hash, Structural)]
pub struct Vec2 {
    pub x: i32,
    pub y: i32,
}

impl Vec2 {
    /// The vector (0, 0).
    pub fn zero() -> (r: Vec2)
        ensures
            r.x == 0 && r.y == 0,
    {
        Vec2 { x: 0, y: 0 }
    }

    /// The vector with the given components.
    pub fn xy(x: i32, y: i32) -> (r: Vec2)
        ensures
            r.x == x && r.y == y,
    {
        Vec2 { x, y }
    }

    /// The vector (x, 0).
    pub fn x(x: i32) -> (r: Vec2)
        ensures
            r.x == x && r.y == 0,
    {
        Vec2 { x, y: 0 }
    }

    /// The vector (0, y).
    pub fn y(y: i32) -> (r: Vec2)
        ensures
            r.x == 0 && r.y == y,
    {
        Vec2 { x: 0, y }
    }

    /// Resets both components to 0.
    pub fn clear(&mut self)
        ensures
            final(self).x == 0 && final(self).y == 0,
    {
        self.x = 0;
        self.y = 0;
    }

    /// Componentwise sum.
    pub fn plus(self, other: Vec2) -> (r: Vec2)
        requires
            i32::MIN <= self.x + other.x <= i32::MAX,
            i32::MIN <= self.y + other.y <= i32::MAX,
        ensures
            r.x == self.x + other.x,
            r.y == self.y + other.y,
    {
        Vec2 { x: self.x + other.x, y: self.y + other.y }
    }

    /// Componentwise difference.
    pub fn minus(self, other: Vec2) -> (r: Vec2)
        requires
            i32::MIN <= self.x - other.x <= i32::MAX,
            i32::MIN <= self.y - other.y <= i32::MAX,
        ensures
            r.x == self.x - other.x,
            r.y == self.y - other.y,
    {
        Vec2 { x: self.x - other.x, y: self.y - other.y }
    }

    /// Componentwise negation.
    pub fn negate(self) -> (r: Vec2)
        requires
            self.x > i32::MIN,
            self.y > i32::MIN,
        ensures
            r.x == -self.x,
            r.y == -self.y,
    {
        Vec2 { x: -self.x, y: -self.y }
    }

    /// Both components scaled by `scalar`.
    pub fn times(self, scalar: i32) -> (r: Vec2)
        requires
            i32::MIN <= self.x * scalar <= i32::MAX,
            i32::MIN <= self.y * scalar <= i32::MAX,
        ensures
            r.x == self.x * scalar,
            r.y == self.y * scalar,
    {
        Vec2 { x: self.x * scalar, y: self.y * scalar }
    }

    /// Both components divided by `scalar`, rounding toward zero. A zero
    /// divisor is excluded, as is the one quotient that does not fit the
    /// component type.
    pub fn divided_by(self, scalar: i32) -> (r: Vec2)
        requires
            scalar != 0,
            !(self.x == i32::MIN && scalar == -1),
            !(self.y == i32::MIN && scalar == -1),
        ensures
            r.x == spec_div_trunc(self.x as int, scalar as int),
            r.y == spec_div_trunc(self.y as int, scalar as int),
    {
        Vec2 { x: div_trunc(self.x, scalar), y: div_trunc(self.y, scalar) }
    }
}

/// Truncating division, as the component type's division computes it: the
/// quotient of the magnitudes, negated when exactly one operand is
/// negative.
pub open spec fn spec_div_trunc(a: int, b: int) -> int {
    let q = (if a >= 0 {
        a
    } else {
        -a
    }) / (if b >= 0 {
        b
    } else {
        -b
    });
    if (a >= 0) == (b >= 0) {
        q
    } else {
        -q
    }
}

/// Truncating component division: exactly [`spec_div_trunc`].
fn div_trunc(a: i32, b: i32) -> (r: i32)
    requires
        b != 0,
        !(a == i32::MIN && b == -1),
    ensures
        r == spec_div_trunc(a as int, b as int),
{
    let wide_a: i64 = a as i64;
    let wide_b: i64 = b as i64;
    let mag_a: i64 = if wide_a < 0 {
        -wide_a
    } else {
        wide_a
    };
    let mag_b: i64 = if wide_b < 0 {
        -wide_b
    } else {
        wide_b
    };
    let q: i64 = mag_a / mag_b;
    proof {
        vstd::arithmetic::div_mod::lemma_div_basics_4(mag_a as int, mag_b as int);
        vstd::arithmetic::div_mod::lemma_div_basics_5(mag_a as int, mag_b as int);
        if mag_a == 0x8000_0000 {
            if mag_b == 1 {
                vstd::arithmetic::div_mod::lemma_div_basics_2(mag_a as int);
            } else {
                vstd::arithmetic::div_mod::lemma_div_is_ordered_by_denominator(
                    mag_a as int,
                    2,
                    mag_b as int,
                );
                assert(0x8000_0000int / 2 == 0x4000_0000int);
            }
        }
    }
    let signed: i64 = if (a >= 0) == (b >= 0) {
        q
    } else {
        -q
    };
    signed as i32
}

/// The relative directions in a two-dimensional coordinate system.
#[derive(Debug, Clone, Copy, PartialEq, Eq, Hash, Structural)]
pub enum Direction {
    Up,
    Down,
    Right,
    Left,
    Still,
}

impl Direction {
    /// The opposite direction; `Still` maps to `Still`.
    pub fn opposite(&self) -> (r: Direction)
        ensures
            r == (match *self {
                Direction::Up => Direction::Down,
                Direction::Down => Direction::Up,
                Direction::Right => Direction::Left,
                Direction::Left => Direction::Right,
                Direction::Still => Direction::Still,
            }),
    {
        match *self {
            Direction::Up => Direction::Down,
            Direction::Down => Direction::Up,
            Direction::Right => Direction::Left,
            Direction::Left => Direction::Right,
            Direction::Still => Direction::Still,
        }
    }

    /// The unit vector a direction converts to: terminal coordinates grow
    /// downwards, so `Up` is (0, -1) and `Down` is (0, 1).
    pub open spec fn to_vec2(self) -> Vec2 {
        match self {
            Direction::Up => Vec2 { x: 0, y: -1i32 },
            Direction::Down => Vec2 { x: 0, y: 1 },
            Direction::Right => Vec2 { x: 1, y: 0 },
            Direction::Left => Vec2 { x: -1i32, y: 0 },
            Direction::Still => Vec2 { x: 0, y: 0 },
        }
    }

    /// Classifies a vector as a direction: a vector on one axis maps to the
    /// direction it points in, the zero vector maps to `Still`, and any other
    /// (non-orthogonal) vector is rejected.
    pub fn try_from_vec2(value: Vec2) -> (r: Result<Direction, TryFromVec2Error>)
        ensures
            value.x < 0 && value.y == 0 ==> r == Ok::<Direction, TryFromVec2Error>(Direction::Left),
            value.x > 0 && value.y == 0 ==> r == Ok::<Direction, TryFromVec2Error>(Direction::Right),
            value.x == 0 && value.y > 0 ==> r == Ok::<Direction, TryFromVec2Error>(Direction::Down),
            value.x == 0 && value.y < 0 ==> r == Ok::<Direction, TryFromVec2Error>(Direction::Up),
            value.x == 0 && value.y == 0 ==> r == Ok::<Direction, TryFromVec2Error>(Direction::Still),
            value.x != 0 && value.y != 0 ==> r == Err::<Direction, TryFromVec2Error>(
                TryFromVec2Error { value },
            ),
    {
        if value.x < 0 && value.y == 0 {
            Ok(Direction::Left)
        } else if value.x > 0 && value.y == 0 {
            Ok(Direction::Right)
        } else if value.x == 0 && value.y > 0 {
            Ok(Direction::Down)
        } else if value.x == 0 && value.y < 0 {
            Ok(Direction::Up)
        } else if value.x == 0 && value.y == 0 {
            Ok(Direction::Still)
        } else {
            Err(TryFromVec2Error { value })
        }
    }
}

impl From<Direction> for Vec2 {
    /// Converts a direction to the unit vector pointing that way;
    /// `Direction::Still` converts to the zero vector.
    fn from(value: Direction) -> (r: Vec2)
        ensures
            r == value.to_vec2(),
    {
        match value {
            Direction::Up => Vec2 { x: 0, y: -1 },
            Direction::Down => Vec2 { x: 0, y: 1 },
            Direction::Right => Vec2 { x: 1, y: 0 },
            Direction::Left => Vec2 { x: -1, y: 0 },
            Direction::Still => Vec2 { x: 0, y: 0 },
        }
    }
}

impl vstd::std_specs::convert::FromSpecImpl<Direction> for Vec2 {
    open spec fn obeys_from_spec() -> bool {
        true
    }

    open spec fn from_spec(value: Direction) -> Vec2 {
        value.to_vec2()
    }
}

/// The error returned when a non-orthogonal vector is classified as a
/// direction.
#[derive(Debug, Clone, Copy, PartialEq, Eq, Structural)]
pub struct TryFromVec2Error {
    pub value: Vec2,
}

} // verus!
