//! Fixed-point geometry.
//!
//! Lengths are whole numbers of thousandths of a world unit, so every distance
//! comparison in the simulation is exact.

use vstd::prelude::*;

verus! {

/// How many length units make one world unit.
pub const UNITS_PER_WORLD_UNIT: u32 = 1000;

/// Largest magnitude of a [`Vector`] component for which squared distances
/// between two vectors still fit in 128 bits.
pub const VECTOR_REACH: i64 = 0x4000_0000_0000_0000;

/// Largest magnitude of a component of the sum of two positions.
pub const WORLD_REACH: i64 = 0x1_0000_0000;

/// A point of the world, in thousandths of a world unit.
#[derive(Clone, Copy, Debug, PartialEq, Eq, Structural)]
pub struct Position {
    pub x: i32,
    pub y: i32,
    pub z: i32,
}

/// A forward direction, in thousandths: a unit heading has a length of 1000.
#[derive(Clone, Copy, Debug, PartialEq, Eq, Structural)]
pub struct Heading {
    pub x: i16,
    pub y: i16,
    pub z: i16,
}

/// A displacement or a derived point, in thousandths of a world unit.
#[derive(Clone, Copy, Debug, PartialEq, Eq, Structural)]
pub struct Vector {
    pub x: i64,
    pub y: i64,
    pub z: i64,
}

/// The square of the Euclidean distance between two triples of coordinates.
pub open spec fn squared_distance(
    ax: int,
    ay: int,
    az: int,
    bx: int,
    by: int,
    bz: int,
) -> int {
    (ax - bx) * (ax - bx) + (ay - by) * (ay - by) + (az - bz) * (az - bz)
}

/// `r` is the integer square root of `n`: the largest number whose square
/// does not exceed `n`.
pub open spec fn is_integer_sqrt(n: int, r: int) -> bool {
    0 <= r && r * r <= n && n < (r + 1) * (r + 1)
}

/// The integer square root of `n`, for `n >= 0`.
pub open spec fn integer_sqrt(n: int) -> int {
    choose|r: int| is_integer_sqrt(n, r)
}

/// Division that rounds toward zero, for a positive divisor.
pub open spec fn quotient_toward_zero(numerator: int, divisor: int) -> int {
    if numerator >= 0 {
        numerator / divisor
    } else {
        -((-numerator) / divisor)
    }
}

/// Squares are monotone on the non-negative integers.
pub proof fn lemma_square_monotone(a: int, b: int)
    requires
        0 <= a <= b,
    ensures
        a * a <= b * b,
{
    assert(a * a <= b * b) by (nonlinear_arith)
        requires
            0 <= a <= b,
    ;
}

/// A number has at most one integer square root.
pub proof fn lemma_integer_sqrt_unique(n: int, r1: int, r2: int)
    requires
        is_integer_sqrt(n, r1),
        is_integer_sqrt(n, r2),
    ensures
        r1 == r2,
{
    if r1 < r2 {
        lemma_square_monotone(r1 + 1, r2);
    } else if r2 < r1 {
        lemma_square_monotone(r2 + 1, r1);
    }
}

/// Every non-negative number has an integer square root, and `integer_sqrt`
/// names it.
pub proof fn lemma_integer_sqrt_is(n: int, r: int)
    requires
        is_integer_sqrt(n, r),
    ensures
        integer_sqrt(n) == r,
{
    let chosen = integer_sqrt(n);
    lemma_integer_sqrt_unique(n, r, chosen);
}

impl Position {
    /// The point with the given coordinates.
    pub fn new(x: i32, y: i32, z: i32) -> (p: Position)
        ensures
            p == (Position { x, y, z }),
    {
        Position { x, y, z }
    }

    /// The square of the distance from `self` to `other`.
    pub open spec fn spec_distance_squared(self, other: Position) -> int {
        squared_distance(
            self.x as int,
            self.y as int,
            self.z as int,
            other.x as int,
            other.y as int,
            other.z as int,
        )
    }

    /// The same point as a [`Vector`] from the origin.
    pub open spec fn spec_to_vector(self) -> Vector {
        Vector { x: self.x as i64, y: self.y as i64, z: self.z as i64 }
    }

    /// The point reached from `self` by the displacement `offset`.
    pub open spec fn spec_offset_by(self, offset: Position) -> Vector {
        Vector {
            x: (self.x + offset.x) as i64,
            y: (self.y + offset.y) as i64,
            z: (self.z + offset.z) as i64,
        }
    }

    /// The square of the distance from `self` to `other`.
    pub fn distance_squared(&self, other: &Position) -> (d: u128)
        ensures
            d == self.spec_distance_squared(*other),
    {
        self.to_vector().distance_squared(&other.to_vector())
    }

    /// The same point as a [`Vector`] from the origin.
    pub fn to_vector(&self) -> (v: Vector)
        ensures
            v == self.spec_to_vector(),
            v.in_world(),
    {
        Vector { x: self.x as i64, y: self.y as i64, z: self.z as i64 }
    }

    /// The point reached from `self` by the displacement `offset`.
    pub fn offset_by(&self, offset: &Position) -> (v: Vector)
        ensures
            v == self.spec_offset_by(*offset),
            v.in_world(),
    {
        Vector {
            x: self.x as i64 + offset.x as i64,
            y: self.y as i64 + offset.y as i64,
            z: self.z as i64 + offset.z as i64,
        }
    }
}

impl Vector {
    /// Every component is small enough for squared distances to fit in 128 bits.
    pub open spec fn in_reach(self) -> bool {
        &&& -VECTOR_REACH <= self.x <= VECTOR_REACH
        &&& -VECTOR_REACH <= self.y <= VECTOR_REACH
        &&& -VECTOR_REACH <= self.z <= VECTOR_REACH
    }

    /// Every component is within the reach of a sum of two positions.
    pub open spec fn in_world(self) -> bool {
        &&& -WORLD_REACH <= self.x <= WORLD_REACH
        &&& -WORLD_REACH <= self.y <= WORLD_REACH
        &&& -WORLD_REACH <= self.z <= WORLD_REACH
    }

    /// The square of the distance from `self` to `other`.
    pub open spec fn spec_distance_squared(self, other: Vector) -> int {
        squared_distance(
            self.x as int,
            self.y as int,
            self.z as int,
            other.x as int,
            other.y as int,
            other.z as int,
        )
    }

    /// The square of the distance from `self` to `other`.
    pub fn distance_squared(&self, other: &Vector) -> (d: u128)
        requires
            self.in_reach(),
            other.in_reach(),
        ensures
            d == self.spec_distance_squared(*other),
    {
        let dx: u128 = axis_gap_squared(self.x, other.x);
        let dy: u128 = axis_gap_squared(self.y, other.y);
        let dz: u128 = axis_gap_squared(self.z, other.z);
        dx + dy + dz
    }
}

/// The square of the difference of two coordinates.
fn axis_gap_squared(a: i64, b: i64) -> (s: u128)
    requires
        -VECTOR_REACH <= a <= VECTOR_REACH,
        -VECTOR_REACH <= b <= VECTOR_REACH,
    ensures
        s == (a - b) * (a - b),
        s <= 0x4000_0000_0000_0000_0000_0000_0000_0000,
{
    let gap: u128 = if a >= b {
        (a as i128 - b as i128) as u128
    } else {
        (b as i128 - a as i128) as u128
    };
    assert(gap * gap == (a - b) * (a - b)) by (nonlinear_arith)
        requires
            gap == a - b || gap == b - a,
    ;
    assert(gap * gap <= 0x4000_0000_0000_0000_0000_0000_0000_0000) by (nonlinear_arith)
        requires
            0 <= gap <= 0x8000_0000_0000_0000,
    ;
    gap * gap
}

/// The product of two 64-bit numbers, which always fits in 128 bits.
pub fn wide_product(a: u64, b: u64) -> (product: u128)
    ensures
        product == a * b,
{
    assert(a * b <= 0xffff_ffff_ffff_ffff * 0xffff_ffff_ffff_ffff) by (nonlinear_arith)
        requires
            0 <= a <= 0xffff_ffff_ffff_ffff,
            0 <= b <= 0xffff_ffff_ffff_ffff,
    ;
    a as u128 * b as u128
}

/// The integer square root of `n`.
pub fn integer_sqrt_of(n: u128) -> (r: u64)
    ensures
        r == integer_sqrt(n as int),
        is_integer_sqrt(n as int, r as int),
{
    let mut low: u128 = 0;
    let mut high: u128 = 0x1_0000_0000_0000_0000;
    assert(n < high * high) by (nonlinear_arith)
        requires
            high == 0x1_0000_0000_0000_0000,
            n <= u128::MAX,
    ;
    while high - low > 1
        invariant
            low < high <= 0x1_0000_0000_0000_0000,
            low * low <= n < high * high,
        decreases high - low,
    {
        let middle: u128 = low + (high - low) / 2;
        assert(middle * middle <= 0xffff_ffff_ffff_ffff * 0xffff_ffff_ffff_ffff)
            by (nonlinear_arith)
            requires
                0 <= middle <= 0xffff_ffff_ffff_ffff,
        ;
        if middle * middle <= n {
            low = middle;
        } else {
            high = middle;
        }
    }
    proof {
        lemma_integer_sqrt_is(n as int, low as int);
    }
    low as u64
}

} // verus!
