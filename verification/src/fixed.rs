//! Fixed-point scalars and small vectors.
//!
//! A [`Fixed`] holds a signed count of millionths. Sums and products saturate
//! at the ends of the 64-bit range, and quotients round toward zero.

use vstd::prelude::*;

verus! {

/// Raw units in one whole unit.
pub const SCALE: i64 = 1_000_000;

/// The nearest value to `x` that a [`Fixed`] can hold.
pub open spec fn saturate(x: int) -> int {
    if x < i64::MIN {
        i64::MIN as int
    } else if x > i64::MAX {
        i64::MAX as int
    } else {
        x
    }
}

/// The size of `x` without its sign.
pub open spec fn magnitude(x: int) -> int {
    if x < 0 {
        -x
    } else {
        x
    }
}

/// `p / d` rounded toward zero, for a positive `d`.
pub open spec fn quotient(p: int, d: int) -> int {
    if p >= 0 {
        p / d
    } else {
        -((-p) / d)
    }
}

/// The raw value of the product of two fixed-point numbers, before saturation.
pub open spec fn product(a: int, b: int) -> int {
    quotient(a * b, SCALE as int)
}

/// `x` limited to `lo ..= hi`.
pub open spec fn limit(x: int, lo: int, hi: int) -> int {
    if x < lo {
        lo
    } else if x > hi {
        hi
    } else {
        x
    }
}

/// The product of two 64-bit values fits in 128 bits with room to spare.
pub proof fn lemma_product_bounds(a: i64, b: i64)
    ensures
        -0x4000_0000_0000_0000_0000_0000_0000_0000 <= a * b <= 0x4000_0000_0000_0000_0000_0000_0000_0000,
{
    assert(-0x4000_0000_0000_0000_0000_0000_0000_0000 <= a * b
        <= 0x4000_0000_0000_0000_0000_0000_0000_0000) by (nonlinear_arith)
        requires
            -0x8000_0000_0000_0000 <= a <= 0x8000_0000_0000_0000,
            -0x8000_0000_0000_0000 <= b <= 0x8000_0000_0000_0000,
    ;
}

/// Narrows a wide intermediate result to 64 bits, saturating.
pub fn narrow(x: i128) -> (r: i64)
    ensures
        r == saturate(x as int),
{
    if x < i64::MIN as i128 {
        i64::MIN
    } else if x > i64::MAX as i128 {
        i64::MAX
    } else {
        x as i64
    }
}

/// Divides rounding toward zero.
pub fn divide(p: i128, d: i128) -> (q: i128)
    requires
        d > 0,
        p > i128::MIN,
    ensures
        q == quotient(p as int, d as int),
{
    p / d
}

/// A signed fixed-point number with six decimal places.
#[derive(Clone, Copy, PartialEq, Eq, Structural, Debug)]
pub struct Fixed {
    pub raw: i64,
}

impl Fixed {
    /// The number zero.
    pub fn zero() -> (r: Fixed)
        ensures
            r.raw == 0,
    {
        Fixed { raw: 0 }
    }

    /// The number with the given count of millionths.
    pub fn from_raw(raw: i64) -> (r: Fixed)
        ensures
            r.raw == raw,
    {
        Fixed { raw }
    }

    /// The whole number `units`.
    pub fn from_units(units: i32) -> (r: Fixed)
        ensures
            r.raw == units * SCALE,
    {
        let wide: i64 = units as i64;
        Fixed { raw: wide * SCALE }
    }

    /// What [`Fixed::plus`] computes.
    pub open spec fn sum(self, other: Fixed) -> Fixed {
        Fixed { raw: saturate(self.raw + other.raw) as i64 }
    }

    /// What [`Fixed::minus`] computes.
    pub open spec fn difference(self, other: Fixed) -> Fixed {
        Fixed { raw: saturate(self.raw - other.raw) as i64 }
    }

    /// What [`Fixed::negated`] computes.
    pub open spec fn opposite(self) -> Fixed {
        Fixed { raw: saturate(-self.raw) as i64 }
    }

    /// What [`Fixed::times`] computes.
    pub open spec fn scaled_by(self, other: Fixed) -> Fixed {
        Fixed { raw: saturate(product(self.raw as int, other.raw as int)) as i64 }
    }

    /// `self + other`, saturating.
    pub fn plus(self, other: Fixed) -> (r: Fixed)
        ensures
            r == self.sum(other),
    {
        Fixed { raw: narrow(self.raw as i128 + other.raw as i128) }
    }

    /// `self - other`, saturating.
    pub fn minus(self, other: Fixed) -> (r: Fixed)
        ensures
            r == self.difference(other),
    {
        Fixed { raw: narrow(self.raw as i128 - other.raw as i128) }
    }

    /// `-self`, saturating.
    pub fn negated(self) -> (r: Fixed)
        ensures
            r == self.opposite(),
    {
        Fixed { raw: narrow(-(self.raw as i128)) }
    }

    /// `self * other`, rounded toward zero and saturating.
    pub fn times(self, other: Fixed) -> (r: Fixed)
        ensures
            r == self.scaled_by(other),
    {
        Fixed { raw: narrow(wide_product(self, other)) }
    }
}

/// `a * b` rounded toward zero, in a width that cannot overflow.
pub fn wide_product(a: Fixed, b: Fixed) -> (r: i128)
    ensures
        r == product(a.raw as int, b.raw as int),
        -0x4000_0000_0000_0000_0000_0000_0000_0000 <= r <= 0x4000_0000_0000_0000_0000_0000_0000_0000,
{
    proof {
        lemma_product_bounds(a.raw, b.raw);
    }
    let p: i128 = (a.raw as i128) * (b.raw as i128);
    let q: i128 = divide(p, SCALE as i128);
    proof {
        lemma_quotient_shrinks(p as int, SCALE as int);
    }
    q
}

/// Dividing by a positive number never grows the magnitude nor flips the sign.
pub proof fn lemma_quotient_shrinks(p: int, d: int)
    requires
        d > 0,
    ensures
        magnitude(quotient(p, d)) <= magnitude(p),
        p >= 0 ==> quotient(p, d) >= 0,
        p <= 0 ==> quotient(p, d) <= 0,
{
    assert(0 <= magnitude(p) / d <= magnitude(p)) by (nonlinear_arith)
        requires
            d > 0,
            magnitude(p) >= 0,
    ;
}

/// Whether `r` is the integer square root of `n`.
pub open spec fn is_root(r: int, n: int) -> bool {
    0 <= r && r * r <= n < (r + 1) * (r + 1)
}

/// The integer square root of `n`: the greatest `r` with `r * r <= n`.
pub open spec fn root(n: int) -> int {
    choose|r: int| is_root(r, n)
}

/// A number has at most one integer square root.
pub proof fn lemma_root_unique(r: int, n: int)
    requires
        is_root(r, n),
    ensures
        root(n) == r,
{
    let s = root(n);
    assert(is_root(s, n));
    assert(s == r) by (nonlinear_arith)
        requires
            0 <= r,
            0 <= s,
            r * r <= n < (r + 1) * (r + 1),
            s * s <= n < (s + 1) * (s + 1),
    ;
}

/// The integer square root, by bisection.
pub fn isqrt(n: u128) -> (r: u64)
    ensures
        r == root(n as int),
        is_root(r as int, n as int),
{
    let mut lo: u128 = 0;
    let mut hi: u128 = 0x1_0000_0000_0000_0000;
    assert(0x1_0000_0000_0000_0000int * 0x1_0000_0000_0000_0000int
        == 0x1_0000_0000_0000_0000_0000_0000_0000_0000int);
    while hi - lo > 1
        invariant
            lo < hi <= 0x1_0000_0000_0000_0000,
            lo * lo <= n < hi * hi,
        decreases hi - lo,
    {
        let mid: u128 = lo + (hi - lo) / 2;
        assert(mid * mid <= 0xFFFF_FFFF_FFFF_FFFF * 0xFFFF_FFFF_FFFF_FFFF) by (nonlinear_arith)
            requires
                0 <= mid <= 0xFFFF_FFFF_FFFF_FFFF,
        ;
        let square: u128 = mid * mid;
        if square <= n {
            lo = mid;
        } else {
            hi = mid;
        }
    }
    proof {
        lemma_root_unique(lo as int, n as int);
    }
    lo as u64
}

/// The size of a 64-bit value without its sign.
pub fn unsigned(x: i64) -> (r: u128)
    ensures
        r == magnitude(x as int),
{
    if x < 0 {
        (-(x as i128)) as u128
    } else {
        x as u128
    }
}

/// The raw length of the vector `(x, y)`.
pub open spec fn hypotenuse(x: int, y: int) -> int {
    root(x * x + y * y)
}

/// One component of a vector of raw length `len`, after the vector is
/// stretched to length `speed`. A vector without length has no direction and
/// gives zero.
pub open spec fn stretched(component: int, len: int, speed: int) -> int {
    if len <= 0 {
        0
    } else {
        saturate(quotient(component * speed, len))
    }
}

/// A pair of fixed-point numbers.
#[derive(Clone, Copy, PartialEq, Eq, Structural, Debug)]
pub struct Vec2 {
    pub x: Fixed,
    pub y: Fixed,
}

impl Vec2 {
    /// The vector without length.
    pub fn zero() -> (r: Vec2)
        ensures
            r.x.raw == 0,
            r.y.raw == 0,
    {
        Vec2 { x: Fixed::zero(), y: Fixed::zero() }
    }

    /// The vector with the given components.
    pub fn new(x: Fixed, y: Fixed) -> (r: Vec2)
        ensures
            r.x == x,
            r.y == y,
    {
        Vec2 { x, y }
    }

    /// The raw length of the vector, rounded down.
    pub open spec fn length(self) -> int {
        hypotenuse(self.x.raw as int, self.y.raw as int)
    }

    /// What [`Vec2::with_length`] computes.
    pub open spec fn stretched_to(self, speed: Fixed) -> Vec2 {
        Vec2 {
            x: Fixed { raw: stretched(self.x.raw as int, self.length(), speed.raw as int) as i64 },
            y: Fixed { raw: stretched(self.y.raw as int, self.length(), speed.raw as int) as i64 },
        }
    }

    /// The raw length of the vector, rounded down.
    pub fn raw_length(self) -> (r: u64)
        ensures
            r == self.length(),
    {
        let ax: u128 = unsigned(self.x.raw);
        let ay: u128 = unsigned(self.y.raw);
        assert(ax * ax <= 0x8000_0000_0000_0000 * 0x8000_0000_0000_0000) by (nonlinear_arith)
            requires
                0 <= ax <= 0x8000_0000_0000_0000,
        ;
        assert(ay * ay <= 0x8000_0000_0000_0000 * 0x8000_0000_0000_0000) by (nonlinear_arith)
            requires
                0 <= ay <= 0x8000_0000_0000_0000,
        ;
        assert(ax * ax == self.x.raw * self.x.raw) by (nonlinear_arith)
            requires
                ax == magnitude(self.x.raw as int),
        ;
        assert(ay * ay == self.y.raw * self.y.raw) by (nonlinear_arith)
            requires
                ay == magnitude(self.y.raw as int),
        ;
        isqrt(ax * ax + ay * ay)
    }

    /// The vector of the same direction whose length is `speed`: the unit
    /// vector along `self`, times `speed`. The vector without length gives the
    /// vector without length.
    pub fn with_length(self, speed: Fixed) -> (r: Vec2)
        ensures
            r == self.stretched_to(speed),
    {
        let len: u64 = self.raw_length();
        if len == 0 {
            Vec2::zero()
        } else {
            proof {
                lemma_product_bounds(self.x.raw, speed.raw);
                lemma_product_bounds(self.y.raw, speed.raw);
            }
            let px: i128 = (self.x.raw as i128) * (speed.raw as i128);
            let py: i128 = (self.y.raw as i128) * (speed.raw as i128);
            Vec2 {
                x: Fixed { raw: narrow(divide(px, len as i128)) },
                y: Fixed { raw: narrow(divide(py, len as i128)) },
            }
        }
    }
}

/// A triple of fixed-point numbers.
#[derive(Clone, Copy, PartialEq, Eq, Structural, Debug)]
pub struct Vec3 {
    pub x: Fixed,
    pub y: Fixed,
    pub z: Fixed,
}

impl Vec3 {
    /// The vector without length.
    pub fn zero() -> (r: Vec3)
        ensures
            r.x.raw == 0,
            r.y.raw == 0,
            r.z.raw == 0,
    {
        Vec3 { x: Fixed::zero(), y: Fixed::zero(), z: Fixed::zero() }
    }

    /// The vector with the given components.
    pub fn new(x: Fixed, y: Fixed, z: Fixed) -> (r: Vec3)
        ensures
            r.x == x,
            r.y == y,
            r.z == z,
    {
        Vec3 { x, y, z }
    }

    /// The vector with the given raw components.
    pub open spec fn of_raw(x: int, y: int, z: int) -> Vec3 {
        Vec3 { x: Fixed { raw: x as i64 }, y: Fixed { raw: y as i64 }, z: Fixed { raw: z as i64 } }
    }

    /// The vector with the given raw components.
    pub fn from_raw(x: i64, y: i64, z: i64) -> (r: Vec3)
        ensures
            r == Vec3::of_raw(x as int, y as int, z as int),
    {
        Vec3 { x: Fixed { raw: x }, y: Fixed { raw: y }, z: Fixed { raw: z } }
    }

    /// What [`Vec3::times`] computes.
    pub open spec fn scaled_by(self, factor: Fixed) -> Vec3 {
        Vec3 {
            x: self.x.scaled_by(factor),
            y: self.y.scaled_by(factor),
            z: self.z.scaled_by(factor),
        }
    }

    /// Each component times `factor`.
    pub fn times(self, factor: Fixed) -> (r: Vec3)
        ensures
            r == self.scaled_by(factor),
    {
        Vec3 { x: self.x.times(factor), y: self.y.times(factor), z: self.z.times(factor) }
    }
}

} // verus!
