//! Two-dimensional vectors and axis-aligned rectangles.
//!
//! The mathematical model of a vector is a [`Vec2`], a pair of unbounded
//! integers. For a fixed-point [`Vector2D`] the pair holds raw values; for an
//! [`IntVector2D`] it holds whole units.

use vstd::prelude::*;
use crate::number::Number;
use crate::number::abs_int;
use crate::number::fits;
use crate::number::fixed_div;
use crate::number::fixed_mul;
use crate::number::trunc_div;
use crate::number::lemma_trunc_div_bound;
use crate::number::lemma_trunc_div_fits;

verus! {

/// A pair of mathematical integers.
pub struct Vec2 {
    pub x: int,
    pub y: int,
}

impl Vec2 {
    /// Component-wise sum.
    pub open spec fn plus(self, rhs: Vec2) -> Vec2 {
        Vec2 { x: self.x + rhs.x, y: self.y + rhs.y }
    }

    /// Component-wise difference.
    pub open spec fn minus(self, rhs: Vec2) -> Vec2 {
        Vec2 { x: self.x - rhs.x, y: self.y - rhs.y }
    }

    /// Each component multiplied by the integer `k`.
    pub open spec fn times_int(self, k: int) -> Vec2 {
        Vec2 { x: self.x * k, y: self.y * k }
    }

    /// Each component divided by the integer `k`, rounded toward zero.
    pub open spec fn over_int(self, k: int) -> Vec2 {
        Vec2 { x: trunc_div(self.x, k), y: trunc_div(self.y, k) }
    }

    /// Each raw component multiplied by the raw fixed-point factor `n`.
    pub open spec fn times(self, n: int) -> Vec2 {
        Vec2 { x: fixed_mul(self.x, n), y: fixed_mul(self.y, n) }
    }

    /// Each raw component divided by the raw fixed-point divisor `n`.
    pub open spec fn over(self, n: int) -> Vec2 {
        Vec2 { x: fixed_div(self.x, n), y: fixed_div(self.y, n) }
    }

    /// Component-wise fixed-point product of two raw vectors.
    pub open spec fn hadamard(self, rhs: Vec2) -> Vec2 {
        Vec2 { x: fixed_mul(self.x, rhs.x), y: fixed_mul(self.y, rhs.y) }
    }

    /// The vector with its components exchanged.
    pub open spec fn swap(self) -> Vec2 {
        Vec2 { x: self.y, y: self.x }
    }

    /// Whole part of each raw component, rounded toward negative infinity.
    pub open spec fn floor(self) -> Vec2 {
        Vec2 { x: self.x / 256, y: self.y / 256 }
    }

    /// Sum of the magnitudes of the two components.
    pub open spec fn manhattan(self) -> int {
        abs_int(self.x) + abs_int(self.y)
    }

    /// Whether both components are representable.
    pub open spec fn fits(self) -> bool {
        fits(self.x) && fits(self.y)
    }

    /// Whether both components lie within `bound` of zero.
    pub open spec fn within(self, bound: int) -> bool {
        -bound <= self.x <= bound && -bound <= self.y <= bound
    }
}

/// A vector of fixed-point numbers.
#[derive(Clone, Copy, Debug, PartialEq, Eq, Structural)]
pub struct Vector2D {
    pub x: Number,
    pub y: Number,
}

impl View for Vector2D {
    type V = Vec2;

    open spec fn view(&self) -> Vec2 {
        Vec2 { x: self.x.raw as int, y: self.y.raw as int }
    }
}

/// A vector of integers.
#[derive(Clone, Copy, Debug, PartialEq, Eq, Structural)]
pub struct IntVector2D {
    pub x: i32,
    pub y: i32,
}

impl View for IntVector2D {
    type V = Vec2;

    open spec fn view(&self) -> Vec2 {
        Vec2 { x: self.x as int, y: self.y as int }
    }
}

impl IntVector2D {
    /// The vector with the given components.
    pub fn new(x: i32, y: i32) -> (r: IntVector2D)
        ensures
            r.x == x,
            r.y == y,
    {
        IntVector2D { x, y }
    }

    /// Component-wise sum.
    pub fn plus(self, rhs: IntVector2D) -> (r: IntVector2D)
        requires
            self@.plus(rhs@).fits(),
        ensures
            r@ == self@.plus(rhs@),
    {
        IntVector2D { x: self.x + rhs.x, y: self.y + rhs.y }
    }

    /// Component-wise difference.
    pub fn minus(self, rhs: IntVector2D) -> (r: IntVector2D)
        requires
            self@.minus(rhs@).fits(),
        ensures
            r@ == self@.minus(rhs@),
    {
        IntVector2D { x: self.x - rhs.x, y: self.y - rhs.y }
    }

    /// The fixed-point vector with the same value.
    pub fn to_fixed(self) -> (r: Vector2D)
        requires
            self@.times_int(256).fits(),
        ensures
            r@ == self@.times_int(256),
    {
        Vector2D { x: Number::new(self.x), y: Number::new(self.y) }
    }
}

/// Whether `root` is the integer square root of `n`: the largest integer
/// whose square is not above `n`.
pub open spec fn is_integer_sqrt(root: int, n: int) -> bool {
    0 <= root && root * root <= n < (root + 1) * (root + 1)
}

/// The integer square root of `n`, for `n` not below zero.
pub open spec fn integer_sqrt(n: int) -> int {
    choose|root: int| is_integer_sqrt(root, n)
}

/// Raw value of the sum of the squared components of `v`.
pub open spec fn squared_magnitude(v: Vec2) -> int {
    fixed_mul(v.x, v.x) + fixed_mul(v.y, v.y)
}

/// Whether the sum of the squared components of `v` is representable, which
/// is what taking the magnitude needs.
pub open spec fn magnitude_defined(v: Vec2) -> bool {
    squared_magnitude(v) <= i32::MAX
}

/// Raw value of the magnitude of `v`: the square root of the sum of the
/// squared components, rounded down to a multiple of a sixteenth.
pub open spec fn magnitude_of(v: Vec2) -> int {
    16 * integer_sqrt(squared_magnitude(v))
}

/// The unit vector along `v`: `v` divided by its magnitude, where that
/// magnitude is defined and not zero.
pub open spec fn normalised(v: Vec2) -> Option<Vec2> {
    if magnitude_defined(v) && magnitude_of(v) != 0 {
        Some(v.over(magnitude_of(v)))
    } else {
        None
    }
}

/// Calls `agb_fixnum::Vector2D::<Num<i32, 8>>::magnitude` on the vector with
/// raw components `x` and `y`. Not verified: the contract claims that, while
/// the sum of the squared components is representable, the call returns
/// without panicking, and that its result is the square root of that sum as
/// the library takes it: the integer square root of the raw sum, scaled back
/// to eight fractional bits.
#[verifier::external_body]
fn magnitude_raw(x: i32, y: i32) -> (r: i32)
    requires
        fixed_mul(x as int, x as int) + fixed_mul(y as int, y as int) <= i32::MAX,
    ensures
        r % 16 == 0,
        is_integer_sqrt(
            r as int / 16,
            fixed_mul(x as int, x as int) + fixed_mul(y as int, y as int),
        ),
{
    let x = agb_fixnum::Num::<i32, 8>::from_raw(x);
    let y = agb_fixnum::Num::<i32, 8>::from_raw(y);
    agb_fixnum::Vector2D::new(x, y).magnitude().to_raw()
}

/// A number has at most one integer square root.
pub proof fn lemma_integer_sqrt_unique(first: int, second: int, n: int)
    requires
        is_integer_sqrt(first, n),
        is_integer_sqrt(second, n),
    ensures
        first == second,
{
    assert(first == second) by (nonlinear_arith)
        requires
            0 <= first,
            first * first <= n < (first + 1) * (first + 1),
            0 <= second,
            second * second <= n < (second + 1) * (second + 1),
    ;
}

/// The integer square root of a number is zero just when the number is.
pub proof fn lemma_integer_sqrt_zero(root: int, n: int)
    requires
        is_integer_sqrt(root, n),
    ensures
        root == 0 <==> n == 0,
{
    assert(root >= 1 ==> root * root >= 1) by (nonlinear_arith);
}

/// A square that is representable has a bounded root.
pub proof fn lemma_square_bound(a: int)
    requires
        0 <= fixed_mul(a, a) <= i32::MAX,
    ensures
        -0x10_0000 < a < 0x10_0000,
{
    assert(-0x10_0000 < a < 0x10_0000) by (nonlinear_arith)
        requires
            (a * a) / 256 <= 0x7fff_ffff,
    ;
}

/// The fixed-point square of a raw value is never negative.
pub proof fn lemma_square_nonnegative(a: int)
    ensures
        fixed_mul(a, a) >= 0,
{
    assert((a * a) / 256 >= 0) by (nonlinear_arith);
}

impl Vector2D {
    /// The vector with the given components.
    pub fn new(x: Number, y: Number) -> (r: Vector2D)
        ensures
            r.x == x,
            r.y == y,
    {
        Vector2D { x, y }
    }

    /// The vector whose components are the integers `x` and `y`.
    pub fn from_ints(x: i32, y: i32) -> (r: Vector2D)
        requires
            fits(x * 256),
            fits(y * 256),
        ensures
            r@ == (Vec2 { x: x * 256, y: y * 256 }),
    {
        Vector2D { x: Number::new(x), y: Number::new(y) }
    }

    /// Component-wise sum.
    pub fn plus(self, rhs: Vector2D) -> (r: Vector2D)
        requires
            self@.plus(rhs@).fits(),
        ensures
            r@ == self@.plus(rhs@),
    {
        Vector2D { x: self.x.plus(rhs.x), y: self.y.plus(rhs.y) }
    }

    /// Component-wise difference.
    pub fn minus(self, rhs: Vector2D) -> (r: Vector2D)
        requires
            self@.minus(rhs@).fits(),
        ensures
            r@ == self@.minus(rhs@),
    {
        Vector2D { x: self.x.minus(rhs.x), y: self.y.minus(rhs.y) }
    }

    /// Each component multiplied by an integer.
    pub fn times_int(self, k: i32) -> (r: Vector2D)
        requires
            self@.times_int(k as int).fits(),
        ensures
            r@ == self@.times_int(k as int),
    {
        Vector2D { x: self.x.times_int(k), y: self.y.times_int(k) }
    }

    /// Each component divided by an integer, rounded toward zero.
    pub fn over_int(self, k: i32) -> (r: Vector2D)
        requires
            k != 0,
            k == -1 ==> self.x.raw != i32::MIN && self.y.raw != i32::MIN,
        ensures
            r@ == self@.over_int(k as int),
    {
        Vector2D { x: self.x.over_int(k), y: self.y.over_int(k) }
    }

    /// Each component multiplied by a fixed-point number.
    pub fn times(self, n: Number) -> (r: Vector2D)
        requires
            self@.times(n.raw as int).fits(),
        ensures
            r@ == self@.times(n.raw as int),
    {
        Vector2D { x: self.x.times(n), y: self.y.times(n) }
    }

    /// Each component divided by a fixed-point number.
    pub fn over(self, n: Number) -> (r: Vector2D)
        requires
            n.raw != 0,
            self@.times_int(256).fits(),
            self@.over(n.raw as int).fits(),
        ensures
            r@ == self@.over(n.raw as int),
    {
        Vector2D { x: self.x.over(n), y: self.y.over(n) }
    }

    /// Component-wise product: scales each axis on its own.
    pub fn hadamard(self, rhs: Vector2D) -> (r: Vector2D)
        requires
            self@.hadamard(rhs@).fits(),
        ensures
            r@ == self@.hadamard(rhs@),
    {
        Vector2D { x: self.x.times(rhs.x), y: self.y.times(rhs.y) }
    }

    /// The vector with its components exchanged.
    pub fn swap(self) -> (r: Vector2D)
        ensures
            r@ == self@.swap(),
    {
        Vector2D { x: self.y, y: self.x }
    }

    /// Whole part of each component, rounded toward negative infinity.
    pub fn floor(self) -> (r: IntVector2D)
        ensures
            r@ == self@.floor(),
    {
        IntVector2D { x: self.x.floor(), y: self.y.floor() }
    }

    /// Sum of the absolute values of the components, for threshold tests.
    pub fn manhattan_distance(self) -> (r: Number)
        requires
            fits(self@.manhattan()),
        ensures
            r.raw == self@.manhattan(),
    {
        self.x.abs().plus(self.y.abs())
    }

    /// Magnitude of the vector, where the sum of its squared components is
    /// representable.
    pub fn magnitude(self) -> (r: Number)
        requires
            magnitude_defined(self@),
        ensures
            r.raw == magnitude_of(self@),
            r.raw == 0 <==> squared_magnitude(self@) == 0,
            r.raw >= 0,
    {
        let raw = magnitude_raw(self.x.raw, self.y.raw);
        proof {
            let root = raw as int / 16;
            let n = squared_magnitude(self@);
            lemma_integer_sqrt_unique(root, integer_sqrt(n), n);
            lemma_integer_sqrt_zero(root, n);
        }
        Number::from_raw(raw)
    }

    /// Whether the sum of the squared components is representable.
    pub fn has_magnitude(self) -> (r: bool)
        ensures
            r == magnitude_defined(self@),
    {
        let limit: i32 = 0x10_0000;
        proof {
            lemma_square_nonnegative(self@.x);
            lemma_square_nonnegative(self@.y);
            if magnitude_defined(self@) {
                lemma_square_bound(self@.x);
                lemma_square_bound(self@.y);
            }
        }
        if self.x.raw <= -limit || self.x.raw >= limit || self.y.raw <= -limit || self.y.raw
            >= limit {
            return false;
        }
        let x: i64 = self.x.raw as i64;
        let y: i64 = self.y.raw as i64;
        assert(0 <= x * x <= 0x100_0000_0000 && 0 <= y * y <= 0x100_0000_0000)
            by (nonlinear_arith)
            requires
                -0x10_0000 < x < 0x10_0000,
                -0x10_0000 < y < 0x10_0000,
        ;
        (x * x) / 256 + (y * y) / 256 <= 0x7fff_ffff
    }

    /// The unit vector along `self`, or `None` where the magnitude is not
    /// defined or is zero.
    pub fn normalise(self) -> (r: Option<Vector2D>)
        ensures
            match r {
                Some(unit) => normalised(self@) == Some(unit@) && unit@.within(0x1000_0000 - 256),
                None => normalised(self@) is None,
            },
    {
        if !self.has_magnitude() {
            return None;
        }
        let magnitude = self.magnitude();
        if magnitude.raw == 0 {
            return None;
        }
        proof {
            lemma_square_nonnegative(self@.x);
            lemma_square_nonnegative(self@.y);
            lemma_square_bound(self@.x);
            lemma_square_bound(self@.y);
            lemma_trunc_div_fits(self@.x * 256, magnitude.raw as int);
            lemma_trunc_div_fits(self@.y * 256, magnitude.raw as int);
            lemma_trunc_div_bound(self@.x * 256, magnitude.raw as int);
            lemma_trunc_div_bound(self@.y * 256, magnitude.raw as int);
        }
        Some(self.over(magnitude))
    }
}

/// Model of a rectangle: its corner of least coordinates and its size.
pub struct RectModel {
    pub position: Vec2,
    pub size: Vec2,
}

impl RectModel {
    /// Whether the two rectangles overlap or share an edge or a corner.
    pub open spec fn touches(self, other: RectModel) -> bool {
        &&& self.position.x <= other.position.x + other.size.x
        &&& self.position.x + self.size.x >= other.position.x
        &&& self.position.y <= other.position.y + other.size.y
        &&& self.position.y + self.size.y >= other.position.y
    }

    /// Whether position, size and far corner are all within `bound` of zero.
    pub open spec fn within(self, bound: int) -> bool {
        &&& self.position.within(bound)
        &&& self.size.within(bound)
        &&& self.position.plus(self.size).within(bound)
    }
}

/// An axis-aligned rectangle in fixed-point coordinates.
#[derive(Clone, Copy, Debug, PartialEq, Eq, Structural)]
pub struct Rect {
    pub position: Vector2D,
    pub size: Vector2D,
}

impl View for Rect {
    type V = RectModel;

    open spec fn view(&self) -> RectModel {
        RectModel { position: self.position@, size: self.size@ }
    }
}

impl Rect {
    /// The rectangle at `position` with the given `size`.
    pub fn new(position: Vector2D, size: Vector2D) -> (r: Rect)
        ensures
            r.position == position,
            r.size == size,
    {
        Rect { position, size }
    }

    /// The rectangle whose position and size are whole units.
    pub fn from_ints(x: i32, y: i32, width: i32, height: i32) -> (r: Rect)
        requires
            fits(x * 256),
            fits(y * 256),
            fits(width * 256),
            fits(height * 256),
        ensures
            r@.position == (Vec2 { x: x * 256, y: y * 256 }),
            r@.size == (Vec2 { x: width * 256, y: height * 256 }),
    {
        Rect { position: Vector2D::from_ints(x, y), size: Vector2D::from_ints(width, height) }
    }

    /// Axis-aligned overlap test that counts shared edges as overlap.
    pub fn touches(self, other: Rect) -> (r: bool)
        requires
            self@.position.plus(self@.size).fits(),
            other@.position.plus(other@.size).fits(),
        ensures
            r == self@.touches(other@),
    {
        self.position.x.raw <= other.position.x.raw + other.size.x.raw
            && self.position.x.raw + self.size.x.raw >= other.position.x.raw
            && self.position.y.raw <= other.position.y.raw + other.size.y.raw
            && self.position.y.raw + self.size.y.raw >= other.position.y.raw
    }
}

/// A collision box in whole units: an offset from an actor's position and a
/// size.
#[derive(Clone, Copy, Debug, PartialEq, Eq, Structural)]
pub struct MaskRect {
    pub x: u16,
    pub y: u16,
    pub width: u16,
    pub height: u16,
}

impl MaskRect {
    /// The box at offset (`x`, `y`) with the given size.
    pub fn new(x: u16, y: u16, width: u16, height: u16) -> (r: MaskRect)
        ensures
            r == (MaskRect { x, y, width, height }),
    {
        MaskRect { x, y, width, height }
    }
}

} // verus!
