//! Signed fixed-point scalars with eight fractional bits.
//!
//! A [`Number`] stores `value * 256` in an `i32`. Every contract in this crate
//! speaks of that stored integer, the *raw* value, as a mathematical `int`.

use vstd::prelude::*;

verus! {

/// Raw units per whole unit.
pub const ONE: i32 = 256;

/// Quotient of `a` by a nonzero `d`, rounded toward zero, as machine division
/// computes it. (`/` on `int` rounds so that the remainder is never negative;
/// taking it on the magnitude of `a` and restoring the sign rounds toward zero.)
pub open spec fn trunc_div(a: int, d: int) -> int {
    if a >= 0 {
        a / d
    } else {
        -((-a) / d)
    }
}

/// Remainder that goes with [`trunc_div`]; it carries the sign of `a`.
pub open spec fn trunc_rem(a: int, d: int) -> int {
    if a >= 0 {
        a % d
    } else {
        -((-a) % d)
    }
}

/// Absolute value of a mathematical integer.
pub open spec fn abs_int(a: int) -> int {
    if a < 0 {
        -a
    } else {
        a
    }
}

/// Sign of a mathematical integer: -1, 0 or 1.
pub open spec fn signum_int(a: int) -> int {
    if a < 0 {
        -1
    } else if a == 0 {
        0
    } else {
        1
    }
}

/// Whether `a` is representable as a raw value.
pub open spec fn fits(a: int) -> bool {
    i32::MIN <= a <= i32::MAX
}

/// Raw value of the fixed-point product of raw values `a` and `b`: the exact
/// product rounded toward negative infinity.
pub open spec fn fixed_mul(a: int, b: int) -> int {
    (a * b) / 256
}

/// Raw value of the fixed-point quotient of raw values `a` and `b`.
pub open spec fn fixed_div(a: int, b: int) -> int {
    trunc_div(a * 256, b)
}

/// Dividing by a nonzero integer never increases the magnitude.
pub proof fn lemma_trunc_div_bound(a: int, d: int)
    requires
        d != 0,
    ensures
        abs_int(trunc_div(a, d)) <= abs_int(a),
{
    let m = abs_int(a);
    assert(-m <= m / d <= m) by (nonlinear_arith)
        requires
            m >= 0,
            d != 0,
    ;
}

/// Machine division of raw values stays representable, the one overflowing
/// quotient aside.
pub proof fn lemma_trunc_div_fits(a: int, d: int)
    requires
        fits(a),
        d != 0,
        !(a == i32::MIN && d == -1),
    ensures
        fits(trunc_div(a, d)),
{
    lemma_trunc_div_bound(a, d);
    if a == i32::MIN {
        let m = -a;
        assert(m / d > -m) by (nonlinear_arith)
            requires
                m > 0,
                d != 0,
                d != -1,
        ;
    }
}

/// The remainder of a division by a positive number is smaller than it.
pub proof fn lemma_trunc_rem_bound(a: int, m: int)
    requires
        m > 0,
    ensures
        -m < trunc_rem(a, m) < m,
{
    let b = if a >= 0 {
        a
    } else {
        -a
    };
    assert(0 <= b % m < m) by (nonlinear_arith)
        requires
            m > 0,
    ;
}

/// A fixed-point number with eight fractional bits.
#[derive(Clone, Copy, Debug, PartialEq, Eq, Structural)]
pub struct Number {
    pub raw: i32,
}

impl Number {
    /// The fixed-point number equal to the integer `integral`.
    pub fn new(integral: i32) -> (r: Number)
        requires
            fits(integral * 256),
        ensures
            r.raw == integral * 256,
    {
        Number { raw: integral * ONE }
    }

    /// The number whose stored integer is `raw`.
    pub fn from_raw(raw: i32) -> (r: Number)
        ensures
            r.raw == raw,
    {
        Number { raw }
    }

    /// The stored integer.
    pub fn to_raw(self) -> (r: i32)
        ensures
            r == self.raw,
    {
        self.raw
    }

    /// Sum.
    pub fn plus(self, rhs: Number) -> (r: Number)
        requires
            fits(self.raw + rhs.raw),
        ensures
            r.raw == self.raw + rhs.raw,
    {
        Number { raw: self.raw + rhs.raw }
    }

    /// Difference.
    pub fn minus(self, rhs: Number) -> (r: Number)
        requires
            fits(self.raw - rhs.raw),
        ensures
            r.raw == self.raw - rhs.raw,
    {
        Number { raw: self.raw - rhs.raw }
    }

    /// Negation.
    pub fn negate(self) -> (r: Number)
        requires
            self.raw != i32::MIN,
        ensures
            r.raw == -self.raw,
    {
        Number { raw: -self.raw }
    }

    /// Product with an integer.
    pub fn times_int(self, k: i32) -> (r: Number)
        requires
            fits(self.raw * k),
        ensures
            r.raw == self.raw * k,
    {
        Number { raw: self.raw * k }
    }

    /// Quotient by an integer, rounded toward zero.
    pub fn over_int(self, k: i32) -> (r: Number)
        requires
            k != 0,
            !(self.raw == i32::MIN && k == -1),
        ensures
            r.raw == trunc_div(self.raw as int, k as int),
    {
        proof {
            lemma_trunc_div_fits(self.raw as int, k as int);
        }
        Number { raw: self.raw / k }
    }

    /// Remainder by an integer number of whole units; it carries the sign of
    /// `self`.
    pub fn modulo_int(self, k: i32) -> (r: Number)
        requires
            k != 0,
            fits(k * 256),
        ensures
            r.raw == trunc_rem(self.raw as int, k * 256),
    {
        let m: i32 = k * ONE;
        Number { raw: self.raw % m }
    }

    /// Fixed-point product, rounded toward negative infinity.
    pub fn times(self, rhs: Number) -> (r: Number)
        requires
            fits(fixed_mul(self.raw as int, rhs.raw as int)),
        ensures
            r.raw == fixed_mul(self.raw as int, rhs.raw as int),
    {
        let a: i64 = self.raw as i64;
        let b: i64 = rhs.raw as i64;
        assert(-0x4000_0000_0000_0000 <= a * b <= 0x4000_0000_0000_0000) by (nonlinear_arith)
            requires
                -0x8000_0000 <= a <= 0x7fff_ffff,
                -0x8000_0000 <= b <= 0x7fff_ffff,
        ;
        let p: i64 = a * b;
        assert(p >> 8u32 == p / 256) by (bit_vector);
        let q: i64 = p >> 8;
        Number { raw: q as i32 }
    }

    /// Fixed-point quotient, rounded toward zero.
    pub fn over(self, rhs: Number) -> (r: Number)
        requires
            rhs.raw != 0,
            fits(self.raw * 256),
            fits(fixed_div(self.raw as int, rhs.raw as int)),
        ensures
            r.raw == fixed_div(self.raw as int, rhs.raw as int),
    {
        let scaled: i32 = self.raw * ONE;
        Number { raw: scaled / rhs.raw }
    }

    /// Largest integer not above the number: rounding is toward negative
    /// infinity, also for negative numbers.
    pub fn floor(self) -> (r: i32)
        ensures
            r == self.raw as int / 256,
    {
        let a: i32 = self.raw;
        assert(a >> 8u32 == a / 256) by (bit_vector);
        a >> 8
    }

    /// Absolute value.
    pub fn abs(self) -> (r: Number)
        requires
            self.raw != i32::MIN,
        ensures
            r.raw == abs_int(self.raw as int),
    {
        if self.raw < 0 {
            Number { raw: -self.raw }
        } else {
            self
        }
    }

    /// Sign of the number: -1, 0 or 1.
    pub fn signum(self) -> (r: i32)
        ensures
            r == signum_int(self.raw as int),
    {
        if self.raw < 0 {
            -1
        } else if self.raw == 0 {
            0
        } else {
            1
        }
    }
}

} // verus!
