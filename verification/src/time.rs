//! Virtual time for the emulation core.
//!
//! `Period` is an unsigned fixed-point number with 64 integer and 64
//! fractional bits, stored in a single `u128`.  All scheduler arithmetic is
//! exact integer arithmetic on the raw bit pattern: one unit of virtual time
//! is `2^64` raw ticks.  `Frequency` shares the representation; the
//! reciprocal of a frequency is the matching period.

use vstd::prelude::*;
use vstd::arithmetic::div_mod::{
    lemma_fundamental_div_mod, lemma_fundamental_div_mod_converse, lemma_mod_bound,
};
use vstd::arithmetic::mul::lemma_mul_inequality;

verus! {

/// Raw ticks per unit of virtual time: the fixed-point scale factor `2^64`.
pub const PERIOD_SCALE: u128 = 0x1_0000_0000_0000_0000;

/// A span of virtual time (or, under the name [`Frequency`], a rate),
/// as an unsigned 64.64 fixed-point number.
#[derive(Clone, Copy, PartialEq, Eq, Structural, Debug, Hash)]
pub struct Period {
    /// Raw fixed-point ticks; the represented value is `bits / 2^64`.
    pub bits: u128,
}

/// A rate in events per unit of virtual time, same representation as [`Period`].
pub type Frequency = Period;

impl Period {
    /// The zero span.
    pub fn zero() -> (r: Self)
        ensures
            r.bits == 0,
    {
        Period { bits: 0 }
    }

    /// Builds a period directly from raw fixed-point ticks.
    pub fn from_bits(bits: u128) -> (r: Self)
        ensures
            r.bits == bits,
    {
        Period { bits }
    }

    /// Converts a whole number of time units to a period, exactly.
    pub fn from_int(n: u64) -> (r: Self)
        ensures
            r.bits == n * PERIOD_SCALE,
    {
        Period { bits: (n as u128) * PERIOD_SCALE }
    }

    /// The whole part of the period: floor of the represented value.
    pub fn to_int(&self) -> (r: u64)
        ensures
            r == self.bits / PERIOD_SCALE as u128,
    {
        (self.bits / PERIOD_SCALE) as u64
    }

    /// Exact addition.
    pub fn add(self, other: Self) -> (r: Self)
        requires
            self.bits + other.bits <= u128::MAX,
        ensures
            r.bits == self.bits + other.bits,
    {
        Period { bits: self.bits + other.bits }
    }

    /// Subtraction that stops at zero.
    pub fn saturating_sub(self, other: Self) -> (r: Self)
        ensures
            r.bits == if self.bits >= other.bits {
                self.bits - other.bits
            } else {
                0
            },
    {
        if self.bits >= other.bits {
            Period { bits: self.bits - other.bits }
        } else {
            Period { bits: 0 }
        }
    }

    /// Exact multiplication by an integer factor.
    pub fn mul_int(self, factor: u64) -> (r: Self)
        requires
            self.bits * factor <= u128::MAX,
        ensures
            r.bits == self.bits * factor,
    {
        Period { bits: self.bits * (factor as u128) }
    }

    /// How many whole `divisor` spans fit into `self`: floor division.
    pub fn div_floor(self, divisor: Self) -> (r: u128)
        requires
            divisor.bits > 0,
        ensures
            r == self.bits / divisor.bits,
    {
        self.bits / divisor.bits
    }

    /// The smaller of two periods.
    pub fn min(self, other: Self) -> (r: Self)
        ensures
            r.bits == if self.bits <= other.bits {
                self.bits
            } else {
                other.bits
            },
    {
        if self.bits <= other.bits {
            self
        } else {
            other
        }
    }

    /// `self <= other` on the represented values.
    pub fn le(self, other: Self) -> (r: bool)
        ensures
            r == (self.bits <= other.bits),
    {
        self.bits <= other.bits
    }

    /// `self < other` on the represented values.
    pub fn lt(self, other: Self) -> (r: bool)
        ensures
            r == (self.bits < other.bits),
    {
        self.bits < other.bits
    }

    /// True when the period is exactly zero.
    pub fn is_zero(&self) -> (r: bool)
        ensures
            r == (self.bits == 0),
    {
        self.bits == 0
    }

    /// Exact reciprocal: turns a frequency into its period and vice versa.
    ///
    /// The represented result is `floor(2^128 / bits) / 2^64`, which is the
    /// fixed-point floor of `1 / (bits / 2^64)`.  A raw value below 2 has no
    /// representable reciprocal.
    pub fn recip(self) -> (r: Self)
        requires
            self.bits >= 2,
        ensures
            r.bits == 0x1_0000_0000_0000_0000_0000_0000_0000_0000int / (self.bits as int),
    {
        let q: u128 = u128::MAX / self.bits;
        let rem: u128 = u128::MAX % self.bits;
        proof {
            let b = self.bits as int;
            let m = u128::MAX as int;
            lemma_fundamental_div_mod(m, b);
            lemma_mod_bound(m, b);
            if rem == self.bits - 1 {
                // m + 1 == b * (q + 1), so the true quotient is q + 1.
                assert(m + 1 == (q as int + 1) * b) by {
                    assert(m == b * (q as int) + rem);
                    assert((q as int + 1) * b == b * (q as int) + b) by (nonlinear_arith);
                };
                lemma_fundamental_div_mod_converse(m + 1, b, q as int + 1, 0);
                // q + 1 fits: b >= 2 forces q + 1 <= 2^127.
                assert(q + 1 <= 0x8000_0000_0000_0000_0000_0000_0000_0000int) by {
                    if q + 1 > 0x8000_0000_0000_0000_0000_0000_0000_0000int {
                        lemma_mul_inequality(2, b, q as int + 1);
                        assert(b * (q as int + 1) == (q as int + 1) * b) by (nonlinear_arith);
                    }
                };
            } else {
                assert(m + 1 == (q as int) * b + (rem as int + 1)) by {
                    assert(m == b * (q as int) + rem);
                    assert((q as int) * b == b * (q as int)) by (nonlinear_arith);
                };
                lemma_fundamental_div_mod_converse(m + 1, b, q as int, rem as int + 1);
            }
        }
        if rem == self.bits - 1 {
            Period { bits: q + 1 }
        } else {
            Period { bits: q }
        }
    }
}

impl Default for Period {
    /// The default period is zero virtual time.
    fn default() -> (r: Self)
        ensures
            r.bits == 0,
    {
        Period { bits: 0 }
    }
}

} // verus!
