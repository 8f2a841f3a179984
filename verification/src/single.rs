//! Single-precision numbers, held as their IEEE-754 bit patterns.

use vstd::prelude::*;
use vstd::arithmetic::power2::pow2;

verus! {

/// A single-precision number, held as its 32 IEEE-754 bits.
///
/// Two values are equal when their bits are equal, so positive and negative
/// zero differ and a NaN equals itself.
#[derive(Clone, Copy, Debug, PartialEq, Eq, Structural)]
pub struct Single {
    pub bits: u32,
}

impl Single {
    /// Whether the sign bit is set.
    pub open spec fn is_negative(self) -> bool {
        self.bits >= 0x8000_0000
    }

    /// The eight bits of the exponent field.
    pub open spec fn exponent_field(self) -> int {
        (self.bits as int / 0x80_0000) % 0x100
    }

    /// The twenty-three bits of the fraction field.
    pub open spec fn fraction_field(self) -> int {
        self.bits as int % 0x80_0000
    }

    /// Whether this is a number: neither an infinity nor a NaN.
    pub open spec fn is_finite(self) -> bool {
        self.exponent_field() != 0xFF
    }

    /// The integer `m` for which a finite number is `m * 2^e`, where `e` is
    /// its [`exponent`](Single::exponent). It carries the sign.
    pub open spec fn significand(self) -> int {
        let magnitude = if self.exponent_field() == 0 {
            self.fraction_field()
        } else {
            0x80_0000 + self.fraction_field()
        };
        if self.is_negative() {
            -magnitude
        } else {
            magnitude
        }
    }

    /// The power of two by which the [`significand`](Single::significand) of
    /// a finite number is scaled.
    pub open spec fn exponent(self) -> int {
        if self.exponent_field() == 0 {
            -149
        } else {
            self.exponent_field() - 150
        }
    }

    /// Whether this number is exactly `numerator / denominator`.
    pub open spec fn is_ratio(self, numerator: int, denominator: int) -> bool {
        &&& self.is_finite()
        &&& denominator > 0
        &&& if self.exponent() >= 0 {
            self.significand() * pow2(self.exponent() as nat) * denominator == numerator
        } else {
            self.significand() * denominator == numerator * pow2((-self.exponent()) as nat)
        }
    }

    /// The number with the given bit pattern.
    pub fn from_bits(bits: u32) -> (r: Single)
        ensures
            r.bits == bits,
    {
        Single { bits }
    }

    /// The bit pattern of this number.
    pub fn to_bits(self) -> (bits: u32)
        ensures
            bits == self.bits,
    {
        self.bits
    }
}

} // verus!
