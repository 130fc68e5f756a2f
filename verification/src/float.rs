//! Single precision numbers, carried by their bit patterns.

use vstd::arithmetic::div_mod::{
    lemma_basic_div, lemma_div_is_ordered, lemma_div_multiples_vanish,
    lemma_div_multiples_vanish_quotient, lemma_fundamental_div_mod, lemma_mod_bound,
};
use vstd::arithmetic::power2::{
    lemma2_to64, lemma_pow2_adds, lemma_pow2_pos, lemma_pow2_strictly_increases, lemma_pow2_unfold,
    pow2,
};
use vstd::prelude::*;

verus! {

/// A single precision IEEE 754 number: a sign bit, eight bits of exponent and 23 bits of fraction.
#[derive(Clone, Copy, PartialEq, Eq, Structural, Debug)]
pub struct Float32 {
    pub bits: u32,
}

impl Float32 {
    /// The sign bit is set.
    pub open spec fn negative_sign(self) -> bool {
        self.bits >= 0x8000_0000
    }

    /// The exponent field.
    pub open spec fn exponent(self) -> nat {
        ((self.bits / 0x80_0000) % 0x100) as nat
    }

    /// The fraction field.
    pub open spec fn fraction(self) -> nat {
        (self.bits % 0x80_0000) as nat
    }

    /// Neither an infinity nor a NaN.
    pub open spec fn finite(self) -> bool {
        self.exponent() != 255
    }

    /// Not a number.
    pub open spec fn nan(self) -> bool {
        self.exponent() == 255 && self.fraction() != 0
    }

    /// The absolute value of a finite number, in units of the smallest positive one, 2^-149.
    pub open spec fn scaled_magnitude(self) -> nat {
        if self.exponent() == 0 {
            self.fraction()
        } else {
            (0x80_0000 + self.fraction()) * pow2((self.exponent() - 1) as nat)
        }
    }

    /// The number is less than zero.
    pub open spec fn below_zero(self) -> bool {
        self.negative_sign() && !self.nan() && (self.finite() ==> self.scaled_magnitude() > 0)
    }

    /// The whole part of the absolute value, at most 255.
    pub open spec fn whole_magnitude_u8(self) -> nat {
        let whole = self.scaled_magnitude() / pow2(149);
        if self.finite() && whole < 255 {
            whole
        } else {
            255
        }
    }

    /// Zero.
    pub fn zero() -> (r: Float32)
        ensures
            r.bits == 0,
    {
        Float32 { bits: 0 }
    }

    /// One.
    pub fn one() -> (r: Float32)
        ensures
            r.bits == 0x3f80_0000,
    {
        Float32 { bits: 0x3f80_0000 }
    }

    /// Whether this is neither an infinity nor a NaN.
    pub fn is_finite(self) -> (r: bool)
        ensures
            r == self.finite(),
    {
        (self.bits / 0x80_0000) % 0x100 != 255
    }

    /// Whether this is not a number.
    pub fn is_nan(self) -> (r: bool)
        ensures
            r == self.nan(),
    {
        (self.bits / 0x80_0000) % 0x100 == 255 && self.bits % 0x80_0000 != 0
    }

    /// Whether the number is less than zero.
    pub fn is_below_zero(self) -> (r: bool)
        ensures
            r == self.below_zero(),
    {
        proof {
            if self.exponent() > 0 {
                lemma_pow2_pos((self.exponent() - 1) as nat);
                assert(self.scaled_magnitude() > 0) by (nonlinear_arith)
                    requires
                        self.scaled_magnitude() == (0x80_0000 + self.fraction()) * pow2(
                            (self.exponent() - 1) as nat,
                        ),
                        pow2((self.exponent() - 1) as nat) > 0,
                ;
            }
        }
        self.bits > 0x8000_0000 && self.bits <= 0xff80_0000
    }

    /// The negative of a byte's value.
    pub fn from_negated_byte(b: u8) -> (r: Float32)
        ensures
            r.negative_sign(),
            r.finite(),
            r.scaled_magnitude() == b as nat * pow2(149),
    {
        if b == 0 {
            return Float32 { bits: 0x8000_0000 };
        }
        let (exponent, unit): (u32, u32) = if b >= 128 {
            (134, 0x1_0000)
        } else if b >= 64 {
            (133, 0x2_0000)
        } else if b >= 32 {
            (132, 0x4_0000)
        } else if b >= 16 {
            (131, 0x8_0000)
        } else if b >= 8 {
            (130, 0x10_0000)
        } else if b >= 4 {
            (129, 0x20_0000)
        } else if b >= 2 {
            (128, 0x40_0000)
        } else {
            (127, 0x80_0000)
        };
        assert(0x80_0000 <= b as u32 * unit < 0x100_0000);
        let bits: u32 = 0x8000_0000 + (exponent - 1) * 0x80_0000 + b as u32 * unit;
        let r = Float32 { bits };
        proof {
            let power = (exponent - 1) as nat;
            lemma2_to64();
            lemma_pow2_adds(power, (149 - power) as nat);
            assert(pow2((149 - power) as nat) == unit);
            assert(r.exponent() == exponent);
            assert(r.fraction() == b as u32 * unit - 0x80_0000);
            let p = pow2(power) as int;
            assert((b * unit) * p == b * (p * unit)) by (nonlinear_arith);
        }
        r
    }

    /// The whole part of the absolute value, at most 255.
    pub fn whole_magnitude(self) -> (r: u8)
        ensures
            r == self.whole_magnitude_u8(),
    {
        let exponent: u32 = (self.bits / 0x80_0000) % 0x100;
        let significand: u32 = self.bits % 0x80_0000 + 0x80_0000;
        proof {
            lemma2_to64();
            lemma_pow2_pos(149);
        }
        if exponent < 127 {
            proof {
                lemma_small_magnitude(self);
                lemma_basic_div(self.scaled_magnitude() as int, pow2(149) as int);
            }
            0
        } else if exponent >= 135 {
            proof {
                if self.finite() {
                    lemma_large_magnitude(self);
                }
            }
            255
        } else {
            let unit: u32 = if exponent == 134 {
                0x1_0000
            } else if exponent == 133 {
                0x2_0000
            } else if exponent == 132 {
                0x4_0000
            } else if exponent == 131 {
                0x8_0000
            } else if exponent == 130 {
                0x10_0000
            } else if exponent == 129 {
                0x20_0000
            } else if exponent == 128 {
                0x40_0000
            } else {
                0x80_0000
            };
            proof {
                let power = (exponent - 1) as nat;
                assert(pow2((149 - power) as nat) == unit);
                lemma_pow2_adds(power, (149 - power) as nat);
                lemma_pow2_pos(power);
                let p = pow2(power) as int;
                lemma_div_multiples_vanish_quotient(p, significand as int, unit as int);
                assert(p * significand == significand * p) by (nonlinear_arith);
                assert(self.scaled_magnitude() == p * significand);
                assert(self.scaled_magnitude() / pow2(149) == significand / unit);
                assert(significand / unit <= 255);
            }
            (significand / unit) as u8
        }
    }
}

/// A number with an exponent below that of one is less than one.
proof fn lemma_small_magnitude(f: Float32)
    requires
        f.exponent() < 127,
    ensures
        f.scaled_magnitude() < pow2(149),
{
    lemma2_to64();
    lemma_pow2_adds(125, 24);
    lemma_pow2_pos(125);
    if f.exponent() > 0 {
        let power = (f.exponent() - 1) as nat;
        if power < 125 {
            lemma_pow2_strictly_increases(power, 125);
        }
        assert((0x80_0000 + f.fraction()) * pow2(power) < 0x100_0000 * pow2(125))
            by (nonlinear_arith)
            requires
                0x80_0000 + f.fraction() < 0x100_0000,
                pow2(power) <= pow2(125),
                pow2(125) > 0,
        ;
        assert(0x100_0000 == pow2(24));
        assert(0x100_0000 * pow2(125) == pow2(149)) by (nonlinear_arith)
            requires
                pow2(125) * pow2(24) == pow2(149),
                0x100_0000 == pow2(24),
        ;
    } else {
        lemma_pow2_strictly_increases(24, 149);
    }
}

/// A finite number with an exponent of at least that of 256 is at least 256.
proof fn lemma_large_magnitude(f: Float32)
    requires
        f.exponent() >= 135,
    ensures
        f.scaled_magnitude() / pow2(149) >= 256,
{
    lemma2_to64();
    let power = (f.exponent() - 1) as nat;
    if power > 134 {
        lemma_pow2_strictly_increases(134, power);
    }
    lemma_pow2_adds(134, 23);
    lemma_pow2_adds(149, 8);
    lemma_pow2_pos(149);
    lemma_pow2_pos(134);
    assert((0x80_0000 + f.fraction()) * pow2(power) >= 0x80_0000 * pow2(134)) by (nonlinear_arith)
        requires
            pow2(power) >= pow2(134),
    ;
    assert(0x80_0000 * pow2(134) == pow2(157)) by (nonlinear_arith)
        requires
            pow2(134) * pow2(23) == pow2(157),
            pow2(23) == 0x80_0000,
    ;
    lemma_div_is_ordered(pow2(157) as int, f.scaled_magnitude() as int, pow2(149) as int);
    lemma_div_multiples_vanish(256, pow2(149) as int);
}

/// The negative of a byte's value gives the byte back, and is below zero exactly for a byte that
/// is not zero.
pub proof fn law_negated_byte_round_trip(f: Float32, b: u8)
    requires
        f.negative_sign(),
        f.finite(),
        f.scaled_magnitude() == b as nat * pow2(149),
    ensures
        f.whole_magnitude_u8() == b,
        f.below_zero() <==> b != 0,
{
    lemma_pow2_pos(149);
    lemma_div_multiples_vanish(b as int, pow2(149) as int);
    assert(pow2(149) * b == b * pow2(149)) by (nonlinear_arith);
    assert(b != 0 ==> b as nat * pow2(149) > 0) by (nonlinear_arith)
        requires
            pow2(149) > 0,
    ;
}

/// Sign, exponent and fraction are the digits of the bit pattern, from the front, and which numbers
/// are finite, below zero or none at all can be told from the pattern.
pub proof fn law_bit_pattern(f: Float32)
    ensures
        f.bits == (if f.negative_sign() {
            0x8000_0000int
        } else {
            0
        }) + f.exponent() * 0x80_0000 + f.fraction(),
        f.exponent() < 0x100,
        f.fraction() < 0x80_0000,
        f.finite() <==> f.bits % 0x8000_0000 < 0x7f80_0000,
        f.nan() <==> f.bits % 0x8000_0000 > 0x7f80_0000,
        f.below_zero() <==> 0x8000_0000 < f.bits <= 0xff80_0000,
{
    if f.exponent() > 0 {
        lemma_pow2_pos((f.exponent() - 1) as nat);
        assert(f.scaled_magnitude() > 0) by (nonlinear_arith)
            requires
                f.scaled_magnitude() == (0x80_0000 + f.fraction()) * pow2(
                    (f.exponent() - 1) as nat,
                ),
                pow2((f.exponent() - 1) as nat) > 0,
        ;
    }
}

/// The magnitudes of the finite numbers start at zero and go up with the bit pattern, by one unit up
/// to twice the smallest normal number and by twice the step with each exponent from there. The sign
/// does not matter.
#[verifier::spinoff_prover]
pub proof fn law_magnitudes_step_up(f: Float32, next: Float32, opposite: Float32)
    requires
        f.bits % 0x8000_0000 < 0x7f7f_ffff,
        next.bits == f.bits + 1,
        opposite.bits % 0x8000_0000 == f.bits % 0x8000_0000,
    ensures
        f.bits % 0x8000_0000 == 0 ==> f.scaled_magnitude() == 0,
        next.scaled_magnitude() - f.scaled_magnitude() == pow2(
            if f.bits % 0x8000_0000 < 0x80_0000 {
                0
            } else {
                (f.bits % 0x8000_0000 / 0x80_0000 - 1) as nat
            },
        ),
        opposite.scaled_magnitude() == f.scaled_magnitude(),
{
    lemma2_to64();
    let e = f.exponent();
    let step: nat = if e == 0 {
        0
    } else {
        (e - 1) as nat
    };
    let p = pow2(step) as int;
    assert(f.bits % 0x8000_0000 / 0x80_0000 == e);
    assert(f.bits % 0x8000_0000 < 0x80_0000 <==> e == 0);
    assert(opposite.bits % 0x8000_0000 / 0x80_0000 == opposite.exponent());
    assert(opposite.exponent() == e && opposite.fraction() == f.fraction());
    assert(pow2(0) == 1);
    let m = f.fraction() as int;
    if f.fraction() < 0x7f_ffff {
        assert(next.exponent() == e && next.fraction() == m + 1);
        if e > 0 {
            assert(f.scaled_magnitude() == (0x80_0000 + m) * p);
            assert(next.scaled_magnitude() == (0x80_0000 + (m + 1)) * p);
            assert((0x80_0000 + (m + 1)) * p - (0x80_0000 + m) * p == p) by (nonlinear_arith);
        }
    } else {
        assert(next.exponent() == e + 1 && next.fraction() == 0);
        let q = pow2(e) as int;
        assert(next.scaled_magnitude() == 0x80_0000 * q);
        if e > 0 {
            lemma_pow2_unfold(e);
            assert(q == 2 * p);
            assert(f.scaled_magnitude() == (0x80_0000 + m) * p);
            assert(0x80_0000 * q - (0x80_0000 + m) * p == p) by (nonlinear_arith)
                requires
                    q == 2 * p,
                    m == 0x7f_ffff,
            ;
        }
    }
    assert(next.scaled_magnitude() - f.scaled_magnitude() == p);
}

/// The whole part is what a magnitude holds of whole ones, but never more than 255.
pub proof fn law_whole_part(f: Float32)
    ensures
        f.whole_magnitude_u8() <= 255,
        f.finite() ==> f.whole_magnitude_u8() * pow2(149) <= f.scaled_magnitude(),
        f.finite() && f.whole_magnitude_u8() < 255 ==> f.scaled_magnitude() < (
        f.whole_magnitude_u8() + 1) * pow2(149),
        !f.finite() ==> f.whole_magnitude_u8() == 255,
{
    lemma_pow2_pos(149);
    let m = f.scaled_magnitude() as int;
    let p = pow2(149) as int;
    let w = f.whole_magnitude_u8() as int;
    lemma_fundamental_div_mod(m, p);
    lemma_mod_bound(m, p);
    let q = m / p;
    assert(w <= q ==> w * p <= p * q) by (nonlinear_arith)
        requires
            p > 0,
    ;
    assert((q + 1) * p == p * q + p) by (nonlinear_arith);
}

} // verus!
