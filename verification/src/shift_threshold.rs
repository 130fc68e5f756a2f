//! Whether two shifts are far enough apart to count as a movement of the gaze.
//!
//! The distance of two single precision numbers is rounded to single precision before it is compared
//! with the threshold. Rounding goes to the nearest number, so the rounded distance exceeds the
//! threshold just where the true one lies beyond the middle between the threshold and the next number.

use crate::float::Float32;
use vstd::arithmetic::power2::{
    lemma2_to64, lemma2_to64_rest, lemma_pow2_adds, lemma_pow2_pos, lemma_pow2_strictly_increases,
    lemma_pow2_unfold, pow2,
};
use vstd::prelude::*;

verus! {

/// The significand of the threshold, which is 0.02 to the nearest number: it stands for this many
/// times 2^-29. It is even, so that a distance in the very middle is rounded down to the threshold.
pub const THRESHOLD_SIGNIFICAND: u128 = 0xa3_d70a;

/// Twice the middle between the threshold and the next number, in the unit of the threshold's
/// significand.
pub const TWICE_MIDDLE: u128 = 0x147_ae15;

/// A finite number, in units of the smallest positive one, 2^-149.
pub open spec fn scaled_value(f: Float32) -> int {
    if f.negative_sign() {
        -(f.scaled_magnitude() as int)
    } else {
        f.scaled_magnitude() as int
    }
}

/// How far apart two finite numbers are, in units of 2^-149.
pub open spec fn distance(a: Float32, b: Float32) -> nat {
    let d = scaled_value(a) - scaled_value(b);
    if d < 0 {
        (-d) as nat
    } else {
        d as nat
    }
}

/// The rounded distance of two numbers exceeds the threshold. An infinity is infinitely far from any
/// other number, and neither it from itself nor anything from what is not a number has a distance.
pub open spec fn beyond_threshold(a: Float32, b: Float32) -> bool {
    if a.nan() || b.nan() {
        false
    } else if a.finite() && b.finite() {
        2 * distance(a, b) > TWICE_MIDDLE * pow2(120)
    } else {
        a != b
    }
}

/// The power of two by which the significand of a finite number is scaled.
spec fn scale(f: Float32) -> nat {
    if f.exponent() == 0 {
        0
    } else {
        (f.exponent() - 1) as nat
    }
}

/// The significand of a finite number.
spec fn significand(f: Float32) -> nat {
    if f.exponent() == 0 {
        f.fraction()
    } else {
        0x80_0000 + f.fraction()
    }
}

/// A magnitude is a significand times a power of two.
proof fn lemma_magnitude(f: Float32)
    ensures
        f.scaled_magnitude() == significand(f) * pow2(scale(f)),
        significand(f) < 0x100_0000,
        scale(f) > 0 ==> significand(f) >= 0x80_0000,
{
    lemma2_to64();
    vstd::arithmetic::mul::lemma_mul_basics(f.fraction() as int);
}

/// A power of two.
fn power(k: u32) -> (r: u128)
    requires
        k <= 62,
    ensures
        r == pow2(k as nat),
        r <= 0x4000_0000_0000_0000,
    decreases k,
{
    proof {
        lemma2_to64();
        lemma2_to64_rest();
        if k < 62 {
            lemma_pow2_strictly_increases(k as nat, 62);
        }
    }
    if k == 0 {
        1
    } else {
        proof {
            lemma_pow2_unfold(k as nat);
        }
        2 * power(k - 1)
    }
}

/// Where one scale is far above the other, the larger number decides.
proof fn lemma_far(sh: nat, eh: nat, sl: nat, el: nat, d: int)
    requires
        0x80_0000 <= sh < 0x100_0000,
        sl < 0x100_0000,
        eh > el + 60,
        -(sl * pow2(el)) <= d - sh * pow2(eh) <= sl * pow2(el),
    ensures
        2 * d > TWICE_MIDDLE * pow2(120) <==> eh > 120 || eh == 120 && sh > THRESHOLD_SIGNIFICAND,
{
    lemma2_to64();
    lemma2_to64_rest();
    let e = (eh - 37) as nat;
    let u = pow2(e) as int;
    lemma_pow2_pos(e);
    lemma_pow2_pos(el);
    // The smaller number is less than one unit.
    lemma_pow2_adds(24, el);
    if el + 24 < e {
        lemma_pow2_strictly_increases(el + 24, e);
    }
    let low = sl * pow2(el);
    assert(low < u) by (nonlinear_arith)
        requires
            low == sl * pow2(el),
            sl < 0x100_0000,
            pow2(el) > 0,
            0x100_0000 * pow2(el) <= u,
    ;
    lemma_pow2_adds(e, 37);
    let h = sh * 0x20_0000_0000;
    assert(sh * pow2(eh) == h * u) by (nonlinear_arith)
        requires
            pow2(eh) == u * 0x20_0000_0000,
            h == sh * 0x20_0000_0000,
    ;
    assert(2 * h * u - 2 * u < 2 * d < 2 * h * u + 2 * u) by (nonlinear_arith)
        requires
            -low <= d - h * u <= low,
            low < u,
    ;
    if eh > 120 {
        // The middle is at most 2^36 times the doubled significand.
        lemma_pow2_adds(120, (eh - 120) as nat);
        lemma_pow2_unfold((eh - 120) as nat);
        lemma_pow2_pos((eh - 121) as nat);
        let q = pow2((eh - 121) as nat) as int;
        assert(TWICE_MIDDLE * pow2(120) * 2 <= TWICE_MIDDLE * (u * 0x20_0000_0000))
            by (nonlinear_arith)
            requires
                pow2(120) * (2 * q) == u * 0x20_0000_0000,
                q >= 1,
                pow2(120) >= 0,
        ;
        assert(2 * d > TWICE_MIDDLE * pow2(120)) by (nonlinear_arith)
            requires
                2 * h * u - 2 * u < 2 * d,
                h >= 0x80_0000 * 0x20_0000_0000,
                u > 0,
                TWICE_MIDDLE * pow2(120) * 2 <= TWICE_MIDDLE * (u * 0x20_0000_0000),
                TWICE_MIDDLE == 0x147_ae15,
        ;
    } else if eh == 120 {
        assert(TWICE_MIDDLE * pow2(120) == (TWICE_MIDDLE * 0x20_0000_0000) * u)
            by (nonlinear_arith)
            requires
                pow2(120) == u * 0x20_0000_0000,
        ;
        if sh > THRESHOLD_SIGNIFICAND {
            assert(2 * h - 2 >= TWICE_MIDDLE * 0x20_0000_0000);
            assert(2 * h * u - 2 * u >= (TWICE_MIDDLE * 0x20_0000_0000) * u) by (nonlinear_arith)
                requires
                    2 * h - 2 >= TWICE_MIDDLE * 0x20_0000_0000,
                    u > 0,
            ;
        } else {
            assert(2 * h + 2 <= TWICE_MIDDLE * 0x20_0000_0000);
            assert(2 * h * u + 2 * u <= (TWICE_MIDDLE * 0x20_0000_0000) * u) by (nonlinear_arith)
                requires
                    2 * h + 2 <= TWICE_MIDDLE * 0x20_0000_0000,
                    u > 0,
            ;
        }
    } else {
        // The middle is at least 2^38 times the doubled significand.
        lemma_pow2_adds(eh, (120 - eh) as nat);
        lemma_pow2_unfold((120 - eh) as nat);
        lemma_pow2_pos((119 - eh) as nat);
        let q = pow2((119 - eh) as nat) as int;
        assert(TWICE_MIDDLE * pow2(120) >= (TWICE_MIDDLE * 0x40_0000_0000) * u) by (nonlinear_arith)
            requires
                pow2(120) == (u * 0x20_0000_0000) * (2 * q),
                q >= 1,
                u > 0,
        ;
        assert(2 * h + 2 <= TWICE_MIDDLE * 0x40_0000_0000);
        assert(2 * h * u + 2 * u <= (TWICE_MIDDLE * 0x40_0000_0000) * u) by (nonlinear_arith)
            requires
                2 * h + 2 <= TWICE_MIDDLE * 0x40_0000_0000,
                u > 0,
        ;
    }
}

/// A distance against the middle, both in units of the smaller scale.
fn near_beyond(d: u128, el: u32) -> (r: bool)
    requires
        d <= 0x20_0000_0000_0000_0000_0000,
        el <= 253,
    ensures
        r == (2 * (d * pow2(el as nat)) > TWICE_MIDDLE * pow2(120)),
{
    proof {
        lemma2_to64();
        lemma2_to64_rest();
        lemma_pow2_pos(120);
    }
    if el >= 120 {
        let shift: u32 = el - 120;
        proof {
            lemma_pow2_adds(120, shift as nat);
            lemma_pow2_pos(shift as nat);
            let p = pow2(120) as int;
            let q = pow2(shift as nat) as int;
            assert(2 * (d * pow2(el as nat)) == (2 * d * q) * p) by (nonlinear_arith)
                requires
                    pow2(el as nat) == p * q,
            ;
            assert((2 * d * q) * p > TWICE_MIDDLE * p <==> 2 * d * q > TWICE_MIDDLE)
                by (nonlinear_arith)
                requires
                    p > 0,
            ;
        }
        if shift >= 25 {
            proof {
                if shift > 25 {
                    lemma_pow2_strictly_increases(25, shift as nat);
                }
                let q = pow2(shift as nat) as int;
                assert(d > 0 ==> 2 * d * q >= 2 * q) by (nonlinear_arith)
                    requires
                        q > 0,
                ;
                assert(d == 0 ==> 2 * d * q == 0) by (nonlinear_arith);
            }
            d > 0
        } else {
            let q: u128 = power(shift);
            proof {
                lemma_pow2_strictly_increases(shift as nat, 25);
                assert(2 * d * q <= 0x40_0000_0000_0000_0000_0000 * 0x200_0000) by (nonlinear_arith)
                    requires
                        2 * d <= 0x40_0000_0000_0000_0000_0000,
                        q <= 0x200_0000,
                ;
            }
            2 * d * q > TWICE_MIDDLE
        }
    } else {
        let shift: u32 = 120 - el;
        proof {
            lemma_pow2_adds(el as nat, shift as nat);
            lemma_pow2_pos(el as nat);
            let p = pow2(el as nat) as int;
            let q = pow2(shift as nat) as int;
            assert(TWICE_MIDDLE * pow2(120) == (TWICE_MIDDLE * q) * p) by (nonlinear_arith)
                requires
                    pow2(120) == p * q,
            ;
            assert(2 * (d * p) == (2 * d) * p) by (nonlinear_arith);
            assert((2 * d) * p > (TWICE_MIDDLE * q) * p <==> 2 * d > TWICE_MIDDLE * q)
                by (nonlinear_arith)
                requires
                    p > 0,
            ;
        }
        if shift > 62 {
            proof {
                lemma_pow2_strictly_increases(62, shift as nat);
                let q = pow2(shift as nat) as int;
                assert(TWICE_MIDDLE * q >= 0x147_ae15 * 0x4000_0000_0000_0000) by (nonlinear_arith)
                    requires
                        q >= 0x4000_0000_0000_0000,
                        TWICE_MIDDLE == 0x147_ae15,
                ;
            }
            false
        } else {
            let q: u128 = power(shift);
            2 * d > TWICE_MIDDLE * q
        }
    }
}

/// The distance of two finite numbers, the first of the larger scale, against the middle.
fn finite_beyond(hi: Float32, lo: Float32) -> (r: bool)
    requires
        hi.finite(),
        lo.finite(),
        scale(hi) >= scale(lo),
    ensures
        r == (2 * distance(hi, lo) > TWICE_MIDDLE * pow2(120)),
{
    let (sh, eh) = parts(hi);
    let (sl, el) = parts(lo);
    let same_sign = (hi.bits >= 0x8000_0000) == (lo.bits >= 0x8000_0000);
    proof {
        lemma_magnitude(hi);
        lemma_magnitude(lo);
        lemma_pow2_pos(el as nat);
        lemma_pow2_pos(eh as nat);
    }
    if eh > el + 60 {
        proof {
            let h = sh * pow2(eh as nat);
            let l = sl * pow2(el as nat);
            lemma_far_larger(sh as nat, eh as nat, sl as nat, el as nat);
            assert(h > l >= 0);
            assert(distance(hi, lo) == if same_sign {
                h - l
            } else {
                h + l
            });
            lemma_far(sh as nat, eh as nat, sl as nat, el as nat, distance(hi, lo) as int);
        }
        eh > 120 || eh == 120 && sh > THRESHOLD_SIGNIFICAND
    } else {
        let gap: u32 = eh - el;
        let q: u128 = power(gap);
        proof {
            lemma2_to64();
            lemma2_to64_rest();
            if gap < 60 {
                lemma_pow2_strictly_increases(gap as nat, 60);
            }
            assert(q <= 0x1000_0000_0000_0000);
            assert(0 <= sh * q <= 0xff_ffff * 0x1000_0000_0000_0000) by (nonlinear_arith)
                requires
                    0 <= sh <= 0xff_ffff,
                    0 <= q <= 0x1000_0000_0000_0000,
            ;
        }
        let high: u128 = sh * q;
        let d: u128 = if !same_sign {
            high + sl
        } else if high >= sl {
            high - sl
        } else {
            sl - high
        };
        proof {
            lemma_pow2_adds(el as nat, gap as nat);
            let p = pow2(el as nat) as int;
            assert(sh * pow2(eh as nat) == high * p) by (nonlinear_arith)
                requires
                    pow2(eh as nat) == p * q,
                    high == sh * q,
            ;
            assert((high + sl) * p == high * p + sl * p) by (nonlinear_arith);
            assert((high - sl) * p == high * p - sl * p) by (nonlinear_arith);
            assert((sl - high) * p == sl * p - high * p) by (nonlinear_arith);
            assert(high >= sl ==> high * p >= sl * p) by (nonlinear_arith)
                requires
                    p > 0,
            ;
            assert(sl >= high ==> sl * p >= high * p) by (nonlinear_arith)
                requires
                    p > 0,
            ;
            assert(high * p >= 0 && sl * p >= 0) by (nonlinear_arith)
                requires
                    p > 0,
                    high >= 0,
                    sl >= 0,
            ;
            assert(distance(hi, lo) == d * p);
        }
        near_beyond(d, el)
    }
}

/// A number of a far larger scale is larger.
proof fn lemma_far_larger(sh: nat, eh: nat, sl: nat, el: nat)
    requires
        sh >= 0x80_0000,
        sl < 0x100_0000,
        eh > el + 60,
    ensures
        sh * pow2(eh) > sl * pow2(el),
        sl * pow2(el) >= 0,
{
    lemma2_to64();
    lemma_pow2_adds(el, (eh - el) as nat);
    lemma_pow2_strictly_increases(1, (eh - el) as nat);
    lemma_pow2_pos(el);
    let p = pow2(el) as int;
    let q = pow2((eh - el) as nat) as int;
    assert(sh * pow2(eh) > sl * p && sl * p >= 0) by (nonlinear_arith)
        requires
            pow2(eh) == p * q,
            p > 0,
            q > 2,
            sh >= 0x80_0000,
            sl < 0x100_0000,
            sl >= 0,
    ;
}

/// The significand of a finite number and the power of two by which it is scaled.
fn parts(f: Float32) -> (r: (u128, u32))
    ensures
        r.0 == significand(f),
        r.1 == scale(f),
        r.1 <= 254,
        f.finite() ==> r.1 <= 253,
{
    let exponent: u32 = (f.bits / 0x80_0000) % 0x100;
    let fraction: u32 = f.bits % 0x80_0000;
    if exponent == 0 {
        (fraction as u128, 0)
    } else {
        (0x80_0000 + fraction as u128, exponent - 1)
    }
}

/// Whether the rounded distance of two numbers exceeds the threshold.
pub fn is_beyond_threshold(a: Float32, b: Float32) -> (r: bool)
    ensures
        r == beyond_threshold(a, b),
{
    if a.is_nan() || b.is_nan() {
        return false;
    }
    if !a.is_finite() || !b.is_finite() {
        return a != b;
    }
    if parts(a).1 >= parts(b).1 {
        finite_beyond(a, b)
    } else {
        finite_beyond(b, a)
    }
}

/// Nothing is beyond the threshold from itself, and the order of two numbers does not matter.
pub proof fn law_threshold_is_symmetric(a: Float32, b: Float32)
    ensures
        !beyond_threshold(a, a),
        beyond_threshold(a, b) == beyond_threshold(b, a),
{
    lemma_pow2_pos(120);
    assert(TWICE_MIDDLE * pow2(120) >= 0) by (nonlinear_arith)
        requires
            pow2(120) > 0,
    ;
}

/// Two finite numbers are beyond the threshold just where twice their distance is more than
/// 21474837 times 2^-29, which is the sum of 0.02 to the nearest number and the number after it.
/// What is not a number is beyond the threshold from nothing, an infinity from everything else.
pub proof fn law_threshold(a: Float32, b: Float32)
    ensures
        a.finite() && b.finite() ==> ({
            let x = if a.bits < 0x8000_0000 {
                a.scaled_magnitude() as int
            } else {
                -a.scaled_magnitude()
            };
            let y = if b.bits < 0x8000_0000 {
                b.scaled_magnitude() as int
            } else {
                -b.scaled_magnitude()
            };
            beyond_threshold(a, b) <==> 2 * (x - y) > 21474837 * pow2(120) || 2 * (y - x)
                > 21474837 * pow2(120)
        }),
        a.nan() || b.nan() ==> !beyond_threshold(a, b),
        !a.nan() && !b.nan() && !(a.finite() && b.finite()) ==> (beyond_threshold(a, b) <==> a.bits
            != b.bits),
{
    lemma_pow2_pos(120);
    assert(21474837 * pow2(120) >= 0) by (nonlinear_arith)
        requires
            pow2(120) > 0,
    ;
}

/// A gaze that moves on the same way stays beyond the threshold, and one that comes back stays
/// within it.
pub proof fn law_threshold_grows_with_the_distance(a: Float32, b: Float32, c: Float32)
    requires
        a.finite(),
        b.finite(),
        c.finite(),
        scaled_value(a) <= scaled_value(b) <= scaled_value(c),
    ensures
        beyond_threshold(a, b) ==> beyond_threshold(a, c),
        beyond_threshold(b, c) ==> beyond_threshold(a, c),
{
}

} // verus!
