//! From a viewport's extent in device pixels to the half extent that the
//! edges of the screen lie at.
//!
//! A pixel count below 2^24 is a binary32 number as it stands. Above that
//! the format keeps 24 significant bits, and a count is rounded to the
//! nearest number the format has: to the even one where two are equally
//! near. Halving what comes out is exact.

use vstd::arithmetic::div_mod::lemma_fundamental_div_mod_converse;
use vstd::arithmetic::power2::{
    lemma2_to64, lemma_pow2_adds, lemma_pow2_pos, lemma_pow2_strictly_increases,
    lemma_pow2_unfold, pow2,
};
use vstd::prelude::*;
use crate::scalar::{lemma_size_increases, Scalar, HIDDEN_BIT};

verus! {

/// The distance between neighbouring binary32 numbers around `n`: 1 below
/// 2^24, and twice as much with every further bit that `n` takes.
pub open spec fn spacing(n: nat) -> nat
    decreases n,
{
    if n < 0x100_0000 {
        1
    } else {
        2 * spacing(n / 2)
    }
}

/// `n` rounded to a multiple of its spacing: to the nearest one, and of two
/// equally near to the one that is an even multiple.
pub open spec fn rounded(n: nat) -> nat {
    let d = spacing(n);
    let q = n / d;
    let r = n % d;
    if 2 * r > d || (2 * r == d && q % 2 == 1) {
        (q + 1) * d
    } else {
        q * d
    }
}

/// Half of `pixels` as binary32 has it: the number, neither negative nor
/// undefined, whose value is half of the rounded pixel count. Values count
/// in units of 2^-149, so half a pixel is 2^148 of them.
pub open spec fn half_extent_of(pixels: u32) -> Scalar {
    choose|s: Scalar| !s.negative() && s.value() == rounded(pixels as nat) * pow2(148)
}

/// Between 2^e and 2^(e+1) the spacing is 1 up to e = 23 and 2^(e-23) from
/// there on.
proof fn lemma_spacing(n: nat, e: nat)
    requires
        pow2(e) <= n < 2 * pow2(e),
    ensures
        spacing(n) == if e < 24 {
            1
        } else {
            pow2((e - 23) as nat)
        },
    decreases e,
{
    lemma2_to64();
    if e < 24 {
        lemma_pow2_unfold(e + 1);
        if e + 1 < 24 {
            lemma_pow2_strictly_increases(e + 1, 24);
        }
    } else {
        if 24 < e {
            lemma_pow2_strictly_increases(24, e);
        }
        lemma_pow2_unfold(e);
        lemma_spacing(n / 2, (e - 1) as nat);
        if e > 24 {
            lemma_pow2_unfold((e - 23) as nat);
        }
    }
}

/// A scalar that is not negative is told apart by its value alone.
proof fn lemma_value_names_one_scalar(a: Scalar, b: Scalar)
    requires
        !a.negative(),
        !b.negative(),
        a.value() == b.value(),
    ensures
        a == b,
{
    if a.magnitude() < b.magnitude() {
        lemma_size_increases(a, b);
    }
    if b.magnitude() < a.magnitude() {
        lemma_size_increases(b, a);
    }
}

/// The scalar with exponent field `exponent` and a significand of `q`
/// counts 2^(exponent - 1) units for each of `q`.
proof fn lemma_value_of_fields(s: Scalar, exponent: int, q: int)
    requires
        1 <= exponent < 255,
        HIDDEN_BIT <= q < 2 * HIDDEN_BIT,
        s.bits == exponent * HIDDEN_BIT + (q - HIDDEN_BIT),
    ensures
        !s.negative(),
        !s.nan(),
        s.value() == q * pow2((exponent - 1) as nat),
{
    let h = HIDDEN_BIT as int;
    assert(exponent * h + (q - h) < 255 * h) by (nonlinear_arith)
        requires
            exponent < 255,
            q - h < h,
            h > 0,
    ;
    lemma_fundamental_div_mod_converse(s.magnitude(), h, exponent, q - h);
}

/// Half of a viewport extent of `pixels` device pixels.
pub fn half_extent(pixels: u32) -> (half: Scalar)
    ensures
        half == half_extent_of(pixels),
        !half.negative(),
        !half.nan(),
        half.value() == rounded(pixels as nat) * pow2(148),
{
    proof {
        lemma2_to64();
    }
    let n: u64 = pixels as u64;
    let ghost target = rounded(pixels as nat) * pow2(148);
    let half = if n == 0 {
        let zero = Scalar { bits: 0 };
        assert(zero.value() == 0);
        assert(rounded(0) == 0) by {
            assert(spacing(0) == 1);
        }
        assert(target == 0);
        zero
    } else {
        let mut e: u64 = 0;
        let mut p: u64 = 1;
        while 2 * p <= n
            invariant
                p == pow2(e as nat),
                1 <= p <= n,
                n < 0x1_0000_0000,
                e <= 31,
            decreases n - p,
        {
            proof {
                lemma2_to64();
                lemma_pow2_unfold((e + 1) as nat);
            }
            p = 2 * p;
            e = e + 1;
        }
        proof {
            lemma_spacing(n as nat, e as nat);
            lemma_pow2_pos((125 + e) as nat);
        }
        let ghost unit = pow2((125 + e) as nat) as int;
        if p < 0x100_0000 {
            let scale: u64 = 0x80_0000 / p;
            proof {
                if e < 23 {
                    lemma_pow2_strictly_increases(e as nat, 23);
                } else if e > 23 {
                    lemma_pow2_strictly_increases(23, e as nat);
                }
                lemma_pow2_adds((23 - e) as nat, e as nat);
                lemma_pow2_pos((23 - e) as nat);
                let s = pow2((23 - e) as nat) as int;
                assert(s * p == 0x80_0000);
                lemma_fundamental_div_mod_converse(0x80_0000, p as int, s, 0);
                assert(scale == s);
                assert(0x80_0000 <= n * scale < 0x100_0000) by (nonlinear_arith)
                    requires
                        scale * p == 0x80_0000,
                        p <= n < 2 * p,
                        scale >= 1,
                ;
            }
            let q: u64 = n * scale;
            let bits: u64 = (126 + e) * 0x80_0000 + (q - 0x80_0000);
            let half = Scalar { bits: bits as u32 };
            proof {
                lemma_value_of_fields(half, 126 + e, q as int);
                lemma_pow2_adds((23 - e) as nat, (125 + e) as nat);
                assert(rounded(n as nat) == n) by {
                    assert(spacing(n as nat) == 1);
                }
                assert(q * unit == n * pow2(148)) by (nonlinear_arith)
                    requires
                        q == n * scale,
                        scale * unit == pow2(148),
                ;
            }
            half
        } else {
            let d: u64 = p / 0x80_0000;
            proof {
                lemma_pow2_strictly_increases(23, e as nat);
                lemma_pow2_adds((e - 23) as nat, 23);
                lemma_pow2_pos((e - 23) as nat);
                let s = pow2((e - 23) as nat) as int;
                assert(s * 0x80_0000 == p);
                lemma_fundamental_div_mod_converse(p as int, 0x80_0000, s, 0);
                assert(d == s);
                assert(d == spacing(n as nat));
            }
            let q0: u64 = n / d;
            let r: u64 = n % d;
            proof {
                assert(n == d * q0 + r && 0 <= r < d) by (nonlinear_arith)
                    requires
                        q0 == n / d,
                        r == n % d,
                        d > 0,
                        n >= 0,
                ;
                assert(0x80_0000 <= q0 < 0x100_0000) by (nonlinear_arith)
                    requires
                        n == d * q0 + r,
                        0 <= r < d,
                        d * 0x80_0000 == p,
                        p <= n < 2 * p,
                ;
            }
            let up: bool = 2 * r > d || (2 * r == d && q0 % 2 == 1);
            let q1: u64 = if up {
                q0 + 1
            } else {
                q0
            };
            assert(rounded(n as nat) == q1 * d);
            let carried: bool = q1 == 0x100_0000;
            let q: u64 = if carried {
                0x80_0000
            } else {
                q1
            };
            let exponent: u64 = if carried {
                127 + e
            } else {
                126 + e
            };
            let bits: u64 = exponent * 0x80_0000 + (q - 0x80_0000);
            let half = Scalar { bits: bits as u32 };
            proof {
                lemma_value_of_fields(half, exponent as int, q as int);
                lemma_pow2_adds((e - 23) as nat, 148);
                lemma_pow2_unfold((126 + e) as nat);
                assert(unit == d * pow2(148));
                assert(half.value() == q1 * unit) by (nonlinear_arith)
                    requires
                        half.value() == q * pow2((exponent - 1) as nat),
                        carried ==> q1 == 2 * q && pow2((exponent - 1) as nat) == 2 * unit,
                        !carried ==> q1 == q && pow2((exponent - 1) as nat) == unit,
                ;
                assert(q1 * unit == (q1 * d) * pow2(148)) by (nonlinear_arith)
                    requires
                        unit == d * pow2(148),
                ;
            }
            half
        }
    };
    proof {
        assert(!half.negative() && half.value() == target);
        let chosen = half_extent_of(pixels);
        lemma_value_names_one_scalar(half, chosen);
    }
    half
}

} // verus!
