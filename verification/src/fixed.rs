//! 16.16 fixed-point arithmetic: the number representation shared by the
//! whole viewport model, and the one truncating scale operation every
//! per-frame update is built from.

use vstd::prelude::*;

verus! {

/// One unit in the 16.16 fixed-point representation: a real value `v` is
/// stored as `v * 65536`, truncated toward zero.
pub const FP_ONE: i32 = 65536;

/// Sign selected by a pair of opposing held axes: `+1` if only `pos` is
/// held, `-1` if only `neg` is held, `0` on a tie or when neither is held.
pub open spec fn sign(pos: bool, neg: bool) -> int {
    if pos && !neg {
        1
    } else if neg && !pos {
        -1
    } else {
        0
    }
}

/// Division truncated toward zero (the rounding of the executable code),
/// defined for a positive divisor.
pub open spec fn div_trunc(a: int, d: int) -> int
    recommends
        d > 0,
{
    if a >= 0 {
        a / d
    } else {
        -((-a) / d)
    }
}

/// Executable form of `sign`.
pub fn sign_val(pos: bool, neg: bool) -> (s: i64)
    ensures
        s == sign(pos, neg),
{
    if pos && !neg {
        1
    } else if neg && !pos {
        -1
    } else {
        0
    }
}

/// One pan or zoom step: `div_trunc(dt * fov * num, den)`, computed in
/// integers wide enough that no intermediate can overflow.
pub fn fp_step(dt: u64, fov: i32, num: u64, den: u64) -> (r: i128)
    requires
        1 <= num <= 3,
        den >= 1,
    ensures
        r == div_trunc(dt * fov * num, den as int),
        -0x2000000000000000000000000 <= r <= 0x2000000000000000000000000,
{
    proof {
        assert((dt as int) * (num as int) <= 0xffff_ffff_ffff_ffff * 3) by (nonlinear_arith)
            requires
                dt <= 0xffff_ffff_ffff_ffff,
                1 <= num <= 3,
        ;
    }
    let dtn: u128 = (dt as u128) * (num as u128);
    if fov >= 0 {
        proof {
            assert((dtn as int) * (fov as int) <= 0x2_ffff_ffff_ffff_fffd * 0x7fff_ffff)
                by (nonlinear_arith)
                requires
                    0 <= dtn <= 0x2_ffff_ffff_ffff_fffd,
                    0 <= fov <= 0x7fff_ffff,
            ;
        }
        let p: u128 = dtn * (fov as u128);
        let q: u128 = p / (den as u128);
        proof {
            vstd::arithmetic::div_mod::lemma_div_nonincreasing(p as int, den as int);
            assert(dt * fov * num == (dt * num) * fov) by (nonlinear_arith);
        }
        q as i128
    } else {
        let negf: i64 = -(fov as i64);
        proof {
            assert((dtn as int) * (negf as int) <= 0x2_ffff_ffff_ffff_fffd * 0x8000_0000)
                by (nonlinear_arith)
                requires
                    0 <= dtn <= 0x2_ffff_ffff_ffff_fffd,
                    0 <= negf <= 0x8000_0000,
            ;
        }
        let mag: u128 = dtn * (negf as u128);
        let q: u128 = mag / (den as u128);
        proof {
            vstd::arithmetic::div_mod::lemma_div_nonincreasing(mag as int, den as int);
            assert(-(dt * fov * num) == (dt * num) * (-(fov as int))) by (nonlinear_arith);
        }
        -(q as i128)
    }
}

/// One extent component: `div_trunc(fov * dim, longest)`, where `dim` is one
/// window dimension and `longest` the larger of the two. The result never
/// exceeds `fov` in magnitude, so it always fits back into an `i32`.
pub fn extent_axis(fov: i32, dim: u32, longest: u32) -> (e: i32)
    requires
        longest >= 1,
        dim <= longest,
    ensures
        e == div_trunc(fov * dim, longest as int),
{
    if fov >= 0 {
        proof {
            assert((fov as int) * (dim as int) <= 0x7fff_ffff * 0xffff_ffff)
                by (nonlinear_arith)
                requires
                    0 <= fov <= 0x7fff_ffff,
                    0 <= dim <= 0xffff_ffff,
            ;
        }
        let p: u64 = (fov as u64) * (dim as u64);
        let q: u64 = p / (longest as u64);
        proof {
            lemma_scaled_quotient_bounded(fov as int, dim as int, longest as int);
        }
        q as i32
    } else {
        let neg: i64 = -(fov as i64);
        proof {
            assert((neg as int) * (dim as int) <= 0x8000_0000 * 0xffff_ffff)
                by (nonlinear_arith)
                requires
                    0 <= neg <= 0x8000_0000,
                    0 <= dim <= 0xffff_ffff,
            ;
        }
        let m: u64 = (neg as u64) * (dim as u64);
        let q: u64 = m / (longest as u64);
        proof {
            lemma_scaled_quotient_bounded(neg as int, dim as int, longest as int);
            assert(-(fov * dim) == (neg as int) * (dim as int)) by (nonlinear_arith)
                requires
                    neg == -(fov as int),
            ;
        }
        let e64: i64 = -(q as i64);
        e64 as i32
    }
}

/// Scaling by an axis sign (`-1`, `0` or `+1`) never grows a magnitude:
/// the product stays within the bound of the scaled value.
pub proof fn lemma_sign_times(s: int, d: int, m: int)
    requires
        -1 <= s <= 1,
        -m <= d <= m,
        0 <= m,
    ensures
        -m <= s * d <= m,
        s == 1 ==> s * d == d,
        s == -1 ==> s * d == -d,
        s == 0 ==> s * d == 0,
{
    if s == 1 {
        assert(s * d == d) by (nonlinear_arith)
            requires
                s == 1,
        ;
    } else if s == -1 {
        assert(s * d == -d) by (nonlinear_arith)
            requires
                s == -1,
        ;
    } else {
        assert(s * d == 0) by (nonlinear_arith)
            requires
                s == 0,
        ;
    }
}

/// For `0 <= u`, `0 <= dim <= longest` and `longest >= 1`, the scaled
/// quotient `(u * dim) / longest` stays between `0` and `u`.
proof fn lemma_scaled_quotient_bounded(u: int, dim: int, longest: int)
    requires
        0 <= u,
        0 <= dim <= longest,
        longest >= 1,
    ensures
        0 <= (u * dim) / longest <= u,
{
    vstd::arithmetic::mul::lemma_mul_nonnegative(u, dim);
    vstd::arithmetic::div_mod::lemma_div_pos_is_pos(u * dim, longest);
    vstd::arithmetic::mul::lemma_mul_inequality(dim, longest, u);
    assert(dim * u <= longest * u);
    assert(u * dim == dim * u) by (nonlinear_arith);
    assert(u * longest == longest * u) by (nonlinear_arith);
    vstd::arithmetic::div_mod::lemma_div_is_ordered(u * dim, longest * u, longest);
    vstd::arithmetic::div_mod::lemma_div_multiples_vanish(u, longest);
}

} // verus!
