//! Integer time model of the decoder.
//!
//! The container stores a frame's start as GPS seconds plus residual
//! nanoseconds (two unsigned integers) and its duration as an IEEE-754
//! binary64 value.  This module keeps all time arithmetic in whole
//! nanoseconds: the start instant is exact, and the duration's bit pattern
//! is converted to nanoseconds (rounded toward zero, saturating at
//! `u64::MAX`) by exact integer arithmetic on its sign, exponent and
//! mantissa.  Negative durations count as zero; non-finite ones saturate.

use vstd::prelude::*;

verus! {

pub const NANOS_PER_SEC: u64 = 1_000_000_000;

/// Sign bit of an IEEE-754 binary64 bit pattern.
pub open spec fn f64_sign(b: u64) -> bool {
    (b >> 63) & 1 == 1
}

/// Biased exponent field of an IEEE-754 binary64 bit pattern.
pub open spec fn f64_exp(b: u64) -> u64 {
    (b >> 52) & 0x7FF
}

/// Fraction field of an IEEE-754 binary64 bit pattern.
pub open spec fn f64_frac(b: u64) -> u64 {
    b & 0xF_FFFF_FFFF_FFFF
}

/// Effective mantissa: the fraction with the implicit leading bit when the
/// exponent field is nonzero.
pub open spec fn f64_mant(b: u64) -> u64 {
    if f64_exp(b) == 0 {
        f64_frac(b)
    } else {
        (f64_frac(b) + 0x10_0000_0000_0000) as u64
    }
}

/// Whole nanoseconds in the non-negative binary64 duration with bit pattern
/// `b`, rounded toward zero.  A negative or NaN-signed pattern counts as 0;
/// the infinities and NaN with clear sign count as their unbounded formula
/// value, which saturates in the executable conversion.
pub open spec fn f64_ns(b: u64) -> nat {
    if f64_sign(b) {
        0
    } else {
        let e = f64_exp(b) as int;
        let m = f64_mant(b) as nat;
        if e >= 1075 {
            (m * NANOS_PER_SEC * vstd::arithmetic::power2::pow2((e - 1075) as nat)) as nat
        } else if e == 0 {
            ((m * NANOS_PER_SEC) / vstd::arithmetic::power2::pow2(1074) as int) as nat
        } else {
            ((m * NANOS_PER_SEC) / vstd::arithmetic::power2::pow2((1075 - e) as nat) as int) as nat
        }
    }
}

/// 2^sh as a `u128`, computed by repeated doubling.
fn pow2_u128(sh: u64) -> (r: u128)
    requires
        sh < 96,
    ensures
        r == vstd::arithmetic::power2::pow2(sh as nat),
{
    let mut d: u128 = 1;
    let mut i: u64 = 0;
    proof {
        vstd::arithmetic::power2::lemma2_to64();
    }
    while i < sh
        invariant
            i <= sh < 96,
            d == vstd::arithmetic::power2::pow2(i as nat),
        decreases sh - i,
    {
        proof {
            vstd::arithmetic::power2::lemma_pow2_strictly_increases(i as nat, 96);
            vstd::arithmetic::power2::lemma_pow2_unfold((i + 1) as nat);
            assert(vstd::arithmetic::power2::pow2(96) == 0x1000000000000000000000000) by {
                vstd::arithmetic::power2::lemma2_to64();
                vstd::arithmetic::power2::lemma_pow2_adds(64, 32);
            }
        }
        d = d * 2;
        i = i + 1;
    }
    d
}

/// Convert a binary64 duration bit pattern to whole nanoseconds, rounded
/// toward zero and saturating at `u64::MAX`.
pub fn f64_bits_to_ns(b: u64) -> (r: u64)
    ensures
        r == if f64_ns(b) > u64::MAX { u64::MAX as nat } else { f64_ns(b) },
{
    proof {
        vstd::arithmetic::power2::lemma2_to64();
    }
    if (b >> 63) != 0 {
        proof {
            assert((b >> 63) != 0 ==> ((b >> 63) & 1 == 1)) by (bit_vector);
        }
        return 0;
    }
    proof {
        assert((b >> 63) == 0 ==> ((b >> 63) & 1 != 1)) by (bit_vector);
    }
    let e: u64 = (b >> 52) & 0x7FF;
    let frac: u64 = b & 0xF_FFFF_FFFF_FFFF;
    let m: u64 = if e == 0 {
        frac
    } else {
        proof {
            assert(b & 0xF_FFFF_FFFF_FFFF <= 0xF_FFFF_FFFF_FFFF) by (bit_vector);
        }
        frac + 0x10_0000_0000_0000
    };
    proof {
        assert(b & 0xF_FFFF_FFFF_FFFF <= 0xF_FFFF_FFFF_FFFF) by (bit_vector);
        assert(m < 0x20_0000_0000_0000);
        assert(m == f64_mant(b));
    }
    if e >= 1075 {
        // At least 2^52 whole seconds: far beyond what 64-bit nanoseconds
        // can hold, for every such exponent.
        proof {
            let p = vstd::arithmetic::power2::pow2((e - 1075) as nat);
            vstd::arithmetic::power2::lemma_pow2_pos((e - 1075) as nat);
            assert(m >= 0x10_0000_0000_0000);
            assert(m * NANOS_PER_SEC * p >= 0x10_0000_0000_0000 * NANOS_PER_SEC * 1)
                by (nonlinear_arith)
                requires
                    m >= 0x10_0000_0000_0000,
                    p >= 1,
            ;
        }
        return u64::MAX;
    }
    let sh: u64 = if e == 0 {
        1074
    } else {
        1075 - e
    };
    let x: u128 = (m as u128) * (NANOS_PER_SEC as u128);
    proof {
        assert(x < 0x20_0000_0000_0000 * 0x40000000) by (nonlinear_arith)
            requires
                x == m * NANOS_PER_SEC,
                m < 0x20_0000_0000_0000,
        ;
        assert(vstd::arithmetic::power2::pow2(83) == 0x20_0000_0000_0000 * 0x40000000) by {
            vstd::arithmetic::power2::lemma2_to64();
            vstd::arithmetic::power2::lemma2_to64_rest();
            vstd::arithmetic::power2::lemma_pow2_adds(53, 30);
        }
    }
    if sh >= 83 {
        proof {
            if sh > 83 {
                vstd::arithmetic::power2::lemma_pow2_strictly_increases(83, sh as nat);
            }
            vstd::arithmetic::div_mod::lemma_basic_div(
                x as int,
                vstd::arithmetic::power2::pow2(sh as nat) as int,
            );
        }
        return 0;
    }
    let d: u128 = pow2_u128(sh);
    proof {
        vstd::arithmetic::power2::lemma_pow2_pos(sh as nat);
    }
    let q: u128 = x / d;
    if q > u64::MAX as u128 {
        u64::MAX
    } else {
        q as u64
    }
}

/// The frame's exact start instant in nanoseconds: GPS seconds plus the
/// residual nanosecond count.
pub fn gps_ns(sec: u32, nano: u32) -> (r: u64)
    ensures
        r == sec * NANOS_PER_SEC + nano,
{
    (sec as u64) * NANOS_PER_SEC + (nano as u64)
}

/// A span `[fs, fe]` overlaps the query window `[qs, qe]` unless it lies
/// entirely after the window's end or entirely before its start.
pub open spec fn window_overlaps(fs: int, fe: int, qs: int, qe: int) -> bool {
    !((fs > qe && fe > qe) || (fs < qs && fe < qs))
}

/// Decide the time-window filter of frame traversal.
pub fn window_accepts(fs: u64, fe: u64, qs: u64, qe: u64) -> (r: bool)
    ensures
        r == window_overlaps(fs as int, fe as int, qs as int, qe as int),
{
    !((fs > qe && fe > qe) || (fs < qs && fe < qs))
}

} // verus!
