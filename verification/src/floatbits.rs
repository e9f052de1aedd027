//! Floating-point payloads, held as IEEE-754 bit patterns.
//!
//! The demuxer never computes with floating-point values; it only moves them
//! from the wire to the caller. A float payload is therefore held as the bit
//! pattern of an IEEE-754 binary64 value, and a 4-byte payload is widened to
//! it bit-exactly: every binary32 value is exactly representable in binary64.

use vstd::arithmetic::power2::{lemma2_to64, pow2};
use vstd::prelude::*;

verus! {

/// Doubles `frac` until its bit 23 is set, lowering the biased exponent by
/// one for every doubling. Returns the pair unchanged when `frac` is zero.
pub open spec fn norm_subnormal(frac: nat, e: int) -> (nat, int)
    decreases (if frac <= 0x800000 { (0x800000 - frac) as nat } else { 0 }),
{
    if frac == 0 {
        (frac, e)
    } else if frac < 0x800000 {
        norm_subnormal(frac * 2, e - 1)
    } else {
        (frac, e)
    }
}

/// The binary64 bit pattern that holds exactly the binary32 value with bit
/// pattern `b`: the exponent is re-biased from 127 to 1023, the mantissa
/// gains 29 low zero bits, subnormals are normalized, and infinities and
/// NaNs map to their binary64 counterparts.
pub open spec fn f32_bits_widened(b: u32) -> u64 {
    let sign = (b as nat) / 0x80000000;
    let e = ((b as nat) / 0x800000) % 0x100;
    let m = (b as nat) % 0x800000;
    if e == 0xff {
        (sign * 0x8000000000000000 + 0x7ff0000000000000 + m * 0x20000000) as u64
    } else if e == 0 && m == 0 {
        (sign * 0x8000000000000000) as u64
    } else if e == 0 {
        let t = norm_subnormal(m, 897);
        (sign * 0x8000000000000000 + t.1 * 0x10000000000000 + (t.0 - 0x800000)
            * 0x20000000) as u64
    } else {
        (sign * 0x8000000000000000 + (e + 896) * 0x10000000000000 + m * 0x20000000) as u64
    }
}

/// Widens a binary32 bit pattern to the binary64 bit pattern of the same
/// value.
pub fn widen_f32_bits(b: u32) -> (r: u64)
    ensures
        r == f32_bits_widened(b),
{
    let sign: u64 = (b / 0x80000000) as u64;
    let e: u64 = ((b / 0x800000) % 0x100) as u64;
    let m: u64 = (b % 0x800000) as u64;
    if e == 0xff {
        sign * 0x8000000000000000 + 0x7ff0000000000000 + m * 0x20000000
    } else if e == 0 && m == 0 {
        sign * 0x8000000000000000
    } else if e == 0 {
        let mut frac: u64 = m;
        let mut eb: u64 = 897;
        proof {
            lemma2_to64();
            assert(pow2(0) == 1);
            assert(m * pow2(0) == m) by (nonlinear_arith)
                requires
                    pow2(0) == 1,
            ;
        }
        while frac < 0x800000
            invariant
                1 <= m < 0x800000,
                874 <= eb <= 897,
                frac as nat == m * pow2((897 - eb) as nat),
                frac < 0x1000000,
                norm_subnormal(m as nat, 897) == norm_subnormal(frac as nat, eb as int),
            decreases (if frac <= 0x800000 { (0x800000 - frac) as nat } else { 0 }),
        {
            proof {
                lemma2_to64();
                if eb == 874 {
                    assert(frac as nat == m * pow2(23));
                    assert(m * pow2(23) >= pow2(23)) by (nonlinear_arith)
                        requires
                            m >= 1,
                    ;
                }
                assert(pow2((897 - (eb - 1)) as nat) == 2 * pow2((897 - eb) as nat)) by {
                    vstd::arithmetic::power2::lemma_pow2_unfold((897 - (eb - 1)) as nat);
                }
                assert(m * (2 * pow2((897 - eb) as nat)) == (m * pow2((897 - eb) as nat)) * 2)
                    by (nonlinear_arith);
                assert(frac >= 1) by (nonlinear_arith)
                    requires
                        m >= 1,
                        pow2((897 - eb) as nat) >= 1,
                        frac as nat == m * pow2((897 - eb) as nat),
                ;
                assert(norm_subnormal(frac as nat, eb as int) == norm_subnormal(
                    (frac * 2) as nat,
                    eb - 1,
                ));
            }
            frac = frac * 2;
            eb = eb - 1;
        }
        sign * 0x8000000000000000 + eb * 0x10000000000000 + (frac - 0x800000) * 0x20000000
    } else {
        sign * 0x8000000000000000 + (e + 896) * 0x10000000000000 + m * 0x20000000
    }
}

/// Whether the binary64 value with bit pattern `b` is strictly below zero.
/// Negative zero and NaNs do not count as negative, as in a float compare.
pub open spec fn f64_bits_is_negative(b: u64) -> bool {
    let sign = (b as nat) / 0x8000000000000000;
    let e = ((b as nat) / 0x10000000000000) % 0x800;
    let frac = (b as nat) % 0x10000000000000;
    sign == 1 && !(e == 0 && frac == 0) && !(e == 0x7ff && frac != 0)
}

/// Tests whether the binary64 value with bit pattern `b` is strictly below
/// zero.
pub fn is_negative_f64_bits(b: u64) -> (r: bool)
    ensures
        r == f64_bits_is_negative(b),
{
    let sign: u64 = b / 0x8000000000000000;
    let e: u64 = (b / 0x10000000000000) % 0x800;
    let frac: u64 = b % 0x10000000000000;
    sign == 1 && !(e == 0 && frac == 0) && !(e == 0x7ff && frac != 0)
}

} // verus!
