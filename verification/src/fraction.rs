use vstd::prelude::*;

verus! {

// The cap on flagged anomalies is floor(n * max_anoms), where the fraction
// max_anoms arrives as a binary32 bit pattern. The product is computed
// exactly with integer arithmetic over the pattern's bit fields: a finite
// positive binary32 with biased exponent e and fraction field f has the
// value m * 2^(e - 150), where m is f itself for a subnormal (e = 0) and
// f with the hidden bit set otherwise, so floor(n * value) is the integer
// product n * m shifted right by 150 - e. The product n * m stays below
// 2^88, so a right shift of 88 or more yields 0.

/// floor(n * k) for a binary32 bit pattern k. Exact whenever k is below
/// 2^23, which covers every fraction in [0, 1]; negative values, -0.0 and
/// NaN floor to 0, and positive infinity, any k of 2^23 or more, and any
/// product beyond `usize::MAX` saturate the cap to `usize::MAX`.
pub open spec fn spec_frac_floor(n: usize, k: u32) -> usize {
    let e = (k >> 23) & 0xFF;
    let f = k & 0x007F_FFFF;
    if k >= 0x8000_0000 {
        0
    } else if e == 0xFF {
        if f == 0 {
            usize::MAX
        } else {
            0
        }
    } else {
        let m = (if e == 0 {
            f
        } else {
            f | 0x0080_0000
        }) as u128;
        let p = ((n as u128) * m) as u128;
        if e >= 150 {
            if p == 0 {
                0
            } else {
                usize::MAX
            }
        } else {
            if 150 - e >= 88 {
                0
            } else {
                let q = p >> ((150 - e) as u128);
                if q > usize::MAX as u128 {
                    usize::MAX
                } else {
                    q as usize
                }
            }
        }
    }
}

pub fn frac_floor(n: usize, k: u32) -> (r: usize)
    ensures
        r == spec_frac_floor(n, k),
{
    let e: u32 = (k >> 23) & 0xFF;
    let f: u32 = k & 0x007F_FFFF;
    if k >= 0x8000_0000 {
        0
    } else if e == 0xFF {
        if f == 0 {
            usize::MAX
        } else {
            0
        }
    } else {
        let m: u128 = (if e == 0 {
            f
        } else {
            f | 0x0080_0000
        }) as u128;
        proof {
            let kk = k;
            assert((kk & 0x007F_FFFF) | 0x0080_0000 <= 0x00FF_FFFF && kk & 0x007F_FFFF
                <= 0x00FF_FFFF) by (bit_vector);
            assert((n as u128) <= 0xFFFF_FFFF_FFFF_FFFFu128);
            assert(((n as u128) <= 0xFFFF_FFFF_FFFF_FFFFu128 && m <= 0x00FF_FFFFu128) ==> (
            n as u128) * m < 0x1_0000_0000_0000_0000_0000_0000u128) by (nonlinear_arith);
        }
        let p: u128 = (n as u128) * m;
        if e >= 150 {
            if p == 0 {
                0
            } else {
                usize::MAX
            }
        } else {
            if 150 - e >= 88 {
                0
            } else {
                let q: u128 = p >> ((150 - e) as u128);
                if q > usize::MAX as u128 {
                    usize::MAX
                } else {
                    q as usize
                }
            }
        }
    }
}

/// A zero fraction (+0.0 or -0.0) caps the count at zero.
pub proof fn lemma_frac_floor_zero(n: usize, k: u32)
    requires
        k & 0x7FFF_FFFF == 0,
    ensures
        spec_frac_floor(n, k) == 0,
{
    assert(k & 0x7FFF_FFFF == 0 ==> k == 0 || k == 0x8000_0000) by (bit_vector);
    if k == 0 {
        assert((0u32 >> 23) & 0xFF == 0) by (bit_vector);
        assert(0u32 & 0x007F_FFFF == 0) by (bit_vector);
        assert((n as u128) * 0 == 0);
        assert((0u128 >> ((150 - ((0u32 >> 23) & 0xFF)) as u128)) == 0) by (bit_vector);
    }
}

} // verus!
