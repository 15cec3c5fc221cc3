use crate::fbits::{f64_in_unit, lt64, neg64};
use crate::numerics::Numerics;
use vstd::prelude::*;

verus! {

// Hill, G. W. (1970).
// Algorithm 396: Student's t-Quantiles.
// Communications of the ACM, 13(10), 619-620.
//
// Binary64 values appear as their bit patterns (`u64`); the arithmetic runs
// through the `Numerics` collaborator, while every branch decision is taken
// on the bits themselves.

/// Bits of 0.5.
const B_HALF: u64 = 0x3FE0_0000_0000_0000;

/// Bits of 1.0.
const B_ONE: u64 = 0x3FF0_0000_0000_0000;

/// Bits of -1.0.
const B_NEG_ONE: u64 = 0xBFF0_0000_0000_0000;

/// Bits of 2.0.
const B_TWO: u64 = 0x4000_0000_0000_0000;

/// Bits of 3.0.
const B_THREE: u64 = 0x4008_0000_0000_0000;

/// Bits of 4.0.
const B_FOUR: u64 = 0x4010_0000_0000_0000;

/// Bits of 5.0.
const B_FIVE: u64 = 0x4014_0000_0000_0000;

/// Bits of 6.0.
const B_SIX: u64 = 0x4018_0000_0000_0000;

/// Bits of 7.0.
const B_SEVEN: u64 = 0x401C_0000_0000_0000;

/// Bits of 16.0.
const B_16: u64 = 0x4030_0000_0000_0000;

/// Bits of 36.0.
const B_36: u64 = 0x4042_0000_0000_0000;

/// Bits of 48.0.
const B_48: u64 = 0x4048_0000_0000_0000;

/// Bits of 94.5.
const B_94_5: u64 = 0x4057_A000_0000_0000;

/// Bits of 96.36.
const B_96_36: u64 = 0x4058_170A_3D70_A3D7;

/// Bits of 98.0.
const B_98: u64 = 0x4058_8000_0000_0000;

/// Bits of 20700.0.
const B_20700: u64 = 0x40D4_3700_0000_0000;

/// Bits of 0.05.
const B_0_05: u64 = 0x3FA9_9999_9999_999A;

/// Bits of 0.3.
const B_0_3: u64 = 0x3FD3_3333_3333_3333;

/// Bits of 0.4.
const B_0_4: u64 = 0x3FD9_9999_9999_999A;

/// Bits of 0.6.
const B_0_6: u64 = 0x3FE3_3333_3333_3333;

/// Bits of 4.5.
const B_4_5: u64 = 0x4012_0000_0000_0000;

/// Bits of 6.3.
const B_6_3: u64 = 0x4019_3333_3333_3333;

/// Bits of 0.002.
const B_0_002: u64 = 0x3F60_624D_D2F1_A9FC;

/// Bits of 0.089.
const B_0_089: u64 = 0x3FB6_C8B4_3958_1062;

/// Bits of 0.822.
const B_0_822: u64 = 0x3FEA_4DD2_F1A9_FBE7;

/// Bits of 0.147, the Winitzki constant.
const B_0_147: u64 = 0x3FC2_D0E5_6041_8937;

/// Bits of pi.
const B_PI: u64 = 0x4009_21FB_5444_2D18;

/// Bits of pi / 2.
const B_HALF_PI: u64 = 0x3FF9_21FB_5444_2D18;

/// The inverse cumulative distribution function (quantile) of the Student's
/// t-distribution, on binary64 bit patterns: `p` is a probability in
/// [0, 1], `n` the degrees of freedom. Closed forms serve one and two
/// degrees of freedom; beyond that, Hill's approximation, refined through
/// the standard-normal quantile when the initial estimate is too coarse.
/// The returned bits are whatever the collaborator's arithmetic yields;
/// no property of them is claimed.
pub fn inverse_cdf<N: Numerics>(num: &N, p: u64, n: u64) -> u64
    requires
        f64_in_unit(p),
        n >= 1,
{
    // the distribution is symmetric about one half
    let (sign, p1) = if lt64(p, B_HALF) {
        (B_NEG_ONE, num.sub64(B_ONE, p))
    } else {
        (B_ONE, p)
    };

    // two-tail to one-tail
    let q = num.mul64(B_TWO, num.sub64(B_ONE, p1));

    if n == 2 {
        return num.mul64(
            sign,
            num.sqrt64(num.sub64(num.div64(B_TWO, num.mul64(q, num.sub64(B_TWO, q))), B_TWO)),
        );
    }
    if n == 1 {
        let qh = num.mul64(q, B_HALF_PI);
        return num.mul64(sign, num.div64(num.cos64(qh), num.sin64(qh)));
    }
    let nf = num.int_to_64(n);

    let a = num.div64(B_ONE, num.sub64(nf, B_HALF));
    let b = num.div64(B_48, num.mul64(a, a));
    // c = ((20700 * a / b - 98) * a - 16) * a + 96.36
    let mut c = num.div64(num.mul64(B_20700, a), b);
    c = num.sub64(c, B_98);
    c = num.mul64(c, a);
    c = num.sub64(c, B_16);
    c = num.mul64(c, a);
    c = num.add64(c, B_96_36);
    // d = ((94.5 / (b + c) - 3) / b + 1) * sqrt(a * pi / 2) * n
    let mut d = num.div64(B_94_5, num.add64(b, c));
    d = num.sub64(d, B_THREE);
    d = num.div64(d, b);
    d = num.add64(d, B_ONE);
    d = num.mul64(d, num.sqrt64(num.mul64(a, B_HALF_PI)));
    d = num.mul64(d, nf);
    let mut x = num.mul64(d, q);
    let mut y = num.pow64(x, num.div64(B_TWO, nf));
    if lt64(num.add64(B_0_05, a), y) {
        // refine through the standard-normal quantile
        x = normdev(num, num.mul64(q, B_HALF));
        y = num.mul64(x, x);
        if n < 5 {
            c = num.add64(c, num.mul64(num.mul64(B_0_3, num.sub64(nf, B_4_5)), num.add64(x, B_0_6)));
        }
        // c = (((0.05 * d * x - 5) * x - 7) * x - 2) * x + b + c
        let mut t = num.mul64(num.mul64(B_0_05, d), x);
        t = num.sub64(t, B_FIVE);
        t = num.mul64(t, x);
        t = num.sub64(t, B_SEVEN);
        t = num.mul64(t, x);
        t = num.sub64(t, B_TWO);
        t = num.mul64(t, x);
        c = num.add64(num.add64(t, b), c);
        // y = (((((0.4 * y + 6.3) * y + 36) * y + 94.5) / c - y - 3) / b + 1) * x
        let mut u = num.mul64(B_0_4, y);
        u = num.add64(u, B_6_3);
        u = num.mul64(u, y);
        u = num.add64(u, B_36);
        u = num.mul64(u, y);
        u = num.add64(u, B_94_5);
        u = num.div64(u, c);
        u = num.sub64(u, y);
        u = num.sub64(u, B_THREE);
        u = num.div64(u, b);
        u = num.add64(u, B_ONE);
        y = num.mul64(u, x);
        y = num.mul64(num.mul64(a, y), y);
        y = if lt64(B_0_002, y) {
            num.sub64(num.exp64(y), B_ONE)
        } else {
            num.add64(num.mul64(num.mul64(B_HALF, y), y), y)
        };
    } else {
        // y = ((1 / (((n + 6) / (n * y) - 0.089 * d - 0.822) * (n + 2) * 3)
        //     + 0.5 / (n + 4)) * y - 1) * (n + 1) / (n + 2) + 1 / y
        let mut v = num.div64(num.add64(nf, B_SIX), num.mul64(nf, y));
        v = num.sub64(v, num.mul64(B_0_089, d));
        v = num.sub64(v, B_0_822);
        v = num.mul64(v, num.add64(nf, B_TWO));
        v = num.mul64(v, B_THREE);
        v = num.div64(B_ONE, v);
        v = num.add64(v, num.div64(B_HALF, num.add64(nf, B_FOUR)));
        v = num.mul64(v, y);
        v = num.sub64(v, B_ONE);
        v = num.mul64(v, num.add64(nf, B_ONE));
        v = num.div64(v, num.add64(nf, B_TWO));
        y = num.add64(v, num.div64(B_ONE, y));
    }
    num.mul64(sign, num.sqrt64(num.mul64(nf, y)))
}

/// The standard-normal quantile for a probability of at most one half, so
/// the result represents a non-positive value: -sqrt(2) * erfinv(2(1-p)-1).
fn normdev<N: Numerics>(num: &N, p: u64) -> u64 {
    let p1 = num.sub64(B_ONE, p);
    let root2 = num.sqrt64(B_TWO);
    num.mul64(neg64(root2), inverse_erf(num, num.sub64(num.mul64(B_TWO, p1), B_ONE)))
}

// Winitzki, S. (2008).
// A handy approximation for the error function and its inverse.
/// The inverse error function on [0, 1], by Winitzki's closed-form
/// approximation: no iteration, bounded relative error.
fn inverse_erf<N: Numerics>(num: &N, x: u64) -> u64 {
    let lg = num.ln64(num.sub64(B_ONE, num.mul64(x, x)));
    let f1 = num.div64(B_TWO, num.mul64(B_PI, B_0_147));
    let f2 = num.div64(lg, B_TWO);
    let f3 = num.mul64(num.div64(B_ONE, B_0_147), lg);
    let inner = num.sqrt64(num.sub64(num.pow64(num.add64(f1, f2), B_TWO), f3));
    num.sqrt64(num.add64(num.sub64(neg64(f1), f2), inner))
}

} // verus!
