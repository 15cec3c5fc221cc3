use anomaly::students_t::inverse_cdf;
use anomaly::Numerics;

struct StdNum;

impl Numerics for StdNum {
    fn add32(&self, a: u32, b: u32) -> u32 {
        (f32::from_bits(a) + f32::from_bits(b)).to_bits()
    }

    fn sub32(&self, a: u32, b: u32) -> u32 {
        (f32::from_bits(a) - f32::from_bits(b)).to_bits()
    }

    fn mul32(&self, a: u32, b: u32) -> u32 {
        (f32::from_bits(a) * f32::from_bits(b)).to_bits()
    }

    fn div32(&self, a: u32, b: u32) -> u32 {
        (f32::from_bits(a) / f32::from_bits(b)).to_bits()
    }

    fn sqrt32(&self, a: u32) -> u32 {
        f32::from_bits(a).sqrt().to_bits()
    }

    fn int_to_32(&self, n: usize) -> u32 {
        (n as f32).to_bits()
    }

    fn widen(&self, a: u32) -> u64 {
        (f32::from_bits(a) as f64).to_bits()
    }

    fn narrow(&self, a: u64) -> u32 {
        (f64::from_bits(a) as f32).to_bits()
    }

    fn add64(&self, a: u64, b: u64) -> u64 {
        (f64::from_bits(a) + f64::from_bits(b)).to_bits()
    }

    fn sub64(&self, a: u64, b: u64) -> u64 {
        (f64::from_bits(a) - f64::from_bits(b)).to_bits()
    }

    fn mul64(&self, a: u64, b: u64) -> u64 {
        (f64::from_bits(a) * f64::from_bits(b)).to_bits()
    }

    fn div64(&self, a: u64, b: u64) -> u64 {
        (f64::from_bits(a) / f64::from_bits(b)).to_bits()
    }

    fn sqrt64(&self, a: u64) -> u64 {
        f64::from_bits(a).sqrt().to_bits()
    }

    fn cos64(&self, a: u64) -> u64 {
        f64::from_bits(a).cos().to_bits()
    }

    fn sin64(&self, a: u64) -> u64 {
        f64::from_bits(a).sin().to_bits()
    }

    fn ln64(&self, a: u64) -> u64 {
        f64::from_bits(a).ln().to_bits()
    }

    fn exp64(&self, a: u64) -> u64 {
        f64::from_bits(a).exp().to_bits()
    }

    fn pow64(&self, a: u64, b: u64) -> u64 {
        f64::from_bits(a).powf(f64::from_bits(b)).to_bits()
    }

    fn int_to_64(&self, n: u64) -> u64 {
        (n as f64).to_bits()
    }

    fn seasonal(&self, series: &[u32], period: usize) -> Option<Vec<u32>> {
        let data: Vec<f32> = series.iter().map(|v| f32::from_bits(*v)).collect();
        let decomp = stlrs::Stl::params()
            .robust(true)
            .seasonal_length(data.len() * 10 + 1)
            .fit(&data, period)
            .ok()?;
        Some(decomp.seasonal().iter().map(|v| v.to_bits()).collect())
    }
}

fn quantile(p: f64, n: u64) -> f64 {
    f64::from_bits(inverse_cdf(&StdNum, p.to_bits(), n))
}

fn assert_in_delta(act: f64, exp: f64) {
    if exp.is_finite() {
        assert!((exp - act).abs() < 0.0002, "{} != {}", act, exp);
    } else {
        assert_eq!(act, exp);
    }
}

#[test]
fn test_one() {
    let expected = [
        f64::NEG_INFINITY,
        -3.07768,
        -1.37638,
        -0.72654,
        -0.32492,
        0.0,
        0.32492,
        0.72654,
        1.37638,
        3.07768,
        f64::INFINITY,
    ];
    for i in 0..=10 {
        assert_in_delta(quantile(0.1 * i as f64, 1), expected[i]);
    }
}

#[test]
fn test_two() {
    let expected = [
        f64::NEG_INFINITY,
        -1.88562,
        -1.06066,
        -0.61721,
        -0.28868,
        0.0,
        0.28868,
        0.61721,
        1.06066,
        1.88562,
        f64::INFINITY,
    ];
    for i in 0..=10 {
        assert_in_delta(quantile(0.1 * i as f64, 2), expected[i]);
    }
}

#[test]
fn test_thirty() {
    let expected = [
        f64::NEG_INFINITY,
        -1.31042,
        -0.85377,
        -0.53002,
        -0.25561,
        0.0,
        0.25561,
        0.53002,
        0.85377,
        1.31042,
        f64::INFINITY,
    ];
    for i in 0..=10 {
        assert_in_delta(quantile(0.1 * i as f64, 30), expected[i]);
    }
}

#[test]
fn test_median_is_zero() {
    // the distribution is symmetric about its median for every df
    for n in 1..=50u64 {
        let v = quantile(0.5, n);
        assert!(v.abs() < 1e-9, "df {}: {}", n, v);
    }
}

#[test]
fn test_cauchy_closed_form() {
    // one degree of freedom is the Cauchy distribution: tan(pi * (p - 0.5))
    let mut p = 0.05;
    while p < 0.975 {
        let exp = (std::f64::consts::PI * (p - 0.5)).tan();
        let act = quantile(p, 1);
        assert!((exp - act).abs() < 0.0002, "{}: {} != {}", p, act, exp);
        p += 0.05;
    }
}

#[test]
fn test_cauchy_tails_diverge() {
    assert_eq!(quantile(0.0, 1), f64::NEG_INFINITY);
    assert_eq!(quantile(1.0, 1), f64::INFINITY);
    assert!(quantile(0.0001, 1) < -1000.0);
    assert!(quantile(0.9999, 1) > 1000.0);
}
