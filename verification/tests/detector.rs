use anomaly::{AnomalyDetector, Direction, Error, Numerics};

struct StdNum;

impl Numerics for StdNum {
    fn add32(&self, a: u32, b: u32) -> u32 {
        (f32::from_bits(a) + f32::from_bits(b)).to_bits()
    }

    fn sub32(&self, a: u32, b: u32) -> u32 {
        (f32::from_bits(a) - f32::from_bits(b)).to_bits()
    }

    fn mul32(&self, a: u32, b: u32) -> u32 {
        (f32::from_bits(a) * f32::from_bits(b)).to_bits()
    }

    fn div32(&self, a: u32, b: u32) -> u32 {
        (f32::from_bits(a) / f32::from_bits(b)).to_bits()
    }

    fn sqrt32(&self, a: u32) -> u32 {
        f32::from_bits(a).sqrt().to_bits()
    }

    fn int_to_32(&self, n: usize) -> u32 {
        (n as f32).to_bits()
    }

    fn widen(&self, a: u32) -> u64 {
        (f32::from_bits(a) as f64).to_bits()
    }

    fn narrow(&self, a: u64) -> u32 {
        (f64::from_bits(a) as f32).to_bits()
    }

    fn add64(&self, a: u64, b: u64) -> u64 {
        (f64::from_bits(a) + f64::from_bits(b)).to_bits()
    }

    fn sub64(&self, a: u64, b: u64) -> u64 {
        (f64::from_bits(a) - f64::from_bits(b)).to_bits()
    }

    fn mul64(&self, a: u64, b: u64) -> u64 {
        (f64::from_bits(a) * f64::from_bits(b)).to_bits()
    }

    fn div64(&self, a: u64, b: u64) -> u64 {
        (f64::from_bits(a) / f64::from_bits(b)).to_bits()
    }

    fn sqrt64(&self, a: u64) -> u64 {
        f64::from_bits(a).sqrt().to_bits()
    }

    fn cos64(&self, a: u64) -> u64 {
        f64::from_bits(a).cos().to_bits()
    }

    fn sin64(&self, a: u64) -> u64 {
        f64::from_bits(a).sin().to_bits()
    }

    fn ln64(&self, a: u64) -> u64 {
        f64::from_bits(a).ln().to_bits()
    }

    fn exp64(&self, a: u64) -> u64 {
        f64::from_bits(a).exp().to_bits()
    }

    fn pow64(&self, a: u64, b: u64) -> u64 {
        f64::from_bits(a).powf(f64::from_bits(b)).to_bits()
    }

    fn int_to_64(&self, n: u64) -> u64 {
        (n as f64).to_bits()
    }

    fn seasonal(&self, series: &[u32], period: usize) -> Option<Vec<u32>> {
        let data: Vec<f32> = series.iter().map(|v| f32::from_bits(*v)).collect();
        let decomp = stlrs::Stl::params()
            .robust(true)
            .seasonal_length(data.len() * 10 + 1)
            .fit(&data, period)
            .ok()?;
        Some(decomp.seasonal().iter().map(|v| v.to_bits()).collect())
    }
}

fn bits(series: &[f32]) -> Vec<u32> {
    series.iter().map(|v| v.to_bits()).collect()
}

fn generate_series() -> Vec<f32> {
    vec![
        5.0, 9.0, 2.0, 9.0, 0.0, 6.0, 3.0, 8.0, 5.0, 18.0, 7.0, 8.0, 8.0, 0.0, 2.0, -5.0, 0.0,
        5.0, 6.0, 7.0, 3.0, 6.0, 1.0, 4.0, 4.0, 4.0, 30.0, 7.0, 5.0, 8.0,
    ]
}

#[test]
fn test_works() {
    let series = bits(&generate_series());
    let res = AnomalyDetector::params()
        .max_anoms(0.2f32.to_bits())
        .fit(&StdNum, &series, 7)
        .unwrap();
    assert_eq!(&vec![9, 15, 26], res.anomalies());
}

#[test]
fn test_direction_pos() {
    let series = bits(&generate_series());
    let res = AnomalyDetector::params()
        .max_anoms(0.2f32.to_bits())
        .direction(Direction::Positive)
        .fit(&StdNum, &series, 7)
        .unwrap();
    assert_eq!(&vec![9, 26], res.anomalies());
}

#[test]
fn test_direction_neg() {
    let series = bits(&generate_series());
    let res = AnomalyDetector::params()
        .max_anoms(0.2f32.to_bits())
        .direction(Direction::Negative)
        .fit(&StdNum, &series, 7)
        .unwrap();
    assert_eq!(&vec![15], res.anomalies());
}

#[test]
fn test_alpha() {
    let series = bits(&generate_series());
    let res = AnomalyDetector::params()
        .max_anoms(0.2f32.to_bits())
        .alpha(0.5f32.to_bits())
        .fit(&StdNum, &series, 7)
        .unwrap();
    assert_eq!(&vec![1, 4, 9, 15, 26], res.anomalies());
}

#[test]
fn test_nan() {
    let mut series = vec![1.0f32; 30];
    series[15] = f32::NAN;
    let result = AnomalyDetector::fit(&StdNum, &bits(&series), 7);
    assert_eq!(
        result.unwrap_err(),
        Error::Series("series contains NANs".to_string())
    );
}

#[test]
fn test_empty_data() {
    let series: Vec<u32> = Vec::new();
    let result = AnomalyDetector::fit(&StdNum, &series, 7);
    assert_eq!(
        result.unwrap_err(),
        Error::Series("series must contain at least 2 periods".to_string())
    );
}

#[test]
fn test_max_anoms_zero() {
    let series = bits(&generate_series());
    let res = AnomalyDetector::params()
        .max_anoms(0.0f32.to_bits())
        .fit(&StdNum, &series, 7)
        .unwrap();
    assert!(res.anomalies().is_empty());
}

#[test]
fn test_decomposition_failure() {
    // a period below two is refused by the decomposition collaborator
    let series = bits(&generate_series());
    let result = AnomalyDetector::fit(&StdNum, &series, 1);
    assert_eq!(
        result.unwrap_err(),
        Error::Series("seasonal decomposition failed".to_string())
    );
}

#[test]
fn test_result_strictly_ascending() {
    let series = bits(&generate_series());
    let res = AnomalyDetector::params()
        .max_anoms(0.2f32.to_bits())
        .alpha(0.5f32.to_bits())
        .fit(&StdNum, &series, 7)
        .unwrap();
    let anoms = res.anomalies();
    for w in anoms.windows(2) {
        assert!(w[0] < w[1]);
    }
    for ix in anoms {
        assert!(*ix < series.len());
    }
}

#[test]
fn test_count_within_cap() {
    // thirty observations at a cap of 0.2: never more than six flagged
    let series = bits(&generate_series());
    let res = AnomalyDetector::params()
        .max_anoms(0.2f32.to_bits())
        .alpha(0.5f32.to_bits())
        .fit(&StdNum, &series, 7)
        .unwrap();
    assert!(res.anomalies().len() <= 6);
}

#[test]
fn test_direction_union() {
    // everything a one-sided run flags, the two-sided run flags as well
    let series = bits(&generate_series());
    let both = AnomalyDetector::params()
        .max_anoms(0.2f32.to_bits())
        .fit(&StdNum, &series, 7)
        .unwrap();
    let pos = AnomalyDetector::params()
        .max_anoms(0.2f32.to_bits())
        .direction(Direction::Positive)
        .fit(&StdNum, &series, 7)
        .unwrap();
    let neg = AnomalyDetector::params()
        .max_anoms(0.2f32.to_bits())
        .direction(Direction::Negative)
        .fit(&StdNum, &series, 7)
        .unwrap();
    for ix in pos.anomalies().iter().chain(neg.anomalies().iter()) {
        assert!(both.anomalies().contains(ix));
    }
}

#[test]
fn test_too_short_series() {
    let series = bits(&[1.0, 2.0, 3.0, 4.0, 5.0]);
    let result = AnomalyDetector::fit(&StdNum, &series, 3);
    assert_eq!(
        result.unwrap_err(),
        Error::Series("series must contain at least 2 periods".to_string())
    );
}

#[test]
fn test_error_message() {
    let series: Vec<u32> = Vec::new();
    let err = AnomalyDetector::fit(&StdNum, &series, 7).unwrap_err();
    assert_eq!(err.message(), "series must contain at least 2 periods");
}

#[test]
fn test_params_function() {
    let series = bits(&generate_series());
    let res = anomaly::params()
        .max_anoms(0.2f32.to_bits())
        .verbose(true)
        .fit(&StdNum, &series, 7)
        .unwrap();
    assert_eq!(&vec![9, 15, 26], res.anomalies());
}
