use crate::detect_anoms::{seq_bounded, seq_has_nan, strictly_ascending};
use crate::error::{decompose_msg, is_series_error, nan_msg, short_series_msg, Error};
use crate::fraction::spec_frac_floor;
use crate::numerics::Numerics;
use crate::params::{AnomalyDetectionParams, DEFAULT_ALPHA, DEFAULT_MAX_ANOMS};
use crate::result::AnomalyDetectionResult;
use vstd::prelude::*;

verus! {

pub struct AnomalyDetector;

impl AnomalyDetector {
    /// Detects anomalies in a time series with the default parameters.
    pub fn fit<N: Numerics>(num: &N, series: &[u32], period: usize) -> (r: Result<
        AnomalyDetectionResult,
        Error,
    >)
        ensures
            series@.len() < 2 * period ==> (r matches Err(e) && is_series_error(
                e,
                short_series_msg(),
            )),
            series@.len() >= 2 * period && seq_has_nan(series@) ==> (r matches Err(e)
                && is_series_error(e, nan_msg())),
            series@.len() >= 2 * period && !seq_has_nan(series@) ==> (r matches Ok(v) || (
            r matches Err(e) && is_series_error(e, decompose_msg()))),
            r matches Ok(v) ==> series@.len() >= 2 * period && !seq_has_nan(series@),
            r matches Ok(v) ==> strictly_ascending(v@),
            r matches Ok(v) ==> seq_bounded(v@, series@.len() as int),
            r matches Ok(v) ==> v@.len() <= spec_frac_floor(series@.len() as usize, DEFAULT_MAX_ANOMS),
    {
        AnomalyDetectionParams::new().fit(num, series, period)
    }

    /// Creates a new set of parameters.
    pub fn params() -> (r: AnomalyDetectionParams)
        ensures
            r.spec_alpha() == DEFAULT_ALPHA,
            r.spec_max_anoms() == DEFAULT_MAX_ANOMS,
            r.spec_direction() is Both,
            !r.spec_verbose(),
    {
        AnomalyDetectionParams::new()
    }
}

} // verus!
