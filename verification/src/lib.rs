//! Seasonal anomaly detection: the indices of extreme outliers in a
//! seasonal time series, found by the iterative generalized extreme
//! Studentized deviate test over seasonally adjusted residuals, with a
//! Student's t quantile engine for the per-iteration critical values.
//!
//! Observations travel as IEEE-754 binary32 bit patterns (`u32`), the
//! quantile engine's values as binary64 patterns (`u64`): the verifier
//! reasons over integers, so comparisons, NaN tests and every structural
//! decision are verified on the bits themselves, while the arithmetic and
//! the seasonal-trend decomposition come from a [`Numerics`] collaborator
//! that callers supply.

mod detect_anoms;
mod detector;
mod error;
mod fbits;
mod fraction;
mod numerics;
mod params;
mod result;
pub mod students_t;

use vstd::prelude::*;

pub use detect_anoms::{seq_bounded, seq_has_nan, strictly_ascending};
pub use detector::AnomalyDetector;
pub use error::{decompose_msg, is_series_error, nan_msg, short_series_msg, Error};
pub use fbits::{f32_is_nan, f64_in_unit};
pub use fraction::spec_frac_floor;
pub use numerics::Numerics;
pub use params::{AnomalyDetectionParams, Direction, DEFAULT_ALPHA, DEFAULT_MAX_ANOMS};
pub use result::AnomalyDetectionResult;

verus! {

/// Creates a new set of parameters.
pub fn params() -> (r: AnomalyDetectionParams)
    ensures
        r.spec_alpha() == DEFAULT_ALPHA,
        r.spec_max_anoms() == DEFAULT_MAX_ANOMS,
        r.spec_direction() is Both,
        !r.spec_verbose(),
{
    AnomalyDetectionParams::new()
}

} // verus!
