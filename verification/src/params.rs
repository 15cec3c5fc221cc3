use crate::detect_anoms::{detect_anoms, seq_bounded, seq_has_nan, strictly_ascending};
use crate::error::{decompose_msg, is_series_error, nan_msg, short_series_msg, Error};
use crate::fraction::spec_frac_floor;
use crate::numerics::Numerics;
use crate::result::AnomalyDetectionResult;
use vstd::prelude::*;

verus! {

/// The testing direction: flag only unusually high observations, only
/// unusually low ones, or both.
#[derive(Clone, Debug)]
pub enum Direction {
    Positive,
    Negative,
    Both,
}

/// Bits of 0.05 as binary32: the default significance level.
pub const DEFAULT_ALPHA: u32 = 0x3D4C_CCCD;

/// Bits of 0.1 as binary32: the default cap on the anomalous fraction.
pub const DEFAULT_MAX_ANOMS: u32 = 0x3DCC_CCCD;

/// Parameters for anomaly detection. The statistical levels are binary32
/// bit patterns: `alpha` the significance level, `max_anoms` the largest
/// fraction of the series that may be flagged.
#[derive(Clone, Debug)]
pub struct AnomalyDetectionParams {
    alpha: u32,
    max_anoms: u32,
    direction: Direction,
    verbose: bool,
}

impl AnomalyDetectionParams {
    pub closed spec fn spec_alpha(&self) -> u32 {
        self.alpha
    }

    pub closed spec fn spec_max_anoms(&self) -> u32 {
        self.max_anoms
    }

    pub closed spec fn spec_direction(&self) -> Direction {
        self.direction
    }

    pub closed spec fn spec_verbose(&self) -> bool {
        self.verbose
    }

    /// Creates a new set of parameters.
    pub fn new() -> (r: Self)
        ensures
            r.spec_alpha() == DEFAULT_ALPHA,
            r.spec_max_anoms() == DEFAULT_MAX_ANOMS,
            r.spec_direction() is Both,
            !r.spec_verbose(),
    {
        Self { alpha: DEFAULT_ALPHA, max_anoms: DEFAULT_MAX_ANOMS, direction: Direction::Both, verbose: false }
    }

    /// Sets the level of statistical significance (binary32 bits).
    pub fn alpha(self, value: u32) -> (r: Self)
        ensures
            r.spec_alpha() == value,
            r.spec_max_anoms() == self.spec_max_anoms(),
            r.spec_direction() == self.spec_direction(),
            r.spec_verbose() == self.spec_verbose(),
    {
        Self { alpha: value, ..self }
    }

    /// Sets the maximum share of anomalies as a fraction of the series
    /// (binary32 bits).
    pub fn max_anoms(self, value: u32) -> (r: Self)
        ensures
            r.spec_alpha() == self.spec_alpha(),
            r.spec_max_anoms() == value,
            r.spec_direction() == self.spec_direction(),
            r.spec_verbose() == self.spec_verbose(),
    {
        Self { max_anoms: value, ..self }
    }

    /// Sets the direction.
    pub fn direction(self, value: Direction) -> (r: Self)
        ensures
            r.spec_alpha() == self.spec_alpha(),
            r.spec_max_anoms() == self.spec_max_anoms(),
            r.spec_direction() == value,
            r.spec_verbose() == self.spec_verbose(),
    {
        Self { direction: value, ..self }
    }

    /// Sets whether to show progress.
    pub fn verbose(self, value: bool) -> (r: Self)
        ensures
            r.spec_alpha() == self.spec_alpha(),
            r.spec_max_anoms() == self.spec_max_anoms(),
            r.spec_direction() == self.spec_direction(),
            r.spec_verbose() == value,
    {
        Self { verbose: value, ..self }
    }

    /// Detects anomalies in a time series of binary32 bit patterns, with
    /// the arithmetic of the given collaborator.
    pub fn fit<N: Numerics>(&self, num: &N, series: &[u32], period: usize) -> (r: Result<
        AnomalyDetectionResult,
        Error,
    >)
        ensures
            series@.len() < 2 * period ==> (r matches Err(e) && is_series_error(
                e,
                short_series_msg(),
            )),
            series@.len() >= 2 * period && seq_has_nan(series@) ==> (r matches Err(e)
                && is_series_error(e, nan_msg())),
            series@.len() >= 2 * period && !seq_has_nan(series@) ==> (r matches Ok(v) || (
            r matches Err(e) && is_series_error(e, decompose_msg()))),
            r matches Ok(v) ==> series@.len() >= 2 * period && !seq_has_nan(series@),
            r matches Ok(v) ==> strictly_ascending(v@),
            r matches Ok(v) ==> seq_bounded(v@, series@.len() as int),
            r matches Ok(v) ==> v@.len() <= spec_frac_floor(
                series@.len() as usize,
                self.spec_max_anoms(),
            ),
            r matches Ok(v) ==> (self.spec_max_anoms() & 0x7FFF_FFFF == 0 ==> v@.len() == 0),
    {
        let (one_tail, upper_tail) = match self.direction {
            Direction::Positive => (true, true),
            Direction::Negative => (true, false),
            Direction::Both => (false, true),
        };

        match detect_anoms(
            num,
            series,
            period,
            self.max_anoms,
            self.alpha,
            one_tail,
            upper_tail,
            self.verbose,
        ) {
            Ok(anomalies) => Ok(AnomalyDetectionResult::from_anomalies(anomalies)),
            Err(e) => Err(e),
        }
    }
}

impl Default for AnomalyDetectionParams {
    fn default() -> (r: Self)
        ensures
            r.spec_alpha() == DEFAULT_ALPHA,
            r.spec_max_anoms() == DEFAULT_MAX_ANOMS,
            r.spec_direction() is Both,
            !r.spec_verbose(),
    {
        Self::new()
    }
}

} // verus!
