use vstd::prelude::*;

verus! {

/// An anomaly detection result.
#[derive(Clone, Debug)]
pub struct AnomalyDetectionResult {
    pub(crate) anomalies: Vec<usize>,
}

impl View for AnomalyDetectionResult {
    type V = Seq<usize>;

    closed spec fn view(&self) -> Seq<usize> {
        self.anomalies@
    }
}

impl AnomalyDetectionResult {
    pub(crate) fn from_anomalies(anomalies: Vec<usize>) -> (r: AnomalyDetectionResult)
        ensures
            r@ == anomalies@,
    {
        AnomalyDetectionResult { anomalies }
    }

    /// Returns the anomalies.
    pub fn anomalies(&self) -> (r: &[usize])
        ensures
            r@ == self@,
    {
        self.anomalies.as_slice()
    }
}

} // verus!
