//! The threshold comparator for performance statistics: the mean duration is
//! checked under its tolerance and a violation is reported under the
//! parameter's name.

use vstd::prelude::*;

use crate::threshold::{threshold_passes, Threshold, ThresholdError, ThresholdFor};

use super::measure::PerfStats;

verus! {

/// The tolerance for the mean-duration parameter of a performance
/// measurement.
#[derive(Debug, Clone, Copy, PartialEq, Eq, Structural)]
pub struct PerfThresholds {
    pub mean: Threshold,
}

/// A violation of the performance tolerances: the per-parameter violation;
/// the violated parameter is the mean duration.
#[derive(Debug, Clone, Copy, PartialEq, Eq, Structural)]
pub struct PerfThresholdsError {
    pub error: ThresholdError,
}

impl PerfThresholdsError {
    /// The field name of the parameter that failed.
    pub fn param_name(&self) -> (r: &'static str)
        ensures
            r@ == "mean"@,
    {
        "mean"
    }
}

impl PerfThresholds {
    /// Checks the mean of `value` against the mean of `ref_value` under the
    /// mean tolerance; reports the violation, carrying the violated
    /// tolerance and both means, exactly when the pass condition does not
    /// hold.
    pub fn check(&self, value: &PerfStats, ref_value: &PerfStats) -> (r: Result<
        (),
        PerfThresholdsError,
    >)
        ensures
            r is Ok <==> threshold_passes(self.mean, value.mean as int, ref_value.mean as int),
            r matches Err(e) ==> e.error == (ThresholdError {
                limit: self.mean,
                value: value.mean,
                ref_value: ref_value.mean,
            }),
    {
        match self.mean.check(&value.mean, &ref_value.mean) {
            Ok(()) => Ok(()),
            Err(e) => Err(PerfThresholdsError { error: e }),
        }
    }
}

impl ThresholdFor<PerfStats> for PerfThresholds {
    type Error = PerfThresholdsError;

    open spec fn spec_passes(&self, value: PerfStats, ref_value: PerfStats) -> bool {
        threshold_passes(self.mean, value.mean as int, ref_value.mean as int)
    }

    fn check_threshold(&self, value: &PerfStats, ref_value: &PerfStats) -> (r: Result<
        (),
        PerfThresholdsError,
    >) {
        self.check(value, ref_value)
    }
}

/// Step-by-step construction of `PerfThresholds`; the mean tolerance
/// defaults to the neutral tolerance that lets every value pass.
#[derive(Debug, Clone, Copy, PartialEq, Eq, Structural)]
pub struct PerfThresholdsBuilder {
    pub mean: Threshold,
}

impl Default for PerfThresholdsBuilder {
    /// A builder with the mean at the neutral tolerance.
    fn default() -> (r: Self)
        ensures
            r == (PerfThresholdsBuilder { mean: Threshold::Unlimited }),
    {
        PerfThresholdsBuilder { mean: Threshold::Unlimited }
    }
}

impl PerfThresholdsBuilder {
    /// Sets the tolerance for the mean duration.
    pub fn mean(self, value: Threshold) -> (r: Self)
        ensures
            r == (PerfThresholdsBuilder { mean: value }),
    {
        PerfThresholdsBuilder { mean: value }
    }

    /// Finishes the builder. The parameter has a default, so construction
    /// always succeeds.
    pub fn build(&self) -> (r: Result<PerfThresholds, String>)
        ensures
            r matches Ok(t) && t == (PerfThresholds { mean: self.mean }),
    {
        Ok(PerfThresholds { mean: self.mean })
    }
}

} // verus!
