//! The composite threshold comparator for allocation statistics: each field
//! is checked under its own tolerance, in a fixed order, and the first
//! violation is reported under its parameter's name.

use vstd::prelude::*;

use crate::threshold::{threshold_passes, Threshold, ThresholdError, ThresholdFor};

use super::measure::MemoryStats;

verus! {

/// The five allocation-statistics parameters, in the fixed order in which
/// the composite check examines them.
#[derive(Debug, Clone, Copy, PartialEq, Eq, Structural)]
pub enum AllocParam {
    Current,
    Peak,
    TotalSize,
    TotalNum,
    Reallocs,
}

/// The position of a parameter in the fixed checking order.
pub open spec fn param_order(p: AllocParam) -> int {
    match p {
        AllocParam::Current => 0,
        AllocParam::Peak => 1,
        AllocParam::TotalSize => 2,
        AllocParam::TotalNum => 3,
        AllocParam::Reallocs => 4,
    }
}

/// The value of the statistics field that a parameter names.
pub open spec fn stat_field(s: MemoryStats, p: AllocParam) -> int {
    match p {
        AllocParam::Current => s.current as int,
        AllocParam::Peak => s.peak as int,
        AllocParam::TotalSize => s.total_size as int,
        AllocParam::TotalNum => s.total_num as int,
        AllocParam::Reallocs => s.reallocs as int,
    }
}

impl AllocParam {
    /// The spelled-out field name of this parameter.
    pub open spec fn spec_name(self) -> Seq<char> {
        match self {
            AllocParam::Current => "current"@,
            AllocParam::Peak => "peak"@,
            AllocParam::TotalSize => "total_size"@,
            AllocParam::TotalNum => "total_num"@,
            AllocParam::Reallocs => "reallocs"@,
        }
    }

    /// The spelled-out field name of this parameter.
    pub fn name(&self) -> (r: &'static str)
        ensures
            r@ == self.spec_name(),
    {
        match self {
            AllocParam::Current => "current",
            AllocParam::Peak => "peak",
            AllocParam::TotalSize => "total_size",
            AllocParam::TotalNum => "total_num",
            AllocParam::Reallocs => "reallocs",
        }
    }
}

/// Per-field tolerances for each allocation-statistics parameter.
#[derive(Debug, Clone, Copy, PartialEq, Eq, Structural)]
pub struct AllocThresholds {
    pub current: Threshold,
    pub peak: Threshold,
    pub total_size: Threshold,
    pub total_num: Threshold,
    pub reallocs: Threshold,
}

/// A composite violation: the per-field violation together with the
/// parameter that failed.
#[derive(Debug, Clone, Copy, PartialEq, Eq, Structural)]
pub struct AllocThresholdsError {
    pub error: ThresholdError,
    pub param: AllocParam,
}

impl AllocThresholdsError {
    /// The field name of the parameter that failed.
    pub fn param_name(&self) -> (r: &'static str)
        ensures
            r@ == self.param.spec_name(),
    {
        self.param.name()
    }
}

impl AllocThresholds {
    /// The tolerance this comparator applies to a parameter.
    pub open spec fn spec_limit(self, p: AllocParam) -> Threshold {
        match p {
            AllocParam::Current => self.current,
            AllocParam::Peak => self.peak,
            AllocParam::TotalSize => self.total_size,
            AllocParam::TotalNum => self.total_num,
            AllocParam::Reallocs => self.reallocs,
        }
    }

    /// Whether one parameter of a measurement passes its own tolerance
    /// against the same parameter of the baseline.
    pub open spec fn spec_param_passes(
        self,
        p: AllocParam,
        value: MemoryStats,
        ref_value: MemoryStats,
    ) -> bool {
        threshold_passes(self.spec_limit(p), stat_field(value, p), stat_field(ref_value, p))
    }

    /// The first parameter, in the fixed order `current, peak, total_size,
    /// total_num, reallocs`, whose tolerance the measurement violates.
    pub open spec fn spec_first_violation(
        self,
        value: MemoryStats,
        ref_value: MemoryStats,
    ) -> Option<AllocParam> {
        if !self.spec_param_passes(AllocParam::Current, value, ref_value) {
            Some(AllocParam::Current)
        } else if !self.spec_param_passes(AllocParam::Peak, value, ref_value) {
            Some(AllocParam::Peak)
        } else if !self.spec_param_passes(AllocParam::TotalSize, value, ref_value) {
            Some(AllocParam::TotalSize)
        } else if !self.spec_param_passes(AllocParam::TotalNum, value, ref_value) {
            Some(AllocParam::TotalNum)
        } else if !self.spec_param_passes(AllocParam::Reallocs, value, ref_value) {
            Some(AllocParam::Reallocs)
        } else {
            None
        }
    }

    /// Checks every field of `value` against the same field of `ref_value`
    /// under that field's own tolerance, in the fixed order `current, peak,
    /// total_size, total_num, reallocs`; reports the first violation, named
    /// after its parameter and carrying the violated tolerance and both
    /// field values.
    pub fn check(&self, value: &MemoryStats, ref_value: &MemoryStats) -> (r: Result<
        (),
        AllocThresholdsError,
    >)
        ensures
            r is Ok <==> self.spec_first_violation(*value, *ref_value) is None,
            r matches Err(e) ==> {
                &&& Some(e.param) == self.spec_first_violation(*value, *ref_value)
                &&& e.error == (ThresholdError {
                    limit: self.spec_limit(e.param),
                    value: stat_field(*value, e.param) as u64,
                    ref_value: stat_field(*ref_value, e.param) as u64,
                })
            },
    {
        match self.current.check(&(value.current as u64), &(ref_value.current as u64)) {
            Err(e) => {
                return Err(AllocThresholdsError { error: e, param: AllocParam::Current });
            },
            Ok(()) => {},
        }
        match self.peak.check(&(value.peak as u64), &(ref_value.peak as u64)) {
            Err(e) => {
                return Err(AllocThresholdsError { error: e, param: AllocParam::Peak });
            },
            Ok(()) => {},
        }
        match self.total_size.check(&(value.total_size as u64), &(ref_value.total_size as u64)) {
            Err(e) => {
                return Err(AllocThresholdsError { error: e, param: AllocParam::TotalSize });
            },
            Ok(()) => {},
        }
        match self.total_num.check(&(value.total_num as u64), &(ref_value.total_num as u64)) {
            Err(e) => {
                return Err(AllocThresholdsError { error: e, param: AllocParam::TotalNum });
            },
            Ok(()) => {},
        }
        match self.reallocs.check(&(value.reallocs as u64), &(ref_value.reallocs as u64)) {
            Err(e) => {
                return Err(AllocThresholdsError { error: e, param: AllocParam::Reallocs });
            },
            Ok(()) => {},
        }
        Ok(())
    }
}

impl ThresholdFor<MemoryStats> for AllocThresholds {
    type Error = AllocThresholdsError;

    open spec fn spec_passes(&self, value: MemoryStats, ref_value: MemoryStats) -> bool {
        self.spec_first_violation(value, ref_value) is None
    }

    fn check_threshold(&self, value: &MemoryStats, ref_value: &MemoryStats) -> (r: Result<
        (),
        AllocThresholdsError,
    >) {
        self.check(value, ref_value)
    }
}

/// Law: the composite verdict names the first failing parameter in the fixed
/// order, even when several parameters fail: every parameter before the
/// reported one passes, the reported one fails, and a pass means every
/// parameter passes.
pub proof fn lemma_first_violation_is_first(
    l: AllocThresholds,
    value: MemoryStats,
    ref_value: MemoryStats,
)
    ensures
        match l.spec_first_violation(value, ref_value) {
            Some(p) => !l.spec_param_passes(p, value, ref_value) && forall|q: AllocParam|
                param_order(q) < param_order(p) ==> l.spec_param_passes(q, value, ref_value),
            None => forall|q: AllocParam| l.spec_param_passes(q, value, ref_value),
        },
{
    match l.spec_first_violation(value, ref_value) {
        Some(p) => {
            assert forall|q: AllocParam| param_order(q) < param_order(p) implies l.spec_param_passes(
                q,
                value,
                ref_value,
            ) by {
                match q {
                    AllocParam::Current => {},
                    AllocParam::Peak => {},
                    AllocParam::TotalSize => {},
                    AllocParam::TotalNum => {},
                    AllocParam::Reallocs => {},
                }
            }
        },
        None => {
            assert forall|q: AllocParam| l.spec_param_passes(q, value, ref_value) by {
                match q {
                    AllocParam::Current => {},
                    AllocParam::Peak => {},
                    AllocParam::TotalSize => {},
                    AllocParam::TotalNum => {},
                    AllocParam::Reallocs => {},
                }
            }
        },
    }
}

/// Step-by-step construction of `AllocThresholds`; every parameter defaults
/// to the neutral tolerance that lets every value pass.
#[derive(Debug, Clone, Copy, PartialEq, Eq, Structural)]
pub struct AllocThresholdsBuilder {
    pub current: Threshold,
    pub peak: Threshold,
    pub total_size: Threshold,
    pub total_num: Threshold,
    pub reallocs: Threshold,
}

impl Default for AllocThresholdsBuilder {
    /// A builder with every parameter at the neutral tolerance.
    fn default() -> (r: Self)
        ensures
            r == (AllocThresholdsBuilder {
                current: Threshold::Unlimited,
                peak: Threshold::Unlimited,
                total_size: Threshold::Unlimited,
                total_num: Threshold::Unlimited,
                reallocs: Threshold::Unlimited,
            }),
    {
        AllocThresholdsBuilder {
            current: Threshold::Unlimited,
            peak: Threshold::Unlimited,
            total_size: Threshold::Unlimited,
            total_num: Threshold::Unlimited,
            reallocs: Threshold::Unlimited,
        }
    }
}

impl AllocThresholdsBuilder {
    /// Sets the tolerance for the `current` parameter.
    pub fn current(self, value: Threshold) -> (r: Self)
        ensures
            r == (AllocThresholdsBuilder { current: value, ..self }),
    {
        AllocThresholdsBuilder { current: value, ..self }
    }

    /// Sets the tolerance for the `peak` parameter.
    pub fn peak(self, value: Threshold) -> (r: Self)
        ensures
            r == (AllocThresholdsBuilder { peak: value, ..self }),
    {
        AllocThresholdsBuilder { peak: value, ..self }
    }

    /// Sets the tolerance for the `total_size` parameter.
    pub fn total_size(self, value: Threshold) -> (r: Self)
        ensures
            r == (AllocThresholdsBuilder { total_size: value, ..self }),
    {
        AllocThresholdsBuilder { total_size: value, ..self }
    }

    /// Sets the tolerance for the `total_num` parameter.
    pub fn total_num(self, value: Threshold) -> (r: Self)
        ensures
            r == (AllocThresholdsBuilder { total_num: value, ..self }),
    {
        AllocThresholdsBuilder { total_num: value, ..self }
    }

    /// Sets the tolerance for the `reallocs` parameter.
    pub fn reallocs(self, value: Threshold) -> (r: Self)
        ensures
            r == (AllocThresholdsBuilder { reallocs: value, ..self }),
    {
        AllocThresholdsBuilder { reallocs: value, ..self }
    }

    /// Finishes the builder. Every parameter has a default, so construction
    /// always succeeds.
    pub fn build(&self) -> (r: Result<AllocThresholds, String>)
        ensures
            r matches Ok(t) && t == (AllocThresholds {
                current: self.current,
                peak: self.peak,
                total_size: self.total_size,
                total_num: self.total_num,
                reallocs: self.reallocs,
            }),
    {
        Ok(
            AllocThresholds {
                current: self.current,
                peak: self.peak,
                total_size: self.total_size,
                total_num: self.total_num,
                reallocs: self.reallocs,
            },
        )
    }
}

} // verus!
