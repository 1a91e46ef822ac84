//! The default domains of the scheme's parameters, as supplied by the caller.

use vstd::prelude::*;
use crate::interval::Interval;
use crate::processing_unit::ProcessingUnit;

verus! {

/// The default bounds of a GLWE parameter pair.
#[derive(Clone, Copy, Debug)]
pub struct GlweParameterRanges {
    pub log2_polynomial_size: Interval,
    pub glwe_dimension: Interval,
}

/// The default bounds of every searched dimension. They are handed in by
/// the caller on each use; nothing here computes or stores them.
#[derive(Clone, Copy, Debug)]
pub struct ParameterDomains {
    /// GLWE parameters a CPU bootstrap accepts.
    pub glwe_pbs_constrained_cpu: GlweParameterRanges,
    /// GLWE parameters a GPU bootstrap accepts.
    pub glwe_pbs_constrained_gpu: GlweParameterRanges,
    /// GLWE parameters free of any bootstrap constraint.
    pub free_glwe: GlweParameterRanges,
    /// LWE dimensions of levelled-only computation.
    pub free_lwe: Interval,
}

impl ParameterDomains {
    /// The bootstrap-constrained GLWE bounds of a backend, before any
    /// restriction. On a GPU the polynomial-size exponents are those of the
    /// supplied GPU domain that the selected kernel supports.
    pub open spec fn spec_glwe_pbs_constrained(self, processing_unit: ProcessingUnit) -> GlweParameterRanges {
        match processing_unit {
            ProcessingUnit::Cpu => self.glwe_pbs_constrained_cpu,
            ProcessingUnit::Gpu { pbs_type, .. } => GlweParameterRanges {
                log2_polynomial_size: self.glwe_pbs_constrained_gpu.log2_polynomial_size.spec_intersect(
                    pbs_type.spec_log2_polynomial_sizes(),
                ),
                glwe_dimension: self.glwe_pbs_constrained_gpu.glwe_dimension,
            },
        }
    }

    /// Selects the bootstrap-constrained GLWE bounds of a backend.
    #[verifier::when_used_as_spec(spec_glwe_pbs_constrained)]
    pub fn glwe_pbs_constrained(self, processing_unit: ProcessingUnit) -> (r: GlweParameterRanges)
        ensures
            r == self.spec_glwe_pbs_constrained(processing_unit),
            processing_unit is Gpu ==> forall|v: u64|
                r.log2_polynomial_size.contains(v) ==> 8 <= v <= 14,
    {
        match processing_unit {
            ProcessingUnit::Cpu => self.glwe_pbs_constrained_cpu,
            ProcessingUnit::Gpu { pbs_type, .. } => GlweParameterRanges {
                log2_polynomial_size: self.glwe_pbs_constrained_gpu.log2_polynomial_size.intersect(
                    pbs_type.log2_polynomial_sizes(),
                ),
                glwe_dimension: self.glwe_pbs_constrained_gpu.glwe_dimension,
            },
        }
    }
}

} // verus!
