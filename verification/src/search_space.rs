//! The candidate domain a search enumerates, and how it is built from the
//! default domains, the backend and the caller's restrictions.

use vstd::prelude::*;
use crate::interval::{strictly_ascending, Interval};
use crate::parameter_domains::{GlweParameterRanges, ParameterDomains};
use crate::processing_unit::{GpuPbsType, ProcessingUnit};

verus! {

/// Hard bounds a caller or a platform imposes on the search. Both ends of
/// each bound are inclusive. A bound can only take candidates away: one that
/// lies outside the default domain, or whose minimum exceeds its maximum,
/// leaves that axis empty.
#[derive(Clone, Copy, Debug)]
pub struct ParameterRestrictions {
    pub log2_polynomial_size_min: u64,
    pub log2_polynomial_size_max: u64,
    pub glwe_dimension_min: u64,
    pub glwe_dimension_max: u64,
}

impl ParameterRestrictions {
    /// The bound on the polynomial-size exponent, as an interval.
    pub open spec fn spec_log2_polynomial_size(self) -> Interval {
        Interval { start: self.log2_polynomial_size_min, end: self.log2_polynomial_size_max }
    }

    /// The bound on the GLWE dimension, as an interval.
    pub open spec fn spec_glwe_dimension(self) -> Interval {
        Interval { start: self.glwe_dimension_min, end: self.glwe_dimension_max }
    }

    /// The bound on the polynomial-size exponent, as an interval.
    #[verifier::when_used_as_spec(spec_log2_polynomial_size)]
    pub fn log2_polynomial_size(self) -> (r: Interval)
        ensures
            r == self.spec_log2_polynomial_size(),
    {
        Interval { start: self.log2_polynomial_size_min, end: self.log2_polynomial_size_max }
    }

    /// The bound on the GLWE dimension, as an interval.
    #[verifier::when_used_as_spec(spec_glwe_dimension)]
    pub fn glwe_dimension(self) -> (r: Interval)
        ensures
            r == self.spec_glwe_dimension(),
    {
        Interval { start: self.glwe_dimension_min, end: self.glwe_dimension_max }
    }
}

/// The bounds of the four axes of a search, before any axis is enumerated.
#[derive(Clone, Copy, Debug)]
pub struct SearchBounds {
    pub log2_polynomial_size: Interval,
    pub glwe_dimension: Interval,
    pub internal_lwe_dimension: Interval,
    pub levelled_only_lwe_dimension: Interval,
}

impl SearchBounds {
    /// The bounds of a backend's search when nothing restricts it.
    pub open spec fn spec_of_backend(
        processing_unit: ProcessingUnit,
        parameter_domains: ParameterDomains,
    ) -> SearchBounds {
        let glwe = parameter_domains.spec_glwe_pbs_constrained(processing_unit);
        SearchBounds {
            log2_polynomial_size: glwe.log2_polynomial_size,
            glwe_dimension: glwe.glwe_dimension,
            internal_lwe_dimension: parameter_domains.free_glwe.glwe_dimension,
            levelled_only_lwe_dimension: parameter_domains.free_lwe,
        }
    }

    /// These bounds under `restrictions`: the polynomial-size exponent and
    /// the GLWE dimension are cut down to what the restrictions allow, the
    /// two other axes are left as they are.
    pub open spec fn spec_restrict(self, restrictions: ParameterRestrictions) -> SearchBounds {
        SearchBounds {
            log2_polynomial_size: self.log2_polynomial_size.spec_intersect(
                restrictions.spec_log2_polynomial_size(),
            ),
            glwe_dimension: self.glwe_dimension.spec_intersect(restrictions.spec_glwe_dimension()),
            internal_lwe_dimension: self.internal_lwe_dimension,
            levelled_only_lwe_dimension: self.levelled_only_lwe_dimension,
        }
    }

    /// Selects the default bounds of a backend from the supplied domains.
    #[verifier::when_used_as_spec(spec_of_backend)]
    pub fn of_backend(
        processing_unit: ProcessingUnit,
        parameter_domains: ParameterDomains,
    ) -> (r: SearchBounds)
        ensures
            r == Self::spec_of_backend(processing_unit, parameter_domains),
            processing_unit is Gpu ==> forall|v: u64|
                r.log2_polynomial_size.contains(v) ==> 8 <= v <= 14,
            r.levelled_only_lwe_dimension == parameter_domains.free_lwe,
    {
        let glwe: GlweParameterRanges = parameter_domains.glwe_pbs_constrained(processing_unit);
        SearchBounds {
            log2_polynomial_size: glwe.log2_polynomial_size,
            glwe_dimension: glwe.glwe_dimension,
            internal_lwe_dimension: parameter_domains.free_glwe.glwe_dimension,
            levelled_only_lwe_dimension: parameter_domains.free_lwe,
        }
    }

    /// Applies the caller's restrictions to the two axes they govern.
    #[verifier::when_used_as_spec(spec_restrict)]
    pub fn restrict(self, restrictions: ParameterRestrictions) -> (r: SearchBounds)
        ensures
            r == self.spec_restrict(restrictions),
            forall|v: u64|
                r.log2_polynomial_size.contains(v) <==> {
                    &&& self.log2_polynomial_size.contains(v)
                    &&& restrictions.log2_polynomial_size_min <= v
                        <= restrictions.log2_polynomial_size_max
                },
            forall|v: u64|
                r.glwe_dimension.contains(v) <==> {
                    &&& self.glwe_dimension.contains(v)
                    &&& restrictions.glwe_dimension_min <= v <= restrictions.glwe_dimension_max
                },
            r.internal_lwe_dimension == self.internal_lwe_dimension,
            r.levelled_only_lwe_dimension == self.levelled_only_lwe_dimension,
    {
        SearchBounds {
            log2_polynomial_size: self.log2_polynomial_size.intersect(
                restrictions.log2_polynomial_size(),
            ),
            glwe_dimension: self.glwe_dimension.intersect(restrictions.glwe_dimension()),
            internal_lwe_dimension: self.internal_lwe_dimension,
            levelled_only_lwe_dimension: self.levelled_only_lwe_dimension,
        }
    }

    /// Two restrictions applied one after the other bound the search as
    /// they do in the opposite order.
    pub proof fn lemma_restrict_commutes(
        self,
        first: ParameterRestrictions,
        second: ParameterRestrictions,
    )
        ensures
            self.spec_restrict(first).spec_restrict(second) == self.spec_restrict(
                second,
            ).spec_restrict(first),
    {
    }
}

/// The candidate values of each searched dimension.
///
/// Three axes are enumerated in full. The fourth, the LWE dimension of
/// levelled-only computation, is large and only partly visited, so it is
/// kept as an interval for the search to enumerate as it goes.
#[derive(Clone, Debug)]
pub struct SearchSpace {
    pub glwe_log_polynomial_sizes: Vec<u64>,
    pub glwe_dimensions: Vec<u64>,
    pub internal_lwe_dimensions: Vec<u64>,
    pub levelled_only_lwe_dimensions: Interval,
}

impl SearchSpace {
    /// Every enumerated axis is strictly ascending, hence free of duplicates.
    pub open spec fn wf(self) -> bool {
        &&& strictly_ascending(self.glwe_log_polynomial_sizes@)
        &&& strictly_ascending(self.glwe_dimensions@)
        &&& strictly_ascending(self.internal_lwe_dimensions@)
    }

    /// Whether the search space holds exactly the values within `bounds`,
    /// each eager axis in ascending order.
    pub open spec fn enumerates(self, bounds: SearchBounds) -> bool {
        &&& self.glwe_log_polynomial_sizes@ == bounds.log2_polynomial_size@
        &&& self.glwe_dimensions@ == bounds.glwe_dimension@
        &&& self.internal_lwe_dimensions@ == bounds.internal_lwe_dimension@
        &&& self.levelled_only_lwe_dimensions == bounds.levelled_only_lwe_dimension
    }

    /// Enumerates the three eager axes of `bounds` and carries the
    /// levelled-only axis through as it is.
    pub fn from_bounds(bounds: SearchBounds) -> (r: Self)
        ensures
            r.enumerates(bounds),
            r.wf(),
            forall|v: u64|
                r.glwe_log_polynomial_sizes@.contains(v) <==> bounds.log2_polynomial_size.contains(
                    v,
                ),
            forall|v: u64| r.glwe_dimensions@.contains(v) <==> bounds.glwe_dimension.contains(v),
            forall|v: u64|
                r.internal_lwe_dimensions@.contains(v) <==> bounds.internal_lwe_dimension.contains(
                    v,
                ),
    {
        let glwe_log_polynomial_sizes: Vec<u64> = bounds.log2_polynomial_size.as_vec();
        let glwe_dimensions: Vec<u64> = bounds.glwe_dimension.as_vec();
        let internal_lwe_dimensions: Vec<u64> = bounds.internal_lwe_dimension.as_vec();
        let levelled_only_lwe_dimensions: Interval = bounds.levelled_only_lwe_dimension;
        Self {
            glwe_log_polynomial_sizes,
            glwe_dimensions,
            internal_lwe_dimensions,
            levelled_only_lwe_dimensions,
        }
    }

    /// The unrestricted search space of the CPU backend.
    pub fn default_cpu(parameter_domains: ParameterDomains) -> (r: Self)
        ensures
            r.glwe_log_polynomial_sizes@
                == parameter_domains.glwe_pbs_constrained_cpu.log2_polynomial_size@,
            r.glwe_dimensions@ == parameter_domains.glwe_pbs_constrained_cpu.glwe_dimension@,
            r.internal_lwe_dimensions@ == parameter_domains.free_glwe.glwe_dimension@,
            r.levelled_only_lwe_dimensions == parameter_domains.free_lwe,
            r.enumerates(SearchBounds::spec_of_backend(ProcessingUnit::Cpu, parameter_domains)),
            r.wf(),
    {
        Self::from_bounds(SearchBounds::of_backend(ProcessingUnit::Cpu, parameter_domains))
    }

    /// The unrestricted search space of a GPU that runs the low-latency
    /// bootstrap kernel: of the supplied GPU polynomial-size exponents, those
    /// the kernel supports, all within 8..=14.
    pub fn default_gpu_lowlat(parameter_domains: ParameterDomains) -> (r: Self)
        ensures
            r.glwe_log_polynomial_sizes@
                == parameter_domains.glwe_pbs_constrained_gpu.log2_polynomial_size.spec_intersect(
                GpuPbsType::Lowlat.spec_log2_polynomial_sizes(),
            )@,
            r.glwe_dimensions@ == parameter_domains.glwe_pbs_constrained_gpu.glwe_dimension@,
            r.internal_lwe_dimensions@ == parameter_domains.free_glwe.glwe_dimension@,
            r.levelled_only_lwe_dimensions == parameter_domains.free_lwe,
            forall|v: u64| r.glwe_log_polynomial_sizes@.contains(v) ==> 8 <= v <= 14,
            r.wf(),
    {
        let gpu: GlweParameterRanges = parameter_domains.glwe_pbs_constrained_gpu;
        Self::from_bounds(
            SearchBounds {
                log2_polynomial_size: gpu.log2_polynomial_size.intersect(
                    GpuPbsType::Lowlat.log2_polynomial_sizes(),
                ),
                glwe_dimension: gpu.glwe_dimension,
                internal_lwe_dimension: parameter_domains.free_glwe.glwe_dimension,
                levelled_only_lwe_dimension: parameter_domains.free_lwe,
            },
        )
    }

    /// The unrestricted search space of a GPU that runs the amortized
    /// bootstrap kernel: of the supplied GPU polynomial-size exponents, those
    /// the kernel supports, all within 8..=14.
    pub fn default_gpu_amortized(parameter_domains: ParameterDomains) -> (r: Self)
        ensures
            r.glwe_log_polynomial_sizes@
                == parameter_domains.glwe_pbs_constrained_gpu.log2_polynomial_size.spec_intersect(
                GpuPbsType::Amortized.spec_log2_polynomial_sizes(),
            )@,
            r.glwe_dimensions@ == parameter_domains.glwe_pbs_constrained_gpu.glwe_dimension@,
            r.internal_lwe_dimensions@ == parameter_domains.free_glwe.glwe_dimension@,
            r.levelled_only_lwe_dimensions == parameter_domains.free_lwe,
            forall|v: u64| r.glwe_log_polynomial_sizes@.contains(v) ==> 8 <= v <= 14,
            r.wf(),
    {
        let gpu: GlweParameterRanges = parameter_domains.glwe_pbs_constrained_gpu;
        Self::from_bounds(
            SearchBounds {
                log2_polynomial_size: gpu.log2_polynomial_size.intersect(
                    GpuPbsType::Amortized.log2_polynomial_sizes(),
                ),
                glwe_dimension: gpu.glwe_dimension,
                internal_lwe_dimension: parameter_domains.free_glwe.glwe_dimension,
                levelled_only_lwe_dimension: parameter_domains.free_lwe,
            },
        )
    }

    /// The unrestricted search space of `processing_unit`.
    pub fn default(processing_unit: ProcessingUnit, parameter_domains: ParameterDomains) -> (r: Self)
        ensures
            r.enumerates(SearchBounds::spec_of_backend(processing_unit, parameter_domains)),
            r.wf(),
            processing_unit is Gpu ==> forall|v: u64|
                r.glwe_log_polynomial_sizes@.contains(v) ==> 8 <= v <= 14,
            r.levelled_only_lwe_dimensions == parameter_domains.free_lwe,
    {
        match processing_unit {
            ProcessingUnit::Cpu => Self::default_cpu(parameter_domains),
            ProcessingUnit::Gpu { pbs_type: GpuPbsType::Amortized, .. } => {
                Self::default_gpu_amortized(parameter_domains)
            },
            ProcessingUnit::Gpu { pbs_type: GpuPbsType::Lowlat, .. } => {
                Self::default_gpu_lowlat(parameter_domains)
            },
        }
    }

    /// Builds the search space of `processing_unit` under `restrictions`.
    ///
    /// The backend selects its default bounds from `parameter_domains`. The
    /// polynomial-size exponent and the GLWE dimension are intersected with
    /// the restrictions and enumerated; the internal LWE dimensions are
    /// enumerated from the default domain as it is; the levelled-only LWE
    /// dimensions are handed on as an interval. A restriction never adds a
    /// candidate, and an axis it leaves without candidates is simply empty.
    pub fn build(
        processing_unit: ProcessingUnit,
        parameter_domains: ParameterDomains,
        restrictions: ParameterRestrictions,
    ) -> (r: Self)
        ensures
            r.enumerates(
                SearchBounds::spec_of_backend(processing_unit, parameter_domains).spec_restrict(
                    restrictions,
                ),
            ),
            r.wf(),
            forall|v: u64|
                r.glwe_log_polynomial_sizes@.contains(v) <==> {
                    &&& SearchBounds::spec_of_backend(
                        processing_unit,
                        parameter_domains,
                    ).log2_polynomial_size.contains(v)
                    &&& restrictions.log2_polynomial_size_min <= v
                        <= restrictions.log2_polynomial_size_max
                },
            forall|v: u64|
                r.glwe_dimensions@.contains(v) <==> {
                    &&& SearchBounds::spec_of_backend(
                        processing_unit,
                        parameter_domains,
                    ).glwe_dimension.contains(v)
                    &&& restrictions.glwe_dimension_min <= v <= restrictions.glwe_dimension_max
                },
            processing_unit is Gpu ==> forall|v: u64|
                r.glwe_log_polynomial_sizes@.contains(v) ==> 8 <= v <= 14,
            r.internal_lwe_dimensions@ == parameter_domains.free_glwe.glwe_dimension@,
            r.levelled_only_lwe_dimensions == parameter_domains.free_lwe,
    {
        let bounds: SearchBounds = SearchBounds::of_backend(processing_unit, parameter_domains);
        Self::from_bounds(bounds.restrict(restrictions))
    }

    /// A restriction only takes candidates away: whatever the restrictions,
    /// each value on the polynomial-size and GLWE-dimension axes of the
    /// restricted search space of a backend also occurs on the same axis of
    /// its unrestricted search space, and the two other axes are the same.
    pub proof fn lemma_restriction_only_shrinks(
        restricted: Self,
        unrestricted: Self,
        processing_unit: ProcessingUnit,
        parameter_domains: ParameterDomains,
        restrictions: ParameterRestrictions,
    )
        requires
            restricted.enumerates(
                SearchBounds::spec_of_backend(processing_unit, parameter_domains).spec_restrict(
                    restrictions,
                ),
            ),
            unrestricted.enumerates(
                SearchBounds::spec_of_backend(processing_unit, parameter_domains),
            ),
        ensures
            forall|v: u64|
                restricted.glwe_log_polynomial_sizes@.contains(v)
                    ==> unrestricted.glwe_log_polynomial_sizes@.contains(v),
            forall|v: u64|
                restricted.glwe_dimensions@.contains(v) ==> unrestricted.glwe_dimensions@.contains(v),
            restricted.internal_lwe_dimensions@ == unrestricted.internal_lwe_dimensions@,
            restricted.levelled_only_lwe_dimensions == unrestricted.levelled_only_lwe_dimensions,
    {
        let wide = SearchBounds::spec_of_backend(processing_unit, parameter_domains);
        Interval::lemma_intersect_view(
            wide.log2_polynomial_size,
            restrictions.spec_log2_polynomial_size(),
        );
        Interval::lemma_intersect_view(wide.glwe_dimension, restrictions.spec_glwe_dimension());
    }
}

} // verus!
