//! The execution backends and the fixed limits of their bootstrap kernels.

use vstd::prelude::*;
use crate::interval::Interval;

verus! {

/// Smallest polynomial-size exponent the low-latency GPU bootstrap kernel runs.
pub const GPU_LOWLAT_LOG2_POLYNOMIAL_SIZE_MIN: u64 = 8;

/// Largest polynomial-size exponent the low-latency GPU bootstrap kernel runs.
pub const GPU_LOWLAT_LOG2_POLYNOMIAL_SIZE_MAX: u64 = 14;

/// Smallest polynomial-size exponent the amortized GPU bootstrap kernel runs.
pub const GPU_AMORTIZED_LOG2_POLYNOMIAL_SIZE_MIN: u64 = 8;

/// Largest polynomial-size exponent the amortized GPU bootstrap kernel runs.
pub const GPU_AMORTIZED_LOG2_POLYNOMIAL_SIZE_MAX: u64 = 14;

/// The bootstrap kernel a GPU backend runs.
#[derive(Clone, Copy, Debug, PartialEq, Eq, Structural)]
pub enum GpuPbsType {
    Lowlat,
    Amortized,
}

/// The backend a parameter set is optimized for.
#[derive(Clone, Copy, Debug, PartialEq, Eq, Structural)]
pub enum ProcessingUnit {
    Cpu,
    Gpu { pbs_type: GpuPbsType, number_of_sm: u64 },
}

impl GpuPbsType {
    /// The polynomial-size exponents the kernel supports. This is a fact
    /// about the hardware kernel, the same whatever domains are supplied.
    pub open spec fn spec_log2_polynomial_sizes(self) -> Interval {
        match self {
            GpuPbsType::Lowlat => Interval {
                start: GPU_LOWLAT_LOG2_POLYNOMIAL_SIZE_MIN,
                end: GPU_LOWLAT_LOG2_POLYNOMIAL_SIZE_MAX,
            },
            GpuPbsType::Amortized => Interval {
                start: GPU_AMORTIZED_LOG2_POLYNOMIAL_SIZE_MIN,
                end: GPU_AMORTIZED_LOG2_POLYNOMIAL_SIZE_MAX,
            },
        }
    }

    /// The polynomial-size exponents the kernel supports.
    #[verifier::when_used_as_spec(spec_log2_polynomial_sizes)]
    pub fn log2_polynomial_sizes(self) -> (r: Interval)
        ensures
            r == self.spec_log2_polynomial_sizes(),
            r.start == 8,
            r.end == 14,
    {
        match self {
            GpuPbsType::Lowlat => Interval {
                start: GPU_LOWLAT_LOG2_POLYNOMIAL_SIZE_MIN,
                end: GPU_LOWLAT_LOG2_POLYNOMIAL_SIZE_MAX,
            },
            GpuPbsType::Amortized => Interval {
                start: GPU_AMORTIZED_LOG2_POLYNOMIAL_SIZE_MIN,
                end: GPU_AMORTIZED_LOG2_POLYNOMIAL_SIZE_MAX,
            },
        }
    }
}

} // verus!
