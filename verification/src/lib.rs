//! The search space of a cost-based parameter optimizer for a lattice-based
//! homomorphic-encryption scheme.
//!
//! The default domains of each execution backend, the hard limits of the
//! hardware kernels and the restrictions a caller imposes are combined here
//! into the exact set of candidate values that a search will enumerate.

pub mod interval;
pub mod parameter_domains;
pub mod processing_unit;
pub mod search_space;

pub use interval::Interval;
pub use parameter_domains::{GlweParameterRanges, ParameterDomains};
pub use processing_unit::{GpuPbsType, ProcessingUnit};
pub use search_space::{ParameterRestrictions, SearchBounds, SearchSpace};
