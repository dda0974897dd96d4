//! Estimate pi by Monte Carlo sampling: draw random points in the square
//! [-1, 1] x [-1, 1], count the fraction that falls inside the inscribed
//! unit circle, and scale by four. A parallel coordinator partitions the
//! total sample count evenly across independent workers and reduces their
//! partial estimates by arithmetic mean.
//!
//! Estimates are exact rationals over fixed-point coordinates, so the
//! counting, partitioning and reduction logic is verified end to end;
//! only the uniform random draw itself is trusted.

use vstd::prelude::*;

pub mod coordinator;
pub mod estimator;

pub use coordinator::combine;
pub use coordinator::parallel_pi;
pub use coordinator::partition_size;
pub use estimator::Error;
pub use estimator::Estimate;
pub use estimator::pi;
pub use estimator::point_in_unit_circle;
pub use estimator::SCALE;

verus! {

/// Default number of random points drawn for one estimation run.
pub const DEFAULT_NUMBER_OF_SAMPLES: usize = 1_000_000;

} // verus!
