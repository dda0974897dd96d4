//! The Monte Carlo estimator: draw random points in a square, count the
//! fraction that falls inside the inscribed circle, and scale by four.
//!
//! Coordinates are fixed-point integers: a point (x, y) with
//! `-SCALE <= x, y <= SCALE` stands for the real point (x/SCALE, y/SCALE)
//! in the square [-1, 1] x [-1, 1]. The estimate itself is kept as an
//! exact rational number (see [`Estimate`]) rather than a float, so every
//! step of the computation after the random draw is verified.

use vstd::prelude::*;

verus! {

/// Fixed-point denominator: one unit of length is `SCALE` grid steps.
pub const SCALE: i64 = 1_000_000_000;

/// The errors an estimation run can report.
#[derive(Clone, Copy, Debug, PartialEq, Eq, Structural)]
pub enum Error {
    /// A caller-supplied parameter violates a stated precondition:
    /// zero workers requested, or a sample count that leaves the
    /// estimate's denominator zero.
    InvalidArgument,
    /// A concurrent estimation task stopped before producing a result.
    /// The verified coordinator never reports this; it exists for
    /// coordinators that run the workers on threads and must surface a
    /// worker's abnormal termination rather than bias the mean.
    WorkerFailure,
}

/// One pi approximation, kept exact: the estimated value is the rational
/// number `num() / den()`, four times the fraction of drawn points that
/// fell inside the unit circle.
#[derive(Clone, Copy, Debug, PartialEq, Eq, Structural)]
pub struct Estimate {
    /// How many of the drawn points satisfied x^2 + y^2 <= 1.
    pub inside: usize,
    /// How many points were drawn in all.
    pub samples: usize,
}

impl Estimate {
    /// Numerator of the estimated value.
    pub open spec fn num(self) -> int {
        4 * self.inside as int
    }

    /// Denominator of the estimated value.
    pub open spec fn den(self) -> int {
        self.samples as int
    }

    /// Well-formed: no more points inside the circle than were drawn.
    pub open spec fn wf(self) -> bool {
        self.inside <= self.samples
    }
}

/// The inputs on which the estimator reports `InvalidArgument`.
pub open spec fn estimator_rejects(samples: usize) -> bool {
    samples == 0
}

/// Relies on rand::random_range (the thread-local generator): a uniform
/// draw from the given non-empty inclusive integer range. Nothing more is
/// assumed of the random outcome than its bounds.
#[verifier::external_body]
fn sample_coordinate() -> (r: i64)
    ensures
        -SCALE <= r <= SCALE,
{
    rand::random_range(-SCALE..=SCALE)
}

/// Whether the fixed-point point (x, y) lies inside the unit circle,
/// boundary included: x^2 + y^2 <= 1 in grid units.
pub fn point_in_unit_circle(x: i64, y: i64) -> (r: bool)
    requires
        -SCALE <= x <= SCALE,
        -SCALE <= y <= SCALE,
    ensures
        r == (x * x + y * y <= SCALE * SCALE),
{
    proof {
        assert(0 <= x * x <= SCALE * SCALE && 0 <= y * y <= SCALE * SCALE)
            by (nonlinear_arith)
            requires
                -SCALE <= x <= SCALE,
                -SCALE <= y <= SCALE,
        ;
    }
    x * x + y * y <= SCALE * SCALE
}

/// Estimate pi by drawing `samples` independent random points uniformly
/// in the square and counting those inside the inscribed circle. The
/// result is the exact rational 4 * inside / samples.
///
/// A zero sample count is rejected as `InvalidArgument`: the estimate's
/// denominator would be zero. The count of points inside is random, so
/// the contract pins the result's shape — well-formed, over exactly
/// `samples` draws — and the range law `lemma_estimate_in_range` then
/// places every such estimate in [0, 4].
pub fn pi(samples: usize) -> (r: Result<Estimate, Error>)
    ensures
        estimator_rejects(samples) <==> r is Err,
        r is Err ==> r->Err_0 == Error::InvalidArgument,
        r is Ok ==> r->Ok_0.wf() && r->Ok_0.samples == samples,
{
    if samples == 0 {
        return Err(Error::InvalidArgument);
    }
    let mut inside: usize = 0;
    let mut drawn: usize = 0;
    while drawn < samples
        invariant
            inside <= drawn <= samples,
        decreases samples - drawn,
    {
        let x = sample_coordinate();
        let y = sample_coordinate();
        if point_in_unit_circle(x, y) {
            inside = inside + 1;
        }
        drawn = drawn + 1;
    }
    Ok(Estimate { inside, samples })
}

/// Law: an estimate over at least one sample lies in [0, 4]. Stated over
/// the exact rational value, cross-multiplied by the positive denominator:
/// 0 <= num()/den() <= 4 is 0 <= num() and num() <= 4 * den().
pub proof fn lemma_estimate_in_range(e: Estimate)
    requires
        e.wf(),
        e.samples > 0,
    ensures
        0 <= e.num(),
        e.num() <= 4 * e.den(),
{
}

} // verus!
