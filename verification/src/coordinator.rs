//! The parallel coordinator: partition a total sample count evenly across
//! independent estimation workers and reduce their partial estimates by
//! arithmetic mean.
//!
//! Every partial estimate shares the same denominator (the partition
//! size), so the mean of the rationals 4*inside_i/partition is exactly
//! 4*(sum of inside_i)/(workers*partition): the reduction pools every
//! point drawn and is computed here without rounding. The workers are
//! independent — each owns its random stream, none shares state — so a
//! coordinator is free to run them on separate threads; `parallel_pi`
//! runs them in turn, and exposes the partitioning and the reduction
//! separately (`partition_size`, `combine`) for a threaded caller.

use vstd::prelude::*;
use vstd::arithmetic::div_mod::lemma_basic_div;
use vstd::arithmetic::div_mod::lemma_div_basics;
use vstd::arithmetic::div_mod::lemma_fundamental_div_mod;
use vstd::arithmetic::div_mod::lemma_mod_bound;
use vstd::arithmetic::mul::lemma_mul_inequality;

use crate::estimator::Error;
use crate::estimator::Estimate;
use crate::estimator::estimator_rejects;
use crate::estimator::pi;

verus! {

/// Samples each worker draws: integer floor division of the total by the
/// worker count; the remainder samples are silently dropped.
pub open spec fn partition_size_spec(samples: usize, workers: usize) -> int
    recommends
        workers > 0,
{
    samples as int / workers as int
}

/// The inputs on which the coordinator reports `InvalidArgument`: no
/// workers at all, or partitions so small that every worker would draw
/// zero points and the partial estimates would be undefined.
pub open spec fn coordinator_rejects(samples: usize, workers: usize) -> bool {
    workers == 0 || partition_size_spec(samples, workers) == 0
}

/// Total of the inside-the-circle counts of a sequence of estimates.
pub open spec fn sum_inside(s: Seq<Estimate>) -> int
    decreases s.len(),
{
    if s.len() == 0 {
        0
    } else {
        sum_inside(s.drop_last()) + s.last().inside
    }
}

/// Per-worker partition size, or `InvalidArgument` for zero workers
/// (division by zero in partition sizing).
pub fn partition_size(samples: usize, workers: usize) -> (r: Result<usize, Error>)
    ensures
        workers == 0 <==> r is Err,
        r is Err ==> r->Err_0 == Error::InvalidArgument,
        r is Ok ==> r->Ok_0 == partition_size_spec(samples, workers),
{
    if workers == 0 {
        Err(Error::InvalidArgument)
    } else {
        Ok(samples / workers)
    }
}

/// Reduce partial estimates into their arithmetic mean.
///
/// Every partial has denominator `partition`, so the mean of the values
/// 4*inside_i/partition over n partials is the exact rational
/// 4*(inside_1 + ... + inside_n) / (n * partition) — the returned
/// estimate. No partial is dropped: the sum ranges over the whole input.
pub fn combine(partials: &Vec<Estimate>, partition: usize) -> (r: Estimate)
    requires
        partials@.len() > 0,
        partition > 0,
        forall|i: int|
            0 <= i < partials@.len() ==> (#[trigger] partials@[i]).wf()
                && partials@[i].samples == partition,
        partials@.len() * partition <= usize::MAX,
    ensures
        r.inside == sum_inside(partials@),
        r.samples == partials@.len() * partition,
        r.wf(),
{
    let n = partials.len();
    let mut inside: usize = 0;
    let mut k: usize = 0;
    while k < n
        invariant
            k <= n,
            n == partials@.len(),
            partition > 0,
            forall|i: int|
                0 <= i < n ==> (#[trigger] partials@[i]).wf()
                    && partials@[i].samples == partition,
            n * partition <= usize::MAX,
            inside == sum_inside(partials@.take(k as int)),
            inside <= k * partition,
        decreases n - k,
    {
        let e = partials[k];
        proof {
            assert(partials@.take(k + 1).drop_last() =~= partials@.take(k as int));
            assert(e.inside <= partition);
            assert((k + 1) * partition == k * partition + partition) by (nonlinear_arith);
            lemma_mul_inequality(k as int + 1, n as int, partition as int);
        }
        inside = inside + e.inside;
        k = k + 1;
    }
    proof {
        assert(partials@.take(n as int) =~= partials@);
    }
    Estimate { inside, samples: n * partition }
}

/// Estimate pi with `workers` independent estimation tasks over `samples`
/// points in all. The total is partitioned evenly (floor division, the
/// remainder dropped), each worker runs the estimator on its partition
/// with a random stream of its own, and the partial estimates are reduced
/// by arithmetic mean once every worker has produced one.
///
/// Rejected as `InvalidArgument`, before any work is dispatched: zero
/// workers, and a partition size of zero (more workers than samples). A
/// successful estimate is well-formed and pools exactly
/// `workers * partition` draws — never more than `samples`.
pub fn parallel_pi(samples: usize, workers: usize) -> (r: Result<Estimate, Error>)
    ensures
        coordinator_rejects(samples, workers) <==> r is Err,
        r is Err ==> r->Err_0 == Error::InvalidArgument,
        r is Ok ==> r->Ok_0.wf()
            && r->Ok_0.samples == workers * partition_size_spec(samples, workers)
            && r->Ok_0.samples <= samples,
{
    let p = match partition_size(samples, workers) {
        Ok(p) => p,
        Err(e) => {
            return Err(e);
        },
    };
    if p == 0 {
        return Err(Error::InvalidArgument);
    }
    proof {
        lemma_fundamental_div_mod(samples as int, workers as int);
        lemma_mod_bound(samples as int, workers as int);
    }
    let mut partials: Vec<Estimate> = Vec::new();
    let mut w: usize = 0;
    while w < workers
        invariant
            w <= workers,
            p == partition_size_spec(samples, workers),
            p > 0,
            workers > 0,
            workers * p <= samples,
            partials@.len() == w,
            forall|i: int|
                0 <= i < w ==> (#[trigger] partials@[i]).wf()
                    && partials@[i].samples == p,
        decreases workers - w,
    {
        let e = match pi(p) {
            Ok(e) => e,
            Err(_) => {
                proof {
                    assert(false);
                }
                return Err(Error::WorkerFailure);
            },
        };
        partials.push(e);
        w = w + 1;
    }
    let combined = combine(&partials, p);
    Ok(combined)
}

/// Law: with a single worker the coordinator matches the estimator. It
/// rejects exactly the inputs the estimator rejects, and its one
/// partition is the whole request, so a successful run pools exactly
/// `samples` draws — the same contract shape as `pi(samples)`; the random
/// streams being independent and identically distributed, the two results
/// follow the same distribution.
pub proof fn lemma_single_worker_matches_estimator(samples: usize)
    ensures
        coordinator_rejects(samples, 1) == estimator_rejects(samples),
        partition_size_spec(samples, 1) == samples as int,
        1 * partition_size_spec(samples, 1) == samples as int,
{
    lemma_div_basics(samples as int);
}

/// Law: the mean of a single partial estimate is that estimate unchanged:
/// the sum over one partial is its own count, and one partition of size
/// `p` pools `p` draws. With `lemma_single_worker_matches_estimator` this
/// says a single-worker coordinator reduces to one plain estimator run.
pub proof fn lemma_mean_of_one_is_identity(e: Estimate, p: usize)
    requires
        e.samples == p,
    ensures
        sum_inside(seq![e]) == e.inside,
        seq![e].len() * p == e.samples,
{
    let s = seq![e];
    assert(s.drop_last() =~= Seq::<Estimate>::empty());
    assert(sum_inside(Seq::<Estimate>::empty()) == 0);
    assert(sum_inside(s) == sum_inside(s.drop_last()) + s.last().inside);
}

/// Law: more workers than samples makes every partition empty, and the
/// coordinator rejects such a request rather than ask its workers for
/// estimates over zero points.
pub proof fn lemma_more_workers_than_samples(samples: usize, workers: usize)
    requires
        workers > samples,
    ensures
        partition_size_spec(samples, workers) == 0,
        coordinator_rejects(samples, workers),
{
    lemma_basic_div(samples as int, workers as int);
}

} // verus!
