//! A worker that buffers all requests and computes the responses with a
//! data-parallel iterator.

use crate::harness::{drawn_with_seed, plan_run_worker, standard_plan, ChannelKind, HarnessPlan};
use crate::worker::{answerable, compute_response, response_to, Request, Response};
use rayon::iter::{IntoParallelIterator, ParallelIterator};
use vstd::prelude::*;

verus! {

/// A worker which buffers all requests and computes the responses with a
/// rayon parallel iterator.
#[derive(Debug, Copy, Clone, PartialEq, Eq, Hash)]
pub struct RayonWorker(());

impl RayonWorker {
    /// The one value of this type.
    pub closed spec fn spec_new() -> RayonWorker {
        RayonWorker(())
    }

    fn new() -> (worker: Self)
        ensures
            worker == RayonWorker::spec_new(),
    {
        RayonWorker(())
    }

    /// The name under which the harness reports this worker.
    pub fn name(&self) -> (name: &'static str)
        ensures
            name@ == "rayon worker"@,
    {
        "rayon worker"
    }
}

impl Default for RayonWorker {
    fn default() -> (worker: Self)
        ensures
            worker == RayonWorker::spec_new(),
    {
        Self::new()
    }
}

/// `IntoParallelIterator::into_par_iter` on the vector, `ParallelIterator::map`
/// with `compute_response`, and `ParallelIterator::collect` into a vector:
/// the responses to the requests, in the order of the requests. Rayon's
/// collection into a `Vec` keeps the order of an indexed iterator, such as
/// that of a vector.
#[verifier::external_body]
fn par_compute_responses(requests: Vec<Request>) -> (responses: Vec<Response>)
    requires
        forall|i: int| 0 <= i < requests@.len() ==> answerable(#[trigger] requests@[i]),
    ensures
        responses@ == requests@.map_values(|request: Request| response_to(request)),
{
    requests.into_par_iter().map(compute_response).collect()
}

/// Computes the responses to a whole batch of requests in parallel; the
/// responses come in the order of the requests.
pub fn respond_all(requests: Vec<Request>) -> (responses: Vec<Response>)
    requires
        forall|i: int| 0 <= i < requests@.len() ==> answerable(#[trigger] requests@[i]),
    ensures
        responses@.len() == requests@.len(),
        forall|i: int|
            0 <= i < requests@.len() ==> #[trigger] responses@[i] == response_to(requests@[i]),
{
    par_compute_responses(requests)
}

/// Set up a run of the test harness for a `RayonWorker`, with data generated
/// from `seed`, over unbounded channels.
pub fn run(seed: [u8; 32]) -> (plan: HarnessPlan<RayonWorker>)
    ensures
        standard_plan(plan),
        drawn_with_seed(plan, seed@),
        plan.worker == RayonWorker::spec_new(),
        plan.requests == ChannelKind::Unbounded,
        plan.responses == ChannelKind::Unbounded,
{
    plan_run_worker(seed, RayonWorker::new(), ChannelKind::Unbounded, ChannelKind::Unbounded)
}

} // verus!
