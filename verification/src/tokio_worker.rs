//! Workers that process the requests as a stream of futures on a tokio
//! runtime.

use crate::harness::{drawn_with_seed, plan_run_worker, standard_plan, ChannelKind, HarnessPlan};
use vstd::prelude::*;

verus! {

/// How many responses a worker computes concurrently on its event loop.
pub const CONCURRENT_RESPONSES: usize = 4;

/// The buffer of the channel that carries requests to a tokio worker (each
/// sender adds a slot of its own).
pub const REQUEST_BUFFER: usize = 0;

/// The buffer of the channel that carries responses back from a tokio worker.
pub const RESPONSE_BUFFER: usize = 4;

/// A worker which processes the requests as a stream of futures on a tokio
/// runtime with a pool of threads.
#[derive(Debug, Copy, Clone, PartialEq, Eq, Hash)]
pub struct TokioWorker(());

impl TokioWorker {
    /// The one value of this type.
    pub closed spec fn spec_new() -> TokioWorker {
        TokioWorker(())
    }

    fn new() -> (worker: Self)
        ensures
            worker == TokioWorker::spec_new(),
    {
        TokioWorker(())
    }

    /// The name under which the harness reports this worker.
    pub fn name(&self) -> (name: &'static str)
        ensures
            name@ == "tokio worker"@,
    {
        "tokio worker"
    }
}

impl Default for TokioWorker {
    fn default() -> (worker: Self)
        ensures
            worker == TokioWorker::spec_new(),
    {
        Self::new()
    }
}

/// A worker which processes the requests as a stream of futures on a tokio
/// runtime that runs on the current thread alone.
#[derive(Debug, Copy, Clone, PartialEq, Eq, Hash)]
pub struct TokioCurrentThreadWorker(());

impl TokioCurrentThreadWorker {
    /// The one value of this type.
    pub closed spec fn spec_new() -> TokioCurrentThreadWorker {
        TokioCurrentThreadWorker(())
    }

    fn new() -> (worker: Self)
        ensures
            worker == TokioCurrentThreadWorker::spec_new(),
    {
        TokioCurrentThreadWorker(())
    }

    /// The name under which the harness reports this worker.
    pub fn name(&self) -> (name: &'static str)
        ensures
            name@ == "tokio current thread worker"@,
    {
        "tokio current thread worker"
    }
}

impl Default for TokioCurrentThreadWorker {
    fn default() -> (worker: Self)
        ensures
            worker == TokioCurrentThreadWorker::spec_new(),
    {
        Self::new()
    }
}

/// Set up a run of the test harness for a `TokioWorker`, with data generated
/// from `seed`.
pub fn run(seed: [u8; 32]) -> (plan: HarnessPlan<TokioWorker>)
    ensures
        standard_plan(plan),
        drawn_with_seed(plan, seed@),
        plan.worker == TokioWorker::spec_new(),
        plan.requests == ChannelKind::Bounded(REQUEST_BUFFER),
        plan.responses == ChannelKind::Bounded(RESPONSE_BUFFER),
{
    run_with_worker(seed, TokioWorker::new())
}

/// Set up a run of the test harness for a `TokioCurrentThreadWorker`, with
/// data generated from `seed`.
pub fn run_current_thread(seed: [u8; 32]) -> (plan: HarnessPlan<TokioCurrentThreadWorker>)
    ensures
        standard_plan(plan),
        drawn_with_seed(plan, seed@),
        plan.worker == TokioCurrentThreadWorker::spec_new(),
        plan.requests == ChannelKind::Bounded(REQUEST_BUFFER),
        plan.responses == ChannelKind::Bounded(RESPONSE_BUFFER),
{
    run_with_worker(seed, TokioCurrentThreadWorker::new())
}

/// A run of `worker` over the bounded channels of the futures library: one
/// that holds no request beyond one per sender, one that buffers four
/// responses.
fn run_with_worker<W>(seed: [u8; 32], worker: W) -> (plan: HarnessPlan<W>)
    ensures
        standard_plan(plan),
        drawn_with_seed(plan, seed@),
        plan.worker == worker,
        plan.requests == ChannelKind::Bounded(REQUEST_BUFFER),
        plan.responses == ChannelKind::Bounded(RESPONSE_BUFFER),
{
    plan_run_worker(
        seed,
        worker,
        ChannelKind::Bounded(REQUEST_BUFFER),
        ChannelKind::Bounded(RESPONSE_BUFFER),
    )
}

} // verus!
