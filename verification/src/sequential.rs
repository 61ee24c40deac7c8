//! A worker that processes the requests one after another.

use crate::harness::{drawn_with_seed, plan_run_worker, standard_plan, ChannelKind, HarnessPlan};
use vstd::prelude::*;

verus! {

/// A worker which processes the requests one after another.
#[derive(Debug, Copy, Clone, PartialEq, Eq, Hash)]
pub struct SequentialWorker(());

impl SequentialWorker {
    /// The one value of this type.
    pub closed spec fn spec_new() -> SequentialWorker {
        SequentialWorker(())
    }

    fn new() -> (worker: Self)
        ensures
            worker == SequentialWorker::spec_new(),
    {
        SequentialWorker(())
    }

    /// The name under which the harness reports this worker.
    pub fn name(&self) -> (name: &'static str)
        ensures
            name@ == "sequential worker"@,
    {
        "sequential worker"
    }
}

impl Default for SequentialWorker {
    fn default() -> (worker: Self)
        ensures
            worker == SequentialWorker::spec_new(),
    {
        Self::new()
    }
}

/// Set up a run of the test harness for a `SequentialWorker`, with data
/// generated from `seed`, over unbounded channels.
pub fn run(seed: [u8; 32]) -> (plan: HarnessPlan<SequentialWorker>)
    ensures
        standard_plan(plan),
        drawn_with_seed(plan, seed@),
        plan.worker == SequentialWorker::spec_new(),
        plan.requests == ChannelKind::Unbounded,
        plan.responses == ChannelKind::Unbounded,
{
    plan_run_worker(seed, SequentialWorker::new(), ChannelKind::Unbounded, ChannelKind::Unbounded)
}

} // verus!
