//! A worker that hands the requests round robin to a pool of threads of its
//! own.

use crate::harness::{drawn_with_seed, plan_run_worker, standard_plan, ChannelKind, HarnessPlan};
use vstd::arithmetic::div_mod::{
    lemma_add_mod_noop,
    lemma_fundamental_div_mod,
    lemma_fundamental_div_mod_converse,
    lemma_mod_self_0,
    lemma_small_mod,
};
use vstd::prelude::*;

verus! {

/// A worker which hands the requests round robin to a blocking pool of
/// threads of its own.
#[derive(Debug, Copy, Clone, PartialEq, Eq, Hash)]
pub struct ThreadPoolWorker(());

impl ThreadPoolWorker {
    /// The one value of this type.
    pub closed spec fn spec_new() -> ThreadPoolWorker {
        ThreadPoolWorker(())
    }

    fn new() -> (worker: Self)
        ensures
            worker == ThreadPoolWorker::spec_new(),
    {
        ThreadPoolWorker(())
    }

    /// The name under which the harness reports this worker.
    pub fn name(&self) -> (name: &'static str)
        ensures
            name@ == "threadpool worker"@,
    {
        "threadpool worker"
    }
}

impl Default for ThreadPoolWorker {
    fn default() -> (worker: Self)
        ensures
            worker == ThreadPoolWorker::spec_new(),
    {
        Self::new()
    }
}

/// Set up a run of the test harness for a `ThreadPoolWorker`, with data
/// generated from `seed`, over unbounded channels.
pub fn run(seed: [u8; 32]) -> (plan: HarnessPlan<ThreadPoolWorker>)
    ensures
        standard_plan(plan),
        drawn_with_seed(plan, seed@),
        plan.worker == ThreadPoolWorker::spec_new(),
        plan.requests == ChannelKind::Unbounded,
        plan.responses == ChannelKind::Unbounded,
{
    plan_run_worker(seed, ThreadPoolWorker::new(), ChannelKind::Unbounded, ChannelKind::Unbounded)
}

/// `num_cpus::get`: the number of logical CPUs available to this process,
/// which its documentation promises to be at least 1. Which number comes out
/// depends on the machine.
#[verifier::external_body]
fn available_cpus() -> (count: usize)
    ensures
        count >= 1,
{
    num_cpus::get()
}

/// Hands out the indices of `count` threads in turn, `0, 1, ..., count - 1`,
/// and then from the start again.
pub struct RoundRobin {
    count: usize,
    next: usize,
}

impl RoundRobin {
    /// The number of threads served in turn.
    pub closed spec fn spec_count(&self) -> nat {
        self.count as nat
    }

    /// The index that is handed out next.
    pub closed spec fn spec_next(&self) -> nat {
        self.next as nat
    }

    /// There is at least one thread, and the next index is one of them.
    #[verifier::type_invariant]
    spec fn next_in_range(&self) -> bool {
        self.next < self.count
    }

    /// A round robin over `count` threads that starts with thread 0.
    pub fn new(count: usize) -> (round_robin: RoundRobin)
        requires
            count > 0,
        ensures
            round_robin.spec_count() == count,
            round_robin.spec_next() == 0,
    {
        RoundRobin { count, next: 0 }
    }

    /// The number of threads served in turn.
    pub fn count(&self) -> (count: usize)
        ensures
            count == self.spec_count(),
            count > 0,
    {
        proof {
            use_type_invariant(self);
        }
        self.count
    }

    /// Hands out the next index; the one after it follows in turn.
    pub fn next_index(&mut self) -> (index: usize)
        ensures
            index == old(self).spec_next(),
            index < old(self).spec_count(),
            final(self).spec_count() == old(self).spec_count(),
            final(self).spec_next() == (old(self).spec_next() + 1) % old(self).spec_count(),
    {
        proof {
            use_type_invariant(&*self);
        }
        let index = self.next;
        if self.next + 1 == self.count {
            self.next = 0;
            proof {
                lemma_mod_self_0(self.count as int);
            }
        } else {
            self.next = self.next + 1;
            proof {
                lemma_small_mod((index + 1) as nat, self.count as nat);
            }
        }
        index
    }
}

/// The index that a round robin over `count` threads hands out after `k`
/// earlier ones, when it starts with thread 0.
pub open spec fn position_after(count: nat, k: nat) -> nat
    decreases k,
{
    if k == 0 {
        0
    } else {
        (position_after(count, (k - 1) as nat) + 1) % count
    }
}

/// The `k`-th index (counting from 0) that a fresh round robin over `count`
/// threads hands out is `k mod count`.
pub proof fn lemma_round_robin_position(count: nat, k: nat)
    requires
        count > 0,
    ensures
        position_after(count, k) == k % count,
    decreases k,
{
    if k > 0 {
        lemma_round_robin_position(count, (k - 1) as nat);
        let c = count as int;
        let before = (k - 1) as int;
        if count > 1 {
            lemma_add_mod_noop(before, 1, c);
            lemma_small_mod(1, count);
        } else {
            // Everything is 0 modulo 1.
            assert(position_after(count, k) < 1);
            assert(k % count < 1);
        }
    } else {
        lemma_small_mod(0, count);
    }
}

/// How many of the first `m` indices that a fresh round robin over `count`
/// threads hands out go to thread `thread`.
pub open spec fn handed_to(count: nat, m: nat, thread: nat) -> nat
    decreases m,
{
    if m == 0 {
        0
    } else {
        handed_to(count, (m - 1) as nat, thread) + if ((m - 1) as nat) % count == thread {
            1nat
        } else {
            0nat
        }
    }
}

/// A round robin spreads the work evenly: of the first `m` indices, thread
/// `thread` gets `m / count`, plus one if it is among the first `m % count`
/// threads. So no two threads' shares differ by more than one.
pub proof fn lemma_round_robin_balanced(count: nat, m: nat, thread: nat)
    requires
        count > 0,
        thread < count,
    ensures
        handed_to(count, m, thread) == m / count + if thread < m % count {
            1nat
        } else {
            0nat
        },
        m / count <= handed_to(count, m, thread) <= m / count + 1,
    decreases m,
{
    if m > 0 {
        let p = (m - 1) as nat;
        lemma_round_robin_balanced(count, p, thread);
        let c = count as int;
        let q = p as int / c;
        let r = p as int % c;
        lemma_fundamental_div_mod(p as int, c);
        assert(0 <= r < c);
        if r + 1 == c {
            assert(m as int == (q + 1) * c) by (nonlinear_arith)
                requires
                    p as int == c * q + r,
                    r + 1 == c,
                    m as int == p as int + 1,
            ;
            lemma_fundamental_div_mod_converse(m as int, c, q + 1, 0);
        } else {
            assert(m as int == q * c + (r + 1)) by (nonlinear_arith)
                requires
                    p as int == c * q + r,
                    m as int == p as int + 1,
            ;
            lemma_fundamental_div_mod_converse(m as int, c, q, r + 1);
        }
    }
}

impl ThreadPoolWorker {
    /// The round robin over a pool of `cpus` threads, one per CPU, starting
    /// with the first thread.
    pub fn dispatcher_over(&self, cpus: usize) -> (round_robin: RoundRobin)
        requires
            cpus > 0,
        ensures
            round_robin.spec_count() == cpus,
            round_robin.spec_next() == 0,
    {
        RoundRobin::new(cpus)
    }

    /// The round robin over the worker's own threads, one per available CPU,
    /// that the worker uses to hand out requests.
    pub fn dispatcher(&self) -> (round_robin: RoundRobin)
        ensures
            round_robin.spec_count() >= 1,
            round_robin.spec_next() == 0,
    {
        self.dispatcher_over(available_cpus())
    }
}

} // verus!
