//! The data that the harness feeds to a worker, and how it is handed out.

use crate::rng::{Draw, Sampler, SeededRng};
use crate::worker::{answerable, factorial, lemma_factorial_monotonic, Request};
use vstd::prelude::*;

verus! {

/// The number of requests that one run of the harness sends.
pub const DATA_SIZE: usize = 1000;

/// The number of simulated clients that send requests in parallel.
pub const NUM_CLIENTS: usize = 4;

/// How long the reader of the responses sleeps between two batches, in
/// milliseconds.
pub const RECEIVER_SLEEP_MS: u64 = 10;

/// The representation of a single request which should be sent to a worker.
#[derive(Debug, Copy, Clone, PartialEq, Eq, Hash, Structural)]
pub struct RunData {
    /// The amount of time to sleep before sending the request, in
    /// milliseconds, simulating a potentially slow client.
    pub sleep_ms: u64,
    /// The `x` value of a `Request`.
    pub x: usize,
    /// The `y` value of a `Request`.
    pub y: usize,
}

impl RunData {
    /// The request that a client sends for this datum.
    pub fn request(&self) -> (request: Request)
        ensures
            request == (Request { x: self.x, y: self.y }),
    {
        Request { x: self.x, y: self.y }
    }
}

/// The ranges that generated data are drawn from: a sleep of 1 to 24
/// milliseconds, `x` below 12 and `y` from 1 to 999.
pub open spec fn generated(datum: RunData) -> bool {
    &&& 1 <= datum.sleep_ms < 25
    &&& datum.x < 12
    &&& 1 <= datum.y < 1000
}

/// The draw that makes up field `field` of `datum` (0 for the sleep, 1 for
/// `x`, 2 for `y`): the sleep comes from `Uniform::<u64>::new(1, 25)`, `x`
/// from `Uniform::<usize>::new(0, 12)` and `y` from
/// `Uniform::<usize>::new(1, 1000)`.
pub open spec fn draw_of(datum: RunData, field: int) -> Draw {
    if field == 0 {
        (Sampler::U64, 1int, 25int, datum.sleep_ms as int)
    } else if field == 1 {
        (Sampler::Usize, 0int, 12int, datum.x as int)
    } else {
        (Sampler::Usize, 1int, 1000int, datum.y as int)
    }
}

/// The draws that make up `data`, in order: for each datum, its sleep, then
/// its `x`, then its `y`.
pub open spec fn draws_of(data: Seq<RunData>) -> Seq<Draw> {
    Seq::new(3 * data.len(), |k: int| draw_of(data[k / 3], k % 3))
}

/// Generates the data for one run: `DATA_SIZE` data, each made of the next
/// three draws from `rng`, the sleep first, then `x`, then `y`.
pub fn generate_run_data(rng: &mut SeededRng) -> (data: Vec<RunData>)
    ensures
        data@.len() == DATA_SIZE,
        forall|i: int| 0 <= i < data@.len() ==> generated(#[trigger] data@[i]),
        final(rng).seed() == old(rng).seed(),
        final(rng).draws() == old(rng).draws() + draws_of(data@),
{
    let ghost before = rng.draws();
    let mut data: Vec<RunData> = Vec::new();
    let mut n: usize = 0;
    proof {
        assert(draws_of(data@) =~= Seq::<Draw>::empty());
        assert(before + draws_of(data@) =~= before);
    }
    while n < DATA_SIZE
        invariant
            n <= DATA_SIZE,
            data@.len() == n,
            forall|i: int| 0 <= i < data@.len() ==> generated(#[trigger] data@[i]),
            rng.seed() == old(rng).seed(),
            before == old(rng).draws(),
            rng.draws() == before + draws_of(data@),
        decreases DATA_SIZE - n,
    {
        let ghost drawn = data@;
        let sleep_ms = rng.draw_u64(1, 25);
        let x = rng.draw_usize(0, 12);
        let y = rng.draw_usize(1, 1000);
        let datum = RunData { sleep_ms, x, y };
        data.push(datum);
        proof {
            assert(draws_of(data@) =~= draws_of(drawn).push(draw_of(datum, 0)).push(
                draw_of(datum, 1),
            ).push(draw_of(datum, 2))) by {
                assert forall|k: int| 0 <= k < 3 * data@.len() implies #[trigger] draws_of(
                    data@,
                )[k] == draws_of(drawn).push(draw_of(datum, 0)).push(draw_of(datum, 1)).push(
                    draw_of(datum, 2),
                )[k] by {
                    if k < 3 * drawn.len() {
                        assert(k / 3 < drawn.len());
                        assert(data@[k / 3] == drawn[k / 3]);
                    } else {
                        assert(k / 3 == drawn.len());
                        assert(data@[k / 3] == datum);
                    }
                }
            }
            assert(rng.draws() =~= before + draws_of(data@));
        }
        n = n + 1;
    }
    data
}

/// Every generated datum asks for something a worker can answer: `x!` fits
/// in a `usize` and the divisor is not zero.
pub proof fn lemma_generated_requests_answerable(datum: RunData)
    requires
        generated(datum),
    ensures
        answerable(Request { x: datum.x, y: datum.y }),
{
    reveal_with_fuel(factorial, 12);
    assert(factorial(11) == 39916800);
    lemma_factorial_monotonic(datum.x as nat, 11);
}

/// The `i`-th of `n` equal shares of `data`: the data at positions
/// `i * (len / n)` up to `(i + 1) * (len / n)`.
pub open spec fn share<A>(data: Seq<A>, n: nat, i: int) -> Seq<A> {
    let size = data.len() / n;
    data.subrange(i * size, (i + 1) * size)
}

/// `data` cut into `n` equal shares, in order.
pub open spec fn shares<A>(data: Seq<A>, n: nat) -> Seq<Seq<A>> {
    Seq::new(n, |i: int| share(data, n, i))
}

/// The views of a sequence of vectors.
pub open spec fn views<A>(vecs: Seq<Vec<A>>) -> Seq<Seq<A>> {
    vecs.map_values(|v: Vec<A>| v@)
}

/// Splits the run data evenly among `num_clients` clients: client `i` gets
/// the `i`-th share, in the order of the data.
///
/// The data must divide evenly among the clients.
pub fn split_among_clients(run_data: Vec<RunData>, num_clients: usize) -> (client_data: Vec<
    Vec<RunData>,
>)
    requires
        num_clients > 0,
        run_data@.len() % (num_clients as nat) == 0,
    ensures
        views(client_data@) == shares(run_data@, num_clients as nat),
{
    let ghost all = run_data@;
    let client_data_size = run_data.len() / num_clients;
    let mut rest = run_data;
    let mut client_data: Vec<Vec<RunData>> = Vec::new();
    let mut i: usize = 0;
    proof {
        assert(all.len() == num_clients * client_data_size) by (nonlinear_arith)
            requires
                all.len() % (num_clients as nat) == 0,
                client_data_size == all.len() / (num_clients as nat),
                num_clients > 0,
        ;
    }
    while i < num_clients
        invariant
            i <= num_clients,
            client_data_size == all.len() / (num_clients as nat),
            all.len() == num_clients * client_data_size,
            i * client_data_size <= all.len(),
            rest@ == all.subrange(i * client_data_size, all.len() as int),
            client_data@.len() == i,
            forall|j: int|
                0 <= j < i ==> (#[trigger] client_data@[j])@ == share(all, num_clients as nat, j),
        decreases num_clients - i,
    {
        proof {
            assert(rest@.len() == (num_clients - i) * client_data_size) by (nonlinear_arith)
                requires
                    rest@.len() == all.len() - i * client_data_size,
                    all.len() == num_clients * client_data_size,
            ;
            assert(client_data_size <= (num_clients - i) * client_data_size) by (nonlinear_arith)
                requires
                    i < num_clients,
            ;
            assert((i + 1) * client_data_size == i * client_data_size + client_data_size)
                by (nonlinear_arith);
            assert((i + 1) * client_data_size <= num_clients * client_data_size)
                by (nonlinear_arith)
                requires
                    i < num_clients,
            ;
        }
        let remaining = rest.split_off(client_data_size);
        client_data.push(rest);
        rest = remaining;
        i = i + 1;
    }
    proof {
        assert(views(client_data@) =~= shares(all, num_clients as nat));
    }
    client_data
}

/// The first `k` shares of `data`, concatenated, are the data up to
/// `k * (len / n)`.
proof fn lemma_first_shares<A>(data: Seq<A>, n: nat, k: nat)
    requires
        n > 0,
        k <= n,
        data.len() % n == 0,
    ensures
        shares(data, n).subrange(0, k as int).flatten_alt() =~= data.subrange(
            0,
            (k * (data.len() / n)) as int,
        ),
    decreases k,
{
    let size = data.len() / n;
    assert(data.len() == n * size) by (nonlinear_arith)
        requires
            data.len() % n == 0,
            size == data.len() / n,
            n > 0,
    ;
    assert(k * size <= n * size) by (nonlinear_arith)
        requires
            k <= n,
    ;
    if k > 0 {
        let prefix = shares(data, n).subrange(0, k as int);
        lemma_first_shares(data, n, (k - 1) as nat);
        assert(prefix.drop_last() =~= shares(data, n).subrange(0, k - 1));
        assert((k - 1) * size + size == k * size) by (nonlinear_arith);
        assert((k - 1) * size <= k * size) by (nonlinear_arith);
        assert(prefix.last() == data.subrange((k - 1) * size, (k * size) as int));
        assert(prefix.flatten_alt() == prefix.drop_last().flatten_alt().add(prefix.last()));
        assert(data.subrange(0, (k - 1) * size).add(data.subrange((k - 1) * size, (k * size) as int))
            =~= data.subrange(0, (k * size) as int));
        assert(prefix.flatten_alt() =~= data.subrange(0, (k * size) as int));
    } else {
        assert(shares(data, n).subrange(0, k as int).flatten_alt() =~= Seq::<A>::empty());
        assert(k * size == 0) by (nonlinear_arith)
            requires
                k == 0,
        ;
        assert(data.subrange(0, 0) =~= Seq::<A>::empty());
    }
}

/// Splitting data evenly among clients loses and duplicates nothing: the
/// shares, concatenated in order, are the data.
pub proof fn lemma_shares_concatenate<A>(data: Seq<A>, n: nat)
    requires
        n > 0,
        data.len() % n == 0,
    ensures
        shares(data, n).flatten() == data,
{
    lemma_first_shares(data, n, n);
    assert(shares(data, n).subrange(0, n as int) =~= shares(data, n));
    assert(n * (data.len() / n) == data.len()) by (nonlinear_arith)
        requires
            data.len() % n == 0,
            n > 0,
    ;
    assert(data.subrange(0, data.len() as int) =~= data);
    shares(data, n).lemma_flatten_and_flatten_alt_are_equivalent();
}

/// How a channel between the harness and a worker buffers messages.
#[derive(Debug, Copy, Clone, PartialEq, Eq, Structural)]
pub enum ChannelKind {
    /// A channel that holds any number of messages.
    Unbounded,
    /// A channel made with this buffer size.
    Bounded(usize),
}

/// Everything that one run of the harness needs besides the channels
/// themselves: the worker, the requests to send, how many clients send them,
/// how long the reader of the responses sleeps between batches, and how the
/// two channels buffer.
pub struct HarnessPlan<W> {
    /// The worker to run.
    pub worker: W,
    /// The data of the requests, in the order in which they were generated.
    pub run_data: Vec<RunData>,
    /// The number of clients that send the requests in parallel.
    pub num_clients: usize,
    /// How long the reader of the responses sleeps between two batches, in
    /// milliseconds.
    pub receiver_sleep_ms: u64,
    /// The channel that carries requests to the worker.
    pub requests: ChannelKind,
    /// The channel that carries responses back to the harness.
    pub responses: ChannelKind,
    /// The generator that the data were drawn from, after the draws.
    pub generator: SeededRng,
}

/// The shape of every run that the harness plans: `DATA_SIZE` requests drawn
/// from the ranges of `generated`, `NUM_CLIENTS` clients, and a reader that
/// sleeps `RECEIVER_SLEEP_MS` between batches.
pub open spec fn standard_plan<W>(plan: HarnessPlan<W>) -> bool {
    &&& plan.run_data@.len() == DATA_SIZE
    &&& forall|i: int| 0 <= i < plan.run_data@.len() ==> generated(#[trigger] plan.run_data@[i])
    &&& plan.num_clients == NUM_CLIENTS
    &&& plan.receiver_sleep_ms == RECEIVER_SLEEP_MS
}

/// The data of `plan` are all the draws of a generator seeded with `seed`,
/// made in order: for each datum its sleep, its `x`, then its `y`.
pub open spec fn drawn_with_seed<W>(plan: HarnessPlan<W>, seed: Seq<u8>) -> bool {
    &&& plan.generator.seed() == seed
    &&& plan.generator.draws() == draws_of(plan.run_data@)
}

/// Plans a run of `worker` with data generated from `seed`, over channels
/// that buffer as `requests` and `responses` say.
pub fn plan_run_worker<W>(
    seed: [u8; 32],
    worker: W,
    requests: ChannelKind,
    responses: ChannelKind,
) -> (plan: HarnessPlan<W>)
    ensures
        standard_plan(plan),
        drawn_with_seed(plan, seed@),
        plan.worker == worker,
        plan.requests == requests,
        plan.responses == responses,
{
    let mut generator = SeededRng::new(seed);
    let run_data = generate_run_data(&mut generator);
    proof {
        assert(generator.draws() =~= draws_of(run_data@));
    }
    HarnessPlan {
        worker,
        run_data,
        num_clients: NUM_CLIENTS,
        receiver_sleep_ms: RECEIVER_SLEEP_MS,
        requests,
        responses,
        generator,
    }
}

/// What the reader of the responses learns.
#[derive(Debug, Copy, Clone, PartialEq, Eq, Structural)]
pub enum ReaderEvent {
    /// The reader woke up from its sleep between batches.
    Slept,
    /// A response arrived.
    Received,
    /// The response channel is closed and empty.
    Closed,
}

/// What the reader of the responses does next.
#[derive(Debug, Copy, Clone, PartialEq, Eq, Structural)]
pub enum ReaderAction {
    /// Sleep before the next batch.
    Sleep,
    /// Wait for the next response of the current batch.
    Receive,
    /// Stop reading.
    Stop,
}

/// The reader of the responses, which simulates a consumer that reads in
/// batches: it sleeps, then reads up to `batch_size` responses, then sleeps
/// again, until the responses run out.
pub struct BatchReader {
    batch_size: usize,
    read_in_batch: usize,
}

impl BatchReader {
    /// The number of responses per batch.
    pub closed spec fn spec_batch_size(&self) -> nat {
        self.batch_size as nat
    }

    /// The number of responses read since the last sleep.
    pub closed spec fn spec_read_in_batch(&self) -> nat {
        self.read_in_batch as nat
    }

    /// A reader never reads more than a batch between two sleeps.
    #[verifier::type_invariant]
    spec fn within_batch(&self) -> bool {
        self.read_in_batch <= self.batch_size
    }

    /// A reader of batches of `batch_size` responses, which begins with a
    /// sleep.
    pub fn new(batch_size: usize) -> (reader: BatchReader)
        ensures
            reader.spec_batch_size() == batch_size,
            reader.spec_read_in_batch() == 0,
    {
        BatchReader { batch_size, read_in_batch: 0 }
    }

    /// The first thing the reader does: sleep.
    pub fn start(&self) -> (action: ReaderAction)
        ensures
            action == ReaderAction::Sleep,
    {
        ReaderAction::Sleep
    }

    /// The reader's decision after `event`. After a sleep it starts a new
    /// batch; after each response it reads on until the batch is full, then
    /// sleeps; when the responses run out it stops.
    pub fn step(&mut self, event: ReaderEvent) -> (action: ReaderAction)
        ensures
            final(self).spec_batch_size() == old(self).spec_batch_size(),
            final(self).spec_read_in_batch() <= final(self).spec_batch_size(),
            match event {
                ReaderEvent::Slept => {
                    &&& final(self).spec_read_in_batch() == 0
                    &&& action == if old(self).spec_batch_size() == 0 {
                        ReaderAction::Sleep
                    } else {
                        ReaderAction::Receive
                    }
                },
                ReaderEvent::Received => {
                    let before = old(self).spec_read_in_batch();
                    let size = old(self).spec_batch_size();
                    let after = if before < size {
                        before + 1
                    } else {
                        before
                    };
                    &&& final(self).spec_read_in_batch() == after
                    &&& action == if after < size {
                        ReaderAction::Receive
                    } else {
                        ReaderAction::Sleep
                    }
                },
                ReaderEvent::Closed => {
                    &&& final(self).spec_read_in_batch() == old(self).spec_read_in_batch()
                    &&& action == ReaderAction::Stop
                },
            },
    {
        proof {
            use_type_invariant(&*self);
        }
        match event {
            ReaderEvent::Slept => {
                self.read_in_batch = 0;
                if self.batch_size == 0 {
                    ReaderAction::Sleep
                } else {
                    ReaderAction::Receive
                }
            },
            ReaderEvent::Received => {
                if self.read_in_batch < self.batch_size {
                    self.read_in_batch = self.read_in_batch + 1;
                }
                if self.read_in_batch < self.batch_size {
                    ReaderAction::Receive
                } else {
                    ReaderAction::Sleep
                }
            },
            ReaderEvent::Closed => ReaderAction::Stop,
        }
    }
}

} // verus!
