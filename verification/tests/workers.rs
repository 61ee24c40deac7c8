use parallel_workers::harness::{ChannelKind, DATA_SIZE, NUM_CLIENTS};
use parallel_workers::par_iter::{self, respond_all, RayonWorker};
use parallel_workers::sequential::{self, SequentialWorker};
use parallel_workers::threadpool::{self, RoundRobin, ThreadPoolWorker};
use parallel_workers::tokio_worker::{
    self, TokioCurrentThreadWorker, TokioWorker, REQUEST_BUFFER, RESPONSE_BUFFER,
};
use parallel_workers::worker::{compute_response, Request, Response};

#[test]
fn workers_have_their_names() {
    assert_eq!(SequentialWorker::default().name(), "sequential worker");
    assert_eq!(ThreadPoolWorker::default().name(), "threadpool worker");
    assert_eq!(RayonWorker::default().name(), "rayon worker");
    assert_eq!(TokioWorker::default().name(), "tokio worker");
    assert_eq!(TokioCurrentThreadWorker::default().name(), "tokio current thread worker");
}

#[test]
fn runs_plan_their_workers_and_channels() {
    let seed = [1u8; 32];
    let plan = sequential::run(seed);
    assert_eq!(plan.worker, SequentialWorker::default());
    assert_eq!((plan.requests, plan.responses), (ChannelKind::Unbounded, ChannelKind::Unbounded));
    assert_eq!((plan.run_data.len(), plan.num_clients), (DATA_SIZE, NUM_CLIENTS));

    let plan = threadpool::run(seed);
    assert_eq!(plan.worker, ThreadPoolWorker::default());
    assert_eq!((plan.requests, plan.responses), (ChannelKind::Unbounded, ChannelKind::Unbounded));

    let plan = par_iter::run(seed);
    assert_eq!(plan.worker, RayonWorker::default());
    assert_eq!((plan.requests, plan.responses), (ChannelKind::Unbounded, ChannelKind::Unbounded));

    let plan = tokio_worker::run(seed);
    assert_eq!(plan.worker, TokioWorker::default());
    assert_eq!(plan.requests, ChannelKind::Bounded(0));
    assert_eq!(plan.responses, ChannelKind::Bounded(4));

    let plan = tokio_worker::run_current_thread(seed);
    assert_eq!(plan.worker, TokioCurrentThreadWorker::default());
    assert_eq!(plan.requests, ChannelKind::Bounded(REQUEST_BUFFER));
    assert_eq!(plan.responses, ChannelKind::Bounded(RESPONSE_BUFFER));
    assert_eq!(plan.run_data.len(), DATA_SIZE);
}

#[test]
fn respond_all_keeps_the_order_of_the_requests() {
    let requests: Vec<Request> = (0..200).map(|i| Request { x: i % 12, y: 1 + i % 7 }).collect();
    let responses = respond_all(requests.clone());
    assert_eq!(responses.len(), requests.len());
    for (request, response) in requests.iter().zip(responses.iter()) {
        assert_eq!(*response, compute_response(*request));
    }
    assert_eq!(respond_all(vec![Request { x: 3, y: 2 }]), vec![Response { x: 3, y: 2, result: 3 }]);
    assert_eq!(respond_all(Vec::new()), Vec::<Response>::new());
}

#[test]
fn round_robin_hands_out_indices_in_turn() {
    let mut round_robin = RoundRobin::new(3);
    assert_eq!(round_robin.count(), 3);
    let handed: Vec<usize> = (0..7).map(|_| round_robin.next_index()).collect();
    assert_eq!(handed, vec![0, 1, 2, 0, 1, 2, 0]);
}

#[test]
fn round_robin_over_one_thread() {
    let mut round_robin = RoundRobin::new(1);
    assert_eq!(round_robin.next_index(), 0);
    assert_eq!(round_robin.next_index(), 0);
}

#[test]
fn round_robin_is_balanced() {
    let count = 4;
    let mut round_robin = RoundRobin::new(count);
    let mut handed = vec![0usize; count];
    for _ in 0..1001 {
        handed[round_robin.next_index()] += 1;
    }
    assert_eq!(handed, vec![251, 250, 250, 250]);
}

#[test]
fn threadpool_dispatcher_starts_at_the_first_thread() {
    let mut dispatcher = ThreadPoolWorker::default().dispatcher();
    assert!(dispatcher.count() >= 1);
    assert_eq!(dispatcher.next_index(), 0);
}
