use parallel_workers::harness::{
    generate_run_data, plan_run_worker, split_among_clients, BatchReader, ChannelKind,
    ReaderAction, ReaderEvent, RunData, DATA_SIZE, NUM_CLIENTS, RECEIVER_SLEEP_MS,
};
use parallel_workers::rng::SeededRng;
use parallel_workers::worker::{checked_compute_response, Request};

fn in_generated_ranges(datum: &RunData) -> bool {
    1 <= datum.sleep_ms && datum.sleep_ms < 25 && datum.x < 12 && 1 <= datum.y && datum.y < 1000
}

#[test]
fn generated_data_fall_in_their_ranges() {
    for seed_byte in [0u8, 1, 42, 255] {
        let data = generate_run_data(&mut SeededRng::new([seed_byte; 32]));
        assert_eq!(data.len(), DATA_SIZE);
        assert!(data.iter().all(in_generated_ranges));
    }
}

#[test]
fn generated_data_are_not_constant() {
    let data = generate_run_data(&mut SeededRng::new([7u8; 32]));
    let first = data[0];
    assert!(data.iter().any(|d| d.sleep_ms != first.sleep_ms));
    assert!(data.iter().any(|d| d.x != first.x));
    assert!(data.iter().any(|d| d.y != first.y));
    // The lower ends of the ranges are reached, the upper ends are not passed.
    assert!(data.iter().any(|d| d.x == 0));
    assert!(data.iter().any(|d| d.x == 11));
}

#[test]
fn generated_requests_are_answerable() {
    let data = generate_run_data(&mut SeededRng::new([3u8; 32]));
    for datum in &data {
        assert!(checked_compute_response(datum.request()).is_some());
    }
}

#[test]
fn run_data_request_keeps_x_and_y() {
    let datum = RunData { sleep_ms: 12, x: 7, y: 31 };
    assert_eq!(datum.request(), Request { x: 7, y: 31 });
}

fn numbered(n: usize) -> Vec<RunData> {
    (0..n).map(|i| RunData { sleep_ms: i as u64, x: i, y: i + 1 }).collect()
}

#[test]
fn split_among_clients_gives_equal_shares_in_order() {
    let data = numbered(12);
    let shares = split_among_clients(data.clone(), 4);
    assert_eq!(shares.len(), 4);
    for (i, share) in shares.iter().enumerate() {
        assert_eq!(share.as_slice(), &data[i * 3..(i + 1) * 3]);
    }
    let joined: Vec<RunData> = shares.into_iter().flatten().collect();
    assert_eq!(joined, data);
}

#[test]
fn split_among_clients_of_the_generated_data() {
    let data = generate_run_data(&mut SeededRng::new([9u8; 32]));
    let shares = split_among_clients(data.clone(), NUM_CLIENTS);
    assert_eq!(shares.len(), NUM_CLIENTS);
    assert!(shares.iter().all(|s| s.len() == DATA_SIZE / NUM_CLIENTS));
    let joined: Vec<RunData> = shares.into_iter().flatten().collect();
    assert_eq!(joined, data);
}

#[test]
fn split_among_one_client_and_of_nothing() {
    let data = numbered(5);
    assert_eq!(split_among_clients(data.clone(), 1), vec![data]);
    let empty = split_among_clients(Vec::new(), 3);
    assert_eq!(empty, vec![Vec::<RunData>::new(), Vec::new(), Vec::new()]);
}

#[test]
fn plan_run_worker_has_the_harness_settings() {
    let plan = plan_run_worker([5u8; 32], "any worker", ChannelKind::Unbounded, ChannelKind::Bounded(2));
    assert_eq!(plan.worker, "any worker");
    assert_eq!(plan.run_data.len(), DATA_SIZE);
    assert!(plan.run_data.iter().all(in_generated_ranges));
    assert_eq!(plan.num_clients, 4);
    assert_eq!(plan.receiver_sleep_ms, 10);
    assert_eq!(RECEIVER_SLEEP_MS, 10);
    assert_eq!(plan.requests, ChannelKind::Unbounded);
    assert_eq!(plan.responses, ChannelKind::Bounded(2));
}

#[test]
fn batch_reader_reads_a_batch_between_sleeps() {
    let mut reader = BatchReader::new(2);
    assert_eq!(reader.start(), ReaderAction::Sleep);
    assert_eq!(reader.step(ReaderEvent::Slept), ReaderAction::Receive);
    assert_eq!(reader.step(ReaderEvent::Received), ReaderAction::Receive);
    assert_eq!(reader.step(ReaderEvent::Received), ReaderAction::Sleep);
    assert_eq!(reader.step(ReaderEvent::Slept), ReaderAction::Receive);
    assert_eq!(reader.step(ReaderEvent::Received), ReaderAction::Receive);
    assert_eq!(reader.step(ReaderEvent::Closed), ReaderAction::Stop);
}

#[test]
fn batch_reader_of_empty_batches_only_sleeps() {
    let mut reader = BatchReader::new(0);
    assert_eq!(reader.step(ReaderEvent::Slept), ReaderAction::Sleep);
    assert_eq!(reader.step(ReaderEvent::Slept), ReaderAction::Sleep);
}

#[test]
fn batch_reader_stops_when_the_responses_run_out() {
    let mut reader = BatchReader::new(4);
    assert_eq!(reader.step(ReaderEvent::Slept), ReaderAction::Receive);
    assert_eq!(reader.step(ReaderEvent::Closed), ReaderAction::Stop);
}

#[test]
fn one_seed_gives_the_same_run_data() {
    let first = generate_run_data(&mut SeededRng::new([21u8; 32]));
    let second = generate_run_data(&mut SeededRng::new([21u8; 32]));
    assert_eq!(first, second);
    let plan_a = plan_run_worker([21u8; 32], 1u8, ChannelKind::Unbounded, ChannelKind::Unbounded);
    let plan_b = plan_run_worker([21u8; 32], 2u8, ChannelKind::Bounded(0), ChannelKind::Bounded(4));
    assert_eq!(plan_a.run_data, first);
    assert_eq!(plan_b.run_data, first);
}

#[test]
fn other_seeds_give_other_run_data() {
    let first = generate_run_data(&mut SeededRng::new([21u8; 32]));
    let other = generate_run_data(&mut SeededRng::new([22u8; 32]));
    assert_ne!(first, other);
}

#[test]
fn run_data_are_the_draws_of_the_seeded_generator_in_order() {
    let data = generate_run_data(&mut SeededRng::new([4u8; 32]));
    let mut rng = SeededRng::new([4u8; 32]);
    for datum in &data {
        assert_eq!(rng.draw_u64(1, 25), datum.sleep_ms);
        assert_eq!(rng.draw_usize(0, 12), datum.x);
        assert_eq!(rng.draw_usize(1, 1000), datum.y);
    }
}

#[test]
fn drawing_continues_the_generator() {
    let mut rng = SeededRng::new([8u8; 32]);
    let first = generate_run_data(&mut rng);
    let second = generate_run_data(&mut rng);
    assert_ne!(first, second);
    assert!(second.iter().all(in_generated_ranges));
}
