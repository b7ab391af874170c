use std::cell::Cell;
use std::rc::Rc;

use openharmony_ability::worker_pool::{
    pop_one, worker_seed, JobQueue, PoolConfig, PoolPriority, PriorityQueues, WorkerStep, XorShift64Star,
};

/// Runs every job the queue hands out, in order, until it has nothing left.
fn run_all(queue: &mut JobQueue<Box<dyn FnOnce()>>, rng: &mut XorShift64Star) {
    while let WorkerStep::Run(job) = queue.next_step(rng) {
        job();
    }
}

fn drain(queue: &mut JobQueue<&'static str>, rng: &mut XorShift64Star) -> Vec<&'static str> {
    let mut out = Vec::new();
    loop {
        match queue.next_step(rng) {
            WorkerStep::Run(job) => out.push(job),
            WorkerStep::Wait => break,
            WorkerStep::Exit => break,
        }
    }
    out
}

#[test]
fn config_keeps_prefix_and_worker_count() {
    let config = PoolConfig::new("test-pool".to_string(), 2);
    assert_eq!(config.thread_name_prefix, "test-pool");
    assert_eq!(config.worker_count, 2);
    assert_eq!(PoolConfig::DEFAULT_THREAD_NAME_PREFIX, "worker-pool");
    assert_eq!(PoolConfig::DEFAULT_PRIORITY, PoolPriority::Medium);
}

#[test]
fn parallelism_is_clamped_with_fallback() {
    assert_eq!(PoolConfig::worker_count_for(None), PoolConfig::FALLBACK_WORKERS);
    assert_eq!(PoolConfig::worker_count_for(Some(0)), 1);
    assert_eq!(PoolConfig::worker_count_for(Some(1)), 1);
    assert_eq!(PoolConfig::worker_count_for(Some(3)), 3);
    assert_eq!(PoolConfig::worker_count_for(Some(4)), 4);
    assert_eq!(PoolConfig::worker_count_for(Some(64)), PoolConfig::MAX_WORKERS);
    let config = PoolConfig::with_parallelism("pool".to_string(), Some(16));
    assert_eq!(config.worker_count, 4);
    assert_eq!(config.thread_name_prefix, "pool");
}

#[test]
fn xorshift_sequence_from_seed_one() {
    let mut rng = XorShift64Star::new(1);
    assert_eq!(rng.next_u64(), 13473309256371520605);
    assert_eq!(rng.next_u64(), 205591708820793437);
    assert_eq!(rng.next_u64(), 18309282447448061861);
}

#[test]
fn zero_seed_behaves_like_seed_one() {
    let mut a = XorShift64Star::new(0);
    let mut b = XorShift64Star::new(1);
    for _ in 0..10 {
        assert_eq!(a.next_u64(), b.next_u64());
    }
}

#[test]
fn random_ratio_full_mass_always_hits() {
    let mut rng = XorShift64Star::new(7);
    for _ in 0..100 {
        assert!(rng.random_ratio(30, 30));
    }
    for _ in 0..100 {
        assert!(!rng.random_ratio(0, 30));
    }
}

#[test]
fn single_lane_drains_in_fifo_order() {
    let mut queue = JobQueue::new();
    let names: Vec<&'static str> = vec!["a", "b", "c", "d", "e"];
    for name in &names {
        queue.send(PoolPriority::Medium, *name);
    }
    let mut rng = XorShift64Star::new(1);
    assert_eq!(drain(&mut queue, &mut rng), names);
}

#[test]
fn single_worker_same_priority_fifo() {
    let mut queue: JobQueue<usize> = JobQueue::new();
    for index in 0..50 {
        queue.send(PoolPriority::Medium, index);
    }
    let mut rng = XorShift64Star::new(1);
    let mut order = Vec::new();
    while let WorkerStep::Run(job) = queue.next_step(&mut rng) {
        order.push(job);
    }
    let expected: Vec<usize> = (0..50).collect();
    assert_eq!(order, expected);
}

#[test]
fn weighted_draw_is_deterministic_per_seed() {
    let expected: [(u64, [&str; 7]); 3] = [
        (1, ["h0", "h1", "m0", "m1", "h2", "l0", "l1"]),
        (7, ["h0", "m0", "m1", "h1", "l0", "l1", "h2"]),
        (42, ["m0", "h0", "h1", "h2", "m1", "l0", "l1"]),
    ];
    for (seed, order) in expected {
        let mut queue = JobQueue::new();
        for job in ["h0", "h1", "h2"] {
            queue.send(PoolPriority::High, job);
        }
        for job in ["m0", "m1"] {
            queue.send(PoolPriority::Medium, job);
        }
        for job in ["l0", "l1"] {
            queue.send(PoolPriority::Low, job);
        }
        let mut rng = XorShift64Star::new(seed);
        assert_eq!(drain(&mut queue, &mut rng), order.to_vec());
    }
}

#[test]
fn all_three_priorities_run() {
    let mut queue = JobQueue::new();
    for _ in 0..20 {
        queue.send(PoolPriority::High, 0usize);
        queue.send(PoolPriority::Medium, 1usize);
        queue.send(PoolPriority::Low, 2usize);
    }
    let mut rng = XorShift64Star::new(3);
    let mut counts = [0usize; 3];
    while let WorkerStep::Run(lane) = queue.next_step(&mut rng) {
        counts[lane] += 1;
    }
    assert_eq!(counts, [20, 20, 20]);
}

#[test]
fn worker_waits_on_open_empty_queue_and_exits_after_close() {
    let mut queue: JobQueue<u32> = JobQueue::new();
    let mut rng = XorShift64Star::new(1);
    assert!(matches!(queue.next_step(&mut rng), WorkerStep::Wait));
    queue.send(PoolPriority::Low, 9);
    queue.close();
    assert!(queue.is_closed());
    // A closed queue still hands out what was queued before it exits.
    assert!(matches!(queue.next_step(&mut rng), WorkerStep::Run(9)));
    assert!(matches!(queue.next_step(&mut rng), WorkerStep::Exit));
    assert!(queue.is_empty());
}

#[test]
fn pop_one_takes_the_only_low_job() {
    let mut queues = PriorityQueues::new();
    queues.push(PoolPriority::Low, "low");
    assert_eq!(queues.len(), 1);
    let mut rng = XorShift64Star::new(5);
    assert_eq!(pop_one(&mut queues, &mut rng), "low");
    assert!(queues.is_empty());
}

#[test]
fn dispatched_jobs_all_run() {
    const TOTAL: usize = 100;
    let config = PoolConfig::new("test-pool".to_string(), 2);
    let counter = Rc::new(Cell::new(0usize));
    let mut queue: JobQueue<Box<dyn FnOnce()>> = JobQueue::new();
    for _ in 0..TOTAL {
        let counter = Rc::clone(&counter);
        queue.send(PoolConfig::DEFAULT_PRIORITY, Box::new(move || counter.set(counter.get() + 1)));
    }
    let mut rng = XorShift64Star::new(config.worker_count as u64);
    run_all(&mut queue, &mut rng);
    assert_eq!(counter.get(), TOTAL);
}

#[test]
fn high_frequency_dispatch_stays_stable() {
    const TOTAL: usize = 50_000;
    let config = PoolConfig::new("test-pool".to_string(), 4);
    let counter = Rc::new(Cell::new(0usize));
    let mut queue: JobQueue<Box<dyn FnOnce()>> = JobQueue::new();
    for _ in 0..TOTAL {
        let counter = Rc::clone(&counter);
        queue.send(PoolConfig::DEFAULT_PRIORITY, Box::new(move || counter.set(counter.get() + 1)));
    }
    queue.close();
    let mut rng = XorShift64Star::new(11);
    run_all(&mut queue, &mut rng);
    assert_eq!(counter.get(), TOTAL);
    assert!(matches!(queue.next_step(&mut rng), WorkerStep::Exit));
    assert_eq!(config.worker_count, 4);
}

#[test]
fn workers_get_distinct_fixed_seeds() {
    assert_eq!(worker_seed(0), 1);
    assert_eq!(worker_seed(3), 4);
}
