//! The scheduling core of a small worker pool with three priority levels.
//!
//! Jobs wait in three FIFO lanes (high / medium / low). A worker takes one job at a
//! time through a weighted "loaded die" draw: each non-empty lane is tried in priority
//! order with probability `weight / remaining mass`, and the low lane is the fallback.
//! The draw is driven by a tiny xorshift64* generator, so a fixed seed gives a fixed
//! schedule. Threads, locks and condition variables live with the caller; this module
//! holds the decisions they make.
use std::collections::VecDeque;
use vstd::multiset::Multiset;
use vstd::prelude::*;

verus! {

/// Scheduling weight of the high lane.
pub const HIGH_WEIGHT: u32 = 60;

/// Scheduling weight of the medium lane.
pub const MEDIUM_WEIGHT: u32 = 30;

/// Scheduling weight of the low lane.
pub const LOW_WEIGHT: u32 = 10;

/// Priority level for a job submitted to a worker pool.
///
/// Higher priority jobs are more likely to be picked before lower priority ones, but
/// never strictly ordered.
#[derive(Clone, Copy, Debug, PartialEq, Eq, Structural)]
pub enum PoolPriority {
    High,
    Medium,
    Low,
}

/// Configuration for a worker pool.
#[derive(Clone, Debug, PartialEq, Eq)]
pub struct PoolConfig {
    /// Prefix used to name each worker thread: `"{thread_name_prefix}-{index}"`.
    pub thread_name_prefix: String,
    /// Number of resident worker threads in the pool.
    pub worker_count: usize,
}

/// Worker count picked for a host whose parallelism is `available` (`None` when it
/// could not be queried): the value clamped to `1..=MAX_WORKERS`, or `FALLBACK_WORKERS`.
pub open spec fn spec_worker_count_for(available: Option<usize>) -> usize {
    match available {
        Some(n) => if n < 1 {
            1
        } else if n > PoolConfig::MAX_WORKERS {
            PoolConfig::MAX_WORKERS
        } else {
            n
        },
        None => PoolConfig::FALLBACK_WORKERS,
    }
}

impl PoolConfig {
    /// Prefix used when the caller does not provide one.
    pub const DEFAULT_THREAD_NAME_PREFIX: &'static str = "worker-pool";

    /// Worker count used when the hardware parallelism cannot be queried.
    pub const FALLBACK_WORKERS: usize = 2;

    /// Upper bound for the worker count chosen from the available parallelism.
    pub const MAX_WORKERS: usize = 4;

    /// Priority used by the pool's `dispatch` convenience method.
    pub const DEFAULT_PRIORITY: PoolPriority = PoolPriority::Medium;

    /// Builds a config with an explicit worker count. A zero-worker pool would queue
    /// work forever, so `worker_count` must be positive.
    pub fn new(thread_name_prefix: String, worker_count: usize) -> (config: Self)
        requires
            worker_count > 0,
        ensures
            config.thread_name_prefix@ == thread_name_prefix@,
            config.worker_count == worker_count,
    {
        PoolConfig { thread_name_prefix, worker_count }
    }

    /// Worker count for a host whose available parallelism is `available`.
    pub fn worker_count_for(available: Option<usize>) -> (count: usize)
        ensures
            count == spec_worker_count_for(available),
            1 <= count <= Self::MAX_WORKERS,
    {
        match available {
            Some(n) => {
                if n < 1 {
                    1
                } else if n > Self::MAX_WORKERS {
                    Self::MAX_WORKERS
                } else {
                    n
                }
            },
            None => Self::FALLBACK_WORKERS,
        }
    }

    /// Picks a worker count from the available parallelism (`None` when it cannot be
    /// queried), clamped to `1..=MAX_WORKERS`, falling back to `FALLBACK_WORKERS`.
    pub fn with_parallelism(thread_name_prefix: String, available: Option<usize>) -> (config:
        Self)
        ensures
            config.thread_name_prefix@ == thread_name_prefix@,
            config.worker_count == spec_worker_count_for(available),
    {
        let worker_count = Self::worker_count_for(available);
        Self::new(thread_name_prefix, worker_count)
    }
}

/// The pool is as large as the host's parallelism allows: a reported parallelism from
/// one to `MAX_WORKERS` is used as it is, zero gives one worker, more is capped at
/// `MAX_WORKERS`, and a host that reports none gets `FALLBACK_WORKERS`. A host with
/// more parallelism never gets fewer workers.
pub proof fn lemma_worker_count_follows_host(n: usize, m: usize)
    ensures
        1 <= n <= PoolConfig::MAX_WORKERS ==> spec_worker_count_for(Some(n)) == n,
        spec_worker_count_for(Some(0usize)) == 1,
        n > PoolConfig::MAX_WORKERS ==> spec_worker_count_for(Some(n)) == PoolConfig::MAX_WORKERS,
        spec_worker_count_for(None) == PoolConfig::FALLBACK_WORKERS,
        n <= m ==> spec_worker_count_for(Some(n)) <= spec_worker_count_for(Some(m)),
        1 <= spec_worker_count_for(Some(n)) <= n || n == 0,
{
}

/// The generator seed of worker `index`: a distinct fixed seed per worker keeps runs
/// reproducible.
pub fn worker_seed(index: usize) -> (seed: u64)
    requires
        index < u64::MAX,
    ensures
        seed == index + 1,
{
    (index as u64) + 1
}

// ---------------------------------------------------------------------------------
// xorshift64*
// ---------------------------------------------------------------------------------

/// The state that follows `x` in the xorshift64 sequence.
pub open spec fn xorshift_next_state(x: u64) -> u64 {
    let a = x ^ (x << 13u64);
    let b = a ^ (a >> 7u64);
    b ^ (b << 17u64)
}

/// The value xorshift64* yields for the (already advanced) state `x`.
pub open spec fn xorshift_output(x: u64) -> u64 {
    x.wrapping_mul(0x2545_F491_4F6C_DD1Du64)
}

/// Whether a weighted draw of `weight` out of `mass`, made from the generator state
/// `state`, succeeds.
pub open spec fn ratio_draw(state: u64, weight: u32, mass: u32) -> bool {
    xorshift_output(xorshift_next_state(state)) % (mass as u64) < (weight as u64)
}

/// A tiny xorshift64* pseudo random generator, used only for weighted scheduling.
pub struct XorShift64Star(u64);

impl XorShift64Star {
    /// The generator requires a non-zero state.
    #[verifier::type_invariant]
    spec fn nonzero_state(self) -> bool {
        self.0 != 0
    }

    /// The current generator state.
    pub closed spec fn state(self) -> u64 {
        self.0
    }

    /// A generator seeded with `seed` (a zero seed becomes 1).
    pub fn new(seed: u64) -> (rng: Self)
        ensures
            rng.state() == if seed == 0 {
                1u64
            } else {
                seed
            },
    {
        if seed == 0 {
            XorShift64Star(1)
        } else {
            XorShift64Star(seed)
        }
    }

    /// Advances the generator and returns its next output.
    pub fn next_u64(&mut self) -> (value: u64)
        ensures
            final(self).state() == xorshift_next_state(old(self).state()),
            value == xorshift_output(final(self).state()),
    {
        proof {
            use_type_invariant(&*self);
        }
        let mut x = self.0;
        x ^= x << 13;
        x ^= x >> 7;
        x ^= x << 17;
        proof {
            lemma_xorshift_preserves_nonzero(self.0);
        }
        self.0 = x;
        x.wrapping_mul(0x2545_F491_4F6C_DD1D)
    }

    /// Returns `true` with probability `weight / mass`.
    pub fn random_ratio(&mut self, weight: u32, mass: u32) -> (hit: bool)
        requires
            mass > 0,
        ensures
            final(self).state() == xorshift_next_state(old(self).state()),
            hit == ratio_draw(old(self).state(), weight, mass),
    {
        let sample = self.next_u64() % (mass as u64);
        sample < weight as u64
    }
}

/// An xorshift step maps a non-zero state to a non-zero state, so a generator never
/// falls into the all-zero fixed point.
pub proof fn lemma_xorshift_preserves_nonzero(x: u64)
    requires
        x != 0,
    ensures
        xorshift_next_state(x) != 0,
{
    let a = x ^ (x << 13u64);
    assert(x != 0 ==> (x ^ (x << 13u64)) != 0) by (bit_vector);
    let b = a ^ (a >> 7u64);
    assert(a != 0 ==> (a ^ (a >> 7u64)) != 0) by (bit_vector);
    assert(b != 0 ==> (b ^ (b << 17u64)) != 0) by (bit_vector);
}

// ---------------------------------------------------------------------------------
// Priority lanes
// ---------------------------------------------------------------------------------

/// The three lanes of a queue, as sequences (high, medium, low).
pub type LanesView<T> = (Seq<T>, Seq<T>, Seq<T>);

/// The lane of `lanes` that holds jobs of `priority`.
pub open spec fn lane_of<T>(lanes: LanesView<T>, priority: PoolPriority) -> Seq<T> {
    match priority {
        PoolPriority::High => lanes.0,
        PoolPriority::Medium => lanes.1,
        PoolPriority::Low => lanes.2,
    }
}

/// `lanes` with the lane of `priority` replaced by `lane`.
pub open spec fn with_lane<T>(lanes: LanesView<T>, priority: PoolPriority, lane: Seq<T>) -> LanesView<
    T,
> {
    match priority {
        PoolPriority::High => (lane, lanes.1, lanes.2),
        PoolPriority::Medium => (lanes.0, lane, lanes.2),
        PoolPriority::Low => (lanes.0, lanes.1, lane),
    }
}

/// Whether no lane holds a job.
pub open spec fn lanes_empty<T>(lanes: LanesView<T>) -> bool {
    lanes.0.len() == 0 && lanes.1.len() == 0 && lanes.2.len() == 0
}

/// Number of jobs waiting in all lanes.
pub open spec fn lanes_len<T>(lanes: LanesView<T>) -> nat {
    lanes.0.len() + lanes.1.len() + lanes.2.len()
}

/// The total weight of the non-empty lanes.
pub open spec fn lanes_mass(high: bool, medium: bool, low: bool) -> u32 {
    ((if high {
        HIGH_WEIGHT
    } else {
        0u32
    }) + (if medium {
        MEDIUM_WEIGHT
    } else {
        0u32
    }) + (if low {
        LOW_WEIGHT
    } else {
        0u32
    })) as u32
}

/// The lane a weighted draw picks, given which lanes are non-empty and the generator
/// state, together with the generator state after the draw.
///
/// Each non-empty lane is tried in priority order with probability
/// `weight / remaining mass`; the low lane is the fallback.
pub open spec fn weighted_pick(high: bool, medium: bool, low: bool, state: u64) -> (
    PoolPriority,
    u64,
) {
    let mass = lanes_mass(high, medium, low);
    if high {
        let s1 = xorshift_next_state(state);
        if ratio_draw(state, HIGH_WEIGHT, mass) {
            (PoolPriority::High, s1)
        } else if medium {
            let s2 = xorshift_next_state(s1);
            if ratio_draw(s1, MEDIUM_WEIGHT, (mass - HIGH_WEIGHT) as u32) {
                (PoolPriority::Medium, s2)
            } else {
                (PoolPriority::Low, s2)
            }
        } else {
            (PoolPriority::Low, s1)
        }
    } else if medium {
        let s1 = xorshift_next_state(state);
        if ratio_draw(state, MEDIUM_WEIGHT, mass) {
            (PoolPriority::Medium, s1)
        } else {
            (PoolPriority::Low, s1)
        }
    } else {
        (PoolPriority::Low, state)
    }
}

/// The weighted pick over `lanes` from generator state `state`.
pub open spec fn pick_for<T>(lanes: LanesView<T>, state: u64) -> (PoolPriority, u64) {
    weighted_pick(lanes.0.len() > 0, lanes.1.len() > 0, lanes.2.len() > 0, state)
}

/// A draw of any weight out of the full remaining mass always succeeds.
proof fn lemma_full_mass_draw(state: u64, weight: u32)
    requires
        weight > 0,
    ensures
        ratio_draw(state, weight, weight),
{
    let v = xorshift_output(xorshift_next_state(state));
    assert(v % (weight as u64) < weight as u64);
}

/// The weighted draw only ever picks a lane that holds a job.
pub proof fn lemma_pick_is_nonempty_lane<T>(lanes: LanesView<T>, state: u64)
    requires
        !lanes_empty(lanes),
    ensures
        lane_of(lanes, pick_for(lanes, state).0).len() > 0,
{
    let h = lanes.0.len() > 0;
    let m = lanes.1.len() > 0;
    let l = lanes.2.len() > 0;
    if h && !m && !l {
        lemma_full_mass_draw(state, HIGH_WEIGHT);
    }
    if h && m && !l {
        lemma_full_mass_draw(xorshift_next_state(state), MEDIUM_WEIGHT);
    }
    if !h && m && !l {
        lemma_full_mass_draw(state, MEDIUM_WEIGHT);
    }
}

/// Higher priority is tried first, with its weight out of the mass of every waiting
/// lane: while the high lane holds jobs, it is picked exactly when the first draw from
/// the generator succeeds with `HIGH_WEIGHT` out of the weights of all non-empty
/// lanes. Otherwise, while the medium lane holds jobs, it is picked exactly when the
/// next draw (from the state after any high draw) succeeds with `MEDIUM_WEIGHT` out of
/// the weights of the non-empty medium and low lanes; the low lane is the fallback.
pub proof fn lemma_pick_follows_weights<T>(lanes: LanesView<T>, state: u64)
    ensures
        ({
            let h = lanes.0.len() > 0;
            let m = lanes.1.len() > 0;
            let l = lanes.2.len() > 0;
            let total: u32 = ((if h {
                HIGH_WEIGHT
            } else {
                0u32
            }) + (if m {
                MEDIUM_WEIGHT
            } else {
                0u32
            }) + (if l {
                LOW_WEIGHT
            } else {
                0u32
            })) as u32;
            let rest: u32 = ((if m {
                MEDIUM_WEIGHT
            } else {
                0u32
            }) + (if l {
                LOW_WEIGHT
            } else {
                0u32
            })) as u32;
            let medium_state = if h {
                xorshift_next_state(state)
            } else {
                state
            };
            let p = pick_for(lanes, state).0;
            &&& h ==> (p == PoolPriority::High <==> ratio_draw(state, HIGH_WEIGHT, total))
            &&& m && !(h && ratio_draw(state, HIGH_WEIGHT, total)) ==> (p == PoolPriority::Medium
                <==> ratio_draw(medium_state, MEDIUM_WEIGHT, rest))
            &&& p == PoolPriority::Low <==> !(h && ratio_draw(state, HIGH_WEIGHT, total)) && !(m
                && ratio_draw(medium_state, MEDIUM_WEIGHT, rest))
            &&& pick_for(lanes, state).1 == if h && ratio_draw(state, HIGH_WEIGHT, total) {
                xorshift_next_state(state)
            } else if m {
                xorshift_next_state(medium_state)
            } else {
                medium_state
            }
        }),
{
}

/// When a single lane holds jobs, the draw picks that lane whatever the generator
/// state, so lower priority work is never blocked by an empty higher lane.
pub proof fn lemma_single_lane_is_picked<T>(lanes: LanesView<T>, priority: PoolPriority, state: u64)
    requires
        lane_of(lanes, priority).len() > 0,
        forall|p: PoolPriority| p != priority ==> #[trigger] lane_of(lanes, p).len() == 0,
    ensures
        pick_for(lanes, state).0 == priority,
{
    assert(lane_of(lanes, PoolPriority::High) == lanes.0);
    assert(lane_of(lanes, PoolPriority::Medium) == lanes.1);
    assert(lane_of(lanes, PoolPriority::Low) == lanes.2);
    lemma_pick_is_nonempty_lane(lanes, state);
}

/// The lanes and generator state after one job is taken: the front of the picked lane
/// leaves it.
pub open spec fn take_one<T>(lanes: LanesView<T>, state: u64) -> (T, LanesView<T>, u64) {
    let (p, s) = pick_for(lanes, state);
    (lane_of(lanes, p)[0], with_lane(lanes, p, lane_of(lanes, p).drop_first()), s)
}

/// The jobs a worker runs, in order, when it takes `n` jobs from `lanes`.
pub open spec fn drain<T>(lanes: LanesView<T>, state: u64, n: nat) -> Seq<T>
    decreases n,
{
    if n == 0 {
        Seq::empty()
    } else {
        let (job, rest, s) = take_one(lanes, state);
        seq![job] + drain(rest, s, (n - 1) as nat)
    }
}

/// Jobs of one lane run in the order they were queued: draining a queue whose only
/// non-empty lane is `priority` yields that lane front to back.
pub proof fn lemma_single_lane_fifo<T>(lanes: LanesView<T>, priority: PoolPriority, state: u64)
    requires
        forall|p: PoolPriority| p != priority ==> #[trigger] lane_of(lanes, p).len() == 0,
    ensures
        drain(lanes, state, lane_of(lanes, priority).len()) =~= lane_of(lanes, priority),
    decreases lane_of(lanes, priority).len(),
{
    let lane = lane_of(lanes, priority);
    if lane.len() > 0 {
        lemma_single_lane_is_picked(lanes, priority, state);
        let (job, rest, s) = take_one(lanes, state);
        assert(lane_of(rest, priority) == lane.drop_first());
        assert forall|p: PoolPriority| p != priority implies #[trigger] lane_of(rest, p).len()
            == 0 by {
            assert(lane_of(rest, p) == lane_of(lanes, p));
        }
        lemma_single_lane_fifo(rest, priority, s);
        assert(drain(lanes, state, lane.len()) == seq![job] + drain(
            rest,
            s,
            (lane.len() - 1) as nat,
        ));
        assert(lane =~= seq![lane[0]] + lane.drop_first());
    }
}

/// Taking a job removes exactly one job, and the job taken was queued.
pub proof fn lemma_take_one_conserves<T>(lanes: LanesView<T>, state: u64)
    requires
        !lanes_empty(lanes),
    ensures
        lanes_len(take_one(lanes, state).1) + 1 == lanes_len(lanes),
        ({
            let p = pick_for(lanes, state).0;
            lane_of(lanes, p).contains(take_one(lanes, state).0)
        }),
{
    lemma_pick_is_nonempty_lane(lanes, state);
    let p = pick_for(lanes, state).0;
    assert(lane_of(lanes, p)[0] == take_one(lanes, state).0);
}

/// The lanes and generator state after `n` jobs were taken.
pub open spec fn after_takes<T>(lanes: LanesView<T>, state: u64, n: nat) -> (LanesView<T>, u64)
    decreases n,
{
    if n == 0 {
        (lanes, state)
    } else {
        let (_, rest, s) = take_one(lanes, state);
        after_takes(rest, s, (n - 1) as nat)
    }
}

/// The jobs waiting in all lanes, as a multiset.
pub open spec fn lanes_multiset<T>(lanes: LanesView<T>) -> Multiset<T> {
    lanes.0.to_multiset().add(lanes.1.to_multiset()).add(lanes.2.to_multiset())
}

/// Taking one job removes exactly that job from the waiting jobs.
proof fn lemma_take_one_multiset<T>(lanes: LanesView<T>, state: u64)
    requires
        !lanes_empty(lanes),
    ensures
        lanes_multiset(lanes) =~= lanes_multiset(take_one(lanes, state).1).insert(
            take_one(lanes, state).0,
        ),
{
    broadcast use vstd::seq_lib::lemma_multiset_commutative;
    broadcast use vstd::multiset::group_multiset_axioms;
    broadcast use vstd::seq_lib::group_to_multiset_ensures;
    broadcast use vstd::multiset::group_multiset_properties;

    lemma_pick_is_nonempty_lane(lanes, state);
    let p = pick_for(lanes, state).0;
    let lane = lane_of(lanes, p);
    assert(lane =~= seq![lane[0]] + lane.drop_first());
    assert((seq![lane[0]] + lane.drop_first()).to_multiset() =~= seq![lane[0]].to_multiset().add(
        lane.drop_first().to_multiset(),
    ));
    assert(seq![lane[0]].to_multiset() =~= Multiset::empty().insert(lane[0])) by {
        assert(seq![lane[0]] =~= Seq::<T>::empty().push(lane[0]));
        vstd::seq_lib::to_multiset_build(Seq::<T>::empty(), lane[0]);
        assert(Seq::<T>::empty().to_multiset() =~= Multiset::<T>::empty());
    }
}

/// Nothing queued is lost or starved: taking as many jobs as are queued runs every
/// queued job exactly once and leaves every lane empty, whatever the generator state.
pub proof fn lemma_everything_queued_runs<T>(lanes: LanesView<T>, state: u64)
    ensures
        lanes_empty(after_takes(lanes, state, lanes_len(lanes)).0),
        drain(lanes, state, lanes_len(lanes)).to_multiset() =~= lanes_multiset(lanes),
    decreases lanes_len(lanes),
{
    broadcast use vstd::seq_lib::lemma_multiset_commutative;
    broadcast use vstd::multiset::group_multiset_axioms;
    broadcast use vstd::seq_lib::group_to_multiset_ensures;
    broadcast use vstd::multiset::group_multiset_properties;

    if lanes_len(lanes) > 0 {
        lemma_take_one_conserves(lanes, state);
        lemma_take_one_multiset(lanes, state);
        let (job, rest, s) = take_one(lanes, state);
        lemma_everything_queued_runs(rest, s);
        assert((lanes_len(lanes) - 1) as nat == lanes_len(rest));
        let d = drain(rest, s, lanes_len(rest));
        assert(drain(lanes, state, lanes_len(lanes)) == seq![job] + d);
        assert(seq![job].to_multiset() =~= Multiset::empty().insert(job)) by {
            assert(seq![job] =~= Seq::<T>::empty().push(job));
            vstd::seq_lib::to_multiset_build(Seq::<T>::empty(), job);
            assert(Seq::<T>::empty().to_multiset() =~= Multiset::<T>::empty());
        }
    } else {
        assert(lanes.0 =~= Seq::<T>::empty());
        assert(lanes.1 =~= Seq::<T>::empty());
        assert(lanes.2 =~= Seq::<T>::empty());
        assert(drain(lanes, state, 0) =~= Seq::<T>::empty());
    }
}

/// The jobs a worker runs when it takes `n` jobs from `lanes`, each with the lane it
/// was taken from.
pub open spec fn drain_from_lanes<T>(lanes: LanesView<T>, state: u64, n: nat) -> Seq<
    (PoolPriority, T),
>
    decreases n,
{
    if n == 0 {
        Seq::empty()
    } else {
        let (job, rest, s) = take_one(lanes, state);
        seq![(pick_for(lanes, state).0, job)] + drain_from_lanes(rest, s, (n - 1) as nat)
    }
}

/// The jobs of `taken` that came from the lane of `priority`, in order.
pub open spec fn jobs_from_lane<T>(taken: Seq<(PoolPriority, T)>, priority: PoolPriority) -> Seq<T>
    decreases taken.len(),
{
    if taken.len() == 0 {
        Seq::empty()
    } else {
        let rest = jobs_from_lane(taken.drop_first(), priority);
        if taken[0].0 == priority {
            seq![taken[0].1] + rest
        } else {
            rest
        }
    }
}

/// The jobs taken with their lanes are the jobs `drain` runs.
pub proof fn lemma_drain_from_lanes_jobs<T>(lanes: LanesView<T>, state: u64, n: nat)
    ensures
        drain_from_lanes(lanes, state, n).map_values(|e: (PoolPriority, T)| e.1) == drain(
            lanes,
            state,
            n,
        ),
    decreases n,
{
    if n > 0 {
        let (job, rest, s) = take_one(lanes, state);
        lemma_drain_from_lanes_jobs(rest, s, (n - 1) as nat);
        let head = seq![(pick_for(lanes, state).0, job)];
        let tail = drain_from_lanes(rest, s, (n - 1) as nat);
        assert((head + tail).map_values(|e: (PoolPriority, T)| e.1) =~= seq![job]
            + tail.map_values(|e: (PoolPriority, T)| e.1));
    } else {
        assert(drain_from_lanes(lanes, state, n).map_values(|e: (PoolPriority, T)| e.1)
            =~= drain(lanes, state, n));
    }
}

/// Jobs of each lane run in the order they were queued, however the draws interleave
/// the lanes: after `n` jobs were taken, the jobs taken from a lane followed by the
/// jobs still waiting in it are exactly the jobs queued in it, in order.
pub proof fn lemma_lane_order_kept<T>(
    lanes: LanesView<T>,
    state: u64,
    n: nat,
    priority: PoolPriority,
)
    requires
        n <= lanes_len(lanes),
    ensures
        jobs_from_lane(drain_from_lanes(lanes, state, n), priority) + lane_of(
            after_takes(lanes, state, n).0,
            priority,
        ) == lane_of(lanes, priority),
    decreases n,
{
    if n == 0 {
        assert(jobs_from_lane(drain_from_lanes(lanes, state, 0), priority) + lane_of(lanes, priority)
            =~= lane_of(lanes, priority));
    } else {
        lemma_take_one_conserves(lanes, state);
        lemma_pick_is_nonempty_lane(lanes, state);
        let p = pick_for(lanes, state).0;
        let (job, rest, s) = take_one(lanes, state);
        lemma_lane_order_kept(rest, s, (n - 1) as nat, priority);
        let taken = drain_from_lanes(lanes, state, n);
        let tail = drain_from_lanes(rest, s, (n - 1) as nat);
        assert(taken == seq![(p, job)] + tail);
        assert(taken.drop_first() =~= tail);
        assert(taken[0] == (p, job));
        let waiting = lane_of(after_takes(rest, s, (n - 1) as nat).0, priority);
        assert(after_takes(lanes, state, n) == after_takes(rest, s, (n - 1) as nat));
        let lane = lane_of(lanes, priority);
        if p == priority {
            assert(lane_of(rest, priority) == lane.drop_first());
            assert(job == lane[0]);
            assert(lane =~= seq![lane[0]] + lane.drop_first());
            assert(jobs_from_lane(taken, priority) == seq![job] + jobs_from_lane(tail, priority));
            assert((seq![job] + jobs_from_lane(tail, priority)) + waiting =~= seq![job] + (
            jobs_from_lane(tail, priority) + waiting));
        } else {
            assert(lane_of(rest, priority) == lane);
            assert(jobs_from_lane(taken, priority) == jobs_from_lane(tail, priority));
        }
    }
}

/// Draining every queued job runs each lane front to back.
pub proof fn lemma_full_drain_keeps_lane_order<T>(
    lanes: LanesView<T>,
    state: u64,
    priority: PoolPriority,
)
    ensures
        jobs_from_lane(drain_from_lanes(lanes, state, lanes_len(lanes)), priority) == lane_of(
            lanes,
            priority,
        ),
{
    lemma_lane_order_kept(lanes, state, lanes_len(lanes), priority);
    lemma_everything_queued_runs(lanes, state);
    let after = after_takes(lanes, state, lanes_len(lanes)).0;
    assert(lane_of(after, priority) =~= Seq::<T>::empty());
    let front = jobs_from_lane(drain_from_lanes(lanes, state, lanes_len(lanes)), priority);
    assert(front + Seq::<T>::empty() =~= front);
}

/// Three FIFO lanes of waiting jobs.
pub struct PriorityQueues<T> {
    high_priority: VecDeque<T>,
    medium_priority: VecDeque<T>,
    low_priority: VecDeque<T>,
}

impl<T> View for PriorityQueues<T> {
    type V = LanesView<T>;

    closed spec fn view(&self) -> LanesView<T> {
        (self.high_priority@, self.medium_priority@, self.low_priority@)
    }
}

impl<T> PriorityQueues<T> {
    /// Empty lanes.
    pub fn new() -> (queues: Self)
        ensures
            queues@ == (Seq::<T>::empty(), Seq::<T>::empty(), Seq::<T>::empty()),
    {
        PriorityQueues {
            high_priority: VecDeque::new(),
            medium_priority: VecDeque::new(),
            low_priority: VecDeque::new(),
        }
    }

    /// Whether no lane holds a job.
    pub fn is_empty(&self) -> (empty: bool)
        ensures
            empty == lanes_empty(self@),
    {
        self.high_priority.len() == 0 && self.medium_priority.len() == 0
            && self.low_priority.len() == 0
    }

    /// Number of jobs waiting in all lanes.
    pub fn len(&self) -> (n: usize)
        requires
            lanes_len(self@) <= usize::MAX,
        ensures
            n == lanes_len(self@),
    {
        self.high_priority.len() + self.medium_priority.len() + self.low_priority.len()
    }

    /// Queues `job` at the back of the lane of `priority`.
    pub fn push(&mut self, priority: PoolPriority, job: T)
        ensures
            final(self)@ == with_lane(
                old(self)@,
                priority,
                lane_of(old(self)@, priority).push(job),
            ),
    {
        match priority {
            PoolPriority::High => self.high_priority.push_back(job),
            PoolPriority::Medium => self.medium_priority.push_back(job),
            PoolPriority::Low => self.low_priority.push_back(job),
        }
    }
}

/// Takes one job with the weighted "loaded die from a biased coin" draw: each
/// non-empty lane is attempted in priority order with probability
/// `weight / remaining mass`; the low lane is the guaranteed fallback.
pub fn pop_one<T>(queues: &mut PriorityQueues<T>, rng: &mut XorShift64Star) -> (job: T)
    requires
        !lanes_empty(old(queues)@),
    ensures
        (job, final(queues)@, final(rng).state()) == take_one(old(queues)@, old(rng).state()),
{
    proof {
        lemma_pick_is_nonempty_lane(queues@, rng.state());
    }
    let ghost lanes = queues@;
    let ghost state = rng.state();
    let high = queues.high_priority.len() > 0;
    let medium = queues.medium_priority.len() > 0;
    let low = queues.low_priority.len() > 0;
    let high_mass: u32 = if high {
        HIGH_WEIGHT
    } else {
        0
    };
    let medium_mass: u32 = if medium {
        MEDIUM_WEIGHT
    } else {
        0
    };
    let low_mass: u32 = if low {
        LOW_WEIGHT
    } else {
        0
    };
    let mut mass = high_mass + medium_mass + low_mass;
    assert(mass == lanes_mass(high, medium, low));

    if high {
        if rng.random_ratio(HIGH_WEIGHT, mass) {
            return queues.high_priority.pop_front().unwrap();
        }
        mass -= HIGH_WEIGHT;
    }
    if medium {
        if rng.random_ratio(MEDIUM_WEIGHT, mass) {
            return queues.medium_priority.pop_front().unwrap();
        }
    }
    queues.low_priority.pop_front().unwrap()
}

// ---------------------------------------------------------------------------------
// The shared job queue
// ---------------------------------------------------------------------------------

/// What a worker does next.
pub enum WorkerStep<T> {
    /// Nothing is queued and the queue is still open: block until notified.
    Wait,
    /// The queue is closed and drained: leave the worker loop.
    Exit,
    /// Run this job (the queue has already let go of it).
    Run(T),
}

/// The queue shared by the pool and its workers: the lanes plus the closed flag.
pub struct JobQueue<T> {
    queues: PriorityQueues<T>,
    closed: bool,
}

impl<T> JobQueue<T> {
    /// The waiting jobs.
    pub closed spec fn lanes(self) -> LanesView<T> {
        self.queues@
    }

    /// Whether the send side was closed.
    pub closed spec fn spec_is_closed(self) -> bool {
        self.closed
    }

    /// An open queue with no jobs.
    pub fn new() -> (queue: Self)
        ensures
            lanes_empty(queue.lanes()),
            !queue.spec_is_closed(),
    {
        JobQueue { queues: PriorityQueues::new(), closed: false }
    }

    /// Whether the send side was closed.
    pub fn is_closed(&self) -> (closed: bool)
        ensures
            closed == self.spec_is_closed(),
    {
        self.closed
    }

    /// Whether no job waits.
    pub fn is_empty(&self) -> (empty: bool)
        ensures
            empty == lanes_empty(self.lanes()),
    {
        self.queues.is_empty()
    }

    /// Queues `job` in the lane of `priority`.
    pub fn send(&mut self, priority: PoolPriority, job: T)
        ensures
            final(self).lanes() == with_lane(
                old(self).lanes(),
                priority,
                lane_of(old(self).lanes(), priority).push(job),
            ),
            final(self).spec_is_closed() == old(self).spec_is_closed(),
    {
        self.queues.push(priority, job);
    }

    /// Closes the send side: workers drain the remaining jobs and then exit.
    pub fn close(&mut self)
        ensures
            final(self).lanes() == old(self).lanes(),
            final(self).spec_is_closed(),
    {
        self.closed = true;
    }

    /// Decides a worker's next step: run a job while any is queued (also after the
    /// queue was closed), wait while the open queue is empty, exit once the closed
    /// queue is drained.
    pub fn next_step(&mut self, rng: &mut XorShift64Star) -> (step: WorkerStep<T>)
        ensures
            final(self).spec_is_closed() == old(self).spec_is_closed(),
            lanes_empty(old(self).lanes()) ==> {
                &&& final(self).lanes() == old(self).lanes()
                &&& final(rng).state() == old(rng).state()
                &&& if old(self).spec_is_closed() {
                    step is Exit
                } else {
                    step is Wait
                }
            },
            !lanes_empty(old(self).lanes()) ==> {
                let (job, rest, s) = take_one(old(self).lanes(), old(rng).state());
                &&& step == WorkerStep::Run(job)
                &&& final(self).lanes() == rest
                &&& final(rng).state() == s
            },
    {
        if self.queues.is_empty() {
            if self.closed {
                WorkerStep::Exit
            } else {
                WorkerStep::Wait
            }
        } else {
            let job = pop_one(&mut self.queues, rng);
            WorkerStep::Run(job)
        }
    }
}

} // verus!
