use vstd::prelude::*;

verus! {

/// Length of the sampling window of one load run, in microseconds.
pub const WINDOW_MICROS: u64 = 14000000;

/// Interval between two samples, in milliseconds.
pub const TICK_MILLIS: u64 = 500;

/// Number of samples that a full window holds.
pub const SAMPLE_CAPACITY: usize = 28;

/// Number of trailing samples that the final speed averages.
pub const AVERAGED_SAMPLES: usize = 20;

/// Stall budget at the start of a run.
pub const STALL_BUDGET: i128 = 6;

/// A final tick that moved fewer bytes than this, after a stall, marks a failed run.
pub const FAILED_TICK_BYTES: u128 = 200;

/// Parallel connections in multi-connection mode.
pub const MULTI_WORKERS: usize = 8;

/// How a run, or a probe that has not run yet, ended.
#[derive(Clone, Copy, Debug, PartialEq, Eq, Structural)]
pub enum StatusKind {
    /// Not measured yet (or cancelled).
    Undetermined,
    Normal,
    Failed,
    Interrupted,
}

/// The reduction of one load run.
#[derive(Clone, Copy, Debug, PartialEq, Eq, Structural)]
pub struct RunOutcome {
    /// Final speed in bits per second (megabits per second times one million).
    pub speed_bps: u128,
    pub status: StatusKind,
}

/// Number of parallel connections for the chosen mode.
pub fn worker_count(multi_thread: bool) -> (r: usize)
    ensures
        r == (if multi_thread { MULTI_WORKERS } else { 1 }),
{
    if multi_thread {
        MULTI_WORKERS
    } else {
        1
    }
}

/// Sum of the first `n` counters.
pub open spec fn sum_prefix(counts: Seq<u64>, n: int) -> int
    decreases n,
{
    if n <= 0 {
        0
    } else {
        sum_prefix(counts, n - 1) + counts[n - 1]
    }
}

/// Sum of all per-connection byte counters.
pub open spec fn sum_counts(counts: Seq<u64>) -> int {
    sum_prefix(counts, counts.len() as int)
}

proof fn lemma_sum_prefix_bounds(counts: Seq<u64>, n: int)
    requires
        0 <= n <= counts.len(),
    ensures
        0 <= sum_prefix(counts, n) <= n * (u64::MAX as int),
    decreases n,
{
    if n > 0 {
        lemma_sum_prefix_bounds(counts, n - 1);
    }
}

/// The aggregate byte count of a run: the exact sum of the per-connection
/// counters, with no update lost.
pub fn total_bytes(counts: &[u64]) -> (r: u128)
    ensures
        r == sum_counts(counts@),
{
    let mut total: u128 = 0;
    let mut i: usize = 0;
    while i < counts.len()
        invariant
            i <= counts@.len(),
            total == sum_prefix(counts@, i as int),
        decreases counts@.len() - i,
    {
        proof {
            lemma_sum_prefix_bounds(counts@, i as int + 1);
            assert((i as int + 1) * (u64::MAX as int) <= (usize::MAX as int) * (u64::MAX as int))
                by (nonlinear_arith)
                requires
                    i as int + 1 <= usize::MAX as int,
            ;
        }
        total = total + counts[i] as u128;
        i = i + 1;
    }
    total
}

/// Throughput of one tick in bits per second, rounded down.
pub open spec fn tick_speed(delta: int, micros: int) -> int {
    delta * 8000000 / micros
}

/// Bytes of one tick whose speed the sampler can still hold and average.
pub open spec fn delta_fits(delta: int) -> bool {
    delta * 8000000 <= max_sample()
}

/// Throughput of a tick that moved `delta` bytes in `micros` microseconds,
/// in bits per second.
pub fn sample_speed(delta: u128, micros: u64) -> (r: u128)
    requires
        micros > 0,
        delta_fits(delta as int),
    ensures
        r == tick_speed(delta as int, micros as int),
{
    delta * 8000000 / (micros as u128)
}

/// Sum of `s[lo..hi]`.
pub open spec fn sum_range(s: Seq<u128>, lo: int, hi: int) -> int
    decreases hi - lo,
{
    if hi <= lo {
        0
    } else {
        sum_range(s, lo, hi - 1) + s[hi - 1]
    }
}

/// Number of trailing samples averaged: the last twenty, or all of them
/// when fewer were collected.
pub open spec fn tail_len(n: int) -> int {
    if n < AVERAGED_SAMPLES {
        n
    } else {
        AVERAGED_SAMPLES as int
    }
}

/// Mean of the last `tail_len` samples, rounded down; zero when there are none.
pub open spec fn tail_mean(s: Seq<u128>) -> int {
    let k = tail_len(s.len() as int);
    if k == 0 {
        0
    } else {
        sum_range(s, s.len() - k, s.len() as int) / k
    }
}

/// Status of a run from its remaining stall budget and the bytes of its final tick.
pub open spec fn classify_spec(budget: int, last_delta: int) -> StatusKind {
    if budget <= 0 {
        if last_delta < FAILED_TICK_BYTES {
            StatusKind::Failed
        } else {
            StatusKind::Interrupted
        }
    } else {
        StatusKind::Normal
    }
}

proof fn lemma_sum_range_bound(s: Seq<u128>, lo: int, hi: int, bound: int)
    requires
        0 <= lo <= hi <= s.len(),
        forall|i: int| lo <= i < hi ==> #[trigger] s[i] <= bound,
    ensures
        0 <= sum_range(s, lo, hi) <= (hi - lo) * bound,
    decreases hi - lo,
{
    if hi > lo {
        lemma_sum_range_bound(s, lo, hi - 1, bound);
        assert(s[hi - 1] <= bound);
        assert(sum_range(s, lo, hi) == sum_range(s, lo, hi - 1) + s[hi - 1]);
        let a = sum_range(s, lo, hi - 1);
        let b = s[hi - 1] as int;
        assert(a + b <= (hi - lo) * bound) by (nonlinear_arith)
            requires
                a <= (hi - 1 - lo) * bound,
                b <= bound,
        ;
    } else {
        assert((hi - lo) * bound == 0) by (nonlinear_arith)
            requires
                hi == lo,
        ;
    }
}

/// Largest sample speed that the sampler records.
pub open spec fn max_sample() -> int {
    (u128::MAX as int) / (AVERAGED_SAMPLES as int)
}

/// Mean of the trailing samples: the last twenty when at least twenty were
/// collected, all of them otherwise, and zero for an empty series.
pub fn mean_of_tail(samples: &Vec<u128>) -> (r: u128)
    requires
        forall|i: int| 0 <= i < samples@.len() ==> #[trigger] samples@[i] <= max_sample(),
    ensures
        r == tail_mean(samples@),
{
    let n = samples.len();
    let k: usize = if n < AVERAGED_SAMPLES { n } else { AVERAGED_SAMPLES };
    if k == 0 {
        return 0;
    }
    let mut sum: u128 = 0;
    let mut i: usize = n - k;
    while i < n
        invariant
            n == samples@.len(),
            k == tail_len(n as int),
            n - k <= i <= n,
            sum == sum_range(samples@, n - k, i as int),
            forall|j: int| 0 <= j < samples@.len() ==> #[trigger] samples@[j] <= max_sample(),
        decreases n - i,
    {
        proof {
            lemma_sum_range_bound(samples@, n - k, i as int + 1, max_sample());
            assert((i + 1 - (n - k)) * max_sample() <= 20 * max_sample()) by (nonlinear_arith)
                requires
                    i + 1 - (n - k) <= 20,
                    max_sample() >= 0,
            ;
        }
        sum = sum + samples[i];
        i = i + 1;
    }
    sum / (k as u128)
}

/// Status of a run: after the stall budget is spent, a final tick under
/// `FAILED_TICK_BYTES` means failure and any other means interruption;
/// otherwise the run was normal.
pub fn classify(budget: i128, last_delta: u128) -> (r: StatusKind)
    ensures
        r == classify_spec(budget as int, last_delta as int),
{
    if budget <= 0 {
        if last_delta < FAILED_TICK_BYTES {
            StatusKind::Failed
        } else {
            StatusKind::Interrupted
        }
    } else {
        StatusKind::Normal
    }
}

/// The coordinator's record of one load run: the aggregate total and the
/// time of the previous tick, the stall budget, and the bounded series of
/// per-tick speeds.
pub struct Sampler {
    pub last_total: u128,
    pub last_micros: u64,
    pub last_delta: u128,
    pub budget: i128,
    pub samples: Vec<u128>,
}

impl Sampler {
    /// The sampler's invariant: the series never exceeds its capacity, every
    /// sample is a representable speed, and the budget never falls below
    /// what one tick per window microsecond could spend.
    pub open spec fn wf(&self) -> bool {
        &&& self.samples@.len() <= SAMPLE_CAPACITY
        &&& forall|i: int| 0 <= i < self.samples@.len() ==> #[trigger] self.samples@[i] <= max_sample()
        &&& self.budget >= STALL_BUDGET - self.last_micros
        &&& self.budget <= STALL_BUDGET
    }

    /// A sampler before the start rendezvous.
    pub fn new() -> (r: Sampler)
        ensures
            r.wf(),
            r.last_total == 0,
            r.last_micros == 0,
            r.last_delta == 0,
            r.budget == STALL_BUDGET,
            r.samples@ == Seq::<u128>::empty(),
    {
        Sampler { last_total: 0, last_micros: 0, last_delta: 0, budget: STALL_BUDGET, samples: Vec::new() }
    }

    /// Whether a tick observed at `micros` with aggregate `total` is one that
    /// `record_tick` accepts: counters never decrease, time moves forward,
    /// and the tick's byte count has a representable speed.
    pub open spec fn accepts(&self, total: u128, micros: u64) -> bool {
        &&& total >= self.last_total
        &&& micros > self.last_micros
        &&& delta_fits(total - self.last_total)
    }

    /// Records one tick. Returns whether the sampling window is still open,
    /// that is whether the coordinator should sleep and sample again.
    pub fn record_tick(&mut self, total: u128, micros: u64) -> (more: bool)
        requires
            old(self).wf(),
            old(self).accepts(total, micros),
        ensures
            final(self).wf(),
            final(self).last_total == total,
            final(self).last_micros == micros,
            final(self).last_delta == total - old(self).last_total,
            final(self).budget == old(self).budget - (if total == old(self).last_total { 1int } else { 0 }),
            final(self).samples@ == (if old(self).samples@.len() < SAMPLE_CAPACITY {
                old(self).samples@.push(
                    tick_speed(total - old(self).last_total, micros - old(self).last_micros) as u128,
                )
            } else {
                old(self).samples@
            }),
            more == (micros < WINDOW_MICROS),
    {
        let delta = total - self.last_total;
        let elapsed = micros - self.last_micros;
        if delta == 0 {
            self.budget = self.budget - 1;
        }
        let speed = sample_speed(delta, elapsed);
        proof {
            assert(speed <= max_sample()) by (nonlinear_arith)
                requires
                    speed as int == (delta as int) * 8000000 / (elapsed as int),
                    elapsed >= 1,
                    (delta as int) * 8000000 <= max_sample(),
            ;
        }
        if self.samples.len() < SAMPLE_CAPACITY {
            self.samples.push(speed);
        }
        self.last_total = total;
        self.last_micros = micros;
        self.last_delta = delta;
        micros < WINDOW_MICROS
    }

    /// The outcome of the run as recorded so far.
    pub open spec fn outcome_spec(&self) -> RunOutcome {
        RunOutcome {
            speed_bps: tail_mean(self.samples@) as u128,
            status: classify_spec(self.budget as int, self.last_delta as int),
        }
    }

    /// Reduces the run: the mean of the trailing samples and the status
    /// from the stall budget and the final tick.
    pub fn outcome(&self) -> (r: RunOutcome)
        requires
            self.wf(),
        ensures
            r == self.outcome_spec(),
    {
        let speed = mean_of_tail(&self.samples);
        RunOutcome { speed_bps: speed, status: classify(self.budget, self.last_delta) }
    }
}

/// Over a full window the final speed is the mean of exactly the last
/// twenty of the twenty-eight samples; a shorter series is averaged over
/// what it holds, and an empty one gives zero, so no sample beyond the
/// series is ever read.
pub proof fn lemma_final_speed_window(s: Seq<u128>)
    ensures
        s.len() == SAMPLE_CAPACITY ==> tail_mean(s) == sum_range(s, 8, 28) / 20,
        s.len() >= AVERAGED_SAMPLES ==> tail_mean(s) == sum_range(s, s.len() - 20, s.len() as int) / 20,
        0 < s.len() < AVERAGED_SAMPLES ==> tail_mean(s) == sum_range(s, 0, s.len() as int) / (s.len() as int),
        s.len() == 0 ==> tail_mean(s) == 0,
{
}

} // verus!
