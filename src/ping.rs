use vstd::prelude::*;

verus! {

/// Connection attempts of one latency probe.
pub const PING_ATTEMPTS: usize = 6;

/// Time allowed to each connection attempt, in microseconds.
pub const PING_TIMEOUT_MICROS: u64 = 1000000;

/// Pause after each attempt, in milliseconds.
pub const PING_PAUSE_MILLIS: u64 = 1000;

/// Jitter is the sum of the deviations divided by 5000 to give milliseconds;
/// in nanoseconds that is the sum times this factor.
pub const JITTER_NANOS_PER_MICRO: u128 = 200;

/// Latency statistics of a probe with at least one successful attempt.
#[derive(Clone, Copy, Debug, PartialEq, Eq, Structural)]
pub struct PingSummary {
    /// Smallest successful round trip, in microseconds.
    pub latency_us: u64,
    /// Jitter in nanoseconds: `JITTER_NANOS_PER_MICRO` times the summed
    /// deviation of the successful attempts from the smallest one.
    pub jitter_ns: u128,
}

/// Smallest non-zero value among the first `n` samples, or zero where all
/// of them are zero (a zero sample is a failed attempt).
pub open spec fn min_nonzero_prefix(s: Seq<u64>, n: int) -> int
    decreases n,
{
    if n <= 0 {
        0
    } else {
        let m = min_nonzero_prefix(s, n - 1);
        let x = s[n - 1] as int;
        if x == 0 {
            m
        } else if m == 0 || x < m {
            x
        } else {
            m
        }
    }
}

/// Smallest successful round trip, zero when every attempt failed.
pub open spec fn min_nonzero(s: Seq<u64>) -> int {
    min_nonzero_prefix(s, s.len() as int)
}

/// Whether every attempt failed.
pub open spec fn all_failed(s: Seq<u64>) -> bool {
    forall|i: int| 0 <= i < s.len() ==> #[trigger] s[i] == 0
}

/// Sum, over the successful attempts among the first `n`, of their
/// deviation from `m`.
pub open spec fn deviation_prefix(s: Seq<u64>, m: int, n: int) -> int
    decreases n,
{
    if n <= 0 {
        0
    } else {
        deviation_prefix(s, m, n - 1) + (if s[n - 1] == 0 { 0 } else { s[n - 1] - m })
    }
}

/// Summed deviation of the successful attempts from the smallest one.
pub open spec fn deviation(s: Seq<u64>) -> int {
    deviation_prefix(s, min_nonzero(s), s.len() as int)
}

/// What a probe yields: nothing when every attempt failed, else the
/// smallest round trip and the scaled deviation.
pub open spec fn summary_of(s: Seq<u64>) -> Option<PingSummary> {
    if all_failed(s) {
        None
    } else {
        Some(
            PingSummary {
                latency_us: min_nonzero(s) as u64,
                jitter_ns: (JITTER_NANOS_PER_MICRO * deviation(s)) as u128,
            },
        )
    }
}

proof fn lemma_min_prefix(s: Seq<u64>, n: int)
    requires
        0 <= n <= s.len(),
    ensures
        0 <= min_nonzero_prefix(s, n) <= u64::MAX,
        min_nonzero_prefix(s, n) == 0 <==> (forall|i: int| 0 <= i < n ==> #[trigger] s[i] == 0),
        forall|i: int| 0 <= i < n && s[i] != 0 ==> min_nonzero_prefix(s, n) <= #[trigger] s[i],
    decreases n,
{
    if n > 0 {
        lemma_min_prefix(s, n - 1);
        if min_nonzero_prefix(s, n) == 0 {
            assert forall|i: int| 0 <= i < n implies #[trigger] s[i] == 0 by {
                if i < n - 1 {
                    assert(min_nonzero_prefix(s, n - 1) == 0);
                }
            }
        }
    }
}

proof fn lemma_deviation_bound(s: Seq<u64>, m: int, n: int)
    requires
        0 <= n <= s.len(),
        0 <= m,
        forall|i: int| 0 <= i < n && s[i] != 0 ==> m <= #[trigger] s[i],
    ensures
        0 <= deviation_prefix(s, m, n) <= n * (u64::MAX as int),
    decreases n,
{
    if n > 0 {
        lemma_deviation_bound(s, m, n - 1);
        assert((n - 1) * (u64::MAX as int) + u64::MAX as int == n * (u64::MAX as int)) by (nonlinear_arith);
    }
}

/// Every successful attempt is at least the probe's latency, and the jitter
/// is never negative.
pub proof fn lemma_latency_is_least(s: Seq<u64>)
    ensures
        forall|i: int| 0 <= i < s.len() && s[i] != 0 ==> min_nonzero(s) <= #[trigger] s[i],
        deviation(s) >= 0,
        all_failed(s) <==> min_nonzero(s) == 0,
{
    lemma_min_prefix(s, s.len() as int);
    lemma_deviation_bound(s, min_nonzero(s), s.len() as int);
}

/// Latency and jitter of a finished probe; `None` exactly when every
/// attempt failed.
pub fn summarize(samples: &Vec<u64>) -> (r: Option<PingSummary>)
    requires
        samples@.len() <= PING_ATTEMPTS,
    ensures
        r == summary_of(samples@),
{
    let n = samples.len();
    let mut m: u64 = 0;
    let mut i: usize = 0;
    while i < n
        invariant
            n == samples@.len(),
            i <= n,
            m == min_nonzero_prefix(samples@, i as int),
        decreases n - i,
    {
        proof {
            lemma_min_prefix(samples@, i as int);
        }
        let x = samples[i];
        if x != 0 && (m == 0 || x < m) {
            m = x;
        }
        i = i + 1;
    }
    proof {
        lemma_latency_is_least(samples@);
    }
    if m == 0 {
        return None;
    }
    let mut sum: u128 = 0;
    let mut j: usize = 0;
    while j < n
        invariant
            n == samples@.len(),
            n <= PING_ATTEMPTS,
            j <= n,
            m == min_nonzero(samples@),
            forall|i: int| 0 <= i < n && samples@[i] != 0 ==> m <= #[trigger] samples@[i],
            sum == deviation_prefix(samples@, m as int, j as int),
        decreases n - j,
    {
        proof {
            lemma_deviation_bound(samples@, m as int, j as int + 1);
        }
        let x = samples[j];
        if x != 0 {
            sum = sum + (x - m) as u128;
        }
        j = j + 1;
    }
    proof {
        lemma_deviation_bound(samples@, m as int, n as int);
        assert(200 * sum <= 200 * 6 * (u64::MAX as int)) by (nonlinear_arith)
            requires
                sum <= n * (u64::MAX as int),
                n <= 6,
        ;
    }
    Some(PingSummary { latency_us: m, jitter_ns: JITTER_NANOS_PER_MICRO * sum })
}

/// The attempts of one latency probe, in order; a failed or timed-out
/// attempt is recorded as zero.
pub struct PingProbe {
    pub samples: Vec<u64>,
}

impl PingProbe {
    pub open spec fn wf(&self) -> bool {
        self.samples@.len() <= PING_ATTEMPTS
    }

    pub fn new() -> (r: PingProbe)
        ensures
            r.wf(),
            r.samples@ == Seq::<u64>::empty(),
    {
        PingProbe { samples: Vec::new() }
    }

    /// Records one attempt: its round trip in microseconds when the
    /// connection was made, zero when it failed. Returns whether another
    /// attempt is due.
    pub fn record(&mut self, connected: bool, micros: u64) -> (more: bool)
        requires
            old(self).wf(),
            old(self).samples@.len() < PING_ATTEMPTS,
        ensures
            final(self).wf(),
            final(self).samples@ == old(self).samples@.push(if connected { micros } else { 0 }),
            more == (final(self).samples@.len() < PING_ATTEMPTS),
    {
        self.samples.push(if connected { micros } else { 0 });
        self.samples.len() < PING_ATTEMPTS
    }

    /// The statistics of the attempts recorded so far.
    pub fn summary(&self) -> (r: Option<PingSummary>)
        requires
            self.wf(),
        ensures
            r == summary_of(self.samples@),
    {
        summarize(&self.samples)
    }
}

} // verus!
