//! The load-test accumulator: counters by status class, latency bounds,
//! mean, throughput and exact quantiles over every folded sample.
use vstd::prelude::*;

verus! {

/// Number of samples in `h` whose status lies in `lo..hi`.
pub open spec fn count_status(h: Seq<(u16, u64)>, lo: int, hi: int) -> nat
    decreases h.len(),
{
    if h.len() == 0 {
        0
    } else {
        count_status(h.drop_last(), lo, hi) + if lo <= h.last().0 < hi { 1nat } else { 0nat }
    }
}

/// Sum of the latencies (in nanoseconds) of the samples in `h`.
pub open spec fn sum_latency(h: Seq<(u16, u64)>) -> nat
    decreases h.len(),
{
    if h.len() == 0 {
        0
    } else {
        (sum_latency(h.drop_last()) + h.last().1) as nat
    }
}

/// The latencies of the samples in `h`, in arrival order.
pub open spec fn latencies(h: Seq<(u16, u64)>) -> Seq<u64> {
    h.map_values(|x: (u16, u64)| x.1)
}

/// Throughput in thousandths of a request per second: `total` requests
/// over `elapsed_ns` nanoseconds.
pub open spec fn throughput_milli(total: nat, elapsed_ns: nat) -> nat
    recommends
        elapsed_ns > 0,
{
    (total * 1_000_000_000_000) / elapsed_ns
}

pub open spec fn is_sorted(s: Seq<u64>) -> bool {
    forall|i: int, j: int| 0 <= i <= j < s.len() ==> s[i] <= s[j]
}

/// Index, in ascending order, of the `p`-th percentile of `n` values by the
/// nearest-rank method: the value at rank `ceil(p * n / 100)`.
pub open spec fn quantile_index(n: nat, p: nat) -> nat {
    if n == 0 {
        0
    } else {
        ((p * n + 99) / 100 - 1) as nat
    }
}

/// The `p`-th percentile of the ascending sequence `s` (zero when empty).
pub open spec fn quantile_of(s: Seq<u64>, p: nat) -> u64 {
    if s.len() == 0 {
        0
    } else {
        s[quantile_index(s.len(), p) as int]
    }
}

/// Appending one sample adds one to the count of its class and nothing to
/// the others.
pub proof fn lemma_count_push(h: Seq<(u16, u64)>, x: (u16, u64), lo: int, hi: int)
    ensures
        count_status(h.push(x), lo, hi) == count_status(h, lo, hi) + if lo <= x.0 < hi { 1nat } else { 0nat },
        sum_latency(h.push(x)) == sum_latency(h) + x.1,
        latencies(h.push(x)) == latencies(h).push(x.1),
{
    assert(h.push(x).drop_last() =~= h);
    assert(latencies(h.push(x)) =~= latencies(h).push(x.1));
}

/// A count of one class never exceeds the number of samples.
pub proof fn lemma_count_le_len(h: Seq<(u16, u64)>, lo: int, hi: int)
    ensures
        count_status(h, lo, hi) <= h.len(),
    decreases h.len(),
{
    if h.len() > 0 {
        lemma_count_le_len(h.drop_last(), lo, hi);
    }
}

/// The status classes partition the samples: failures, successes
/// (200..400), 4xx and 5xx add up to the total.
pub proof fn lemma_count_partition(h: Seq<(u16, u64)>)
    ensures
        count_status(h, 0, 200) + count_status(h, 200, 400) + count_status(h, 400, 500)
            + count_status(h, 500, 65536) == h.len(),
    decreases h.len(),
{
    if h.len() > 0 {
        lemma_count_partition(h.drop_last());
    }
}

/// Inserting `x` after every element not above it, and before every
/// element above it, keeps a sequence ascending and within any bounds
/// that hold of `x` and of the sequence.
proof fn lemma_sorted_insert(s0: Seq<u64>, pos: int, x: u64)
    requires
        is_sorted(s0),
        0 <= pos <= s0.len(),
        forall|i: int| 0 <= i < pos ==> s0[i] <= x,
        forall|i: int| pos <= i < s0.len() ==> s0[i] > x,
    ensures
        is_sorted(s0.insert(pos, x)),
        forall|i: int| 0 <= i < s0.len() + 1 && i != pos ==> s0.insert(pos, x)[i] == if i < pos { s0[i] } else { s0[i - 1] },
        s0.insert(pos, x)[pos] == x,
{
    let s1 = s0.insert(pos, x);
    assert forall|i: int, j: int| 0 <= i <= j < s1.len() implies s1[i] <= s1[j] by {
        if i < pos && j < pos {
            assert(s1[i] == s0[i] && s1[j] == s0[j]);
        } else if i < pos && j == pos {
            assert(s1[i] == s0[i]);
        } else if i < pos {
            assert(s1[i] == s0[i] && s1[j] == s0[j - 1]);
        } else if i == pos && j > pos {
            assert(s1[j] == s0[j - 1]);
        } else if i > pos {
            assert(s1[i] == s0[i - 1] && s1[j] == s0[j - 1]);
        }
    }
}

/// Position at which `x` enters the ascending `v` so that it stays
/// ascending: after every element not above `x`.
fn upper_bound(v: &Vec<u64>, x: u64) -> (pos: usize)
    requires
        is_sorted(v@),
    ensures
        pos <= v.len(),
        forall|i: int| 0 <= i < pos ==> v@[i] <= x,
        forall|i: int| pos <= i < v.len() ==> v@[i] > x,
{
    let mut lo: usize = 0;
    let mut hi: usize = v.len();
    while lo < hi
        invariant
            lo <= hi <= v.len(),
            is_sorted(v@),
            forall|i: int| 0 <= i < lo ==> v@[i] <= x,
            forall|i: int| hi <= i < v.len() ==> v@[i] > x,
        decreases hi - lo,
    {
        let mid = lo + (hi - lo) / 2;
        if v[mid] <= x {
            lo = mid + 1;
        } else {
            hi = mid;
        }
    }
    lo
}

/// The `p`-th percentile of the ascending `v` by nearest rank.
fn quantile_at(v: &Vec<u64>, p: u64) -> (r: u64)
    requires
        1 <= p <= 100,
    ensures
        r == quantile_of(v@, p as nat),
{
    let n = v.len();
    if n == 0 {
        0
    } else {
        proof {
            assert(p as int * n as int <= 100 * usize::MAX) by (nonlinear_arith)
                requires p <= 100, n <= usize::MAX;
        }
        let rank: u128 = (p as u128 * n as u128 + 99) / 100;
        proof {
            let pn = p as int * n as int;
            assert(1 <= pn <= 100 * n as int) by (nonlinear_arith)
                requires 1 <= p <= 100, n >= 1, pn == p as int * n as int;
            assert(rank as int == (pn + 99) / 100);
            assert(rank >= 1 && rank <= n);
        }
        v[(rank - 1) as usize]
    }
}

/// Accumulated statistics of a load test.
///
/// Status classes: below 200 (0 for a transport failure) is a failure;
/// 200..400 is a success and is counted under 2xx, a redirect included;
/// 400..500 is a 4xx; 500 and above is a 5xx. All times are in nanoseconds. Quantiles are
/// exact: every latency is kept, in ascending order.
pub struct LoadTestResult {
    pub total_requests: u64,
    pub successful_requests: u64,
    pub failed_requests: u64,
    pub status_2xx: u64,
    pub status_4xx: u64,
    pub status_5xx: u64,
    /// Sum of all latencies.
    pub total_duration_ns: u64,
    /// `u64::MAX` while no sample has been folded.
    pub min_latency_ns: u64,
    pub max_latency_ns: u64,
    pub avg_latency_ns: u64,
    pub p50_latency_ns: u64,
    pub p90_latency_ns: u64,
    pub p95_latency_ns: u64,
    pub p99_latency_ns: u64,
    /// Wall-clock time from the first sample to the last throughput update.
    pub elapsed_ns: u64,
    /// Throughput in thousandths of a request per second.
    pub qps_milli: u128,
    /// Every folded latency, in ascending order.
    pub sorted: Vec<u64>,
    /// The folded samples as (status, latency), in arrival order.
    pub history: Ghost<Seq<(u16, u64)>>,
}

impl Default for LoadTestResult {
    /// An empty result.
    fn default() -> (r: LoadTestResult)
        ensures
            r.wf(),
            r@ == Seq::<(u16, u64)>::empty(),
            r.elapsed_ns == 0,
            r.qps_milli == 0,
    {
        LoadTestResult::new()
    }
}

impl LoadTestResult {
    /// The samples folded so far, as (status, latency) in arrival order.
    pub open spec fn view(&self) -> Seq<(u16, u64)> {
        self.history@
    }

    /// All latencies folded so far, in ascending order.
    pub open spec fn sorted_latencies(&self) -> Seq<u64> {
        self.sorted@
    }

    pub open spec fn counters_wf(&self) -> bool {
        let h = self@;
        &&& self.total_requests == h.len()
        &&& self.failed_requests == count_status(h, 0, 200)
        &&& self.successful_requests == count_status(h, 200, 400)
        &&& self.status_2xx == count_status(h, 200, 400)
        &&& self.status_4xx == count_status(h, 400, 500)
        &&& self.status_5xx == count_status(h, 500, 65536)
        &&& self.total_duration_ns == sum_latency(h)
    }

    pub open spec fn bounds_wf(&self) -> bool {
        let h = self@;
        &&& forall|i: int| 0 <= i < h.len() ==> self.min_latency_ns <= #[trigger] h[i].1 <= self.max_latency_ns
        &&& h.len() == 0 ==> self.min_latency_ns == u64::MAX && self.max_latency_ns == 0
        &&& h.len() > 0 ==> exists|i: int| 0 <= i < h.len() && #[trigger] h[i].1 == self.min_latency_ns
        &&& h.len() > 0 ==> exists|i: int| 0 <= i < h.len() && #[trigger] h[i].1 == self.max_latency_ns
    }

    pub open spec fn stats_wf(&self) -> bool {
        let s = self.sorted_latencies();
        &&& is_sorted(s)
        &&& s.to_multiset() == latencies(self@).to_multiset()
        &&& s.len() == self@.len()
        &&& forall|i: int| 0 <= i < s.len() ==> self.min_latency_ns <= #[trigger] s[i] <= self.max_latency_ns
        &&& self.avg_latency_ns == (if self@.len() == 0 { 0 } else { sum_latency(self@) / self@.len() })
        &&& self.p50_latency_ns == quantile_of(s, 50)
        &&& self.p90_latency_ns == quantile_of(s, 90)
        &&& self.p95_latency_ns == quantile_of(s, 95)
        &&& self.p99_latency_ns == quantile_of(s, 99)
    }

    /// What a well-formed result holds: counters, bounds, mean and
    /// quantiles all agree with the folded samples.
    pub open spec fn wf(&self) -> bool {
        self.counters_wf() && self.bounds_wf() && self.stats_wf()
    }

    /// The fields that can be read, and the folded samples, are equal.
    pub open spec fn same_as(&self, o: &LoadTestResult) -> bool {
        &&& self.total_requests == o.total_requests
        &&& self.successful_requests == o.successful_requests
        &&& self.failed_requests == o.failed_requests
        &&& self.status_2xx == o.status_2xx
        &&& self.status_4xx == o.status_4xx
        &&& self.status_5xx == o.status_5xx
        &&& self.total_duration_ns == o.total_duration_ns
        &&& self.min_latency_ns == o.min_latency_ns
        &&& self.max_latency_ns == o.max_latency_ns
        &&& self.avg_latency_ns == o.avg_latency_ns
        &&& self.p50_latency_ns == o.p50_latency_ns
        &&& self.p90_latency_ns == o.p90_latency_ns
        &&& self.p95_latency_ns == o.p95_latency_ns
        &&& self.p99_latency_ns == o.p99_latency_ns
        &&& self.elapsed_ns == o.elapsed_ns
        &&& self.qps_milli == o.qps_milli
        &&& self.sorted_latencies() == o.sorted_latencies()
        &&& self@ == o@
    }

    /// An empty result: no samples, minimum latency at `u64::MAX`.
    pub fn new() -> (r: LoadTestResult)
        ensures
            r.wf(),
            r@ == Seq::<(u16, u64)>::empty(),
            r.elapsed_ns == 0,
            r.qps_milli == 0,
    {
        let r = LoadTestResult {
            total_requests: 0,
            successful_requests: 0,
            failed_requests: 0,
            status_2xx: 0,
            status_4xx: 0,
            status_5xx: 0,
            total_duration_ns: 0,
            min_latency_ns: u64::MAX,
            max_latency_ns: 0,
            avg_latency_ns: 0,
            p50_latency_ns: 0,
            p90_latency_ns: 0,
            p95_latency_ns: 0,
            p99_latency_ns: 0,
            elapsed_ns: 0,
            qps_milli: 0,
            sorted: Vec::new(),
            history: Ghost(Seq::empty()),
        };
        proof {
            assert(latencies(r@) =~= Seq::<u64>::empty());
        }
        r
    }
    /// Folds one sample: counts it in its status class, updates the
    /// latency bounds, sum, mean and quantiles.
    #[verifier::rlimit(50)]
    pub fn add_response(&mut self, status: u16, latency_ns: u64)
        requires
            old(self).wf(),
            old(self).total_requests < u64::MAX,
            old(self).total_duration_ns + latency_ns <= u64::MAX,
        ensures
            final(self).wf(),
            final(self)@ == old(self)@.push((status, latency_ns)),
            final(self).total_requests == old(self).total_requests + 1,
            final(self).failed_requests == old(self).failed_requests + if status < 200 { 1int } else { 0int },
            final(self).successful_requests == old(self).successful_requests + if 200 <= status < 400 {
                1int
            } else {
                0int
            },
            final(self).status_2xx == final(self).successful_requests,
            final(self).status_4xx == old(self).status_4xx + if 400 <= status < 500 { 1int } else { 0int },
            final(self).status_5xx == old(self).status_5xx + if status >= 500 { 1int } else { 0int },
            final(self).min_latency_ns == if latency_ns < old(self).min_latency_ns {
                latency_ns
            } else {
                old(self).min_latency_ns
            },
            final(self).max_latency_ns == if latency_ns > old(self).max_latency_ns {
                latency_ns
            } else {
                old(self).max_latency_ns
            },
            final(self).min_latency_ns <= latency_ns <= final(self).max_latency_ns,
            final(self).elapsed_ns == old(self).elapsed_ns,
            final(self).qps_milli == old(self).qps_milli,
    {
        let ghost h0 = self@;
        let ghost x = (status, latency_ns);
        let ghost h1 = h0.push(x);
        proof {
            lemma_count_push(h0, x, 0, 200);
            lemma_count_push(h0, x, 200, 400);
            lemma_count_push(h0, x, 400, 500);
            lemma_count_push(h0, x, 500, 65536);
            lemma_count_le_len(h0, 0, 200);
            lemma_count_le_len(h0, 200, 400);
            lemma_count_le_len(h0, 400, 500);
            lemma_count_le_len(h0, 500, 65536);
        }
        self.total_requests = self.total_requests + 1;
        self.total_duration_ns = self.total_duration_ns + latency_ns;
        if status < 200 {
            self.failed_requests = self.failed_requests + 1;
        } else if status < 400 {
            self.successful_requests = self.successful_requests + 1;
            self.status_2xx = self.status_2xx + 1;
        } else if status < 500 {
            self.status_4xx = self.status_4xx + 1;
        } else {
            self.status_5xx = self.status_5xx + 1;
        }
        let ghost old_min = self.min_latency_ns;
        let ghost old_max = self.max_latency_ns;
        if latency_ns < self.min_latency_ns {
            self.min_latency_ns = latency_ns;
        }
        if latency_ns > self.max_latency_ns {
            self.max_latency_ns = latency_ns;
        }
        let ghost s0 = self.sorted@;
        let pos = upper_bound(&self.sorted, latency_ns);
        self.sorted.insert(pos, latency_ns);
        self.history = Ghost(h1);
        proof {
            broadcast use vstd::seq_lib::group_to_multiset_ensures;

            let s1 = self.sorted@;
            assert(s1 == s0.insert(pos as int, latency_ns));
            lemma_sorted_insert(s0, pos as int, latency_ns);
            assert(s1.to_multiset() == s0.to_multiset().insert(latency_ns));
            assert(latencies(h1).to_multiset() == latencies(h0).to_multiset().insert(latency_ns));
            assert forall|i: int| 0 <= i < s1.len() implies self.min_latency_ns <= #[trigger] s1[i]
                <= self.max_latency_ns by {
                if i < pos {
                    assert(s1[i] == s0[i]);
                } else if i > pos {
                    assert(s1[i] == s0[i - 1]);
                }
            }
            assert forall|i: int| 0 <= i < h1.len() implies self.min_latency_ns <= #[trigger] h1[i].1
                <= self.max_latency_ns by {
                if i < h0.len() {
                    assert(h1[i] == h0[i]);
                }
            }
            if h0.len() == 0 {
                assert(h1[0].1 == self.min_latency_ns);
                assert(h1[0].1 == self.max_latency_ns);
            } else {
                if latency_ns < old_min {
                    assert(h1[h0.len() as int].1 == self.min_latency_ns);
                } else {
                    let i = choose|i: int| 0 <= i < h0.len() && #[trigger] h0[i].1 == old_min;
                    assert(h1[i].1 == self.min_latency_ns);
                }
                if latency_ns > old_max {
                    assert(h1[h0.len() as int].1 == self.max_latency_ns);
                } else {
                    let i = choose|i: int| 0 <= i < h0.len() && #[trigger] h0[i].1 == old_max;
                    assert(h1[i].1 == self.max_latency_ns);
                }
            }
        }
        self.avg_latency_ns = self.total_duration_ns / self.total_requests;
        self.p50_latency_ns = quantile_at(&self.sorted, 50);
        self.p90_latency_ns = quantile_at(&self.sorted, 90);
        self.p95_latency_ns = quantile_at(&self.sorted, 95);
        self.p99_latency_ns = quantile_at(&self.sorted, 99);
    }

    /// Updates the throughput from the wall-clock time since the first
    /// sample. With no elapsed time, or no sample, it is left as it was.
    pub fn calculate_qps(&mut self, elapsed_ns: u64)
        requires
            old(self).wf(),
        ensures
            final(self).wf(),
            final(self)@ == old(self)@,
            final(self).sorted_latencies() == old(self).sorted_latencies(),
            elapsed_ns > 0 && old(self).total_requests > 0 ==> final(self).elapsed_ns == elapsed_ns
                && final(self).qps_milli == throughput_milli(old(self).total_requests as nat, elapsed_ns as nat),
            elapsed_ns == 0 || old(self).total_requests == 0 ==> final(self).same_as(old(self)),
            final(self).total_requests == old(self).total_requests,
            final(self).min_latency_ns == old(self).min_latency_ns,
            final(self).max_latency_ns == old(self).max_latency_ns,
    {
        if elapsed_ns > 0 && self.total_requests > 0 {
            let total = self.total_requests as u128;
            proof {
                assert(total * 1_000_000_000_000 <= u64::MAX as int * 1_000_000_000_000) by (nonlinear_arith)
                    requires total <= u64::MAX;
            }
            self.elapsed_ns = elapsed_ns;
            self.qps_milli = total * 1_000_000_000_000 / elapsed_ns as u128;
        }
    }

    /// A consistent copy of every counter, bound and quantile.
    pub fn snapshot(&self) -> (r: LoadTestResult)
        ensures
            r.same_as(self),
            self.wf() ==> r.wf(),
    {
        let sorted = self.sorted.clone();
        proof {
            assert(sorted@ =~= self.sorted@);
        }
        LoadTestResult {
            total_requests: self.total_requests,
            successful_requests: self.successful_requests,
            failed_requests: self.failed_requests,
            status_2xx: self.status_2xx,
            status_4xx: self.status_4xx,
            status_5xx: self.status_5xx,
            total_duration_ns: self.total_duration_ns,
            min_latency_ns: self.min_latency_ns,
            max_latency_ns: self.max_latency_ns,
            avg_latency_ns: self.avg_latency_ns,
            p50_latency_ns: self.p50_latency_ns,
            p90_latency_ns: self.p90_latency_ns,
            p95_latency_ns: self.p95_latency_ns,
            p99_latency_ns: self.p99_latency_ns,
            elapsed_ns: self.elapsed_ns,
            qps_milli: self.qps_milli,
            sorted,
            history: Ghost(self@),
        }
    }
}

/// Every sample is counted exactly once: the total is the sum of
/// successes, failures, 4xx and 5xx, and the successes are the 2xx
/// (redirects included).
pub proof fn lemma_counts_partition(r: &LoadTestResult)
    requires
        r.wf(),
    ensures
        r.total_requests == r.successful_requests + r.failed_requests + r.status_4xx + r.status_5xx,
        r.successful_requests == r.status_2xx,
{
    lemma_count_partition(r@);
}

/// Every folded latency lies between the minimum and the maximum.
pub proof fn lemma_latency_bounds(r: &LoadTestResult)
    requires
        r.wf(),
    ensures
        forall|i: int| 0 <= i < r@.len() ==> r.min_latency_ns <= #[trigger] r@[i].1 <= r.max_latency_ns,
{
}

proof fn lemma_quantile_index_monotone(n: nat, p: nat, q: nat)
    requires
        n > 0,
        1 <= p <= q <= 100,
    ensures
        quantile_index(n, p) <= quantile_index(n, q) < n,
{
    assert(p * n <= q * n) by (nonlinear_arith)
        requires p <= q;
    assert(q * n <= 100 * n) by (nonlinear_arith)
        requires q <= 100;
    assert(p * n >= 1) by (nonlinear_arith)
        requires p >= 1, n >= 1;
    assert((p * n + 99) / 100 <= (q * n + 99) / 100) by (nonlinear_arith)
        requires p * n <= q * n;
    assert((q * n + 99) / 100 <= (100 * n + 99) / 100) by (nonlinear_arith)
        requires q * n <= 100 * n;
    assert((100 * n + 99) / 100 == n) by (nonlinear_arith);
}

/// On a non-empty result the quantiles are ordered and bounded by the
/// maximum latency: p50 <= p90 <= p95 <= p99 <= max.
pub proof fn lemma_quantiles_monotone(r: &LoadTestResult)
    requires
        r.wf(),
        r@.len() > 0,
    ensures
        r.p50_latency_ns <= r.p90_latency_ns,
        r.p90_latency_ns <= r.p95_latency_ns,
        r.p95_latency_ns <= r.p99_latency_ns,
        r.p99_latency_ns <= r.max_latency_ns,
        r.min_latency_ns <= r.p50_latency_ns,
{
    let n = r.sorted_latencies().len();
    lemma_quantile_index_monotone(n, 50, 90);
    lemma_quantile_index_monotone(n, 90, 95);
    lemma_quantile_index_monotone(n, 95, 99);
    lemma_quantile_index_monotone(n, 1, 50);
}

/// Two snapshots taken with no sample folded in between are identical.
pub proof fn lemma_snapshot_idempotent(r: &LoadTestResult, a: &LoadTestResult, b: &LoadTestResult)
    requires
        a.same_as(r),
        b.same_as(r),
    ensures
        a.same_as(b),
{
}

proof fn lemma_all_zero_counts(h: Seq<(u16, u64)>)
    requires
        forall|i: int| 0 <= i < h.len() ==> (#[trigger] h[i]).0 == 0,
    ensures
        count_status(h, 0, 200) == h.len(),
        count_status(h, 200, 400) == 0,
        count_status(h, 400, 500) == 0,
        count_status(h, 500, 65536) == 0,
    decreases h.len(),
{
    if h.len() > 0 {
        let t = h.drop_last();
        assert forall|i: int| 0 <= i < t.len() implies (#[trigger] t[i]).0 == 0 by {
            assert(t[i] == h[i]);
        }
        lemma_all_zero_counts(t);
        assert(h.last() == h[h.len() - 1]);
    }
}

/// When every sample is a transport failure (status 0), every request
/// is failed and none succeeded.
pub proof fn lemma_all_failures(r: &LoadTestResult)
    requires
        r.wf(),
        forall|i: int| 0 <= i < r@.len() ==> (#[trigger] r@[i]).0 == 0,
    ensures
        r.failed_requests == r.total_requests,
        r.successful_requests == 0,
        r.status_2xx == 0,
        r.status_4xx == 0,
        r.status_5xx == 0,
{
    lemma_all_zero_counts(r@);
}

} // verus!
