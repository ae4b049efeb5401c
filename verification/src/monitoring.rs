//! Rolling performance statistics for the two backends.
//!
//! Each backend keeps a bounded window of recent latency samples (capacity
//! 1000, first-in-first-out eviction), a request counter and an error
//! counter. Percentiles are computed by sorted-index selection over the
//! window at the instant of the call. A baseline, once recorded, is the
//! fixed denominator of every improvement percentage.
//!
//! Latencies are whole milliseconds; rates and improvement percentages are
//! integers in hundredths of a percent.

use vstd::prelude::*;
use vstd::arithmetic::div_mod::lemma_div_is_ordered;
use vstd::arithmetic::mul::lemma_mul_inequality;
use vstd::relations::{sorted_by, total_ordering};
use vstd::seq_lib::lemma_sorted_unique;

verus! {

/// Which backend a request was served by.
#[derive(Clone, Copy, Debug, PartialEq, Eq, Structural)]
pub enum Backend {
    /// The service under gradual rollout.
    New,
    /// The prior system still serving the complementary share.
    Legacy,
}

/// Capacity of one latency sample window.
pub const MAX_SAMPLES: usize = 1000;

/// CPU usage stood in for by a fixed reading, in whole percent.
pub const MOCK_CPU_PERCENT: u64 = 15;

/// Memory usage stood in for by a fixed reading, in megabytes.
pub const MOCK_MEMORY_MB: u64 = 128;

/// The order latency samples are sorted by.
pub open spec fn latency_le() -> spec_fn(u64, u64) -> bool {
    |x: u64, y: u64| x <= y
}

/// The sample window sorted ascending.
pub open spec fn sorted_window(s: Seq<u64>) -> Seq<u64> {
    s.sort_by(latency_le())
}

/// The sum of all samples of a window.
pub open spec fn sum_latencies(s: Seq<u64>) -> int
    decreases s.len(),
{
    if s.len() == 0 {
        0
    } else {
        sum_latencies(s.drop_last()) + s.last()
    }
}

/// A window after one more sample: appended, with the oldest sample evicted
/// once the window is full.
pub open spec fn push_evict(w: Seq<u64>, x: u64) -> Seq<u64> {
    if w.len() < MAX_SAMPLES {
        w.push(x)
    } else {
        w.push(x).subrange(1, w.len() as int + 1)
    }
}

/// A counter after one more event; the counters never wrap.
pub open spec fn saturating_inc(x: u64) -> u64 {
    if x < u64::MAX {
        (x + 1) as u64
    } else {
        x
    }
}

/// The error rate `errors / requests`, in hundredths of a percent.
pub open spec fn spec_error_rate(errors: u64, requests: u64) -> int {
    if requests > 0 {
        errors * 10000 / (requests as int)
    } else {
        0
    }
}

/// The signed improvement of `current` over `base`, in hundredths of a
/// percent of `base`: positive when `current` shrank below `base`. Zero when
/// either reading is zero, which stands for "nothing to compare".
pub open spec fn spec_improvement(base: u64, current: u64) -> int {
    if base > 0 && current > 0 {
        if base >= current {
            (base - current) * 10000 / (base as int)
        } else {
            -((current - base) * 10000 / (base as int))
        }
    } else {
        0
    }
}

/// The baseline factor `legacy_p99 / new_p99`, in hundredths of a percent
/// (`10000` is a factor of one); one when either side is zero.
pub open spec fn spec_improvement_factor(legacy_p99: u64, new_p99: u64) -> int {
    if legacy_p99 > 0 && new_p99 > 0 {
        legacy_p99 * 10000 / (new_p99 as int)
    } else {
        10000
    }
}

/// One backend's statistics at an instant.
#[derive(Clone, Copy, Debug, PartialEq, Eq, Structural)]
pub struct PerformanceMetrics {
    pub p99_latency_ms: u64,
    pub p95_latency_ms: u64,
    pub p50_latency_ms: u64,
    pub avg_latency_ms: u64,
    pub request_count: u64,
    /// In hundredths of a percent.
    pub error_rate: u32,
    pub cpu_usage_percent: u64,
    pub memory_usage_mb: u64,
    pub timestamp: i64,
}

/// The fixed pair of snapshots recorded by an explicit baselining action.
#[derive(Clone, Copy, Debug, PartialEq, Eq, Structural)]
pub struct PerformanceBaseline {
    pub new_metrics: PerformanceMetrics,
    pub legacy_metrics: PerformanceMetrics,
    /// In hundredths of a percent: `10000` is a factor of one.
    pub improvement_factor: u128,
}

/// The outcome of comparing current statistics against the baseline.
#[derive(Clone, Copy, Debug, PartialEq, Eq, Structural)]
pub struct PerformanceValidation {
    /// In hundredths of a percent, negative on degradation.
    pub latency_improvement_percent: i128,
    pub memory_improvement_percent: i128,
    pub cpu_improvement_percent: i128,
    /// In hundredths of a percent.
    pub error_rate_new: u32,
    pub error_rate_legacy: u32,
    pub meets_latency_target: bool,
    pub meets_resource_target: bool,
    pub meets_error_target: bool,
    pub overall_success: bool,
}

impl PerformanceValidation {
    /// The "unsuccessful, zeroed" outcome returned while metrics or baseline
    /// are missing.
    pub open spec fn spec_default() -> PerformanceValidation {
        PerformanceValidation {
            latency_improvement_percent: 0,
            memory_improvement_percent: 0,
            cpu_improvement_percent: 0,
            error_rate_new: 0,
            error_rate_legacy: 0,
            meets_latency_target: false,
            meets_resource_target: false,
            meets_error_target: true,
            overall_success: false,
        }
    }
}

impl Default for PerformanceValidation {
    fn default() -> (r: Self)
        ensures
            r == Self::spec_default(),
    {
        PerformanceValidation {
            latency_improvement_percent: 0,
            memory_improvement_percent: 0,
            cpu_improvement_percent: 0,
            error_rate_new: 0,
            error_rate_legacy: 0,
            meets_latency_target: false,
            meets_resource_target: false,
            meets_error_target: true,
            overall_success: false,
        }
    }
}

/// The comparison of one pair of current snapshots against a baseline:
/// what `validate_performance` returns once all three inputs are present.
pub open spec fn spec_validation(
    new_m: PerformanceMetrics,
    legacy_m: PerformanceMetrics,
    baseline: PerformanceBaseline,
) -> PerformanceValidation {
    let latency = spec_improvement(baseline.legacy_metrics.p99_latency_ms, new_m.p99_latency_ms);
    let memory = spec_improvement(baseline.legacy_metrics.memory_usage_mb, new_m.memory_usage_mb);
    let cpu = spec_improvement(baseline.legacy_metrics.cpu_usage_percent, new_m.cpu_usage_percent);
    PerformanceValidation {
        latency_improvement_percent: latency as i128,
        memory_improvement_percent: memory as i128,
        cpu_improvement_percent: cpu as i128,
        error_rate_new: new_m.error_rate,
        error_rate_legacy: legacy_m.error_rate,
        meets_latency_target: latency >= 5000,
        meets_resource_target: memory >= 7000 || cpu >= 7000,
        meets_error_target: new_m.error_rate <= 50,
        overall_success: latency >= 5000 && (memory >= 7000 || cpu >= 7000) && new_m.error_rate
            <= 50,
    }
}

/// Per-backend rolling latency and error accumulator.
pub struct PerformanceMonitor {
    new_latencies: Vec<u64>,
    legacy_latencies: Vec<u64>,
    new_requests: u64,
    legacy_requests: u64,
    new_errors: u64,
    legacy_errors: u64,
    baseline: Option<PerformanceBaseline>,
}

impl PerformanceMonitor {
    /// The latency window of one backend.
    pub closed spec fn spec_window(&self, backend: Backend) -> Seq<u64> {
        match backend {
            Backend::New => self.new_latencies@,
            Backend::Legacy => self.legacy_latencies@,
        }
    }

    /// The request counter of one backend.
    pub closed spec fn spec_requests(&self, backend: Backend) -> u64 {
        match backend {
            Backend::New => self.new_requests,
            Backend::Legacy => self.legacy_requests,
        }
    }

    /// The error counter of one backend.
    pub closed spec fn spec_errors(&self, backend: Backend) -> u64 {
        match backend {
            Backend::New => self.new_errors,
            Backend::Legacy => self.legacy_errors,
        }
    }

    /// The recorded baseline, if any.
    pub closed spec fn spec_baseline(&self) -> Option<PerformanceBaseline> {
        self.baseline
    }

    /// The invariant of one backend's accumulators: the window never
    /// exceeds its capacity, a backend has at least as many recorded
    /// requests as window samples, and no more errors than requests.
    pub open spec fn backend_wf(&self, b: Backend) -> bool {
        &&& self.spec_window(b).len() <= MAX_SAMPLES
        &&& self.spec_window(b).len() <= self.spec_requests(b)
        &&& self.spec_errors(b) <= self.spec_requests(b)
    }

    /// The accumulator invariant, for both backends.
    pub open spec fn wf(&self) -> bool {
        &&& self.backend_wf(Backend::New)
        &&& self.backend_wf(Backend::Legacy)
    }

    /// The metrics `get_current_metrics` computes from the window of one
    /// backend at an instant: `None` on an empty window, otherwise
    /// sorted-index percentiles, the mean, and the error rate.
    pub open spec fn spec_current_metrics(&self, backend: Backend, now: i64) -> Option<
        PerformanceMetrics,
    > {
        let w = self.spec_window(backend);
        if w.len() == 0 {
            None
        } else {
            let sorted = sorted_window(w);
            let len = w.len() as int;
            Some(
                PerformanceMetrics {
                    p99_latency_ms: sorted[len * 99 / 100],
                    p95_latency_ms: sorted[len * 95 / 100],
                    p50_latency_ms: sorted[len / 2],
                    avg_latency_ms: (sum_latencies(w) / len) as u64,
                    request_count: self.spec_requests(backend),
                    error_rate: spec_error_rate(
                        self.spec_errors(backend),
                        self.spec_requests(backend),
                    ) as u32,
                    cpu_usage_percent: MOCK_CPU_PERCENT,
                    memory_usage_mb: MOCK_MEMORY_MB,
                    timestamp: now,
                },
            )
        }
    }

    /// What `validate_performance` returns: the comparison when both current
    /// snapshots and a baseline exist, the zeroed default otherwise.
    pub open spec fn spec_validation_now(&self, now: i64) -> PerformanceValidation {
        match (
            self.spec_current_metrics(Backend::New, now),
            self.spec_current_metrics(Backend::Legacy, now),
            self.spec_baseline(),
        ) {
            (Some(n), Some(l), Some(b)) => spec_validation(n, l, b),
            _ => PerformanceValidation::spec_default(),
        }
    }

    /// An empty accumulator: no samples, no counts, no baseline.
    pub fn new() -> (r: Self)
        ensures
            r.wf(),
            forall|b: Backend| #[trigger] r.spec_window(b) == Seq::<u64>::empty(),
            forall|b: Backend| #[trigger] r.spec_requests(b) == 0,
            forall|b: Backend| #[trigger] r.spec_errors(b) == 0,
            r.spec_baseline() is None,
    {
        PerformanceMonitor {
            new_latencies: Vec::new(),
            legacy_latencies: Vec::new(),
            new_requests: 0,
            legacy_requests: 0,
            new_errors: 0,
            legacy_errors: 0,
            baseline: None,
        }
    }

    /// Appends one observation to one backend's window (evicting the oldest
    /// sample beyond the capacity) and bumps its counters; the other backend
    /// and the baseline are untouched.
    pub fn record_request(&mut self, backend: Backend, latency_ms: u64, is_error: bool)
        requires
            old(self).wf(),
        ensures
            final(self).wf(),
            final(self).spec_window(backend) == push_evict(
                old(self).spec_window(backend),
                latency_ms,
            ),
            final(self).spec_requests(backend) == saturating_inc(old(self).spec_requests(backend)),
            final(self).spec_errors(backend) == (if is_error {
                saturating_inc(old(self).spec_errors(backend))
            } else {
                old(self).spec_errors(backend)
            }),
            forall|b: Backend|
                b != backend ==> {
                    &&& #[trigger] final(self).spec_window(b) == old(self).spec_window(b)
                    &&& final(self).spec_requests(b) == old(self).spec_requests(b)
                    &&& final(self).spec_errors(b) == old(self).spec_errors(b)
                },
            final(self).spec_baseline() == old(self).spec_baseline(),
    {
        match backend {
            Backend::New => {
                Self::record_into(
                    &mut self.new_latencies,
                    &mut self.new_requests,
                    &mut self.new_errors,
                    latency_ms,
                    is_error,
                );
            },
            Backend::Legacy => {
                Self::record_into(
                    &mut self.legacy_latencies,
                    &mut self.legacy_requests,
                    &mut self.legacy_errors,
                    latency_ms,
                    is_error,
                );
            },
        }
    }

    fn record_into(
        latencies: &mut Vec<u64>,
        requests: &mut u64,
        errors: &mut u64,
        latency_ms: u64,
        is_error: bool,
    )
        requires
            old(latencies)@.len() <= MAX_SAMPLES,
            old(latencies)@.len() <= *old(requests),
            *old(errors) <= *old(requests),
        ensures
            final(latencies)@ == push_evict(old(latencies)@, latency_ms),
            final(latencies)@.len() <= MAX_SAMPLES,
            *final(requests) == saturating_inc(*old(requests)),
            *final(errors) == (if is_error {
                saturating_inc(*old(errors))
            } else {
                *old(errors)
            }),
            final(latencies)@.len() <= *final(requests),
            *final(errors) <= *final(requests),
    {
        latencies.push(latency_ms);
        if latencies.len() > MAX_SAMPLES {
            latencies.remove(0);
            proof {
                assert(latencies@ =~= push_evict(old(latencies)@, latency_ms));
            }
        }
        if *requests < u64::MAX {
            *requests = *requests + 1;
        }
        if is_error && *errors < u64::MAX {
            *errors = *errors + 1;
        }
    }

    /// The statistics of one backend over its window at the instant of the
    /// call; `None` while no sample has been recorded. `now` is the caller's
    /// clock reading and is only stamped into the result.
    pub fn get_current_metrics(&self, backend: Backend, now: i64) -> (r: Option<
        PerformanceMetrics,
    >)
        requires
            self.wf(),
        ensures
            r == self.spec_current_metrics(backend, now),
    {
        match backend {
            Backend::New => Self::calculate_metrics(
                &self.new_latencies,
                self.new_requests,
                self.new_errors,
                now,
            ),
            Backend::Legacy => Self::calculate_metrics(
                &self.legacy_latencies,
                self.legacy_requests,
                self.legacy_errors,
                now,
            ),
        }
    }

    fn calculate_metrics(latencies: &Vec<u64>, requests: u64, errors: u64, now: i64) -> (r: Option<
        PerformanceMetrics,
    >)
        requires
            latencies@.len() <= MAX_SAMPLES,
            latencies@.len() <= requests,
            errors <= requests,
        ensures
            r is Some <==> latencies@.len() > 0,
            r matches Some(m) ==> {
                let w = latencies@;
                let sorted = sorted_window(w);
                let len = w.len() as int;
                &&& m.p99_latency_ms == sorted[len * 99 / 100]
                &&& m.p95_latency_ms == sorted[len * 95 / 100]
                &&& m.p50_latency_ms == sorted[len / 2]
                &&& m.avg_latency_ms == sum_latencies(w) / len
                &&& m.request_count == requests
                &&& m.error_rate == spec_error_rate(errors, requests)
                &&& m.cpu_usage_percent == MOCK_CPU_PERCENT
                &&& m.memory_usage_mb == MOCK_MEMORY_MB
                &&& m.timestamp == now
            },
    {
        let len = latencies.len();
        if len == 0 {
            return None;
        }
        let mut sorted = copy_samples(latencies);
        sort_latencies(&mut sorted);
        proof {
            lemma_percentile_index_in_range(len as int, 99);
            lemma_percentile_index_in_range(len as int, 95);
        }
        let i99 = len * 99 / 100;
        let i95 = len * 95 / 100;
        let i50 = len / 2;
        let p99_latency_ms = sorted[i99];
        let p95_latency_ms = sorted[i95];
        let p50_latency_ms = sorted[i50];
        let avg_latency_ms = mean_of(latencies);
        let error_rate = rate_of(errors, requests);
        Some(
            PerformanceMetrics {
                p99_latency_ms,
                p95_latency_ms,
                p50_latency_ms,
                avg_latency_ms,
                request_count: requests,
                error_rate,
                cpu_usage_percent: MOCK_CPU_PERCENT,
                memory_usage_mb: MOCK_MEMORY_MB,
                timestamp: now,
            },
        )
    }

    /// Fixes the comparison baseline: both snapshots as given, plus the
    /// factor `legacy_p99 / new_p99` guarded against division by zero.
    /// Windows and counters are untouched.
    pub fn set_baseline(
        &mut self,
        new_metrics: PerformanceMetrics,
        legacy_metrics: PerformanceMetrics,
    )
        requires
            old(self).wf(),
        ensures
            final(self).wf(),
            final(self).spec_baseline() matches Some(b) && b.new_metrics == new_metrics
                && b.legacy_metrics == legacy_metrics && b.improvement_factor
                == spec_improvement_factor(
                legacy_metrics.p99_latency_ms,
                new_metrics.p99_latency_ms,
            ),
            forall|b: Backend|
                {
                    &&& #[trigger] final(self).spec_window(b) == old(self).spec_window(b)
                    &&& final(self).spec_requests(b) == old(self).spec_requests(b)
                    &&& final(self).spec_errors(b) == old(self).spec_errors(b)
                },
    {
        let improvement_factor = factor_of(
            legacy_metrics.p99_latency_ms,
            new_metrics.p99_latency_ms,
        );
        self.baseline = Some(
            PerformanceBaseline { new_metrics, legacy_metrics, improvement_factor },
        );
    }

    /// The recorded baseline, if any.
    pub fn get_baseline(&self) -> (r: Option<PerformanceBaseline>)
        ensures
            r == self.spec_baseline(),
    {
        self.baseline
    }

    /// Compares current statistics of both backends against the baseline.
    /// While either current snapshot or the baseline is missing, the zeroed
    /// default (not an error) is returned.
    pub fn validate_performance(&self, now: i64) -> (r: PerformanceValidation)
        requires
            self.wf(),
        ensures
            r == self.spec_validation_now(now),
    {
        let new_m = self.get_current_metrics(Backend::New, now);
        let legacy_m = self.get_current_metrics(Backend::Legacy, now);
        let baseline = self.get_baseline();
        validate_from(new_m, legacy_m, baseline)
    }
}

/// The pure comparison step: given both current snapshots and the baseline,
/// the three target verdicts; the zeroed default while anything is missing.
pub fn validate_from(
    new_m: Option<PerformanceMetrics>,
    legacy_m: Option<PerformanceMetrics>,
    baseline: Option<PerformanceBaseline>,
) -> (r: PerformanceValidation)
    ensures
        (new_m matches Some(n) && legacy_m matches Some(l) && baseline matches Some(b)) ==> r
            == spec_validation(new_m->Some_0, legacy_m->Some_0, baseline->Some_0),
        !(new_m is Some && legacy_m is Some && baseline is Some) ==> r
            == PerformanceValidation::spec_default(),
{
    match (new_m, legacy_m, baseline) {
        (Some(n), Some(l), Some(b)) => {
            let latency = improvement_of(b.legacy_metrics.p99_latency_ms, n.p99_latency_ms);
            let memory = improvement_of(b.legacy_metrics.memory_usage_mb, n.memory_usage_mb);
            let cpu = improvement_of(b.legacy_metrics.cpu_usage_percent, n.cpu_usage_percent);
            let meets_latency_target = latency >= 5000;
            let meets_resource_target = memory >= 7000 || cpu >= 7000;
            let meets_error_target = n.error_rate <= 50;
            PerformanceValidation {
                latency_improvement_percent: latency,
                memory_improvement_percent: memory,
                cpu_improvement_percent: cpu,
                error_rate_new: n.error_rate,
                error_rate_legacy: l.error_rate,
                meets_latency_target,
                meets_resource_target,
                meets_error_target,
                overall_success: meets_latency_target && meets_resource_target
                    && meets_error_target,
            }
        },
        _ => PerformanceValidation::default(),
    }
}

/// The signed improvement of `current` over `base` in hundredths of a
/// percent of `base`.
fn improvement_of(base: u64, current: u64) -> (r: i128)
    ensures
        r == spec_improvement(base, current),
{
    if base > 0 && current > 0 {
        if base >= current {
            let diff = (base - current) as u128;
            let q = diff * 10000 / (base as u128);
            proof {
                lemma_ratio_bounded(diff as int, base as int);
            }
            q as i128
        } else {
            let diff = (current - base) as u128;
            let q = diff * 10000 / (base as u128);
            proof {
                assert(diff * 10000 <= u64::MAX * 10000) by {
                    lemma_mul_inequality(diff as int, u64::MAX as int, 10000);
                };
                assert(diff * 10000 / (base as int) <= diff * 10000) by {
                    vstd::arithmetic::div_mod::lemma_div_is_ordered_by_denominator(
                        diff * 10000,
                        1,
                        base as int,
                    );
                };
            }
            -(q as i128)
        }
    } else {
        0
    }
}

/// The baseline factor `legacy_p99 / new_p99` in hundredths of a percent.
fn factor_of(legacy_p99: u64, new_p99: u64) -> (r: u128)
    ensures
        r == spec_improvement_factor(legacy_p99, new_p99),
{
    if legacy_p99 > 0 && new_p99 > 0 {
        (legacy_p99 as u128) * 10000 / (new_p99 as u128)
    } else {
        10000
    }
}

/// The error rate `errors / requests` in hundredths of a percent.
fn rate_of(errors: u64, requests: u64) -> (r: u32)
    requires
        errors <= requests,
    ensures
        r == spec_error_rate(errors, requests),
{
    if requests > 0 {
        let q = (errors as u128) * 10000 / (requests as u128);
        proof {
            lemma_ratio_bounded(errors as int, requests as int);
        }
        q as u32
    } else {
        0
    }
}

/// For `0 <= a <= b`, the ratio `a * 10000 / b` is at most 10000.
proof fn lemma_ratio_bounded(a: int, b: int) by (nonlinear_arith)
    requires
        0 <= a <= b,
        0 < b,
    ensures
        0 <= a * 10000 / b <= 10000,
{
}

/// Sorted-index selection stays inside the window: `len * q / 100 < len`
/// for any percentile `q < 100`.
proof fn lemma_percentile_index_in_range(len: int, q: int) by (nonlinear_arith)
    requires
        1 <= len,
        0 <= q < 100,
    ensures
        0 <= len * q / 100 < len,
{
}

/// A fresh copy of the sample window, element for element.
fn copy_samples(v: &Vec<u64>) -> (r: Vec<u64>)
    ensures
        r@ == v@,
{
    let mut r: Vec<u64> = Vec::new();
    let n = v.len();
    let mut i: usize = 0;
    while i < n
        invariant
            0 <= i <= n,
            n == v@.len(),
            r@ == v@.take(i as int),
        decreases n - i,
    {
        r.push(v[i]);
        proof {
            assert(v@.take(i + 1) =~= v@.take(i as int).push(v@[i as int]));
        }
        i = i + 1;
    }
    proof {
        assert(v@.take(n as int) =~= v@);
    }
    r
}

/// Sorts the window ascending, in place: afterwards the samples are exactly
/// the spec-level sorted window.
fn sort_latencies(v: &mut Vec<u64>)
    ensures
        final(v)@ == sorted_window(old(v)@),
        final(v)@.len() == old(v)@.len(),
{
    let ghost orig = old(v)@;
    let n = v.len();
    let mut i: usize = 1;
    while i < n
        invariant
            1 <= i <= n || (n == 0 && i == 1),
            n == v@.len(),
            v@.to_multiset() == orig.to_multiset(),
            forall|k: int, l: int| 0 <= k < l < i ==> v@[k] <= v@[l],
        decreases n - i,
    {
        let mut j: usize = i;
        while j > 0 && v[j - 1] > v[j]
            invariant
                0 <= j <= i < n,
                n == v@.len(),
                v@.to_multiset() == orig.to_multiset(),
                forall|k: int, l: int| 0 <= k < l <= i && l != j ==> v@[k] <= v@[l],
            decreases j,
        {
            let ghost pre = v@;
            let a = v[j - 1];
            let b = v[j];
            v[j - 1] = b;
            v[j] = a;
            proof {
                assert(v@ =~= pre.update(j - 1, b).update(j as int, a));
                lemma_swap_multiset(pre, j - 1, j as int);
            }
            j = j - 1;
        }
        i = i + 1;
    }
    proof {
        assert(sorted_by(v@, latency_le()));
        assert(total_ordering(latency_le())) by {
            lemma_latency_le_total();
        };
        orig.lemma_sort_by_ensures(latency_le());
        lemma_sorted_unique(v@, orig.sort_by(latency_le()), latency_le());
        assert(v@ =~= sorted_window(orig));
    }
}

/// Swapping two positions of a window keeps its multiset of samples.
proof fn lemma_swap_multiset(s: Seq<u64>, p: int, q: int)
    requires
        0 <= p < q < s.len(),
    ensures
        s.update(p, s[q]).update(q, s[p]).to_multiset() == s.to_multiset(),
{
    broadcast use vstd::seq_lib::to_multiset_update;
    broadcast use vstd::multiset::group_multiset_axioms;

    let a = s[p];
    let b = s[q];
    let s1 = s.update(p, b);
    let s2 = s1.update(q, a);
    assert(s1[q] == b);
    assert(s.contains(a));
    s.to_multiset_ensures();
    assert(s.to_multiset().count(a) > 0);
    assert(s1.to_multiset() == s.to_multiset().insert(b).remove(a));
    assert(s2.to_multiset() == s1.to_multiset().insert(a).remove(b));
    assert(s2.to_multiset() =~= s.to_multiset());
}

/// `<=` on sample latencies is a total order.
proof fn lemma_latency_le_total()
    ensures
        total_ordering(latency_le()),
{
}

/// The mean of the window, rounded down to whole milliseconds.
fn mean_of(v: &Vec<u64>) -> (r: u64)
    requires
        v@.len() >= 1,
        v@.len() <= MAX_SAMPLES,
    ensures
        r == sum_latencies(v@) / (v@.len() as int),
{
    let n = v.len();
    let mut acc: u128 = 0;
    let mut i: usize = 0;
    while i < n
        invariant
            0 <= i <= n,
            n == v@.len(),
            n <= MAX_SAMPLES,
            acc == sum_latencies(v@.take(i as int)),
            acc <= i * (u64::MAX as int),
        decreases n - i,
    {
        proof {
            assert(v@.take(i + 1).drop_last() =~= v@.take(i as int));
            assert(v@.take(i + 1).last() == v@[i as int]);
            assert(acc + v@[i as int] <= (i + 1) * (u64::MAX as int)) by {
                lemma_step_bound(i as int, acc as int, v@[i as int] as int);
            };
            assert((i + 1) * (u64::MAX as int) <= 1000 * (u64::MAX as int)) by {
                lemma_mul_inequality(i + 1, 1000, u64::MAX as int);
            };
        }
        acc = acc + (v[i] as u128);
        i = i + 1;
    }
    proof {
        assert(v@.take(n as int) =~= v@);
        lemma_sum_nonneg(v@);
        assert(sum_latencies(v@) / (n as int) <= u64::MAX) by {
            lemma_mean_bounded(sum_latencies(v@), n as int);
        };
        lemma_div_is_ordered(0, sum_latencies(v@), n as int);
    }
    (acc / (n as u128)) as u64
}

/// One more sample keeps the running sum under `(i + 1) * u64::MAX`.
proof fn lemma_step_bound(i: int, acc: int, x: int) by (nonlinear_arith)
    requires
        0 <= i,
        acc <= i * (u64::MAX as int),
        0 <= x <= u64::MAX,
    ensures
        acc + x <= (i + 1) * (u64::MAX as int),
{
}

/// A sum of samples is never negative.
proof fn lemma_sum_nonneg(s: Seq<u64>)
    ensures
        sum_latencies(s) >= 0,
    decreases s.len(),
{
    if s.len() > 0 {
        lemma_sum_nonneg(s.drop_last());
    }
}

/// A mean of `u64` samples fits in a `u64`.
proof fn lemma_mean_bounded(sum: int, len: int) by (nonlinear_arith)
    requires
        1 <= len,
        0 <= sum <= len * (u64::MAX as int),
    ensures
        sum / len <= u64::MAX,
{
}

} // verus!
