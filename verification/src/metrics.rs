//! Exposition counters the gateway writes into.
//!
//! The counters are plain saturating integers; an exposition endpoint
//! outside this crate turns them into its scrape format. Latency histograms
//! are carried as a running total of milliseconds next to the request
//! count.

use vstd::prelude::*;

use crate::monitoring::Backend;

verus! {

/// A `u64` total after one more unit; totals never wrap.
pub open spec fn counter_inc(x: u64) -> u64 {
    if x < u64::MAX {
        (x + 1) as u64
    } else {
        x
    }
}

/// A `u64` total after adding `d`; totals never wrap.
pub open spec fn counter_add(x: u64, d: u64) -> u64 {
    if x + d <= u64::MAX {
        (x + d) as u64
    } else {
        u64::MAX
    }
}

/// Counters of the shadow-mirror traffic.
#[derive(Clone, Copy, Debug, PartialEq, Eq, Structural)]
pub struct MirrorMetrics {
    pub requests_total: u64,
    pub failures_total: u64,
    pub latency_ms_total: u64,
}

impl MirrorMetrics {
    /// All counters at zero.
    pub fn new() -> (r: Self)
        ensures
            r.requests_total == 0,
            r.failures_total == 0,
            r.latency_ms_total == 0,
    {
        MirrorMetrics { requests_total: 0, failures_total: 0, latency_ms_total: 0 }
    }

    /// One completed mirror exchange: its request and latency are counted,
    /// the failure counter is untouched.
    pub fn record_mirror_success(&mut self, mirror_latency_ms: u64)
        ensures
            final(self).requests_total == counter_inc(old(self).requests_total),
            final(self).latency_ms_total == counter_add(
                old(self).latency_ms_total,
                mirror_latency_ms,
            ),
            final(self).failures_total == old(self).failures_total,
    {
        self.requests_total = bump(self.requests_total);
        self.latency_ms_total = add_saturating(self.latency_ms_total, mirror_latency_ms);
    }

    /// One failed mirror exchange: only the failure counter moves.
    pub fn record_mirror_failure(&mut self)
        ensures
            final(self).failures_total == counter_inc(old(self).failures_total),
            final(self).requests_total == old(self).requests_total,
            final(self).latency_ms_total == old(self).latency_ms_total,
    {
        self.failures_total = bump(self.failures_total);
    }
}

/// Counters of the primary gateway traffic.
#[derive(Clone, Copy, Debug, PartialEq, Eq, Structural)]
pub struct GatewayMetrics {
    pub requests_total: u64,
    pub errors_5xx_total: u64,
    pub latency_ms_total: u64,
    pub new_requests_total: u64,
    pub legacy_requests_total: u64,
}

impl GatewayMetrics {
    /// All counters at zero.
    pub fn new() -> (r: Self)
        ensures
            r.requests_total == 0,
            r.errors_5xx_total == 0,
            r.latency_ms_total == 0,
            r.new_requests_total == 0,
            r.legacy_requests_total == 0,
    {
        GatewayMetrics {
            requests_total: 0,
            errors_5xx_total: 0,
            latency_ms_total: 0,
            new_requests_total: 0,
            legacy_requests_total: 0,
        }
    }
}

/// Counts one routed request: the total and the latency always move, the
/// 5xx counter exactly when the status is a server error, and the
/// per-backend counter of the backend that served it.
pub fn record_gateway_request(
    metrics: &mut GatewayMetrics,
    backend: Backend,
    status_code: u16,
    latency_ms: u64,
)
    ensures
        final(metrics).requests_total == counter_inc(old(metrics).requests_total),
        final(metrics).latency_ms_total == counter_add(old(metrics).latency_ms_total, latency_ms),
        final(metrics).errors_5xx_total == (if status_code >= 500 {
            counter_inc(old(metrics).errors_5xx_total)
        } else {
            old(metrics).errors_5xx_total
        }),
        final(metrics).new_requests_total == (if backend == Backend::New {
            counter_inc(old(metrics).new_requests_total)
        } else {
            old(metrics).new_requests_total
        }),
        final(metrics).legacy_requests_total == (if backend == Backend::Legacy {
            counter_inc(old(metrics).legacy_requests_total)
        } else {
            old(metrics).legacy_requests_total
        }),
{
    metrics.requests_total = bump(metrics.requests_total);
    metrics.latency_ms_total = add_saturating(metrics.latency_ms_total, latency_ms);
    if status_code >= 500 {
        metrics.errors_5xx_total = bump(metrics.errors_5xx_total);
    }
    match backend {
        Backend::New => {
            metrics.new_requests_total = bump(metrics.new_requests_total);
        },
        Backend::Legacy => {
            metrics.legacy_requests_total = bump(metrics.legacy_requests_total);
        },
    }
}

/// One more unit on a saturating total.
fn bump(x: u64) -> (r: u64)
    ensures
        r == counter_inc(x),
{
    if x < u64::MAX {
        x + 1
    } else {
        x
    }
}

/// A saturating addition on a total.
fn add_saturating(x: u64, d: u64) -> (r: u64)
    ensures
        r == counter_add(x, d),
{
    if d <= u64::MAX - x {
        x + d
    } else {
        u64::MAX
    }
}

} // verus!
