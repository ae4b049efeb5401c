//! Shadow-mirror bookkeeping.
//!
//! Mirroring replays a finished request to a secondary target and records
//! what came back. It is failure-isolated: whatever the mirror exchange
//! does, the primary response is handed back to the caller exactly as it
//! was produced, and a mirror failure moves nothing but the failure
//! counter. The replay itself — a detached task with its own timeout — is
//! runtime plumbing outside this crate.

use vstd::prelude::*;
use vstd::string::{StrSliceExecFns, StringExecFns};

use crate::metrics::{counter_add, counter_inc, MirrorMetrics};
use crate::middleware::canary::{eq_ignore_case, header_views};

verus! {

/// What came back from one mirror exchange.
#[derive(Clone, Copy, Debug, PartialEq, Eq, Structural)]
pub enum MirrorOutcome {
    /// The mirror target answered.
    Completed { status: u16, mirror_latency_ms: u64 },
    /// The mirror target could not be reached in time.
    Failed,
}

/// The mirror forwarding predicate over one header pair's views: every
/// inbound header but `host` is replayed.
pub open spec fn mirror_forward_pred() -> spec_fn((Seq<char>, Seq<char>)) -> bool {
    |p: (Seq<char>, Seq<char>)| !eq_ignore_case(p.0, "host"@)
}

/// The headers a mirror replay carries: the inbound ones except `host`,
/// kept in order.
pub fn mirror_headers(headers: &Vec<(String, String)>) -> (r: Vec<(String, String)>)
    ensures
        header_views(r@) == header_views(headers@).filter(mirror_forward_pred()),
{
    let n = headers.len();
    let mut r: Vec<(String, String)> = Vec::new();
    let mut i: usize = 0;
    proof {
        reveal(Seq::filter);
        assert(header_views(headers@.take(0)) =~= Seq::<(Seq<char>, Seq<char>)>::empty());
        assert(header_views(r@) =~= Seq::<(Seq<char>, Seq<char>)>::empty());
    }
    while i < n
        invariant
            0 <= i <= n,
            n == headers@.len(),
            header_views(r@) == header_views(headers@.take(i as int)).filter(
                mirror_forward_pred(),
            ),
        decreases n - i,
    {
        let ghost prefix = header_views(headers@.take(i as int));
        let ghost views_i = (headers@[i as int].0@, headers@[i as int].1@);
        let name = String::from_str(headers[i].0.as_str());
        let value = String::from_str(headers[i].1.as_str());
        let keep = !crate::middleware::canary::eq_ignore_ascii_case(name.as_str(), "host");
        let ghost r_before = r@;
        if keep {
            r.push((name, value));
        }
        proof {
            reveal(Seq::filter);
            let extended = header_views(headers@.take(i + 1));
            assert(extended =~= prefix.push(views_i));
            assert(extended.drop_last() =~= prefix);
            assert(extended.drop_last() == prefix);
            assert(extended.last() == views_i);
            if keep {
                assert(header_views(r@) =~= header_views(r_before).push(views_i));
                assert(extended.filter(mirror_forward_pred()) == prefix.filter(
                    mirror_forward_pred(),
                ).push(views_i));
            } else {
                assert(extended.filter(mirror_forward_pred()) == prefix.filter(
                    mirror_forward_pred(),
                ));
            }
        }
        i = i + 1;
    }
    proof {
        assert(headers@.take(n as int) =~= headers@);
    }
    r
}

/// The provenance value identifying this gateway on mirror replays, under
/// the same provenance header name.
pub fn mirror_provenance_header_name() -> (r: &'static str)
    ensures
        r@ == "X-Mirrored-By"@,
{
    "X-Mirrored-By"
}

pub fn mirror_provenance_header_value() -> (r: &'static str)
    ensures
        r@ == "Rust-Gateway"@,
{
    "Rust-Gateway"
}

/// The signed latency delta between the mirror and the primary exchange,
/// in milliseconds.
pub fn latency_delta_ms(mirror_latency_ms: u64, primary_latency_ms: u64) -> (d: i128)
    ensures
        d == mirror_latency_ms - primary_latency_ms,
{
    (mirror_latency_ms as i128) - (primary_latency_ms as i128)
}

/// Records one mirror outcome: a completed exchange counts its request and
/// latency, an unreachable target moves only the failure counter.
pub fn record_mirror_outcome(metrics: &mut MirrorMetrics, outcome: &MirrorOutcome)
    ensures
        *outcome matches MirrorOutcome::Completed { status, mirror_latency_ms } ==> {
            &&& final(metrics).requests_total == counter_inc(old(metrics).requests_total)
            &&& final(metrics).latency_ms_total == counter_add(
                old(metrics).latency_ms_total,
                mirror_latency_ms,
            )
            &&& final(metrics).failures_total == old(metrics).failures_total
        },
        *outcome == MirrorOutcome::Failed ==> {
            &&& final(metrics).failures_total == counter_inc(old(metrics).failures_total)
            &&& final(metrics).requests_total == old(metrics).requests_total
            &&& final(metrics).latency_ms_total == old(metrics).latency_ms_total
        },
{
    match outcome {
        MirrorOutcome::Completed { status: _, mirror_latency_ms } => {
            metrics.record_mirror_success(*mirror_latency_ms);
        },
        MirrorOutcome::Failed => {
            metrics.record_mirror_failure();
        },
    }
}

/// Completes a mirrored request: the mirror outcome is recorded and the
/// primary response is handed back exactly as it was produced — no mirror
/// outcome, a failure included, can alter it.
pub fn finish_mirrored_request<R>(
    primary_response: R,
    metrics: &mut MirrorMetrics,
    outcome: &MirrorOutcome,
) -> (r: R)
    ensures
        r == primary_response,
        *outcome == MirrorOutcome::Failed ==> {
            &&& final(metrics).failures_total == counter_inc(old(metrics).failures_total)
            &&& final(metrics).requests_total == old(metrics).requests_total
            &&& final(metrics).latency_ms_total == old(metrics).latency_ms_total
        },
        *outcome matches MirrorOutcome::Completed { status, mirror_latency_ms } ==> {
            &&& final(metrics).requests_total == counter_inc(old(metrics).requests_total)
            &&& final(metrics).latency_ms_total == counter_add(
                old(metrics).latency_ms_total,
                mirror_latency_ms,
            )
            &&& final(metrics).failures_total == old(metrics).failures_total
        },
{
    record_mirror_outcome(metrics, outcome);
    primary_response
}

} // verus!
