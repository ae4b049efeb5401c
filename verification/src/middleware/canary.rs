//! The per-request canary routing decision.
//!
//! Given the current snapshot, the trigger header and one uniform draw from
//! `[0, 100)`% the router picks the backend: a disabled canary always keeps
//! the primary (new) backend, a trigger header valued `"new"` or `"legacy"`
//! (compared ASCII-case-insensitively) forces the choice, and otherwise the
//! draw decides against the rollout percentage. The module also owns what a
//! legacy proxy exchange computes: the outbound URL, which headers are
//! forwarded, and how each outcome maps onto the relayed reply.

use vstd::prelude::*;
use vstd::set_lib::{lemma_int_range, set_int_range};
use vstd::string::{StrSliceExecFns, StringExecFns};

use crate::config::{CanaryRolloutConfig, FULL_PERCENT};
use crate::monitoring::Backend;

verus! {

/// The code of `c` with an ASCII capital letter folded to lower case.
pub open spec fn lower_code(c: char) -> u32 {
    if 65 <= c as u32 <= 90 {
        (c as u32 + 32) as u32
    } else {
        c as u32
    }
}

/// Character sequences equal up to ASCII case, as HTTP header values are
/// compared.
pub open spec fn eq_ignore_case(a: Seq<char>, b: Seq<char>) -> bool {
    a.len() == b.len() && forall|i: int|
        0 <= i < a.len() ==> lower_code(#[trigger] a[i]) == lower_code(b[i])
}

/// The view of an optional header value.
pub open spec fn view_opt(h: Option<&str>) -> Option<Seq<char>> {
    match h {
        Some(s) => Some(s@),
        None => None,
    }
}

/// Whether the trigger header forces the new backend.
pub open spec fn header_forces_new(h: Option<Seq<char>>) -> bool {
    h matches Some(v) && eq_ignore_case(v, "new"@)
}

/// Whether the trigger header forces the legacy backend.
pub open spec fn header_forces_legacy(h: Option<Seq<char>>) -> bool {
    h matches Some(v) && eq_ignore_case(v, "legacy"@)
}

/// The routing decision, in priority order: a disabled canary keeps the
/// primary (new) backend; a forcing header wins over the draw; otherwise
/// the draw is measured against the rollout percentage.
pub open spec fn spec_decide(
    enabled: bool,
    header: Option<Seq<char>>,
    rollout_percentage: u32,
    draw: u32,
) -> Backend {
    if !enabled {
        Backend::New
    } else if header_forces_new(header) {
        Backend::New
    } else if header_forces_legacy(header) {
        Backend::Legacy
    } else if draw < rollout_percentage {
        Backend::New
    } else {
        Backend::Legacy
    }
}

/// The case fold of one character's code.
fn lower_code_of(c: char) -> (r: u32)
    ensures
        r == lower_code(c),
{
    let u = c as u32;
    if 65 <= u && u <= 90 {
        u + 32
    } else {
        u
    }
}

/// Compares two header values up to ASCII case.
pub fn eq_ignore_ascii_case(a: &str, b: &str) -> (r: bool)
    ensures
        r == eq_ignore_case(a@, b@),
{
    let na = a.unicode_len();
    let nb = b.unicode_len();
    if na != nb {
        return false;
    }
    let mut i: usize = 0;
    while i < na
        invariant
            0 <= i <= na,
            na == a@.len(),
            na == b@.len(),
            forall|j: int| 0 <= j < i ==> lower_code(#[trigger] a@[j]) == lower_code(b@[j]),
        decreases na - i,
    {
        let ca = a.get_char(i);
        let cb = b.get_char(i);
        if lower_code_of(ca) != lower_code_of(cb) {
            return false;
        }
        i = i + 1;
    }
    true
}

/// One routing decision from explicit inputs, the draw included. The
/// trigger header always wins: valued `"new"` it yields the new backend and
/// valued `"legacy"` the legacy backend, whatever the percentage and the
/// draw; with no forcing header, a zero percentage never picks the new
/// backend and a full percentage always does.
pub fn decide_backend(
    enabled: bool,
    header_value: Option<&str>,
    rollout_percentage: u32,
    draw: u32,
) -> (b: Backend)
    requires
        draw < FULL_PERCENT,
    ensures
        b == spec_decide(enabled, view_opt(header_value), rollout_percentage, draw),
        !enabled ==> b == Backend::New,
        enabled && header_forces_new(view_opt(header_value)) ==> b == Backend::New,
        enabled && !header_forces_new(view_opt(header_value)) && header_forces_legacy(
            view_opt(header_value),
        ) ==> b == Backend::Legacy,
        enabled && !header_forces_new(view_opt(header_value)) && !header_forces_legacy(
            view_opt(header_value),
        ) ==> {
            &&& rollout_percentage == 0 ==> b == Backend::Legacy
            &&& rollout_percentage >= FULL_PERCENT ==> b == Backend::New
            &&& b == (if draw < rollout_percentage {
                Backend::New
            } else {
                Backend::Legacy
            })
        },
{
    if !enabled {
        return Backend::New;
    }
    let forced_new = match header_value {
        Some(v) => eq_ignore_ascii_case(v, "new"),
        None => false,
    };
    if forced_new {
        return Backend::New;
    }
    let forced_legacy = match header_value {
        Some(v) => eq_ignore_ascii_case(v, "legacy"),
        None => false,
    };
    if forced_legacy {
        return Backend::Legacy;
    }
    if draw < rollout_percentage {
        Backend::New
    } else {
        Backend::Legacy
    }
}

/// Relies on rand's `thread_rng` and `Rng::gen_range`: a sample from the
/// half-open range `[0, bound)`, so always below `bound`.
#[verifier::external_body]
fn draw_below(bound: u32) -> (r: u32)
    requires
        bound > 0,
    ensures
        r < bound,
{
    rand::Rng::gen_range(&mut rand::thread_rng(), 0..bound)
}

/// The routing decision for one request under the given snapshot: a draw
/// from `[0, 100)`% measured against the rollout percentage, unless the
/// canary is disabled or the trigger header forces a backend.
pub fn route_request(config: &CanaryRolloutConfig, header_value: Option<&str>) -> (b: Backend)
    ensures
        !config.enabled ==> b == Backend::New,
        config.enabled && header_forces_new(view_opt(header_value)) ==> b == Backend::New,
        config.enabled && !header_forces_new(view_opt(header_value)) && header_forces_legacy(
            view_opt(header_value),
        ) ==> b == Backend::Legacy,
        config.enabled && !header_forces_new(view_opt(header_value)) && !header_forces_legacy(
            view_opt(header_value),
        ) ==> {
            &&& config.rollout_percentage == 0 ==> b == Backend::Legacy
            &&& config.rollout_percentage >= FULL_PERCENT ==> b == Backend::New
        },
        exists|draw: u32|
            draw < FULL_PERCENT && b == spec_decide(
                config.enabled,
                view_opt(header_value),
                config.rollout_percentage,
                draw,
            ),
{
    let draw = draw_below(FULL_PERCENT);
    decide_backend(config.enabled, header_value, config.rollout_percentage, draw)
}

/// Of the `FULL_PERCENT` equally likely draws, exactly `rollout_percentage`
/// route to the new backend when the canary is enabled and no header forces
/// the decision: the expected split is `rollout_percentage` per `10000`.
pub proof fn lemma_routing_split(header: Option<Seq<char>>, rollout_percentage: u32)
    requires
        rollout_percentage <= FULL_PERCENT,
        !header_forces_new(header),
        !header_forces_legacy(header),
    ensures
        Set::new(
            |d: int|
                0 <= d < FULL_PERCENT && spec_decide(true, header, rollout_percentage, d as u32)
                    == Backend::New,
        ).len() == rollout_percentage,
{
    let routed_new = Set::new(
        |d: int|
            0 <= d < FULL_PERCENT && spec_decide(true, header, rollout_percentage, d as u32)
                == Backend::New,
    );
    assert(routed_new =~= set_int_range(0, rollout_percentage as int));
    lemma_int_range(0, rollout_percentage as int);
}

/// Whether a hop-by-hop header is dropped rather than forwarded to the
/// legacy or mirror target.
pub open spec fn is_hop_by_hop(name: Seq<char>) -> bool {
    ||| eq_ignore_case(name, "host"@)
    ||| eq_ignore_case(name, "connection"@)
    ||| eq_ignore_case(name, "upgrade"@)
}

/// The views of a header list: each pair of name and value as character
/// sequences.
pub open spec fn header_views(h: Seq<(String, String)>) -> Seq<(Seq<char>, Seq<char>)> {
    h.map_values(|p: (String, String)| (p.0@, p.1@))
}

/// The forwarding predicate over one header pair's views.
pub open spec fn forward_pred() -> spec_fn((Seq<char>, Seq<char>)) -> bool {
    |p: (Seq<char>, Seq<char>)| !is_hop_by_hop(p.0)
}

/// Checks one header name against the hop-by-hop list.
pub fn is_hop_by_hop_header(name: &str) -> (r: bool)
    ensures
        r == is_hop_by_hop(name@),
{
    eq_ignore_ascii_case(name, "host") || eq_ignore_ascii_case(name, "connection")
        || eq_ignore_ascii_case(name, "upgrade")
}

/// The headers an outbound proxied request carries: the inbound ones except
/// hop-by-hop headers, kept in order.
pub fn forwardable_headers(headers: &Vec<(String, String)>) -> (r: Vec<(String, String)>)
    ensures
        header_views(r@) == header_views(headers@).filter(forward_pred()),
{
    let n = headers.len();
    let mut r: Vec<(String, String)> = Vec::new();
    let mut i: usize = 0;
    proof {
        reveal(Seq::filter);
        assert(header_views(headers@.take(0)) =~= Seq::<(Seq<char>, Seq<char>)>::empty());
        assert(header_views(r@) =~= Seq::<(Seq<char>, Seq<char>)>::empty());
    }
    while i < n
        invariant
            0 <= i <= n,
            n == headers@.len(),
            header_views(r@) == header_views(headers@.take(i as int)).filter(forward_pred()),
        decreases n - i,
    {
        let ghost prefix = header_views(headers@.take(i as int));
        let ghost views_i = (headers@[i as int].0@, headers@[i as int].1@);
        let name = clone_string(&headers[i].0);
        let value = clone_string(&headers[i].1);
        let keep = !is_hop_by_hop_header(name.as_str());
        let ghost r_before = r@;
        if keep {
            r.push((name, value));
        }
        proof {
            reveal(Seq::filter);
            let extended = header_views(headers@.take(i + 1));
            assert(extended =~= prefix.push(views_i));
            assert(extended.drop_last() =~= prefix);
            assert(extended.drop_last() == prefix);
            assert(extended.last() == views_i);
            if keep {
                assert(header_views(r@) =~= header_views(r_before).push(views_i));
                assert(extended.filter(forward_pred()) == prefix.filter(forward_pred()).push(
                    views_i,
                ));
            } else {
                assert(extended.filter(forward_pred()) == prefix.filter(forward_pred()));
            }
        }
        i = i + 1;
    }
    proof {
        assert(headers@.take(n as int) =~= headers@);
    }
    r
}

/// A copy of one header string.
fn clone_string(s: &String) -> (r: String)
    ensures
        r@ == s@,
{
    String::from_str(s.as_str())
}

/// The outbound URL of a proxied or mirrored request: the target's base URL
/// followed by the inbound path and query.
pub fn build_target_url(base: &str, path_and_query: &str) -> (r: String)
    ensures
        r@ == base@ + path_and_query@,
{
    let mut url = String::from_str(base);
    url.append(path_and_query);
    url
}

/// Whether a relayed status counts as a server error when recorded.
pub fn is_server_error(status: u16) -> (r: bool)
    ensures
        r == (500 <= status < 600),
{
    500 <= status && status < 600
}

/// What came back from one proxied exchange with the legacy gateway.
#[derive(Clone, Copy, Debug, PartialEq, Eq, Structural)]
pub enum LegacyOutcome {
    /// The target answered and its body was read in full.
    Completed { status: u16 },
    /// The target answered but its body could not be read.
    MalformedBody { status: u16 },
    /// The target could not be reached.
    TransportError,
    /// The exchange outlived its timeout.
    Timeout,
}

/// How a proxy failure is reported in the relayed reply.
#[derive(Clone, Copy, Debug, PartialEq, Eq, Structural)]
pub enum ProxyErrorKind {
    MalformedBody,
    Transport,
    Timeout,
}

/// The status relayed for one outcome: the legacy status verbatim on
/// success, 502 on a transport or body failure, 504 on a timeout.
pub open spec fn spec_legacy_status(outcome: LegacyOutcome) -> u16 {
    match outcome {
        LegacyOutcome::Completed { status } => status,
        LegacyOutcome::MalformedBody { .. } => 502,
        LegacyOutcome::TransportError => 502,
        LegacyOutcome::Timeout => 504,
    }
}

/// The error reported for one outcome, if any.
pub open spec fn spec_legacy_error(outcome: LegacyOutcome) -> Option<ProxyErrorKind> {
    match outcome {
        LegacyOutcome::Completed { .. } => None,
        LegacyOutcome::MalformedBody { .. } => Some(ProxyErrorKind::MalformedBody),
        LegacyOutcome::TransportError => Some(ProxyErrorKind::Transport),
        LegacyOutcome::Timeout => Some(ProxyErrorKind::Timeout),
    }
}

/// The reply relayed to the caller for one legacy exchange.
#[derive(Clone, Copy, Debug, PartialEq, Eq, Structural)]
pub struct LegacyReply {
    pub status: u16,
    pub error: Option<ProxyErrorKind>,
}

/// Maps one proxied outcome onto the relayed reply: the legacy response
/// passes through verbatim; a transport error or an unreadable body answers
/// 502, a timeout 504, each with a structured error.
pub fn legacy_reply(outcome: &LegacyOutcome) -> (r: LegacyReply)
    ensures
        r.status == spec_legacy_status(*outcome),
        r.error == spec_legacy_error(*outcome),
        r.error is None <==> outcome matches LegacyOutcome::Completed { .. },
{
    match outcome {
        LegacyOutcome::Completed { status } => LegacyReply { status: *status, error: None },
        LegacyOutcome::MalformedBody { .. } => LegacyReply {
            status: 502,
            error: Some(ProxyErrorKind::MalformedBody),
        },
        LegacyOutcome::TransportError => LegacyReply {
            status: 502,
            error: Some(ProxyErrorKind::Transport),
        },
        LegacyOutcome::Timeout => LegacyReply { status: 504, error: Some(ProxyErrorKind::Timeout) },
    }
}

impl ProxyErrorKind {
    /// The `error` field of the structured reply body.
    pub fn title(&self) -> (r: &'static str)
        ensures
            *self == ProxyErrorKind::MalformedBody ==> r@ == "Legacy gateway response error"@,
            *self == ProxyErrorKind::Transport ==> r@ == "Legacy gateway unavailable"@,
            *self == ProxyErrorKind::Timeout ==> r@ == "Legacy gateway timeout"@,
    {
        match self {
            ProxyErrorKind::MalformedBody => "Legacy gateway response error",
            ProxyErrorKind::Transport => "Legacy gateway unavailable",
            ProxyErrorKind::Timeout => "Legacy gateway timeout",
        }
    }

    /// The `message` field of the structured reply body; the transport
    /// message is a prefix the caller may extend with the transport error's
    /// own text.
    pub fn message(&self) -> (r: &'static str)
        ensures
            *self == ProxyErrorKind::MalformedBody ==> r@ == "Failed to read response body"@,
            *self == ProxyErrorKind::Transport ==> r@ == "Request failed"@,
            *self == ProxyErrorKind::Timeout ==> r@ == "Request timed out after 30 seconds"@,
    {
        match self {
            ProxyErrorKind::MalformedBody => "Failed to read response body",
            ProxyErrorKind::Transport => "Request failed",
            ProxyErrorKind::Timeout => "Request timed out after 30 seconds",
        }
    }
}

/// The name of the provenance header added to every proxied request.
pub fn provenance_header_name() -> (r: &'static str)
    ensures
        r@ == "X-Routed-By"@,
{
    "X-Routed-By"
}

/// The provenance value identifying this gateway on the legacy path.
pub fn provenance_header_value() -> (r: &'static str)
    ensures
        r@ == "Rust-Gateway-Canary"@,
{
    "Rust-Gateway-Canary"
}

/// Finds the first header with the given name, compared up to ASCII case as
/// HTTP requires; the index of the first match, or `None` when no header
/// matches.
pub fn find_header(headers: &Vec<(String, String)>, name: &str) -> (r: Option<usize>)
    ensures
        r matches Some(i) ==> {
            &&& i < headers@.len()
            &&& eq_ignore_case(headers@[i as int].0@, name@)
            &&& forall|j: int| 0 <= j < i ==> !eq_ignore_case(#[trigger] headers@[j].0@, name@)
        },
        r is None ==> forall|j: int|
            0 <= j < headers@.len() ==> !eq_ignore_case(#[trigger] headers@[j].0@, name@),
{
    let n = headers.len();
    let mut i: usize = 0;
    while i < n
        invariant
            0 <= i <= n,
            n == headers@.len(),
            forall|j: int| 0 <= j < i ==> !eq_ignore_case(#[trigger] headers@[j].0@, name@),
        decreases n - i,
    {
        if eq_ignore_ascii_case(headers[i].0.as_str(), name) {
            return Some(i);
        }
        i = i + 1;
    }
    None
}

} // verus!
