//! Configuration snapshots and their validation.
//!
//! A snapshot is an immutable value that is replaced wholesale on reload.
//! Percentages are stored in hundredths of a percent: `10000` is 100%.

use vstd::prelude::*;
use vstd::string::StrSliceExecFns;

pub mod watcher;

verus! {

/// One whole percent, in the fixed-point unit used throughout the crate.
pub const ONE_PERCENT: u32 = 100;

/// The whole range: 100%, in hundredths of a percent.
pub const FULL_PERCENT: u32 = 10000;

/// Why a configuration value was rejected.
#[derive(Clone, Copy, Debug, PartialEq, Eq, Structural)]
pub enum ConfigError {
    /// A recognized key is absent from every source.
    MissingField,
    /// A value that must be numeric cannot be read as a number in range.
    MalformedNumber,
    /// The rollout percentage lies outside `[0, 100]`%.
    PercentageOutOfRange,
    /// The rollout step is zero.
    StepOutOfRange,
}

#[derive(Clone, Debug)]
pub struct ServerConfig {
    pub host: String,
    pub port: u16,
    pub timeout_seconds: u64,
}

#[derive(Clone, Debug)]
pub struct MetricsConfig {
    pub enabled: bool,
    pub port: u16,
    pub path: String,
}

#[derive(Clone, Debug)]
pub struct TracingConfig {
    pub enabled: bool,
    pub jaeger_endpoint: String,
    pub service_name: String,
}

#[derive(Clone, Debug)]
pub struct MirrorConfig {
    pub enabled: bool,
    pub base_url: String,
    pub timeout_ms: u64,
    pub retry_failed: bool,
    pub max_retries: u32,
}

/// Canary rollout settings. `rollout_percentage`, `step` and `max_errors`
/// are in hundredths of a percent.
#[derive(Clone, Debug)]
pub struct CanaryRolloutConfig {
    pub enabled: bool,
    pub rollout_percentage: u32,
    pub step: u32,
    pub max_errors: u32,
    pub monitor_latency_p99: bool,
    pub monitor_memory_cpu: bool,
    pub trigger_header: String,
    pub success_window_seconds: u64,
    pub legacy_gateway_url: String,
    pub webhook_url: String,
}

#[derive(Clone, Debug)]
pub struct RouteConfig {
    pub path: String,
    pub method: String,
    pub legacy_endpoint: String,
}

#[derive(Clone, Debug)]
pub struct CorsConfig {
    pub enabled: bool,
    pub allow_origins: Vec<String>,
    pub allow_methods: Vec<String>,
    pub allow_headers: Vec<String>,
}

#[derive(Clone, Debug)]
pub struct RateLimitingConfig {
    pub enabled: bool,
    pub requests_per_minute: u32,
}

#[derive(Clone, Debug)]
pub struct AuthConfig {
    pub enabled: bool,
    pub jwt_secret: String,
}

#[derive(Clone, Debug)]
pub struct LoggingConfig {
    pub enabled: bool,
    pub include_request_body: bool,
    pub include_response_body: bool,
}

#[derive(Clone, Debug)]
pub struct MiddlewareConfig {
    pub cors: CorsConfig,
    pub rate_limiting: RateLimitingConfig,
    pub auth: AuthConfig,
    pub logging: LoggingConfig,
}

#[derive(Clone, Debug)]
pub struct AppConfig {
    pub server: ServerConfig,
    pub metrics: MetricsConfig,
    pub tracing: TracingConfig,
    pub mirror: MirrorConfig,
    pub canary_rollout: CanaryRolloutConfig,
    pub routes: Vec<RouteConfig>,
}

impl CanaryRolloutConfig {
    /// The snapshot invariant: the rollout percentage lies in `[0, 100]`%
    /// and the step is positive.
    pub open spec fn wf(&self) -> bool {
        &&& self.rollout_percentage <= FULL_PERCENT
        &&& self.step >= 1
    }

    /// Checks the snapshot invariant, naming the first field that breaks it.
    pub fn validate(&self) -> (r: Result<(), ConfigError>)
        ensures
            r is Ok <==> self.wf(),
            r == Err::<(), ConfigError>(ConfigError::PercentageOutOfRange) <==> self.rollout_percentage > FULL_PERCENT,
            r == Err::<(), ConfigError>(ConfigError::StepOutOfRange)
                <==> (self.rollout_percentage <= FULL_PERCENT && self.step == 0),
    {
        if self.rollout_percentage > FULL_PERCENT {
            Err(ConfigError::PercentageOutOfRange)
        } else if self.step == 0 {
            Err(ConfigError::StepOutOfRange)
        } else {
            Ok(())
        }
    }
}

impl AppConfig {
    /// The snapshot invariant of a whole configuration.
    pub open spec fn wf(&self) -> bool {
        self.canary_rollout.wf()
    }

    /// Checks the snapshot invariant; a snapshot that fails here is never
    /// installed as current.
    pub fn validate(&self) -> (r: Result<(), ConfigError>)
        ensures
            r is Ok <==> self.wf(),
    {
        match self.canary_rollout.validate() {
            Ok(()) => Ok(()),
            Err(e) => Err(e),
        }
    }
}

/// Whether `c` is an ASCII decimal digit.
pub open spec fn is_digit(c: char) -> bool {
    48 <= c as u32 <= 57
}

/// The numeric value of one ASCII digit.
pub open spec fn digit_val(c: char) -> int {
    c as u32 - 48
}

/// Whether every character of `s` is an ASCII decimal digit.
pub open spec fn all_digits(s: Seq<char>) -> bool {
    forall|i: int| 0 <= i < s.len() ==> is_digit(#[trigger] s[i])
}

/// The value of `s` read as a decimal numeral.
pub open spec fn digits_value(s: Seq<char>) -> int
    decreases s.len(),
{
    if s.len() == 0 {
        0
    } else {
        digits_value(s.drop_last()) * 10 + digit_val(s.last())
    }
}

/// A decimal numeral of digits is never negative.
proof fn lemma_digits_value_nonneg(s: Seq<char>)
    requires
        all_digits(s),
    ensures
        digits_value(s) >= 0,
    decreases s.len(),
{
    if s.len() > 0 {
        assert(all_digits(s.drop_last()));
        lemma_digits_value_nonneg(s.drop_last());
    }
}

/// Extending a numeral to the right never shrinks its value.
proof fn lemma_digits_value_prefix_le(s: Seq<char>, k: int)
    requires
        all_digits(s),
        0 <= k <= s.len(),
    ensures
        digits_value(s.take(k)) <= digits_value(s),
    decreases s.len() - k,
{
    if k < s.len() {
        assert(all_digits(s.take(k + 1)));
        assert(s.take(k + 1).drop_last() =~= s.take(k));
        lemma_digits_value_nonneg(s.take(k));
        lemma_digits_value_prefix_le(s, k + 1);
    } else {
        assert(s.take(k) =~= s);
    }
}

/// Reads a TCP port from a decimal string, as environment overrides supply
/// it. Returns `Ok` exactly on a nonempty all-digit string whose value fits
/// in a `u16`.
pub fn parse_port(s: &str) -> (r: Result<u16, ConfigError>)
    ensures
        r is Ok <==> (s@.len() > 0 && all_digits(s@) && digits_value(s@) <= u16::MAX),
        r matches Ok(n) ==> n == digits_value(s@),
        r matches Err(e) ==> e == ConfigError::MalformedNumber,
{
    let n = s.unicode_len();
    if n == 0 {
        return Err(ConfigError::MalformedNumber);
    }
    let mut acc: u32 = 0;
    let mut i: usize = 0;
    while i < n
        invariant
            0 <= i <= n,
            n == s@.len(),
            all_digits(s@.take(i as int)),
            acc == digits_value(s@.take(i as int)),
            acc <= u16::MAX,
        decreases n - i,
    {
        let c = s.get_char(i);
        let code = c as u32;
        if code < 48 || code > 57 {
            assert(!is_digit(s@[i as int]));
            return Err(ConfigError::MalformedNumber);
        }
        proof {
            assert(s@.take(i + 1).drop_last() =~= s@.take(i as int));
            assert(s@.take(i + 1).last() == s@[i as int]);
        }
        acc = acc * 10 + (code - 48);
        i = i + 1;
        if acc > u16::MAX as u32 {
            proof {
                if all_digits(s@) {
                    lemma_digits_value_prefix_le(s@, i as int);
                }
            }
            return Err(ConfigError::MalformedNumber);
        }
    }
    proof {
        assert(s@.take(n as int) =~= s@);
    }
    Ok(acc as u16)
}

} // verus!
