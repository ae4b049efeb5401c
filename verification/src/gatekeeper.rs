//! The autonomous control loop guarding the rollout.
//!
//! On each tick the gatekeeper reads the current snapshot and the
//! performance validation, decides health, and on degradation rolls the
//! rollout percentage back by one step (floored at 1%), records the
//! rollback instant and emits an alert for the operator's webhook. For 300
//! seconds after a rollback — the cooldown — further degraded checks report
//! healthy and change nothing, which suppresses flapping. The periodic
//! timer, the webhook POST and the logging live outside this crate.

use vstd::prelude::*;

use crate::clock::utc_now_seconds;
use crate::config::watcher::ConfigWatcher;
use crate::config::{AppConfig, CanaryRolloutConfig, FULL_PERCENT, ONE_PERCENT};
use crate::monitoring::{PerformanceMonitor, PerformanceValidation};

verus! {

/// How long automatic rollbacks are suppressed after one fires, in seconds.
pub const ROLLBACK_COOLDOWN_SECONDS: u64 = 300;

/// The latency degradation past which a rollback fires: 10%, in hundredths
/// of a percent.
pub const LATENCY_DEGRADATION_LIMIT: i128 = 1000;

/// Why a rollback fired.
#[derive(Clone, Copy, Debug, PartialEq, Eq, Structural)]
pub enum RollbackReason {
    /// The new backend's error rate exceeded the configured ceiling; both in
    /// hundredths of a percent.
    ErrorRateExceeded { error_rate: u32, max_errors: u32 },
    /// Latency degraded past the fixed limit; in hundredths of a percent.
    LatencyDegraded { degradation: i128 },
    /// An operator asked for the rollback.
    Manual,
}

/// One health check's outcome.
#[derive(Clone, Copy, Debug, PartialEq, Eq, Structural)]
pub struct GatekeeperStatus {
    pub is_healthy: bool,
    /// In hundredths of a percent.
    pub current_rollout_percentage: u32,
    /// In hundredths of a percent.
    pub error_rate: u32,
    /// In hundredths of a percent; zero while latency has improved.
    pub latency_degradation_percent: i128,
    /// The clock reading the check was made at, in seconds.
    pub last_check: i64,
    pub rollback_triggered: bool,
    pub rollback_reason: Option<RollbackReason>,
}

/// The payload of the rollback alert handed to the operator's webhook.
#[derive(Clone, Copy, Debug, PartialEq, Eq, Structural)]
pub struct RollbackAlert {
    pub reason: RollbackReason,
    /// In hundredths of a percent.
    pub from_percentage: u32,
    /// In hundredths of a percent.
    pub to_percentage: u32,
    /// Seconds since the Unix epoch.
    pub timestamp: i64,
}

/// Whether `now` still lies in the cooldown window after the last rollback.
pub open spec fn in_cooldown(last_rollback: Option<i64>, cooldown_seconds: u64, now: i64) -> bool {
    last_rollback matches Some(t) && now - t < cooldown_seconds
}

/// The latency degradation reported for an improvement reading: the
/// magnitude of a negative improvement, zero otherwise, saturated at the
/// type's bound.
pub open spec fn spec_degradation(improvement: i128) -> i128 {
    if improvement >= 0 {
        0
    } else if improvement == i128::MIN {
        i128::MAX
    } else {
        (-improvement) as i128
    }
}

/// One health check: healthy unless the error rate exceeds its ceiling or
/// latency degraded past the limit, and always healthy with no reason
/// inside the cooldown window — suppressing repeat action, not repeat
/// observation. When both checks fail, the latency reason is the one
/// reported.
pub open spec fn spec_check_health(
    last_rollback: Option<i64>,
    cooldown_seconds: u64,
    rollout_percentage: u32,
    max_errors: u32,
    v: PerformanceValidation,
    now: i64,
) -> GatekeeperStatus {
    let degradation = spec_degradation(v.latency_improvement_percent);
    let cooled = in_cooldown(last_rollback, cooldown_seconds, now);
    let error_bad = v.error_rate_new > max_errors;
    let latency_bad = degradation > LATENCY_DEGRADATION_LIMIT;
    let healthy = cooled || (!error_bad && !latency_bad);
    GatekeeperStatus {
        is_healthy: healthy,
        current_rollout_percentage: rollout_percentage,
        error_rate: v.error_rate_new,
        latency_degradation_percent: degradation,
        last_check: now,
        rollback_triggered: !healthy,
        rollback_reason: if healthy {
            None
        } else if latency_bad {
            Some(RollbackReason::LatencyDegraded { degradation })
        } else {
            Some(
                RollbackReason::ErrorRateExceeded {
                    error_rate: v.error_rate_new,
                    max_errors,
                },
            )
        },
    }
}

/// The rollout percentage after a rollback: one step down, floored at 1%.
pub open spec fn spec_rollback_target(current: u32, step: u32) -> u32 {
    if current >= step + ONE_PERCENT {
        (current - step) as u32
    } else {
        ONE_PERCENT
    }
}

/// The rollout percentage after an advance: one step up, capped at 100%.
pub open spec fn spec_advance_target(current: u32, step: u32) -> u32 {
    if current + step >= FULL_PERCENT {
        FULL_PERCENT
    } else {
        (current + step) as u32
    }
}

/// The gatekeeper's own state: when it last rolled back, and its fixed
/// cooldown.
pub struct Gatekeeper {
    last_rollback: Option<i64>,
    cooldown_seconds: u64,
}

impl Gatekeeper {
    /// The instant of the last rollback, as a clock reading in seconds.
    pub closed spec fn spec_last_rollback(&self) -> Option<i64> {
        self.last_rollback
    }

    /// The fixed cooldown, in seconds.
    pub closed spec fn spec_cooldown(&self) -> u64 {
        self.cooldown_seconds
    }

    /// A gatekeeper that has never rolled back, with the five-minute
    /// cooldown.
    pub fn new() -> (r: Self)
        ensures
            r.spec_last_rollback() is None,
            r.spec_cooldown() == ROLLBACK_COOLDOWN_SECONDS,
    {
        Gatekeeper { last_rollback: None, cooldown_seconds: ROLLBACK_COOLDOWN_SECONDS }
    }

    /// One health check against explicit inputs: the snapshot's rollout
    /// percentage and error ceiling, the current validation, and the clock.
    pub fn check_health(
        &self,
        rollout_percentage: u32,
        max_errors: u32,
        validation: &PerformanceValidation,
        now: i64,
    ) -> (st: GatekeeperStatus)
        ensures
            st == spec_check_health(
                self.spec_last_rollback(),
                self.spec_cooldown(),
                rollout_percentage,
                max_errors,
                *validation,
                now,
            ),
            st.is_healthy <==> (in_cooldown(self.spec_last_rollback(), self.spec_cooldown(), now)
                || (validation.error_rate_new <= max_errors && spec_degradation(
                validation.latency_improvement_percent,
            ) <= LATENCY_DEGRADATION_LIMIT)),
            st.rollback_triggered <==> !st.is_healthy,
            st.rollback_reason is Some <==> !st.is_healthy,
    {
        let error_rate = validation.error_rate_new;
        let degradation: i128 = if validation.latency_improvement_percent >= 0 {
            0
        } else if validation.latency_improvement_percent == i128::MIN {
            i128::MAX
        } else {
            -validation.latency_improvement_percent
        };
        let cooled = match self.last_rollback {
            Some(t) => (now as i128) - (t as i128) < (self.cooldown_seconds as i128),
            None => false,
        };
        let error_bad = error_rate > max_errors;
        let latency_bad = degradation > LATENCY_DEGRADATION_LIMIT;
        let healthy = cooled || (!error_bad && !latency_bad);
        let rollback_reason = if healthy {
            None
        } else if latency_bad {
            Some(RollbackReason::LatencyDegraded { degradation })
        } else {
            Some(RollbackReason::ErrorRateExceeded { error_rate, max_errors })
        };
        GatekeeperStatus {
            is_healthy: healthy,
            current_rollout_percentage: rollout_percentage,
            error_rate,
            latency_degradation_percent: degradation,
            last_check: now,
            rollback_triggered: !healthy,
            rollback_reason,
        }
    }

    /// Executes a rollback: records the instant (entering the cooldown),
    /// lowers the rollout percentage by one step floored at 1%, and hands
    /// back the alert for the operator's webhook. Every other field of the
    /// snapshot is kept.
    pub fn trigger_rollback(
        &mut self,
        watcher: &mut ConfigWatcher,
        reason: RollbackReason,
        now: i64,
    ) -> (alert: RollbackAlert)
        requires
            old(watcher).wf(),
        ensures
            final(self).spec_last_rollback() == Some(now),
            final(self).spec_cooldown() == old(self).spec_cooldown(),
            final(watcher).wf(),
            final(watcher).spec_config().canary_rollout.rollout_percentage == spec_rollback_target(
                old(watcher).spec_config().canary_rollout.rollout_percentage,
                old(watcher).spec_config().canary_rollout.step,
            ),
            final(watcher).spec_config().canary_rollout == (CanaryRolloutConfig {
                rollout_percentage: final(watcher).spec_config().canary_rollout.rollout_percentage,
                ..old(watcher).spec_config().canary_rollout
            }),
            final(watcher).spec_config() == (AppConfig {
                canary_rollout: final(watcher).spec_config().canary_rollout,
                ..old(watcher).spec_config()
            }),
            final(watcher).spec_generation() == old(watcher).spec_generation(),
            alert == (RollbackAlert {
                reason,
                from_percentage: old(watcher).spec_config().canary_rollout.rollout_percentage,
                to_percentage: final(watcher).spec_config().canary_rollout.rollout_percentage,
                timestamp: now,
            }),
    {
        self.last_rollback = Some(now);
        let config = watcher.get_config();
        let current = config.canary_rollout.rollout_percentage;
        let step = config.canary_rollout.step;
        let target = if current >= ONE_PERCENT && current - ONE_PERCENT >= step {
            current - step
        } else {
            ONE_PERCENT
        };
        watcher.set_rollout_percentage(target);
        RollbackAlert {
            reason,
            from_percentage: current,
            to_percentage: target,
            timestamp: now,
        }
    }

    /// An operator-triggered rollback outside the timer cadence; it runs the
    /// same rollback step under the given reason.
    pub fn force_rollback(
        &mut self,
        watcher: &mut ConfigWatcher,
        reason: RollbackReason,
        now: i64,
    ) -> (alert: RollbackAlert)
        requires
            old(watcher).wf(),
        ensures
            final(self).spec_last_rollback() == Some(now),
            final(self).spec_cooldown() == old(self).spec_cooldown(),
            final(watcher).wf(),
            final(watcher).spec_config().canary_rollout.rollout_percentage == spec_rollback_target(
                old(watcher).spec_config().canary_rollout.rollout_percentage,
                old(watcher).spec_config().canary_rollout.step,
            ),
            final(watcher).spec_config() == (AppConfig {
                canary_rollout: final(watcher).spec_config().canary_rollout,
                ..old(watcher).spec_config()
            }),
            alert == (RollbackAlert {
                reason,
                from_percentage: old(watcher).spec_config().canary_rollout.rollout_percentage,
                to_percentage: final(watcher).spec_config().canary_rollout.rollout_percentage,
                timestamp: now,
            }),
    {
        self.trigger_rollback(watcher, reason, now)
    }

    /// Raises the rollout percentage by one step, capped at 100%; at 100%
    /// the snapshot is left untouched, so repeated calls are no-ops there.
    pub fn advance_rollout(&self, watcher: &mut ConfigWatcher)
        requires
            old(watcher).wf(),
        ensures
            final(watcher).wf(),
            final(watcher).spec_config().canary_rollout.rollout_percentage == spec_advance_target(
                old(watcher).spec_config().canary_rollout.rollout_percentage,
                old(watcher).spec_config().canary_rollout.step,
            ),
            final(watcher).spec_config().canary_rollout.rollout_percentage
                >= old(watcher).spec_config().canary_rollout.rollout_percentage,
            final(watcher).spec_config().canary_rollout.rollout_percentage <= FULL_PERCENT,
            old(watcher).spec_config().canary_rollout.rollout_percentage == FULL_PERCENT
                ==> *final(watcher) == *old(watcher),
            final(watcher).spec_config() == (AppConfig {
                canary_rollout: (CanaryRolloutConfig {
                    rollout_percentage: final(watcher).spec_config().canary_rollout.rollout_percentage,
                    ..old(watcher).spec_config().canary_rollout
                }),
                ..old(watcher).spec_config()
            }),
            final(watcher).spec_generation() == old(watcher).spec_generation(),
    {
        let config = watcher.get_config();
        let current = config.canary_rollout.rollout_percentage;
        let step = config.canary_rollout.step;
        if current < FULL_PERCENT {
            let target = if step >= FULL_PERCENT - current {
                FULL_PERCENT
            } else {
                current + step
            };
            watcher.set_rollout_percentage(target);
        }
        proof {
            if current == FULL_PERCENT {
                assert(*watcher == *old(watcher));
            }
        }
    }

    /// One health check against the live snapshot and statistics, stamped
    /// with the clock reading it was made at.
    pub fn get_status(&self, watcher: &ConfigWatcher, monitor: &PerformanceMonitor) -> (st:
        GatekeeperStatus)
        requires
            watcher.wf(),
            monitor.wf(),
        ensures
            st == spec_check_health(
                self.spec_last_rollback(),
                self.spec_cooldown(),
                watcher.spec_config().canary_rollout.rollout_percentage,
                watcher.spec_config().canary_rollout.max_errors,
                monitor.spec_validation_now(st.last_check),
                st.last_check,
            ),
    {
        let now = utc_now_seconds();
        let validation = monitor.validate_performance(now);
        let config = watcher.get_config();
        self.check_health(
            config.canary_rollout.rollout_percentage,
            config.canary_rollout.max_errors,
            &validation,
            now,
        )
    }

    /// One interval tick: check health, and on an unhealthy reading execute
    /// the rollback and hand back its alert. A healthy reading — the
    /// cooldown window included — changes neither the gatekeeper nor the
    /// snapshot.
    pub fn tick(&mut self, watcher: &mut ConfigWatcher, monitor: &PerformanceMonitor, now: i64) -> (r:
        (GatekeeperStatus, Option<RollbackAlert>))
        requires
            old(watcher).wf(),
            monitor.wf(),
        ensures
            final(watcher).wf(),
            r.0 == spec_check_health(
                old(self).spec_last_rollback(),
                old(self).spec_cooldown(),
                old(watcher).spec_config().canary_rollout.rollout_percentage,
                old(watcher).spec_config().canary_rollout.max_errors,
                monitor.spec_validation_now(now),
                now,
            ),
            r.0.is_healthy ==> {
                &&& r.1 is None
                &&& *final(self) == *old(self)
                &&& *final(watcher) == *old(watcher)
            },
            !r.0.is_healthy ==> {
                &&& final(self).spec_last_rollback() == Some(now)
                &&& final(watcher).spec_config().canary_rollout.rollout_percentage
                    == spec_rollback_target(
                    old(watcher).spec_config().canary_rollout.rollout_percentage,
                    old(watcher).spec_config().canary_rollout.step,
                )
                &&& final(watcher).spec_config() == (AppConfig {
                    canary_rollout: final(watcher).spec_config().canary_rollout,
                    ..old(watcher).spec_config()
                })
                &&& (r.1 matches Some(alert) && alert == (RollbackAlert {
                    reason: r.0.rollback_reason->Some_0,
                    from_percentage: old(watcher).spec_config().canary_rollout.rollout_percentage,
                    to_percentage: final(watcher).spec_config().canary_rollout.rollout_percentage,
                    timestamp: now,
                }))
            },
    {
        let config = watcher.get_config();
        let rollout_percentage = config.canary_rollout.rollout_percentage;
        let max_errors = config.canary_rollout.max_errors;
        let validation = monitor.validate_performance(now);
        let status = self.check_health(rollout_percentage, max_errors, &validation, now);
        if !status.is_healthy {
            match status.rollback_reason {
                Some(reason) => {
                    let alert = self.trigger_rollback(watcher, reason, now);
                    (status, Some(alert))
                },
                None => (status, None),
            }
        } else {
            (status, None)
        }
    }
}

/// Whether the configured webhook URL looks like an HTTP(S) URL: alerts are
/// fired only then.
pub open spec fn is_http_url(s: Seq<char>) -> bool {
    s.len() >= 4 && s.subrange(0, 4) == "http"@
}

/// Decides whether the rollback alert is sent: only to a webhook URL that
/// starts with `http`.
pub fn should_send_alert(webhook_url: &str) -> (r: bool)
    ensures
        r == is_http_url(webhook_url@),
{
    let n = webhook_url.unicode_len();
    if n < 4 {
        proof {
            reveal_strlit("http");
        }
        return false;
    }
    proof {
        reveal_strlit("http");
    }
    let r = webhook_url.get_char(0) == 'h' && webhook_url.get_char(1) == 't'
        && webhook_url.get_char(2) == 't' && webhook_url.get_char(3) == 'p';
    proof {
        if r {
            assert(webhook_url@.subrange(0, 4) =~= "http"@);
        } else {
            assert(webhook_url@.subrange(0, 4) != "http"@) by {
                if webhook_url@.subrange(0, 4) == "http"@ {
                    assert(webhook_url@[0] == "http"@[0]);
                    assert(webhook_url@[1] == "http"@[1]);
                    assert(webhook_url@[2] == "http"@[2]);
                    assert(webhook_url@[3] == "http"@[3]);
                }
            };
        }
    }
    r
}

/// Cooldown suppression: for any check made within the cooldown window of
/// the last rollback, the outcome is healthy, reports no reason and
/// triggers nothing — whatever the statistics say.
pub proof fn lemma_cooldown_suppression(
    last_rollback: i64,
    cooldown_seconds: u64,
    rollout_percentage: u32,
    max_errors: u32,
    v: PerformanceValidation,
    now: i64,
)
    requires
        now - last_rollback < cooldown_seconds,
    ensures
        spec_check_health(
            Some(last_rollback),
            cooldown_seconds,
            rollout_percentage,
            max_errors,
            v,
            now,
        ).is_healthy,
        spec_check_health(
            Some(last_rollback),
            cooldown_seconds,
            rollout_percentage,
            max_errors,
            v,
            now,
        ).rollback_reason is None,
        !spec_check_health(
            Some(last_rollback),
            cooldown_seconds,
            rollout_percentage,
            max_errors,
            v,
            now,
        ).rollback_triggered,
{
}

/// The advance cap: repeated advances never push the rollout past 100%, and
/// once there every further advance returns exactly 100% again.
pub proof fn lemma_advance_cap(current: u32, step: u32)
    requires
        current <= FULL_PERCENT,
    ensures
        spec_advance_target(current, step) <= FULL_PERCENT,
        spec_advance_target(current, step) >= current,
        current == FULL_PERCENT ==> spec_advance_target(current, step) == FULL_PERCENT,
        spec_advance_target(spec_advance_target(current, step), step) <= FULL_PERCENT,
{
}

} // verus!
