//! The store of the current configuration snapshot.
//!
//! The store owns the one snapshot that is "current". A reload replaces it
//! wholesale and only when the candidate satisfies the snapshot invariant:
//! a failed or malformed reload leaves the current snapshot untouched, so a
//! reader never observes a partially-updated or degraded configuration.
//! File watching and the broadcast of reload events are runtime plumbing and
//! live outside this crate; a subscription is modelled by the generation
//! number at which it was taken, and a subscriber sees exactly the reloads
//! whose generation is greater.

use vstd::prelude::*;

use crate::config::{AppConfig, ConfigError, FULL_PERCENT};

verus! {

pub struct ConfigWatcher {
    config: AppConfig,
    generation: u64,
}

/// The generation counter after one more successful reload.
pub open spec fn next_generation(g: u64) -> u64 {
    if g < u64::MAX {
        (g + 1) as u64
    } else {
        g
    }
}

impl ConfigWatcher {
    /// The snapshot held as current.
    pub closed spec fn spec_config(&self) -> AppConfig {
        self.config
    }

    /// How many reloads have been applied since startup.
    pub closed spec fn spec_generation(&self) -> u64 {
        self.generation
    }

    pub open spec fn wf(&self) -> bool {
        self.spec_config().wf()
    }

    /// Starts the store from the snapshot of the initial load.
    pub fn new(initial_config: AppConfig) -> (r: Self)
        requires
            initial_config.wf(),
        ensures
            r.spec_config() == initial_config,
            r.spec_generation() == 0,
            r.wf(),
    {
        ConfigWatcher { config: initial_config, generation: 0 }
    }

    /// The non-blocking read of the current snapshot.
    pub fn get_config(&self) -> (r: &AppConfig)
        ensures
            *r == self.spec_config(),
    {
        &self.config
    }

    /// Applies the outcome of re-running the load after a file change.
    ///
    /// A well-formed candidate replaces the current snapshot in full and is
    /// counted as one reload; a load error, or a candidate that breaks the
    /// snapshot invariant, changes nothing. Returns whether the candidate
    /// was installed.
    pub fn apply_reload(&mut self, loaded: Result<AppConfig, ConfigError>) -> (applied: bool)
        requires
            old(self).wf(),
        ensures
            final(self).wf(),
            applied <==> (loaded matches Ok(c) && c.wf()),
            applied ==> {
                &&& final(self).spec_config() == loaded->Ok_0
                &&& final(self).spec_generation() == next_generation(old(self).spec_generation())
            },
            !applied ==> *final(self) == *old(self),
    {
        match loaded {
            Ok(candidate) => {
                match candidate.validate() {
                    Ok(()) => {
                        self.config = candidate;
                        self.generation =
                            if self.generation < u64::MAX {
                                self.generation + 1
                            } else {
                                self.generation
                            };
                        true
                    },
                    Err(_) => false,
                }
            },
            Err(_) => false,
        }
    }

    /// Overwrites the rollout percentage of the current snapshot; the
    /// gatekeeper adjusts the rollout through this single entry point.
    /// Every other field of the snapshot is kept.
    pub fn set_rollout_percentage(&mut self, pct: u32)
        requires
            old(self).wf(),
            pct <= FULL_PERCENT,
        ensures
            final(self).wf(),
            final(self).spec_config().canary_rollout.rollout_percentage == pct,
            final(self).spec_config().canary_rollout == (crate::config::CanaryRolloutConfig {
                rollout_percentage: pct,
                ..old(self).spec_config().canary_rollout
            }),
            final(self).spec_config() == (crate::config::AppConfig {
                canary_rollout: final(self).spec_config().canary_rollout,
                ..old(self).spec_config()
            }),
            final(self).spec_generation() == old(self).spec_generation(),
    {
        self.config.canary_rollout.rollout_percentage = pct;
    }

    /// Takes a subscription to future reloads: the subscriber observes
    /// exactly the reloads applied after this generation.
    pub fn subscribe_to_reloads(&self) -> (r: u64)
        ensures
            r == self.spec_generation(),
    {
        self.generation
    }
}

} // verus!
