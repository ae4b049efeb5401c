//! Traffic-control plane of a canary gateway.
//!
//! The crate holds the verified core of a gateway that migrates traffic from a
//! legacy backend to a new one: the per-request routing decision, the rolling
//! performance statistics, the shadow-mirror bookkeeping, and the gatekeeper
//! control loop that rolls the migration back when the new backend degrades.
//! All percentage-like quantities are carried as integers in hundredths of a
//! percent, so that `10000` stands for 100%.

mod clock;
pub mod config;
pub mod gatekeeper;
pub mod metrics;
pub mod middleware;
pub mod monitoring;
pub mod routes;
