//! Health endpoint replies.

use vstd::prelude::*;
use vstd::string::StringExecFns;

use crate::clock::utc_now_rfc3339;
use crate::config::AppConfig;

verus! {

/// The basic health reply.
#[derive(Debug)]
pub struct HealthResponse {
    pub status: String,
    pub service: String,
    pub version: String,
    pub timestamp: String,
}

/// The detailed health reply.
#[derive(Debug)]
pub struct DetailedHealthResponse {
    pub status: String,
    pub service: String,
    pub version: String,
    pub timestamp: String,
    pub config_loaded: bool,
    pub hot_reload_enabled: bool,
    pub server_config: ServerConfigInfo,
    pub upstream_services: UpstreamStatus,
}

/// The server part of the detailed health reply.
#[derive(Debug)]
pub struct ServerConfigInfo {
    pub host: String,
    pub port: u16,
    pub timeout_seconds: u64,
}

/// The upstream part of the detailed health reply.
#[derive(Debug)]
pub struct UpstreamStatus {
    pub status: String,
    pub note: String,
}

/// The basic health reply: always healthy while the process serves, under
/// the service's fixed name.
pub fn health(version: &str) -> (r: HealthResponse)
    ensures
        r.status@ == "healthy"@,
        r.service@ == "project-gateway"@,
        r.version@ == version@,
{
    HealthResponse {
        status: "healthy".to_owned(),
        service: "project-gateway".to_owned(),
        version: version.to_owned(),
        timestamp: utc_now_rfc3339(),
    }
}

/// The detailed health reply: the basic fields plus the served snapshot's
/// server settings.
pub fn health_detailed(config: &AppConfig, version: &str) -> (r: DetailedHealthResponse)
    ensures
        r.status@ == "healthy"@,
        r.service@ == "project-gateway"@,
        r.version@ == version@,
        r.config_loaded,
        r.hot_reload_enabled,
        r.server_config.host@ == config.server.host@,
        r.server_config.port == config.server.port,
        r.server_config.timeout_seconds == config.server.timeout_seconds,
        r.upstream_services.status@ == "checking"@,
        r.upstream_services.note@ == "Upstream health checks not yet implemented"@,
{
    DetailedHealthResponse {
        status: "healthy".to_owned(),
        service: "project-gateway".to_owned(),
        version: version.to_owned(),
        timestamp: utc_now_rfc3339(),
        config_loaded: true,
        hot_reload_enabled: true,
        server_config: ServerConfigInfo {
            host: String::from_str(config.server.host.as_str()),
            port: config.server.port,
            timeout_seconds: config.server.timeout_seconds,
        },
        upstream_services: UpstreamStatus {
            status: "checking".to_owned(),
            note: "Upstream health checks not yet implemented".to_owned(),
        },
    }
}

} // verus!
