use project_gateway::config::{
    AppConfig, CanaryRolloutConfig, MetricsConfig, MirrorConfig, ServerConfig, TracingConfig,
};
use project_gateway::routes::health::{health, health_detailed};
use project_gateway::routes::mirror_test_response;
use project_gateway::routes::users::{create_user, list_users, CreateUserRequest, UserError};

fn app_config() -> AppConfig {
    AppConfig {
        server: ServerConfig {
            host: "127.0.0.1".to_string(),
            port: 3000,
            timeout_seconds: 30,
        },
        metrics: MetricsConfig {
            enabled: true,
            port: 9090,
            path: "/metrics".to_string(),
        },
        tracing: TracingConfig {
            enabled: false,
            jaeger_endpoint: String::new(),
            service_name: "project-gateway".to_string(),
        },
        mirror: MirrorConfig {
            enabled: false,
            base_url: String::new(),
            timeout_ms: 5000,
            retry_failed: false,
            max_retries: 0,
        },
        canary_rollout: CanaryRolloutConfig {
            enabled: false,
            rollout_percentage: 0,
            step: 100,
            max_errors: 100,
            monitor_latency_p99: false,
            monitor_memory_cpu: false,
            trigger_header: "x-canary".to_string(),
            success_window_seconds: 300,
            legacy_gateway_url: String::new(),
            webhook_url: String::new(),
        },
        routes: Vec::new(),
    }
}

#[test]
fn test_health_endpoint() {
    let body = health("0.1.0");
    assert_eq!(body.status, "healthy");
    assert_eq!(body.service, "project-gateway");
    assert_eq!(body.version, "0.1.0");
}

#[test]
fn test_api_health_endpoint() {
    let config = app_config();
    let body = health_detailed(&config, "0.1.0");
    assert_eq!(body.status, "healthy");
    assert_eq!(body.service, "project-gateway");
    assert!(body.config_loaded);
    assert!(body.hot_reload_enabled);
    assert_eq!(body.server_config.host, "127.0.0.1");
    assert_eq!(body.server_config.port, 3000);
    assert_eq!(body.server_config.timeout_seconds, 30);
    assert_eq!(body.upstream_services.status, "checking");
}

#[test]
fn test_users_list_endpoint() {
    let body = list_users();
    assert_eq!(body.users.len(), 2);
    assert_eq!(body.total, 2);
    assert_eq!(body.page, 1);
    assert_eq!(body.per_page, 10);
    assert_eq!(body.users[0].username, "admin");
    assert_eq!(body.users[1].username, "developer");
    assert!(body.users.iter().all(|u| u.active));
    // Fresh identifiers for each record.
    assert_ne!(body.users[0].id, body.users[1].id);
}

#[test]
fn create_user_accepts_a_full_payload() {
    let reply = create_user(CreateUserRequest {
        username: "alice".to_string(),
        email: "alice@gateway.internal".to_string(),
    })
    .unwrap();
    assert_eq!(reply.user.username, "alice");
    assert_eq!(reply.user.email, "alice@gateway.internal");
    assert!(reply.user.active);
    assert_eq!(reply.message, "User created successfully");
}

#[test]
fn create_user_rejects_missing_values() {
    let missing_name = create_user(CreateUserRequest {
        username: String::new(),
        email: "a@b".to_string(),
    });
    assert_eq!(missing_name.unwrap_err(), UserError::InvalidRequest);
    let missing_email = create_user(CreateUserRequest {
        username: "alice".to_string(),
        email: String::new(),
    });
    let err = missing_email.unwrap_err();
    assert_eq!(err.status_code(), 400);
}

#[test]
fn mirror_test_reply_is_fixed() {
    let body = mirror_test_response();
    assert_eq!(body.message, "Mirror test endpoint");
    assert_eq!(
        body.note,
        "This request should be mirrored if mirror mode is enabled"
    );
}
