use project_gateway::config::watcher::ConfigWatcher;
use project_gateway::config::{
    AppConfig, CanaryRolloutConfig, MetricsConfig, MirrorConfig, ServerConfig, TracingConfig,
};
use project_gateway::gatekeeper::{should_send_alert, Gatekeeper, RollbackReason};
use project_gateway::monitoring::{Backend, PerformanceMonitor, PerformanceValidation};

fn app_config(rollout_percentage: u32, step: u32, max_errors: u32) -> AppConfig {
    AppConfig {
        server: ServerConfig {
            host: "0.0.0.0".to_string(),
            port: 3000,
            timeout_seconds: 30,
        },
        metrics: MetricsConfig {
            enabled: true,
            port: 9090,
            path: "/metrics".to_string(),
        },
        tracing: TracingConfig {
            enabled: false,
            jaeger_endpoint: String::new(),
            service_name: "project-gateway".to_string(),
        },
        mirror: MirrorConfig {
            enabled: false,
            base_url: String::new(),
            timeout_ms: 5000,
            retry_failed: false,
            max_retries: 0,
        },
        canary_rollout: CanaryRolloutConfig {
            enabled: true,
            rollout_percentage,
            step,
            max_errors,
            monitor_latency_p99: true,
            monitor_memory_cpu: true,
            trigger_header: "x-canary".to_string(),
            success_window_seconds: 300,
            legacy_gateway_url: "http://legacy:8080".to_string(),
            webhook_url: "http://hooks.example/rollback".to_string(),
        },
        routes: Vec::new(),
    }
}

fn degraded_validation(error_rate: u32) -> PerformanceValidation {
    PerformanceValidation {
        latency_improvement_percent: 0,
        memory_improvement_percent: 0,
        cpu_improvement_percent: 0,
        error_rate_new: error_rate,
        error_rate_legacy: 0,
        meets_latency_target: false,
        meets_resource_target: false,
        meets_error_target: error_rate <= 50,
        overall_success: false,
    }
}

#[test]
fn rollback_trigger_on_error_rate() {
    // max_errors 1% (100), recorded error rate 5% (500), no prior rollback.
    let gk = Gatekeeper::new();
    let status = gk.check_health(3000, 100, &degraded_validation(500), 1000);
    assert!(!status.is_healthy);
    assert!(status.rollback_triggered);
    assert_eq!(
        status.rollback_reason,
        Some(RollbackReason::ErrorRateExceeded {
            error_rate: 500,
            max_errors: 100,
        })
    );
    assert_eq!(status.error_rate, 500);
    assert_eq!(status.current_rollout_percentage, 3000);
    assert_eq!(status.last_check, 1000);

    // The rollback lowers the percentage by exactly one step.
    let mut gk = Gatekeeper::new();
    let mut watcher = ConfigWatcher::new(app_config(3000, 500, 100));
    let reason = status.rollback_reason.unwrap();
    let alert = gk.trigger_rollback(&mut watcher, reason, 1000);
    assert_eq!(
        watcher.get_config().canary_rollout.rollout_percentage,
        2500
    );
    assert_eq!(alert.from_percentage, 3000);
    assert_eq!(alert.to_percentage, 2500);
    assert_eq!(alert.timestamp, 1000);
    assert_eq!(alert.reason, reason);
    // Only the rollout percentage moved.
    assert_eq!(watcher.get_config().canary_rollout.step, 500);
    assert_eq!(watcher.get_config().server.port, 3000);
}

#[test]
fn rollback_floors_at_one_percent() {
    let mut gk = Gatekeeper::new();
    let mut watcher = ConfigWatcher::new(app_config(200, 500, 100));
    gk.trigger_rollback(&mut watcher, RollbackReason::Manual, 0);
    assert_eq!(watcher.get_config().canary_rollout.rollout_percentage, 100);
}

#[test]
fn latency_degradation_triggers_rollback() {
    let gk = Gatekeeper::new();
    let mut v = degraded_validation(0);
    // Improvement of -15%: degradation 1500 is past the 10% limit.
    v.latency_improvement_percent = -1500;
    let status = gk.check_health(3000, 100, &v, 0);
    assert!(!status.is_healthy);
    assert_eq!(status.latency_degradation_percent, 1500);
    assert_eq!(
        status.rollback_reason,
        Some(RollbackReason::LatencyDegraded { degradation: 1500 })
    );
    // At exactly the limit the check still passes.
    v.latency_improvement_percent = -1000;
    let status = gk.check_health(3000, 100, &v, 0);
    assert!(status.is_healthy);
}

#[test]
fn cooldown_suppression_within_300_seconds() {
    let mut gk = Gatekeeper::new();
    let mut watcher = ConfigWatcher::new(app_config(3000, 500, 100));
    let monitor = PerformanceMonitor::new();

    // First degraded tick rolls back.
    let (status, alert) = {
        let status = gk.check_health(3000, 100, &degraded_validation(500), 1000);
        let alert = gk.trigger_rollback(&mut watcher, status.rollback_reason.unwrap(), 1000);
        (status, alert)
    };
    assert!(!status.is_healthy);
    assert_eq!(alert.to_percentage, 2500);

    // A second degraded check 200 seconds later reports healthy, no reason.
    let again = gk.check_health(2500, 100, &degraded_validation(500), 1200);
    assert!(again.is_healthy);
    assert!(!again.rollback_triggered);
    assert_eq!(again.rollback_reason, None);

    // And a degraded tick within the window changes nothing.
    let before = watcher.get_config().canary_rollout.rollout_percentage;
    let (tick_status, tick_alert) = gk.tick(&mut watcher, &monitor, 1200);
    assert!(tick_status.is_healthy);
    assert!(tick_alert.is_none());
    assert_eq!(
        watcher.get_config().canary_rollout.rollout_percentage,
        before
    );

    // Once the 300 seconds have elapsed, a degraded check bites again.
    let later = gk.check_health(2500, 100, &degraded_validation(500), 1300);
    assert!(!later.is_healthy);
}

#[test]
fn healthy_tick_changes_nothing() {
    let mut gk = Gatekeeper::new();
    let mut watcher = ConfigWatcher::new(app_config(3000, 500, 100));
    let monitor = PerformanceMonitor::new();
    // An empty monitor validates to the zeroed default, which is healthy.
    let (status, alert) = gk.tick(&mut watcher, &monitor, 50);
    assert!(status.is_healthy);
    assert!(alert.is_none());
    assert_eq!(watcher.get_config().canary_rollout.rollout_percentage, 3000);
}

#[test]
fn degraded_tick_rolls_back_once() {
    let mut gk = Gatekeeper::new();
    let mut watcher = ConfigWatcher::new(app_config(3000, 500, 100));
    let mut monitor = PerformanceMonitor::new();
    // Build a baseline, then degrade the new backend's error rate to 5%.
    for _ in 0..100 {
        monitor.record_request(Backend::New, 100, false);
        monitor.record_request(Backend::Legacy, 100, false);
    }
    let new_m = monitor.get_current_metrics(Backend::New, 0).unwrap();
    let legacy_m = monitor.get_current_metrics(Backend::Legacy, 0).unwrap();
    monitor.set_baseline(new_m, legacy_m);
    for _ in 0..100 {
        monitor.record_request(Backend::New, 100, true);
    }

    let (status, alert) = gk.tick(&mut watcher, &monitor, 1000);
    assert!(!status.is_healthy);
    let alert = alert.unwrap();
    assert_eq!(alert.from_percentage, 3000);
    assert_eq!(alert.to_percentage, 2500);
    assert_eq!(watcher.get_config().canary_rollout.rollout_percentage, 2500);

    // The follow-up tick inside the cooldown window is suppressed.
    let (second, second_alert) = gk.tick(&mut watcher, &monitor, 1100);
    assert!(second.is_healthy);
    assert!(second_alert.is_none());
    assert_eq!(watcher.get_config().canary_rollout.rollout_percentage, 2500);
}

#[test]
fn force_rollback_reuses_the_rollback_step() {
    let mut gk = Gatekeeper::new();
    let mut watcher = ConfigWatcher::new(app_config(5000, 1000, 100));
    let alert = gk.force_rollback(&mut watcher, RollbackReason::Manual, 42);
    assert_eq!(alert.reason, RollbackReason::Manual);
    assert_eq!(alert.from_percentage, 5000);
    assert_eq!(alert.to_percentage, 4000);
    assert_eq!(watcher.get_config().canary_rollout.rollout_percentage, 4000);
    // The manual rollback opens the cooldown window too.
    let status = gk.check_health(4000, 100, &degraded_validation(500), 100);
    assert!(status.is_healthy);
}

#[test]
fn rollout_advance_caps_at_100_percent() {
    let gk = Gatekeeper::new();
    let mut watcher = ConfigWatcher::new(app_config(9000, 500, 100));
    gk.advance_rollout(&mut watcher);
    assert_eq!(watcher.get_config().canary_rollout.rollout_percentage, 9500);
    gk.advance_rollout(&mut watcher);
    assert_eq!(watcher.get_config().canary_rollout.rollout_percentage, 10000);
    // At 100% further advances are no-ops.
    gk.advance_rollout(&mut watcher);
    assert_eq!(watcher.get_config().canary_rollout.rollout_percentage, 10000);
    gk.advance_rollout(&mut watcher);
    assert_eq!(watcher.get_config().canary_rollout.rollout_percentage, 10000);
}

#[test]
fn get_status_reads_the_live_snapshot() {
    let gk = Gatekeeper::new();
    let watcher = ConfigWatcher::new(app_config(3000, 500, 100));
    let monitor = PerformanceMonitor::new();
    let status = gk.get_status(&watcher, &monitor);
    assert!(status.is_healthy);
    assert_eq!(status.current_rollout_percentage, 3000);
    assert_eq!(status.error_rate, 0);
    assert!(!status.rollback_triggered);
}

#[test]
fn alert_only_to_http_urls() {
    assert!(should_send_alert("http://hooks.example/rollback"));
    assert!(should_send_alert("https://hooks.example/rollback"));
    assert!(!should_send_alert(""));
    assert!(!should_send_alert("htt"));
    assert!(!should_send_alert("ftp://hooks.example/rollback"));
}
