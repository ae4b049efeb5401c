use project_gateway::monitoring::{
    validate_from, Backend, PerformanceBaseline, PerformanceMetrics, PerformanceMonitor,
    PerformanceValidation,
};

fn metrics(p99: u64, error_rate: u32, cpu: u64, memory: u64) -> PerformanceMetrics {
    PerformanceMetrics {
        p99_latency_ms: p99,
        p95_latency_ms: p99,
        p50_latency_ms: p99,
        avg_latency_ms: p99,
        request_count: 100,
        error_rate,
        cpu_usage_percent: cpu,
        memory_usage_mb: memory,
        timestamp: 0,
    }
}

#[test]
fn percentile_correctness_fixed_window() {
    // The fixed window [10, 20, ..., 1000]: p50 is the sample at sorted
    // index 50, p95 at 95, p99 at 99.
    let mut monitor = PerformanceMonitor::new();
    for i in 1..=100u64 {
        monitor.record_request(Backend::New, i * 10, false);
    }
    let m = monitor.get_current_metrics(Backend::New, 7).unwrap();
    assert_eq!(m.p50_latency_ms, 510);
    assert_eq!(m.p95_latency_ms, 960);
    assert_eq!(m.p99_latency_ms, 1000);
    assert_eq!(m.avg_latency_ms, 505);
    assert_eq!(m.request_count, 100);
    assert_eq!(m.error_rate, 0);
    assert_eq!(m.timestamp, 7);
}

#[test]
fn percentiles_pick_sorted_indices_not_arrival_order() {
    let mut monitor = PerformanceMonitor::new();
    for latency in [900u64, 20, 500, 10, 1000] {
        monitor.record_request(Backend::Legacy, latency, false);
    }
    let m = monitor.get_current_metrics(Backend::Legacy, 0).unwrap();
    // Sorted window: [10, 20, 500, 900, 1000]; index 5*99/100 = 4, 5/2 = 2.
    assert_eq!(m.p99_latency_ms, 1000);
    assert_eq!(m.p95_latency_ms, 1000);
    assert_eq!(m.p50_latency_ms, 500);
    assert_eq!(m.avg_latency_ms, (10 + 20 + 500 + 900 + 1000) / 5);
}

#[test]
fn empty_window_yields_none() {
    let monitor = PerformanceMonitor::new();
    assert!(monitor.get_current_metrics(Backend::New, 0).is_none());
    assert!(monitor.get_current_metrics(Backend::Legacy, 0).is_none());
}

#[test]
fn windows_are_kept_apart() {
    let mut monitor = PerformanceMonitor::new();
    monitor.record_request(Backend::New, 5, false);
    assert!(monitor.get_current_metrics(Backend::Legacy, 0).is_none());
    let m = monitor.get_current_metrics(Backend::New, 0).unwrap();
    assert_eq!(m.p50_latency_ms, 5);
}

#[test]
fn window_evicts_oldest_beyond_capacity() {
    let mut monitor = PerformanceMonitor::new();
    monitor.record_request(Backend::New, 999_999, false);
    for _ in 0..1000 {
        monitor.record_request(Backend::New, 7, false);
    }
    let m = monitor.get_current_metrics(Backend::New, 0).unwrap();
    // The outlier was the oldest of 1001 samples and has been evicted.
    assert_eq!(m.p99_latency_ms, 7);
    assert_eq!(m.p50_latency_ms, 7);
    assert_eq!(m.avg_latency_ms, 7);
    assert_eq!(m.request_count, 1001);
}

#[test]
fn error_rate_in_hundredths_of_percent() {
    let mut monitor = PerformanceMonitor::new();
    for i in 0..100u64 {
        monitor.record_request(Backend::New, 10, i < 5);
    }
    let m = monitor.get_current_metrics(Backend::New, 0).unwrap();
    // 5 errors out of 100 requests: 5% = 500 hundredths of a percent.
    assert_eq!(m.error_rate, 500);
}

#[test]
fn baseline_records_improvement_factor() {
    let mut monitor = PerformanceMonitor::new();
    assert!(monitor.get_baseline().is_none());
    monitor.set_baseline(metrics(80, 0, 15, 128), metrics(200, 0, 40, 512));
    let b = monitor.get_baseline().unwrap();
    // legacy p99 / new p99 = 200/80 = 2.5, in hundredths of a percent.
    assert_eq!(b.improvement_factor, 25000);
    assert_eq!(b.new_metrics.p99_latency_ms, 80);
    assert_eq!(b.legacy_metrics.p99_latency_ms, 200);
}

#[test]
fn baseline_factor_guards_division_by_zero() {
    let mut monitor = PerformanceMonitor::new();
    monitor.set_baseline(metrics(0, 0, 15, 128), metrics(200, 0, 40, 512));
    assert_eq!(monitor.get_baseline().unwrap().improvement_factor, 10000);
    monitor.set_baseline(metrics(80, 0, 15, 128), metrics(0, 0, 40, 512));
    assert_eq!(monitor.get_baseline().unwrap().improvement_factor, 10000);
}

#[test]
fn validation_against_baseline() {
    let baseline = PerformanceBaseline {
        new_metrics: metrics(80, 0, 15, 128),
        legacy_metrics: metrics(200, 0, 60, 512),
        improvement_factor: 25000,
    };
    let current_new = metrics(90, 20, 15, 128);
    let current_legacy = metrics(210, 100, 60, 512);
    let v = validate_from(Some(current_new), Some(current_legacy), Some(baseline));
    // Latency improvement: (200 - 90) * 10000 / 200 = 5500 (55%).
    assert_eq!(v.latency_improvement_percent, 5500);
    // Memory improvement: (512 - 128) * 10000 / 512 = 7500 (75%).
    assert_eq!(v.memory_improvement_percent, 7500);
    // CPU improvement: (60 - 15) * 10000 / 60 = 7500 (75%).
    assert_eq!(v.cpu_improvement_percent, 7500);
    assert_eq!(v.error_rate_new, 20);
    assert_eq!(v.error_rate_legacy, 100);
    assert!(v.meets_latency_target);
    assert!(v.meets_resource_target);
    assert!(v.meets_error_target);
    assert!(v.overall_success);
}

#[test]
fn validation_reports_degradation_as_negative() {
    let baseline = PerformanceBaseline {
        new_metrics: metrics(80, 0, 15, 128),
        legacy_metrics: metrics(100, 0, 15, 128),
        improvement_factor: 12500,
    };
    let v = validate_from(
        Some(metrics(150, 0, 15, 128)),
        Some(metrics(100, 0, 15, 128)),
        Some(baseline),
    );
    // (150 - 100) * 10000 / 100 = 5000, degraded, so -5000.
    assert_eq!(v.latency_improvement_percent, -5000);
    assert!(!v.meets_latency_target);
    assert!(!v.overall_success);
}

#[test]
fn validation_gates_fail_one_by_one() {
    let baseline = PerformanceBaseline {
        new_metrics: metrics(80, 0, 15, 128),
        legacy_metrics: metrics(200, 0, 60, 512),
        improvement_factor: 25000,
    };
    // Error rate above 0.5% (50 hundredths) fails the error gate alone.
    let v = validate_from(
        Some(metrics(90, 51, 15, 128)),
        Some(metrics(210, 0, 60, 512)),
        Some(baseline),
    );
    assert!(v.meets_latency_target);
    assert!(v.meets_resource_target);
    assert!(!v.meets_error_target);
    assert!(!v.overall_success);
}

#[test]
fn validation_defaults_while_anything_is_missing() {
    let m = metrics(80, 0, 15, 128);
    let b = PerformanceBaseline {
        new_metrics: m,
        legacy_metrics: m,
        improvement_factor: 10000,
    };
    let expected = PerformanceValidation::default();
    assert_eq!(validate_from(None, Some(m), Some(b)), expected);
    assert_eq!(validate_from(Some(m), None, Some(b)), expected);
    assert_eq!(validate_from(Some(m), Some(m), None), expected);
    assert!(expected.meets_error_target);
    assert!(!expected.overall_success);
    assert_eq!(expected.latency_improvement_percent, 0);
}

#[test]
fn validate_performance_end_to_end() {
    let mut monitor = PerformanceMonitor::new();
    // Without both windows and a baseline: the zeroed default.
    assert_eq!(
        monitor.validate_performance(0),
        PerformanceValidation::default()
    );
    for _ in 0..10 {
        monitor.record_request(Backend::New, 90, false);
        monitor.record_request(Backend::Legacy, 210, false);
    }
    let new_m = monitor.get_current_metrics(Backend::New, 1).unwrap();
    let legacy_m = monitor.get_current_metrics(Backend::Legacy, 1).unwrap();
    monitor.set_baseline(new_m, legacy_m);
    let v = monitor.validate_performance(2);
    // (210 - 90) * 10000 / 210 = 5714 against the recorded legacy baseline.
    assert_eq!(v.latency_improvement_percent, 5714);
    assert!(v.meets_latency_target);
    // The mocked cpu/memory readings equal the baseline: no improvement.
    assert_eq!(v.cpu_improvement_percent, 0);
    assert_eq!(v.memory_improvement_percent, 0);
    assert!(!v.meets_resource_target);
    assert!(!v.overall_success);
}
