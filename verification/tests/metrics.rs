use fleet_gateway::clock::Timestamp;
use fleet_gateway::metrics::{ProviderMetrics, ProviderMetricsSnapshot, Ratio};

fn value(r: Ratio) -> f64 {
    r.numerator as f64 / r.denominator as f64
}

#[test]
fn record_and_snapshot() {
    let mut m = ProviderMetrics::new();
    m.record_success(100);
    m.record_success(200);
    m.record_failure("timeout");

    assert_eq!(m.total_requests, 3);
    assert_eq!(m.successful_requests, 2);

    let snap = ProviderMetricsSnapshot::from_metrics(&m);
    assert_eq!(snap.total_requests, 3);
    assert!((value(snap.avg_latency_ms) - 150.0).abs() < 0.01);
    assert!((value(snap.error_rate) - (1.0 / 3.0)).abs() < 0.01);
}

#[test]
fn nothing_counted() {
    let m = ProviderMetrics::default();
    assert_eq!(m.avg_latency_ms(), Ratio { numerator: 0, denominator: 1 });
    assert_eq!(m.error_rate(), Ratio { numerator: 0, denominator: 1 });
    let snap = ProviderMetricsSnapshot::from_metrics(&m);
    assert_eq!(snap.last_request_at, None);
    assert_eq!(snap.last_error, None);
}

#[test]
fn only_failures() {
    let mut m = ProviderMetrics::new();
    m.record_failure("first");
    m.record_failure("second");
    assert_eq!(m.error_rate(), Ratio { numerator: 2, denominator: 2 });
    assert_eq!(m.avg_latency_ms(), Ratio { numerator: 0, denominator: 1 });
    assert_eq!(m.last_error.as_deref(), Some("second"));
    assert!(m.last_request_at.is_some());
}

#[test]
fn snapshot_in_full() {
    let mut m = ProviderMetrics::new();
    m.record_success_at(40, Timestamp::new(1_431_648_000, 0).unwrap());
    m.record_failure_at("boom", Timestamp::new(1_431_648_001, 500_000_000).unwrap());
    let snap = ProviderMetricsSnapshot::from_metrics(&m);
    assert_eq!(snap.successful_requests, 1);
    assert_eq!(snap.failed_requests, 1);
    assert_eq!(snap.error_rate, Ratio { numerator: 1, denominator: 2 });
    assert_eq!(snap.avg_latency_ms, Ratio { numerator: 40, denominator: 1 });
    assert_eq!(snap.last_request_at.as_deref(), Some("2015-05-15T00:00:01.500+00:00"));
    assert_eq!(snap.last_error.as_deref(), Some("boom"));
}

#[test]
fn latencies_wrap_around() {
    let mut m = ProviderMetrics::new();
    m.record_success(u64::MAX as u128);
    m.record_success(3);
    assert_eq!(m.total_latency_ms, 2);
    m.record_success((1u128 << 64) + 5);
    assert_eq!(m.total_latency_ms, 7);
}

#[test]
fn full_counters_stay_full() {
    let mut m = ProviderMetrics::new();
    m.total_requests = u64::MAX;
    m.failed_requests = u64::MAX;
    m.record_failure("late");
    assert_eq!(m.total_requests, u64::MAX);
    assert_eq!(m.failed_requests, u64::MAX);
}
