use scarab_client::nav_metrics::{
    NavMetrics, NavMetricsPlugin, TimingSamples, DEFAULT_REPORT_INTERVAL_SECS, MAX_TIMING_SAMPLES,
};

fn mean(sum: u128, count: usize) -> f64 {
    sum as f64 / count as f64
}

#[test]
fn test_metrics_creation() {
    let metrics = NavMetrics::default();
    assert_eq!(metrics.hints_generated, 0);
    assert_eq!(metrics.focus_switches, 0);
    assert_eq!(metrics.nav_errors, 0);
}

#[test]
fn test_record_hint_generation() {
    let mut metrics = NavMetrics::default();
    metrics.record_hint_generation(5, Some(12));
    assert_eq!(metrics.hints_generated, 5);
    metrics.record_hint_generation(3, None);
    assert_eq!(metrics.hints_generated, 8);
}

#[test]
fn test_record_focus_switch() {
    let mut metrics = NavMetrics::default();
    metrics.record_focus_switch();
    metrics.record_focus_switch();
    assert_eq!(metrics.focus_switches, 2);
}

#[test]
fn test_record_nav_input_latency() {
    let mut metrics = NavMetrics::default();
    metrics.record_nav_input_latency(150);
    let report = metrics.report();
    assert_eq!(report.input_latency_us.count, 1);
    assert_eq!(mean(report.input_latency_us.sum, report.input_latency_us.count), 150.0);
}

#[test]
fn test_record_error() {
    let mut metrics = NavMetrics::default();
    metrics.record_error();
    metrics.record_error();
    metrics.record_error();
    assert_eq!(metrics.nav_errors, 3);
}

#[test]
fn test_metrics_report() {
    let mut metrics = NavMetrics::default();
    metrics.record_hint_generation(10, Some(15));
    metrics.record_focus_switch();
    metrics.record_error();
    let report = metrics.report();
    assert_eq!(report.hints_generated, 10);
    assert_eq!(report.focus_switches, 1);
    assert_eq!(report.nav_errors, 1);
    assert_eq!(report.hint_generation_ms.count, 1);
    assert_eq!(report.hint_generation_ms.max, 15);
}

#[test]
fn test_metrics_reset() {
    let mut metrics = NavMetrics::default();
    metrics.record_hint_generation(5, Some(10));
    metrics.record_focus_switch();
    metrics.record_error();
    metrics.reset();
    assert_eq!(metrics.hints_generated, 0);
    assert_eq!(metrics.focus_switches, 0);
    assert_eq!(metrics.nav_errors, 0);
    assert_eq!(metrics.report().hint_generation_ms.count, 0);
}

#[test]
fn test_timing_samples_bounded() {
    let mut samples = TimingSamples::new();
    for i in 0..150u64 {
        samples.add_sample(i);
    }
    assert_eq!(samples.compute_stats().count, MAX_TIMING_SAMPLES);
}

#[test]
fn ring_keeps_the_newest_samples() {
    let mut samples = TimingSamples::new();
    for i in 0..150u64 {
        samples.add_sample(i);
    }
    let stats = samples.compute_stats();
    assert_eq!(stats.min, 50);
    assert_eq!(stats.max, 149);
}

#[test]
fn test_timing_stats_computation() {
    let mut samples = TimingSamples::new();
    for v in [10, 20, 30, 40, 50] {
        samples.add_sample(v);
    }
    let stats = samples.compute_stats();
    assert_eq!(stats.count, 5);
    assert_eq!(mean(stats.sum, stats.count), 30.0);
    assert_eq!(stats.min, 10);
    assert_eq!(stats.max, 50);
}

#[test]
fn percentiles_come_from_sorted_samples() {
    let mut samples = TimingSamples::new();
    for v in [50, 10, 40, 20, 30] {
        samples.add_sample(v);
    }
    let stats = samples.compute_stats();
    assert_eq!(stats.p50, 30);
    assert_eq!(stats.p95, 50);
    assert_eq!(stats.p99, 50);
}

#[test]
fn no_samples_give_zero_stats() {
    let stats = TimingSamples::new().compute_stats();
    assert_eq!((stats.count, stats.sum, stats.min, stats.max, stats.p50), (0, 0, 0, 0, 0));
}

#[test]
fn counters_wrap_like_atomics() {
    let mut metrics = NavMetrics::default();
    metrics.hints_generated = u64::MAX;
    metrics.record_hint_generation(2, None);
    assert_eq!(metrics.hints_generated, 1);
}

#[test]
fn report_is_due_after_the_interval() {
    let metrics = NavMetrics::new(30);
    assert!(!metrics.should_report(29));
    assert!(metrics.should_report(30));
}

#[test]
fn test_plugin_default_interval() {
    let plugin = NavMetricsPlugin::default();
    assert_eq!(plugin.report_interval_secs, DEFAULT_REPORT_INTERVAL_SECS);
}

#[test]
fn test_plugin_custom_interval() {
    let plugin = NavMetricsPlugin::with_interval(30);
    assert_eq!(plugin.report_interval_secs, 30);
}

#[test]
fn test_plugin_disabled() {
    let plugin = NavMetricsPlugin::disabled();
    assert_eq!(plugin.report_interval_secs, 0);
}
