use japanese_address_parser_api::health::{health, health_status};
use japanese_address_parser_api::metrics::MetricsRegistry;

#[test]
fn health_is_stamped_in_rfc3339() {
    let registry = MetricsRegistry::new(1_700_000_000);
    let report = health(&registry.snapshot(), "0.1.0", 1_700_000_075, 0).expect("a report");
    assert_eq!(report.status, "healthy");
    assert_eq!(report.service, "japanese-address-parser-api");
    assert_eq!(report.version, "0.1.0");
    assert_eq!(report.timestamp, "2023-11-14T22:14:35+00:00");
    assert_eq!(report.uptime_seconds, 75);
}

#[test]
fn health_at_the_epoch() {
    let registry = MetricsRegistry::new(5);
    let report = health(&registry.snapshot(), "1.2.3", 0, 120_000_000).expect("a report");
    assert_eq!(report.timestamp, "1970-01-01T00:00:00.120+00:00");
    assert_eq!(report.uptime_seconds, 0);
    assert_eq!(report.version, "1.2.3");
}

#[test]
fn moment_out_of_range_has_no_report() {
    let registry = MetricsRegistry::new(0);
    assert!(health(&registry.snapshot(), "0.1.0", u64::MAX, 0).is_none());
    assert!(health(&registry.snapshot(), "0.1.0", i64::MAX as u64, 0).is_none());
    assert!(health(&registry.snapshot(), "0.1.0", 10, 2_000_000_000).is_none());
}

#[test]
fn health_status_takes_the_timestamp_as_given() {
    let report = health_status(100, "9.9.9", "some time".to_string(), 160);
    assert_eq!(report.status, "healthy");
    assert_eq!(report.service, "japanese-address-parser-api");
    assert_eq!(report.version, "9.9.9");
    assert_eq!(report.timestamp, "some time");
    assert_eq!(report.uptime_seconds, 60);
    assert_eq!(health_status(100, "9.9.9", String::new(), 40).uptime_seconds, 0);
}
