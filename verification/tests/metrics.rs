use japanese_address_parser_api::histogram::{
    bucket_index, bucket_upper_bounds, cumulative, Histogram, BUCKET_COUNT,
};
use japanese_address_parser_api::metrics::{
    update_parse_time_metrics, Method, MetricsRegistry, Outcome,
};

#[test]
fn fresh_registry_holds_nothing() {
    let registry = MetricsRegistry::new(1_700_000_000);
    let s = registry.snapshot();
    assert_eq!(s.total_requests, 0);
    assert_eq!(s.get_requests, 0);
    assert_eq!(s.post_requests, 0);
    assert_eq!(s.successful_parses, 0);
    assert_eq!(s.failed_parses, 0);
    assert_eq!(s.timeout_errors, 0);
    assert_eq!(s.validation_errors, 0);
    assert_eq!(s.parse_time_total, 0);
    assert_eq!(s.parse_time_min, None);
    assert_eq!(s.parse_time_max, 0);
    assert_eq!(s.histogram_buckets, [0; 8]);
    assert_eq!(s.start_time, 1_700_000_000);
}

#[test]
fn requests_are_counted_by_method() {
    let mut registry = MetricsRegistry::new(0);
    let methods = [
        Method::Get,
        Method::Post,
        Method::Post,
        Method::Get,
        Method::Get,
        Method::Post,
        Method::Get,
    ];
    for method in methods {
        registry.record_request(method);
    }
    let s = registry.snapshot();
    assert_eq!(s.total_requests, 7);
    assert_eq!(s.get_requests, 4);
    assert_eq!(s.post_requests, 3);
    assert_eq!(s.get_requests + s.post_requests, s.total_requests);
    assert_eq!(s.successful_parses + s.failed_parses, 0);
}

#[test]
fn success_updates_the_parse_times() {
    let mut registry = MetricsRegistry::new(0);
    registry.record_request(Method::Get);
    registry.record_outcome(Outcome::Success(12));
    let s = registry.snapshot();
    assert_eq!(s.successful_parses, 1);
    assert_eq!(s.failed_parses, 0);
    assert_eq!(s.parse_time_total, 12);
    assert_eq!(s.parse_time_min, Some(12));
    assert_eq!(s.parse_time_max, 12);
    assert_eq!(s.histogram_buckets, [0, 0, 0, 1, 0, 0, 0, 0]);

    registry.record_request(Method::Post);
    registry.record_outcome(Outcome::Success(3));
    registry.record_request(Method::Post);
    registry.record_outcome(Outcome::Success(700));
    let s = registry.snapshot();
    assert_eq!(s.successful_parses, 3);
    assert_eq!(s.parse_time_total, 715);
    assert_eq!(s.parse_time_min, Some(3));
    assert_eq!(s.parse_time_max, 700);
    assert_eq!(s.histogram_buckets, [0, 1, 0, 1, 0, 0, 0, 1]);
    assert!(s.parse_time_min.unwrap() <= s.parse_time_max);
    assert_eq!(s.histogram_buckets.iter().sum::<u64>(), s.successful_parses);
}

#[test]
fn failures_leave_the_parse_times_alone() {
    let mut registry = MetricsRegistry::new(0);
    for _ in 0..4 {
        registry.record_request(Method::Get);
    }
    registry.record_outcome(Outcome::Success(40));
    let before = registry.snapshot();
    registry.record_outcome(Outcome::Timeout);
    registry.record_outcome(Outcome::ValidationError);
    registry.record_outcome(Outcome::ParseFailure);
    let s = registry.snapshot();
    assert_eq!(s.failed_parses, 3);
    assert_eq!(s.timeout_errors, 1);
    assert_eq!(s.validation_errors, 1);
    assert_eq!(s.successful_parses, 1);
    assert_eq!(s.parse_time_total, before.parse_time_total);
    assert_eq!(s.parse_time_min, before.parse_time_min);
    assert_eq!(s.parse_time_max, before.parse_time_max);
    assert_eq!(s.histogram_buckets, before.histogram_buckets);
    assert!(s.timeout_errors + s.validation_errors <= s.failed_parses);
    assert!(s.successful_parses + s.failed_parses <= s.total_requests);
}

#[test]
fn zero_latency_is_a_measurement() {
    let mut registry = MetricsRegistry::new(0);
    registry.record_request(Method::Get);
    registry.record_outcome(Outcome::Success(0));
    let s = registry.snapshot();
    assert_eq!(s.parse_time_min, Some(0));
    assert_eq!(s.parse_time_max, 0);
    assert_eq!(s.histogram_buckets, [1, 0, 0, 0, 0, 0, 0, 0]);
}

#[test]
fn update_parse_time_metrics_leaves_the_counters() {
    let mut registry = MetricsRegistry::new(9);
    update_parse_time_metrics(&mut registry, 7);
    update_parse_time_metrics(&mut registry, 99);
    update_parse_time_metrics(&mut registry, 5);
    let s = registry.snapshot();
    assert_eq!(s.total_requests, 0);
    assert_eq!(s.successful_parses, 0);
    assert_eq!(s.parse_time_total, 111);
    assert_eq!(s.parse_time_min, Some(5));
    assert_eq!(s.parse_time_max, 99);
    assert_eq!(s.histogram_buckets, [0, 0, 2, 0, 0, 1, 0, 0]);
    assert_eq!(s.start_time, 9);
}

#[test]
fn parse_time_total_wraps() {
    let mut registry = MetricsRegistry::new(0);
    update_parse_time_metrics(&mut registry, u64::MAX);
    update_parse_time_metrics(&mut registry, 2);
    let s = registry.snapshot();
    assert_eq!(s.parse_time_total, 1);
    assert_eq!(s.parse_time_min, Some(2));
    assert_eq!(s.parse_time_max, u64::MAX);
}

#[test]
fn buckets_follow_the_table() {
    assert_eq!(BUCKET_COUNT, 8);
    assert_eq!(bucket_upper_bounds(), [1, 5, 10, 25, 50, 100, 500]);
    let expected: [(u64, usize); 18] = [
        (0, 0),
        (1, 1),
        (4, 1),
        (5, 2),
        (9, 2),
        (10, 3),
        (24, 3),
        (25, 4),
        (49, 4),
        (50, 5),
        (99, 5),
        (100, 6),
        (499, 6),
        (500, 7),
        (501, 7),
        (30_000, 7),
        (u64::MAX - 1, 7),
        (u64::MAX, 7),
    ];
    for (latency, bucket) in expected {
        assert_eq!(bucket_index(latency), bucket, "latency {}", latency);
    }
}

#[test]
fn histogram_counts_one_bucket_per_observation() {
    let mut histogram = Histogram::new();
    assert_eq!(histogram.counts(), [0; 8]);
    for latency in [0, 0, 3, 7, 7, 7, 30, 60, 60, 250, 500, 9000] {
        histogram.observe(latency);
    }
    assert_eq!(histogram.counts(), [2, 1, 3, 0, 1, 2, 1, 2]);
}

#[test]
fn cumulative_counts_are_prefix_sums() {
    assert_eq!(cumulative(&[0; 8]), [0; 8]);
    assert_eq!(cumulative(&[2, 1, 3, 0, 1, 2, 1, 2]), [2, 3, 6, 6, 7, 9, 10, 12]);
    let sums = cumulative(&[u64::MAX; 8]);
    for (i, sum) in sums.iter().enumerate() {
        assert_eq!(*sum, (i as u128 + 1) * u64::MAX as u128);
    }
    for pair in sums.windows(2) {
        assert!(pair[0] <= pair[1]);
    }
}

#[test]
fn derived_quantities() {
    let mut registry = MetricsRegistry::new(100);
    let s = registry.snapshot();
    assert_eq!(s.average_parse_micros(), 0);
    assert_eq!(s.success_rate_hundredths(), 0);
    assert_eq!(s.uptime_seconds(160), 60);
    assert_eq!(s.uptime_seconds(100), 0);
    assert_eq!(s.uptime_seconds(99), 0);

    for _ in 0..3 {
        registry.record_request(Method::Get);
    }
    registry.record_outcome(Outcome::Success(10));
    registry.record_outcome(Outcome::Success(11));
    registry.record_outcome(Outcome::Timeout);
    let s = registry.snapshot();
    // 21 ms over 2 parses: 10.5 ms.
    assert_eq!(s.average_parse_micros(), 10_500);
    // 2 of 3: 66.666..%, rounded to 66.67.
    assert_eq!(s.success_rate_hundredths(), 6667);
}

#[test]
fn a_mix_of_requests_keeps_the_invariants() {
    let mut registry = MetricsRegistry::new(0);
    let outcomes = [
        Outcome::Success(1),
        Outcome::ValidationError,
        Outcome::Success(450),
        Outcome::Timeout,
        Outcome::ParseFailure,
        Outcome::Success(0),
        Outcome::Success(77),
        Outcome::ValidationError,
    ];
    for (i, outcome) in outcomes.iter().enumerate() {
        registry.record_request(if i % 3 == 0 { Method::Post } else { Method::Get });
        let s = registry.snapshot();
        assert!(s.successful_parses + s.failed_parses < s.total_requests);
        registry.record_outcome(*outcome);
        let s = registry.snapshot();
        assert_eq!(s.total_requests, i as u64 + 1);
        assert_eq!(s.get_requests + s.post_requests, s.total_requests);
        assert_eq!(s.successful_parses + s.failed_parses, s.total_requests);
        assert!(s.timeout_errors + s.validation_errors <= s.failed_parses);
        assert_eq!(s.histogram_buckets.iter().sum::<u64>(), s.successful_parses);
        if s.successful_parses > 0 {
            assert!(s.parse_time_min.unwrap() <= s.parse_time_max);
        } else {
            assert_eq!(s.parse_time_min, None);
        }
    }
    let s = registry.snapshot();
    assert_eq!(s.successful_parses, 4);
    assert_eq!(s.failed_parses, 4);
    assert_eq!(s.timeout_errors, 1);
    assert_eq!(s.validation_errors, 2);
    assert_eq!(s.parse_time_total, 528);
    assert_eq!(s.parse_time_min, Some(0));
    assert_eq!(s.parse_time_max, 450);
    assert_eq!(s.histogram_buckets, [1, 1, 0, 0, 0, 1, 1, 0]);
}
