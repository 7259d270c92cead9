use japanese_address_parser_api::exposition::render_metrics;
use japanese_address_parser_api::metrics::{Method, MetricsRegistry, Outcome};

fn expected(values: [&str; 22]) -> String {
    let p = "japanese_address_parser_";
    let mut lines: Vec<String> = Vec::new();
    lines.push(format!("# HELP {p}requests_total Total number of address parsing requests"));
    lines.push(format!("# TYPE {p}requests_total counter"));
    lines.push(format!("{p}requests_total {}", values[0]));
    lines.push(String::new());
    lines.push(format!("# HELP {p}requests_by_method_total Total requests by HTTP method"));
    lines.push(format!("# TYPE {p}requests_by_method_total counter"));
    lines.push(format!("{p}requests_by_method_total{{method=\"GET\"}} {}", values[1]));
    lines.push(format!("{p}requests_by_method_total{{method=\"POST\"}} {}", values[2]));
    lines.push(String::new());
    lines.push(format!(
        "# HELP {p}requests_successful_total Total number of successful address parsing requests"
    ));
    lines.push(format!("# TYPE {p}requests_successful_total counter"));
    lines.push(format!("{p}requests_successful_total {}", values[3]));
    lines.push(String::new());
    lines.push(format!(
        "# HELP {p}requests_failed_total Total number of failed address parsing requests"
    ));
    lines.push(format!("# TYPE {p}requests_failed_total counter"));
    lines.push(format!("{p}requests_failed_total {}", values[4]));
    lines.push(String::new());
    lines.push(format!("# HELP {p}timeout_errors_total Total number of timeout errors"));
    lines.push(format!("# TYPE {p}timeout_errors_total counter"));
    lines.push(format!("{p}timeout_errors_total {}", values[5]));
    lines.push(String::new());
    lines.push(format!("# HELP {p}validation_errors_total Total number of validation errors"));
    lines.push(format!("# TYPE {p}validation_errors_total counter"));
    lines.push(format!("{p}validation_errors_total {}", values[6]));
    lines.push(String::new());
    lines.push(format!(
        "# HELP {p}success_rate_percent Success rate of address parsing requests as percentage"
    ));
    lines.push(format!("# TYPE {p}success_rate_percent gauge"));
    lines.push(format!("{p}success_rate_percent {}", values[7]));
    lines.push(String::new());
    lines.push(format!(
        "# HELP {p}parse_duration_seconds_total Total time spent parsing addresses in seconds"
    ));
    lines.push(format!("# TYPE {p}parse_duration_seconds_total counter"));
    lines.push(format!("{p}parse_duration_seconds_total {}", values[8]));
    lines.push(String::new());
    lines.push(format!("# HELP {p}parse_duration_seconds Average parsing duration in seconds"));
    lines.push(format!("# TYPE {p}parse_duration_seconds gauge"));
    lines.push(format!("{p}parse_duration_seconds{{stat=\"avg\"}} {}", values[9]));
    lines.push(format!("{p}parse_duration_seconds{{stat=\"min\"}} {}", values[10]));
    lines.push(format!("{p}parse_duration_seconds{{stat=\"max\"}} {}", values[11]));
    lines.push(String::new());
    lines.push(format!("# HELP {p}parse_duration_histogram Parse duration distribution"));
    lines.push(format!("# TYPE {p}parse_duration_histogram histogram"));
    let bounds = ["0.001", "0.005", "0.010", "0.025", "0.050", "0.100", "0.500", "+Inf"];
    for (i, bound) in bounds.iter().enumerate() {
        lines.push(format!(
            "{p}parse_duration_histogram_bucket{{le=\"{}\"}} {}",
            bound,
            values[12 + i]
        ));
    }
    lines.push(String::new());
    lines.push(format!("# HELP {p}uptime_seconds Service uptime in seconds"));
    lines.push(format!("# TYPE {p}uptime_seconds gauge"));
    lines.push(format!("{p}uptime_seconds {}", values[20]));
    let mut text = lines.join("\n");
    text.push_str(values[21]);
    text
}

#[test]
fn fresh_registry_renders_zeros() {
    let registry = MetricsRegistry::new(1000);
    let text = registry.render(1005);
    assert_eq!(
        text,
        expected([
            "0", "0", "0", "0", "0", "0", "0", "0.00", "0.000", "0.000000", "0.000000",
            "0.000000", "0", "0", "0", "0", "0", "0", "0", "0", "5", "\n",
        ])
    );
    assert!(text.starts_with(
        "# HELP japanese_address_parser_requests_total Total number of address parsing requests\n\
         # TYPE japanese_address_parser_requests_total counter\n\
         japanese_address_parser_requests_total 0\n\n"
    ));
    assert!(text.ends_with("japanese_address_parser_uptime_seconds 5\n"));
}

#[test]
fn registry_renders_what_it_holds() {
    let mut registry = MetricsRegistry::new(50);
    for i in 0..6 {
        registry.record_request(if i < 4 { Method::Get } else { Method::Post });
    }
    registry.record_outcome(Outcome::Success(3));
    registry.record_outcome(Outcome::Success(12));
    registry.record_outcome(Outcome::Success(12));
    registry.record_outcome(Outcome::Success(1600));
    registry.record_outcome(Outcome::Timeout);
    registry.record_outcome(Outcome::ValidationError);
    let text = render_metrics(&registry.snapshot(), 3650);
    assert_eq!(
        text,
        expected([
            "6", "4", "2", "4", "2", "1", "1", "66.67", "1.627", "0.406750", "0.003000",
            "1.600000", "0", "1", "1", "3", "3", "3", "3", "4", "3600", "\n",
        ])
    );
}

#[test]
fn rendering_twice_gives_the_same_text() {
    let mut registry = MetricsRegistry::new(10);
    registry.record_request(Method::Get);
    registry.record_outcome(Outcome::Success(42));
    let before = registry.snapshot();
    let first = registry.render(20);
    let second = registry.render(20);
    assert_eq!(first, second);
    let after = registry.snapshot();
    assert_eq!(before.total_requests, after.total_requests);
    assert_eq!(before.successful_parses, after.successful_parses);
    assert_eq!(before.parse_time_total, after.parse_time_total);
    assert_eq!(before.histogram_buckets, after.histogram_buckets);
}

#[test]
fn clock_before_the_start_renders_no_uptime() {
    let registry = MetricsRegistry::new(1000);
    assert!(registry.render(999).ends_with("japanese_address_parser_uptime_seconds 0\n"));
}

#[test]
fn last_bucket_is_the_sum_of_all() {
    let mut registry = MetricsRegistry::new(0);
    for latency in [0, 2, 700, 900] {
        registry.record_request(Method::Get);
        registry.record_outcome(Outcome::Success(latency));
    }
    registry.record_request(Method::Get);
    registry.record_outcome(Outcome::Timeout);
    let text = registry.render(0);
    assert!(text.contains("japanese_address_parser_parse_duration_histogram_bucket{le=\"0.500\"} 2\n"));
    assert!(text.contains("japanese_address_parser_parse_duration_histogram_bucket{le=\"+Inf\"} 4\n"));
    assert!(text.contains("japanese_address_parser_requests_total 5\n"));
}
