//! The text exposition of the metrics, in the Prometheus format: one family
//! after the other, each with its `HELP` and `TYPE` lines, and a blank line
//! between two families.
//!
//! The gauges are computed in integers and written with a fixed number of
//! places: the success rate in hundredths of a percent, the total parse
//! time in milliseconds, the mean, least and greatest parse time in
//! microseconds.
use vstd::prelude::*;
use vstd::string::*;
use crate::decimal::{decimal, fixed_point, format_decimal, format_fixed_point, push_fixed_point};
use crate::histogram::{
    bucket_bounds, bucket_upper_bounds, cumulative, cumulative_counts, BUCKET_COUNT,
};
use crate::metrics::{MetricsRegistry, MetricsSnapshot, MetricsView};

verus! {

/// The `HELP` and `TYPE` lines that open a family.
pub open spec fn header(name: Seq<char>, help: Seq<char>, kind: Seq<char>) -> Seq<char> {
    "# HELP "@ + name + " "@ + help + "\n"@ + "# TYPE "@ + name + " "@ + kind + "\n"@
}

/// The line of one sample.
pub open spec fn sample(name: Seq<char>, labels: Seq<char>, value: Seq<char>) -> Seq<char> {
    name + labels + " "@ + value + "\n"@
}

/// The upper bound of a bucket in seconds, as its `le` label gives it.
pub open spec fn bucket_label(bucket: int) -> Seq<char> {
    if 0 <= bucket < bucket_bounds().len() {
        fixed_point(bucket_bounds()[bucket] as nat, 3)
    } else {
        "+Inf"@
    }
}

/// The line of one bucket of the histogram, with its cumulative count.
pub open spec fn bucket_line(bucket: int, cumulative: int) -> Seq<char> {
    sample(
        "japanese_address_parser_parse_duration_histogram_bucket"@,
        "{le=\""@ + bucket_label(bucket) + "\"}"@,
        decimal(cumulative as nat),
    )
}

/// The lines of the first `upto` buckets.
pub open spec fn bucket_lines(counts: Seq<u64>, upto: int) -> Seq<char>
    decreases upto,
{
    if upto <= 0 {
        Seq::empty()
    } else {
        bucket_lines(counts, upto - 1) + bucket_line(
            upto - 1,
            cumulative_counts(counts)[upto - 1],
        )
    }
}

/// The least parse time in microseconds; 0 before the first success.
pub open spec fn least_parse_micros(metrics: MetricsView) -> nat {
    match metrics.parse_time_min {
        Some(least) => least as nat * 1000,
        None => 0,
    }
}

/// The whole exposition of `metrics` at an uptime of `uptime` seconds.
pub open spec fn exposition(metrics: MetricsView, uptime: nat) -> Seq<char> {
    header(
        "japanese_address_parser_requests_total"@,
        "Total number of address parsing requests"@,
        "counter"@,
    ) + sample(
        "japanese_address_parser_requests_total"@,
        ""@,
        decimal(metrics.total_requests as nat),
    ) + "\n"@ + header(
        "japanese_address_parser_requests_by_method_total"@,
        "Total requests by HTTP method"@,
        "counter"@,
    ) + sample(
        "japanese_address_parser_requests_by_method_total"@,
        "{method=\"GET\"}"@,
        decimal(metrics.get_requests as nat),
    ) + sample(
        "japanese_address_parser_requests_by_method_total"@,
        "{method=\"POST\"}"@,
        decimal(metrics.post_requests as nat),
    ) + "\n"@ + header(
        "japanese_address_parser_requests_successful_total"@,
        "Total number of successful address parsing requests"@,
        "counter"@,
    ) + sample(
        "japanese_address_parser_requests_successful_total"@,
        ""@,
        decimal(metrics.successful_parses as nat),
    ) + "\n"@ + header(
        "japanese_address_parser_requests_failed_total"@,
        "Total number of failed address parsing requests"@,
        "counter"@,
    ) + sample(
        "japanese_address_parser_requests_failed_total"@,
        ""@,
        decimal(metrics.failed_parses as nat),
    ) + "\n"@ + header(
        "japanese_address_parser_timeout_errors_total"@,
        "Total number of timeout errors"@,
        "counter"@,
    ) + sample(
        "japanese_address_parser_timeout_errors_total"@,
        ""@,
        decimal(metrics.timeout_errors as nat),
    ) + "\n"@ + header(
        "japanese_address_parser_validation_errors_total"@,
        "Total number of validation errors"@,
        "counter"@,
    ) + sample(
        "japanese_address_parser_validation_errors_total"@,
        ""@,
        decimal(metrics.validation_errors as nat),
    ) + "\n"@ + header(
        "japanese_address_parser_success_rate_percent"@,
        "Success rate of address parsing requests as percentage"@,
        "gauge"@,
    ) + sample(
        "japanese_address_parser_success_rate_percent"@,
        ""@,
        fixed_point(metrics.success_rate_hundredths(), 2),
    ) + "\n"@ + header(
        "japanese_address_parser_parse_duration_seconds_total"@,
        "Total time spent parsing addresses in seconds"@,
        "counter"@,
    ) + sample(
        "japanese_address_parser_parse_duration_seconds_total"@,
        ""@,
        fixed_point(metrics.parse_time_total as nat, 3),
    ) + "\n"@ + header(
        "japanese_address_parser_parse_duration_seconds"@,
        "Average parsing duration in seconds"@,
        "gauge"@,
    ) + sample(
        "japanese_address_parser_parse_duration_seconds"@,
        "{stat=\"avg\"}"@,
        fixed_point(metrics.average_parse_micros(), 6),
    ) + sample(
        "japanese_address_parser_parse_duration_seconds"@,
        "{stat=\"min\"}"@,
        fixed_point(least_parse_micros(metrics), 6),
    ) + sample(
        "japanese_address_parser_parse_duration_seconds"@,
        "{stat=\"max\"}"@,
        fixed_point(metrics.parse_time_max as nat * 1000, 6),
    ) + "\n"@ + header(
        "japanese_address_parser_parse_duration_histogram"@,
        "Parse duration distribution"@,
        "histogram"@,
    ) + bucket_lines(metrics.histogram_buckets, BUCKET_COUNT as int) + "\n"@ + header(
        "japanese_address_parser_uptime_seconds"@,
        "Service uptime in seconds"@,
        "gauge"@,
    ) + sample("japanese_address_parser_uptime_seconds"@, ""@, decimal(uptime))
}

/// Appends the `HELP` and `TYPE` lines of a family.
fn push_header(out: &mut String, name: &str, help: &str, kind: &str)
    ensures
        final(out)@ == old(out)@ + header(name@, help@, kind@),
{
    out.append("# HELP ");
    out.append(name);
    out.append(" ");
    out.append(help);
    out.append("\n");
    out.append("# TYPE ");
    out.append(name);
    out.append(" ");
    out.append(kind);
    out.append("\n");
}

/// Appends the line of one sample.
fn push_sample(out: &mut String, name: &str, labels: &str, value: &str)
    ensures
        final(out)@ == old(out)@ + sample(name@, labels@, value@),
{
    out.append(name);
    out.append(labels);
    out.append(" ");
    out.append(value);
    out.append("\n");
}

/// Appends the line of one bucket of the histogram.
fn push_bucket_line(out: &mut String, bucket: usize, cumulative: u128)
    requires
        bucket < BUCKET_COUNT,
    ensures
        final(out)@ == old(out)@ + bucket_line(bucket as int, cumulative as int),
{
    let bounds = bucket_upper_bounds();
    let mut labels = String::from_str("{le=\"");
    if bucket < BUCKET_COUNT - 1 {
        push_fixed_point(&mut labels, bounds[bucket] as u128, 3);
    } else {
        labels.append("+Inf");
    }
    labels.append("\"}");
    let value = format_decimal(cumulative);
    push_sample(
        out,
        "japanese_address_parser_parse_duration_histogram_bucket",
        labels.as_str(),
        value.as_str(),
    );
}

/// Appends the lines of all the buckets of the histogram.
fn push_bucket_lines(out: &mut String, counts: &[u64; 8])
    ensures
        final(out)@ == old(out)@ + bucket_lines(counts@, BUCKET_COUNT as int),
{
    let sums = cumulative(counts);
    let mut bucket: usize = 0;
    while bucket < BUCKET_COUNT
        invariant
            bucket <= BUCKET_COUNT,
            out@ == old(out)@ + bucket_lines(counts@, bucket as int),
            forall|i: int|
                0 <= i < BUCKET_COUNT ==> #[trigger] sums@[i] == cumulative_counts(counts@)[i],
        decreases BUCKET_COUNT - bucket,
    {
        push_bucket_line(out, bucket, sums[bucket]);
        bucket = bucket + 1;
    }
}

/// The exposition of `snapshot`, with the uptime that the clock `now`
/// (seconds since the epoch) gives.
pub fn render_metrics(snapshot: &MetricsSnapshot, now: u64) -> (text: String)
    ensures
        text@ == exposition(snapshot@, snapshot@.uptime_seconds(now)),
{
    let total = format_decimal(snapshot.total_requests as u128);
    let gets = format_decimal(snapshot.get_requests as u128);
    let posts = format_decimal(snapshot.post_requests as u128);
    let successful = format_decimal(snapshot.successful_parses as u128);
    let failed = format_decimal(snapshot.failed_parses as u128);
    let timeouts = format_decimal(snapshot.timeout_errors as u128);
    let invalid = format_decimal(snapshot.validation_errors as u128);
    let rate = format_fixed_point(snapshot.success_rate_hundredths(), 2);
    let parse_total = format_fixed_point(snapshot.parse_time_total as u128, 3);
    let mean = format_fixed_point(snapshot.average_parse_micros(), 6);
    let least_micros: u128 = match snapshot.parse_time_min {
        Some(least) => least as u128 * 1000,
        None => 0,
    };
    let least = format_fixed_point(least_micros, 6);
    let greatest = format_fixed_point(snapshot.parse_time_max as u128 * 1000, 6);
    let uptime = format_decimal(snapshot.uptime_seconds(now) as u128);

    let mut out = String::new();
    push_header(
        &mut out,
        "japanese_address_parser_requests_total",
        "Total number of address parsing requests",
        "counter",
    );
    push_sample(&mut out, "japanese_address_parser_requests_total", "", total.as_str());
    out.append("\n");
    push_header(
        &mut out,
        "japanese_address_parser_requests_by_method_total",
        "Total requests by HTTP method",
        "counter",
    );
    push_sample(
        &mut out,
        "japanese_address_parser_requests_by_method_total",
        "{method=\"GET\"}",
        gets.as_str(),
    );
    push_sample(
        &mut out,
        "japanese_address_parser_requests_by_method_total",
        "{method=\"POST\"}",
        posts.as_str(),
    );
    out.append("\n");
    push_header(
        &mut out,
        "japanese_address_parser_requests_successful_total",
        "Total number of successful address parsing requests",
        "counter",
    );
    push_sample(
        &mut out,
        "japanese_address_parser_requests_successful_total",
        "",
        successful.as_str(),
    );
    out.append("\n");
    push_header(
        &mut out,
        "japanese_address_parser_requests_failed_total",
        "Total number of failed address parsing requests",
        "counter",
    );
    push_sample(&mut out, "japanese_address_parser_requests_failed_total", "", failed.as_str());
    out.append("\n");
    push_header(
        &mut out,
        "japanese_address_parser_timeout_errors_total",
        "Total number of timeout errors",
        "counter",
    );
    push_sample(&mut out, "japanese_address_parser_timeout_errors_total", "", timeouts.as_str());
    out.append("\n");
    push_header(
        &mut out,
        "japanese_address_parser_validation_errors_total",
        "Total number of validation errors",
        "counter",
    );
    push_sample(
        &mut out,
        "japanese_address_parser_validation_errors_total",
        "",
        invalid.as_str(),
    );
    out.append("\n");
    push_header(
        &mut out,
        "japanese_address_parser_success_rate_percent",
        "Success rate of address parsing requests as percentage",
        "gauge",
    );
    push_sample(&mut out, "japanese_address_parser_success_rate_percent", "", rate.as_str());
    out.append("\n");
    push_header(
        &mut out,
        "japanese_address_parser_parse_duration_seconds_total",
        "Total time spent parsing addresses in seconds",
        "counter",
    );
    push_sample(
        &mut out,
        "japanese_address_parser_parse_duration_seconds_total",
        "",
        parse_total.as_str(),
    );
    out.append("\n");
    push_header(
        &mut out,
        "japanese_address_parser_parse_duration_seconds",
        "Average parsing duration in seconds",
        "gauge",
    );
    push_sample(
        &mut out,
        "japanese_address_parser_parse_duration_seconds",
        "{stat=\"avg\"}",
        mean.as_str(),
    );
    push_sample(
        &mut out,
        "japanese_address_parser_parse_duration_seconds",
        "{stat=\"min\"}",
        least.as_str(),
    );
    push_sample(
        &mut out,
        "japanese_address_parser_parse_duration_seconds",
        "{stat=\"max\"}",
        greatest.as_str(),
    );
    out.append("\n");
    push_header(
        &mut out,
        "japanese_address_parser_parse_duration_histogram",
        "Parse duration distribution",
        "histogram",
    );
    push_bucket_lines(&mut out, &snapshot.histogram_buckets);
    out.append("\n");
    push_header(
        &mut out,
        "japanese_address_parser_uptime_seconds",
        "Service uptime in seconds",
        "gauge",
    );
    push_sample(&mut out, "japanese_address_parser_uptime_seconds", "", uptime.as_str());
    out
}

impl MetricsRegistry {
    /// The exposition of what the registry holds. The registry stays as it
    /// is.
    pub fn render(&self, now: u64) -> (text: String)
        ensures
            text@ == exposition(self@, self@.uptime_seconds(now)),
    {
        let snapshot = self.snapshot();
        render_metrics(&snapshot, now)
    }
}

/// The exposition is a function of what the registry holds and of the
/// uptime: rendered twice with no request in between, at one uptime, it
/// is the same text.
pub proof fn lemma_rendering_is_repeatable(
    first: MetricsView,
    second: MetricsView,
    now_first: u64,
    now_second: u64,
)
    requires
        first == second,
        first.uptime_seconds(now_first) == second.uptime_seconds(now_second),
    ensures
        exposition(first, first.uptime_seconds(now_first)) == exposition(
            second,
            second.uptime_seconds(now_second),
        ),
{
}

} // verus!
