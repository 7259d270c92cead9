//! The metrics registry: request and outcome counters, the aggregates of
//! the parse time of successful parses, and the latency histogram.
//!
//! The registry is a plain value that is updated through `&mut`. A service
//! that shares it between requests keeps it behind a lock. The counters
//! wrap to 0 after `u64::MAX`, as an atomic counter does.
use vstd::prelude::*;
use crate::decimal::{round_ratio, rounded_ratio};
use crate::histogram::{
    bucket_bounds, bucket_for, bucket_sum, lemma_bucket_of_is_first_greater,
    lemma_counter_at_most_sum, lemma_observed_sum, lemma_zero_sum, observed, Histogram,
    BUCKET_COUNT,
};

verus! {

/// The HTTP method through which a parse request arrived.
#[derive(Clone, Copy, Debug, PartialEq, Eq, Structural)]
pub enum Method {
    Get,
    Post,
}

/// How a request ended.
#[derive(Clone, Copy, Debug, PartialEq, Eq, Structural)]
pub enum Outcome {
    /// The address was parsed, in so many milliseconds.
    Success(u64),
    /// The parser did not answer before the deadline.
    Timeout,
    /// The address was missing or broke a rule.
    ValidationError,
    /// The parser answered that it could not parse the address.
    ParseFailure,
}

/// What the registry holds, as a mathematical value.
pub ghost struct MetricsView {
    pub total_requests: u64,
    pub get_requests: u64,
    pub post_requests: u64,
    pub successful_parses: u64,
    pub failed_parses: u64,
    pub timeout_errors: u64,
    pub validation_errors: u64,
    /// The sum of the parse times of the successful parses, in milliseconds.
    pub parse_time_total: u64,
    /// The least parse time of a successful parse; `None` before the first.
    pub parse_time_min: Option<u64>,
    /// The greatest parse time of a successful parse; 0 before the first.
    pub parse_time_max: u64,
    /// One counter per bucket of the latency histogram.
    pub histogram_buckets: Seq<u64>,
    /// When the registry was made, in seconds since the epoch.
    pub start_time: u64,
}

impl MetricsView {
    /// A registry that has seen no request.
    pub open spec fn fresh(start_time: u64) -> MetricsView {
        MetricsView {
            total_requests: 0,
            get_requests: 0,
            post_requests: 0,
            successful_parses: 0,
            failed_parses: 0,
            timeout_errors: 0,
            validation_errors: 0,
            parse_time_total: 0,
            parse_time_min: None,
            parse_time_max: 0,
            histogram_buckets: Seq::new(BUCKET_COUNT as nat, |i: int| 0u64),
            start_time,
        }
    }

    /// The registry after a request has come in through `method`.
    pub open spec fn with_request(self, method: Method) -> MetricsView {
        match method {
            Method::Get => MetricsView {
                total_requests: self.total_requests.wrapping_add(1),
                get_requests: self.get_requests.wrapping_add(1),
                ..self
            },
            Method::Post => MetricsView {
                total_requests: self.total_requests.wrapping_add(1),
                post_requests: self.post_requests.wrapping_add(1),
                ..self
            },
        }
    }

    /// The registry after the parse time of one successful parse has gone
    /// into the sum, the minimum, the maximum and the histogram.
    pub open spec fn with_parse_time(self, duration_ms: u64) -> MetricsView {
        MetricsView {
            parse_time_total: self.parse_time_total.wrapping_add(duration_ms),
            parse_time_min: match self.parse_time_min {
                Some(least) if least <= duration_ms => Some(least),
                _ => Some(duration_ms),
            },
            parse_time_max: if self.parse_time_max < duration_ms {
                duration_ms
            } else {
                self.parse_time_max
            },
            histogram_buckets: observed(self.histogram_buckets, duration_ms),
            ..self
        }
    }

    /// The registry after a request has ended in `outcome`. Only a success
    /// touches the parse times.
    pub open spec fn with_outcome(self, outcome: Outcome) -> MetricsView {
        match outcome {
            Outcome::Success(duration_ms) => MetricsView {
                successful_parses: self.successful_parses.wrapping_add(1),
                ..self
            }.with_parse_time(duration_ms),
            Outcome::Timeout => MetricsView {
                failed_parses: self.failed_parses.wrapping_add(1),
                timeout_errors: self.timeout_errors.wrapping_add(1),
                ..self
            },
            Outcome::ValidationError => MetricsView {
                failed_parses: self.failed_parses.wrapping_add(1),
                validation_errors: self.validation_errors.wrapping_add(1),
                ..self
            },
            Outcome::ParseFailure => MetricsView {
                failed_parses: self.failed_parses.wrapping_add(1),
                ..self
            },
        }
    }

    /// The requests that have come in and not yet ended.
    pub open spec fn in_flight(self) -> int {
        self.total_requests - self.successful_parses - self.failed_parses
    }

    /// What holds of the registry between any two updates, as long as no
    /// counter has wrapped: the methods add up to the requests, no more
    /// requests have ended than have come in, time-outs and validation
    /// errors are failures, each success is in one bucket of the
    /// histogram, and the least parse time is at most the greatest.
    pub open spec fn consistent(self) -> bool {
        &&& self.total_requests == self.get_requests + self.post_requests
        &&& self.in_flight() >= 0
        &&& self.timeout_errors + self.validation_errors <= self.failed_parses
        &&& self.histogram_buckets.len() == BUCKET_COUNT
        &&& bucket_sum(self.histogram_buckets) == self.successful_parses
        &&& match self.parse_time_min {
            Some(least) => self.successful_parses > 0 && least <= self.parse_time_max,
            None => self.successful_parses == 0 && self.parse_time_max == 0,
        }
    }

    /// The mean parse time of the successful parses in microseconds,
    /// rounded; 0 where there was none.
    pub open spec fn average_parse_micros(self) -> nat {
        rounded_ratio(self.parse_time_total as nat * 1000, self.successful_parses as nat)
    }

    /// The share of the requests that were parsed, in hundredths of a
    /// percent, rounded; 0 where there was no request.
    pub open spec fn success_rate_hundredths(self) -> nat {
        rounded_ratio(self.successful_parses as nat * 10000, self.total_requests as nat)
    }

    /// The seconds from the registry's start to `now`; 0 where `now` lies
    /// before the start.
    pub open spec fn uptime_seconds(self, now: u64) -> nat {
        if now >= self.start_time {
            (now - self.start_time) as nat
        } else {
            0
        }
    }
}

/// A fresh registry is consistent.
pub proof fn lemma_fresh_is_consistent(start_time: u64)
    ensures
        MetricsView::fresh(start_time).consistent(),
{
    lemma_zero_sum(MetricsView::fresh(start_time).histogram_buckets);
}

/// A request that comes in keeps a consistent registry consistent, unless
/// the request counter wraps, and is then in flight.
pub proof fn lemma_request_keeps_consistent(metrics: MetricsView, method: Method)
    requires
        metrics.consistent(),
        metrics.total_requests < u64::MAX,
    ensures
        metrics.with_request(method).consistent(),
        metrics.with_request(method).in_flight() == metrics.in_flight() + 1,
{
}

/// The end of a request that was in flight keeps a consistent registry
/// consistent.
pub proof fn lemma_outcome_keeps_consistent(metrics: MetricsView, outcome: Outcome)
    requires
        metrics.consistent(),
        metrics.in_flight() > 0,
    ensures
        metrics.with_outcome(outcome).consistent(),
        metrics.with_outcome(outcome).in_flight() == metrics.in_flight() - 1,
{
    if let Outcome::Success(duration_ms) = outcome {
        lemma_bucket_of_is_first_greater(bucket_bounds(), duration_ms);
        lemma_counter_at_most_sum(metrics.histogram_buckets, bucket_for(duration_ms));
        lemma_observed_sum(metrics.histogram_buckets, duration_ms);
    }
}

/// A copy of what the registry held at one moment.
#[derive(Clone, Copy, Debug)]
pub struct MetricsSnapshot {
    pub total_requests: u64,
    pub get_requests: u64,
    pub post_requests: u64,
    pub successful_parses: u64,
    pub failed_parses: u64,
    pub timeout_errors: u64,
    pub validation_errors: u64,
    pub parse_time_total: u64,
    pub parse_time_min: Option<u64>,
    pub parse_time_max: u64,
    pub histogram_buckets: [u64; 8],
    pub start_time: u64,
}

impl View for MetricsSnapshot {
    type V = MetricsView;

    open spec fn view(&self) -> MetricsView {
        MetricsView {
            total_requests: self.total_requests,
            get_requests: self.get_requests,
            post_requests: self.post_requests,
            successful_parses: self.successful_parses,
            failed_parses: self.failed_parses,
            timeout_errors: self.timeout_errors,
            validation_errors: self.validation_errors,
            parse_time_total: self.parse_time_total,
            parse_time_min: self.parse_time_min,
            parse_time_max: self.parse_time_max,
            histogram_buckets: self.histogram_buckets@,
            start_time: self.start_time,
        }
    }
}

impl MetricsSnapshot {
    /// The mean parse time of the successful parses in microseconds.
    pub fn average_parse_micros(&self) -> (micros: u128)
        ensures
            micros == self@.average_parse_micros(),
    {
        round_ratio(self.parse_time_total as u128 * 1000, self.successful_parses)
    }

    /// The share of the requests that were parsed, in hundredths of a
    /// percent.
    pub fn success_rate_hundredths(&self) -> (rate: u128)
        ensures
            rate == self@.success_rate_hundredths(),
    {
        round_ratio(self.successful_parses as u128 * 10000, self.total_requests)
    }

    /// The seconds from the registry's start to `now`.
    pub fn uptime_seconds(&self, now: u64) -> (seconds: u64)
        ensures
            seconds == self@.uptime_seconds(now),
    {
        if now >= self.start_time {
            now - self.start_time
        } else {
            0
        }
    }
}

/// The registry of one service.
pub struct MetricsRegistry {
    total_requests: u64,
    get_requests: u64,
    post_requests: u64,
    successful_parses: u64,
    failed_parses: u64,
    timeout_errors: u64,
    validation_errors: u64,
    parse_time_total: u64,
    parse_time_min: Option<u64>,
    parse_time_max: u64,
    histogram: Histogram,
    start_time: u64,
}

impl View for MetricsRegistry {
    type V = MetricsView;

    closed spec fn view(&self) -> MetricsView {
        MetricsView {
            total_requests: self.total_requests,
            get_requests: self.get_requests,
            post_requests: self.post_requests,
            successful_parses: self.successful_parses,
            failed_parses: self.failed_parses,
            timeout_errors: self.timeout_errors,
            validation_errors: self.validation_errors,
            parse_time_total: self.parse_time_total,
            parse_time_min: self.parse_time_min,
            parse_time_max: self.parse_time_max,
            histogram_buckets: self.histogram@,
            start_time: self.start_time,
        }
    }
}

impl MetricsRegistry {
    /// A registry that has seen no request, made at `start_time` (seconds
    /// since the epoch).
    pub fn new(start_time: u64) -> (registry: Self)
        ensures
            registry@ == MetricsView::fresh(start_time),
            registry@.consistent(),
    {
        proof {
            lemma_fresh_is_consistent(start_time);
        }
        MetricsRegistry {
            total_requests: 0,
            get_requests: 0,
            post_requests: 0,
            successful_parses: 0,
            failed_parses: 0,
            timeout_errors: 0,
            validation_errors: 0,
            parse_time_total: 0,
            parse_time_min: None,
            parse_time_max: 0,
            histogram: Histogram::new(),
            start_time,
        }
    }

    /// Counts a request that has come in through `method`.
    pub fn record_request(&mut self, method: Method)
        ensures
            final(self)@ == old(self)@.with_request(method),
            old(self)@.consistent() && old(self)@.total_requests < u64::MAX
                ==> final(self)@.consistent(),
    {
        self.total_requests = self.total_requests.wrapping_add(1);
        match method {
            Method::Get => {
                self.get_requests = self.get_requests.wrapping_add(1);
            },
            Method::Post => {
                self.post_requests = self.post_requests.wrapping_add(1);
            },
        }
    }

    /// Counts the end of a request.
    pub fn record_outcome(&mut self, outcome: Outcome)
        ensures
            final(self)@ == old(self)@.with_outcome(outcome),
            old(self)@.consistent() && old(self)@.in_flight() > 0 ==> final(self)@.consistent(),
    {
        proof {
            if old(self)@.consistent() && old(self)@.in_flight() > 0 {
                lemma_outcome_keeps_consistent(old(self)@, outcome);
            }
        }
        match outcome {
            Outcome::Success(duration_ms) => {
                self.successful_parses = self.successful_parses.wrapping_add(1);
                update_parse_time_metrics(self, duration_ms);
            },
            Outcome::Timeout => {
                self.failed_parses = self.failed_parses.wrapping_add(1);
                self.timeout_errors = self.timeout_errors.wrapping_add(1);
            },
            Outcome::ValidationError => {
                self.failed_parses = self.failed_parses.wrapping_add(1);
                self.validation_errors = self.validation_errors.wrapping_add(1);
            },
            Outcome::ParseFailure => {
                self.failed_parses = self.failed_parses.wrapping_add(1);
            },
        }
    }

    /// A copy of what the registry holds.
    pub fn snapshot(&self) -> (snapshot: MetricsSnapshot)
        ensures
            snapshot@ == self@,
    {
        MetricsSnapshot {
            total_requests: self.total_requests,
            get_requests: self.get_requests,
            post_requests: self.post_requests,
            successful_parses: self.successful_parses,
            failed_parses: self.failed_parses,
            timeout_errors: self.timeout_errors,
            validation_errors: self.validation_errors,
            parse_time_total: self.parse_time_total,
            parse_time_min: self.parse_time_min,
            parse_time_max: self.parse_time_max,
            histogram_buckets: self.histogram.counts(),
            start_time: self.start_time,
        }
    }
}

/// Takes the parse time of one successful parse into the sum, the minimum,
/// the maximum and the histogram.
pub fn update_parse_time_metrics(registry: &mut MetricsRegistry, duration_ms: u64)
    ensures
        final(registry)@ == old(registry)@.with_parse_time(duration_ms),
{
    registry.parse_time_total = registry.parse_time_total.wrapping_add(duration_ms);
    let lower = match registry.parse_time_min {
        Some(least) => duration_ms < least,
        None => true,
    };
    if lower {
        registry.parse_time_min = Some(duration_ms);
    }
    if registry.parse_time_max < duration_ms {
        registry.parse_time_max = duration_ms;
    }
    registry.histogram.observe(duration_ms);
}

} // verus!
