//! What holds of the registry after any sequence of requests and outcomes.
//!
//! Requests that run side by side reach the registry one update after the
//! other, in some order. A history is such an order: every statement here
//! holds of all of them.
use vstd::prelude::*;
use crate::histogram::{
    bucket_bounds, bucket_for, bucket_sum, lemma_bucket_of_is_first_greater,
    lemma_counter_at_most_sum, lemma_observed_sum, lemma_zero_sum, BUCKET_COUNT,
};
use crate::metrics::{Method, MetricsView, Outcome};

verus! {

/// One update of the registry.
pub ghost enum Event {
    /// A request has come in.
    Request(Method),
    /// A request has ended.
    Outcome(Outcome),
}

/// A property of an event that the registry counts.
pub ghost enum Tag {
    Request,
    Get,
    Post,
    Outcome,
    Success,
    Failure,
    Timeout,
    ValidationError,
}

/// Whether `event` has the property `tag`.
pub open spec fn has_tag(event: Event, tag: Tag) -> bool {
    match tag {
        Tag::Request => event is Request,
        Tag::Get => event == Event::Request(Method::Get),
        Tag::Post => event == Event::Request(Method::Post),
        Tag::Outcome => event is Outcome,
        Tag::Success => event matches Event::Outcome(Outcome::Success(_)),
        Tag::Failure => event matches Event::Outcome(outcome) && !(outcome is Success),
        Tag::Timeout => event == Event::Outcome(Outcome::Timeout),
        Tag::ValidationError => event == Event::Outcome(Outcome::ValidationError),
    }
}

/// How many of `events` have the property `tag`.
pub open spec fn count(events: Seq<Event>, tag: Tag) -> nat
    decreases events.len(),
{
    if events.len() == 0 {
        0
    } else {
        count(events.drop_last(), tag) + if has_tag(events.last(), tag) {
            1nat
        } else {
            0nat
        }
    }
}

/// The registry after one update.
pub open spec fn apply(metrics: MetricsView, event: Event) -> MetricsView {
    match event {
        Event::Request(method) => metrics.with_request(method),
        Event::Outcome(outcome) => metrics.with_outcome(outcome),
    }
}

/// The registry after the updates of `events`, first to last.
pub open spec fn replay(metrics: MetricsView, events: Seq<Event>) -> MetricsView
    decreases events.len(),
{
    if events.len() == 0 {
        metrics
    } else {
        apply(replay(metrics, events.drop_last()), events.last())
    }
}

/// The least parse time never goes up and the greatest never goes down,
/// and the start time stays what it was.
pub proof fn lemma_extremes_are_monotone(metrics: MetricsView, event: Event)
    ensures
        apply(metrics, event).parse_time_max >= metrics.parse_time_max,
        metrics.parse_time_min matches Some(before) ==> apply(metrics, event).parse_time_min
            matches Some(after) && after <= before,
        apply(metrics, event).start_time == metrics.start_time,
{
}

/// No property is counted more often than there are events.
pub proof fn lemma_count_at_most_len(events: Seq<Event>, tag: Tag)
    ensures
        count(events, tag) <= events.len(),
    decreases events.len(),
{
    if events.len() > 0 {
        lemma_count_at_most_len(events.drop_last(), tag);
    }
}

/// Every request came in through one of the two methods, every outcome is
/// a success or a failure, and time-outs and validation errors are
/// failures of two different kinds.
pub proof fn lemma_counts_add_up(events: Seq<Event>)
    ensures
        count(events, Tag::Get) + count(events, Tag::Post) == count(events, Tag::Request),
        count(events, Tag::Success) + count(events, Tag::Failure) == count(events, Tag::Outcome),
        count(events, Tag::Timeout) + count(events, Tag::ValidationError) <= count(
            events,
            Tag::Failure,
        ),
        count(events, Tag::Request) + count(events, Tag::Outcome) == events.len(),
    decreases events.len(),
{
    if events.len() > 0 {
        lemma_counts_add_up(events.drop_last());
    }
}

/// After any history that is short enough for no counter to wrap, each
/// counter of the registry is the number of events of its kind, the
/// histogram holds one observation per success, and the least parse time
/// is at most the greatest.
pub proof fn lemma_replay_counts(start_time: u64, events: Seq<Event>)
    requires
        events.len() <= u64::MAX,
    ensures
        ({
            let metrics = replay(MetricsView::fresh(start_time), events);
            &&& metrics.total_requests == count(events, Tag::Request)
            &&& metrics.get_requests == count(events, Tag::Get)
            &&& metrics.post_requests == count(events, Tag::Post)
            &&& metrics.successful_parses == count(events, Tag::Success)
            &&& metrics.failed_parses == count(events, Tag::Failure)
            &&& metrics.timeout_errors == count(events, Tag::Timeout)
            &&& metrics.validation_errors == count(events, Tag::ValidationError)
            &&& metrics.histogram_buckets.len() == BUCKET_COUNT
            &&& bucket_sum(metrics.histogram_buckets) == count(events, Tag::Success)
            &&& match metrics.parse_time_min {
                Some(least) => metrics.successful_parses > 0 && least <= metrics.parse_time_max,
                None => metrics.successful_parses == 0 && metrics.parse_time_max == 0,
            }
            &&& metrics.start_time == start_time
        }),
    decreases events.len(),
{
    let fresh = MetricsView::fresh(start_time);
    if events.len() == 0 {
        lemma_zero_sum(fresh.histogram_buckets);
    } else {
        let earlier = events.drop_last();
        let before = replay(fresh, earlier);
        lemma_replay_counts(start_time, earlier);
        lemma_count_at_most_len(earlier, Tag::Request);
        lemma_count_at_most_len(earlier, Tag::Get);
        lemma_count_at_most_len(earlier, Tag::Post);
        lemma_count_at_most_len(earlier, Tag::Success);
        lemma_count_at_most_len(earlier, Tag::Failure);
        lemma_count_at_most_len(earlier, Tag::Timeout);
        lemma_count_at_most_len(earlier, Tag::ValidationError);
        match events.last() {
            Event::Outcome(Outcome::Success(duration_ms)) => {
                lemma_bucket_of_is_first_greater(bucket_bounds(), duration_ms);
                lemma_counter_at_most_sum(before.histogram_buckets, bucket_for(duration_ms));
                lemma_observed_sum(before.histogram_buckets, duration_ms);
            },
            _ => {},
        }
    }
}

/// After any history of requests that came in through either method, in
/// any order and mixed with any outcomes, the registry has counted exactly
/// the requests, and the two method counters add up to that number.
pub proof fn lemma_every_request_is_counted(start_time: u64, events: Seq<Event>)
    requires
        events.len() <= u64::MAX,
    ensures
        replay(MetricsView::fresh(start_time), events).total_requests == count(
            events,
            Tag::Request,
        ),
        replay(MetricsView::fresh(start_time), events).get_requests + replay(
            MetricsView::fresh(start_time),
            events,
        ).post_requests == replay(MetricsView::fresh(start_time), events).total_requests,
{
    lemma_replay_counts(start_time, events);
    lemma_counts_add_up(events);
}

/// After any history, the counters of the histogram add up to the number
/// of successful parses.
pub proof fn lemma_histogram_holds_every_success(start_time: u64, events: Seq<Event>)
    requires
        events.len() <= u64::MAX,
    ensures
        bucket_sum(replay(MetricsView::fresh(start_time), events).histogram_buckets) == replay(
            MetricsView::fresh(start_time),
            events,
        ).successful_parses,
{
    lemma_replay_counts(start_time, events);
}

/// After any history with a successful parse, the least parse time is at
/// most the greatest.
pub proof fn lemma_least_at_most_greatest(start_time: u64, events: Seq<Event>)
    requires
        events.len() <= u64::MAX,
        replay(MetricsView::fresh(start_time), events).successful_parses > 0,
    ensures
        replay(MetricsView::fresh(start_time), events).parse_time_min matches Some(least) && least
            <= replay(MetricsView::fresh(start_time), events).parse_time_max,
{
    lemma_replay_counts(start_time, events);
}

/// After any history in which no more requests have ended than have come
/// in, the registry is consistent.
pub proof fn lemma_history_is_consistent(start_time: u64, events: Seq<Event>)
    requires
        events.len() <= u64::MAX,
        count(events, Tag::Outcome) <= count(events, Tag::Request),
    ensures
        replay(MetricsView::fresh(start_time), events).consistent(),
{
    lemma_replay_counts(start_time, events);
    lemma_counts_add_up(events);
}

} // verus!
