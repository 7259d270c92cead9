//! The latency histogram: a fixed table of upper bounds in milliseconds and
//! one counter per bucket, the last bucket being open-ended.
use vstd::prelude::*;

verus! {

/// The number of buckets: one per upper bound, and the open-ended one.
pub const BUCKET_COUNT: usize = 8;

/// The upper bounds of the buckets in milliseconds, without the open-ended
/// last one.
pub open spec fn bucket_bounds() -> Seq<u64> {
    seq![1u64, 5u64, 10u64, 25u64, 50u64, 100u64, 500u64]
}

/// The index of the first of `bounds` that is strictly greater than
/// `latency`, or the number of bounds where none is.
pub open spec fn bucket_of(bounds: Seq<u64>, latency: u64) -> int
    decreases bounds.len(),
{
    if bounds.len() == 0 || latency < bounds[0] {
        0
    } else {
        1 + bucket_of(bounds.drop_first(), latency)
    }
}

/// The bucket that a latency falls into under the fixed table.
pub open spec fn bucket_for(latency: u64) -> int {
    bucket_of(bucket_bounds(), latency)
}

/// The counters after one more observation of `latency`: the counter of its
/// bucket goes up by one, and wraps to 0 after `u64::MAX`.
pub open spec fn observed(counts: Seq<u64>, latency: u64) -> Seq<u64> {
    let bucket = bucket_for(latency);
    counts.update(bucket, counts[bucket].wrapping_add(1))
}

/// The sum of the first `upto` counters.
pub open spec fn prefix_sum(counts: Seq<u64>, upto: int) -> int
    decreases upto,
{
    if upto <= 0 {
        0
    } else {
        prefix_sum(counts, upto - 1) + counts[upto - 1]
    }
}

/// The sum of all the counters.
pub open spec fn bucket_sum(counts: Seq<u64>) -> int {
    prefix_sum(counts, counts.len() as int)
}

/// For each bucket, how many observations fell into it or into a bucket
/// before it.
pub open spec fn cumulative_counts(counts: Seq<u64>) -> Seq<int> {
    Seq::new(counts.len(), |i: int| prefix_sum(counts, i + 1))
}

/// `bucket_of` gives the one index before which every bound is at most the
/// latency and at which the bound, if there is one, is greater.
pub proof fn lemma_bucket_of_is_first_greater(bounds: Seq<u64>, latency: u64)
    ensures
        0 <= bucket_of(bounds, latency) <= bounds.len(),
        forall|j: int| 0 <= j < bucket_of(bounds, latency) ==> #[trigger] bounds[j] <= latency,
        bucket_of(bounds, latency) < bounds.len() ==> latency < bounds[bucket_of(bounds, latency)],
    decreases bounds.len(),
{
    if bounds.len() == 0 || latency < bounds[0] {
    } else {
        let rest = bounds.drop_first();
        lemma_bucket_of_is_first_greater(rest, latency);
        assert forall|j: int| 0 <= j < bucket_of(bounds, latency) implies #[trigger] bounds[j]
            <= latency by {
            if j > 0 {
                assert(bounds[j] == rest[j - 1]);
            }
        }
    }
}

/// An index with the two properties above is what `bucket_of` gives.
pub proof fn lemma_first_greater_is_bucket_of(bounds: Seq<u64>, latency: u64, index: int)
    requires
        0 <= index <= bounds.len(),
        forall|j: int| 0 <= j < index ==> #[trigger] bounds[j] <= latency,
        index < bounds.len() ==> latency < bounds[index],
    ensures
        bucket_of(bounds, latency) == index,
    decreases bounds.len(),
{
    if bounds.len() > 0 && latency >= bounds[0] {
        lemma_first_greater_is_bucket_of(bounds.drop_first(), latency, index - 1);
    }
}

/// The fixed table, bucket by bucket: a latency of 0 falls into the first
/// bucket, one of 500 ms or more into the last.
pub proof fn lemma_bucket_for_table(latency: u64)
    ensures
        bucket_for(latency) == if latency < 1 {
            0int
        } else if latency < 5 {
            1
        } else if latency < 10 {
            2
        } else if latency < 25 {
            3
        } else if latency < 50 {
            4
        } else if latency < 100 {
            5
        } else if latency < 500 {
            6
        } else {
            7
        },
{
    let bounds = bucket_bounds();
    let index = if latency < 1 {
        0int
    } else if latency < 5 {
        1
    } else if latency < 10 {
        2
    } else if latency < 25 {
        3
    } else if latency < 50 {
        4
    } else if latency < 100 {
        5
    } else if latency < 500 {
        6
    } else {
        7
    };
    lemma_first_greater_is_bucket_of(bounds, latency, index);
}

/// The sums over growing prefixes do not go down.
pub proof fn lemma_prefix_sum_monotone(counts: Seq<u64>, i: int, j: int)
    requires
        0 <= i <= j <= counts.len(),
    ensures
        0 <= prefix_sum(counts, i) <= prefix_sum(counts, j),
        prefix_sum(counts, j) <= j * u64::MAX,
    decreases j,
{
    if j > 0 {
        if i < j {
            lemma_prefix_sum_monotone(counts, i, j - 1);
        } else {
            lemma_prefix_sum_monotone(counts, i - 1, j - 1);
        }
    }
}

/// The cumulative counts do not go down from one bucket to the next, and
/// the last one is the sum of all the counters.
pub proof fn lemma_cumulative_non_decreasing(counts: Seq<u64>)
    ensures
        forall|i: int, j: int|
            0 <= i <= j < counts.len() ==> #[trigger] cumulative_counts(counts)[i]
                <= #[trigger] cumulative_counts(counts)[j],
        counts.len() > 0 ==> cumulative_counts(counts).last() == bucket_sum(counts),
{
    assert forall|i: int, j: int| 0 <= i <= j < counts.len() implies #[trigger] cumulative_counts(
        counts,
    )[i] <= #[trigger] cumulative_counts(counts)[j] by {
        lemma_prefix_sum_monotone(counts, i + 1, j + 1);
    }
}

/// One more observation raises the sum of the counters by one, as long as
/// the counter of its bucket does not wrap.
pub proof fn lemma_observed_sum(counts: Seq<u64>, latency: u64)
    requires
        counts.len() == BUCKET_COUNT,
        counts[bucket_for(latency)] < u64::MAX,
    ensures
        bucket_sum(observed(counts, latency)) == bucket_sum(counts) + 1,
{
    lemma_bucket_of_is_first_greater(bucket_bounds(), latency);
    lemma_update_prefix_sum(counts, bucket_for(latency), (counts[bucket_for(latency)] + 1) as u64,
        counts.len() as int);
}

/// Counters that are all 0 add up to 0.
pub proof fn lemma_zero_sum(counts: Seq<u64>)
    requires
        forall|i: int| 0 <= i < counts.len() ==> counts[i] == 0,
    ensures
        bucket_sum(counts) == 0,
{
    lemma_zero_prefix_sum(counts, counts.len() as int);
}

proof fn lemma_zero_prefix_sum(counts: Seq<u64>, upto: int)
    requires
        0 <= upto <= counts.len(),
        forall|i: int| 0 <= i < counts.len() ==> counts[i] == 0,
    ensures
        prefix_sum(counts, upto) == 0,
    decreases upto,
{
    if upto > 0 {
        lemma_zero_prefix_sum(counts, upto - 1);
    }
}

/// No counter is greater than the sum of them all.
pub proof fn lemma_counter_at_most_sum(counts: Seq<u64>, index: int)
    requires
        0 <= index < counts.len(),
    ensures
        counts[index] <= bucket_sum(counts),
{
    lemma_prefix_sum_monotone(counts, index, index);
    lemma_prefix_sum_monotone(counts, index + 1, counts.len() as int);
}

/// What putting `value` in place of one counter does to a prefix sum.
pub proof fn lemma_update_prefix_sum(counts: Seq<u64>, at: int, value: u64, upto: int)
    requires
        0 <= at < counts.len(),
        0 <= upto <= counts.len(),
    ensures
        prefix_sum(counts.update(at, value), upto) == prefix_sum(counts, upto) + if at < upto {
            value - counts[at]
        } else {
            0
        },
    decreases upto,
{
    if upto > 0 {
        lemma_update_prefix_sum(counts, at, value, upto - 1);
    }
}

/// The upper bounds of the buckets in milliseconds, without the open-ended
/// last one.
pub fn bucket_upper_bounds() -> (bounds: [u64; 7])
    ensures
        bounds@ == bucket_bounds(),
{
    let bounds: [u64; 7] = [1, 5, 10, 25, 50, 100, 500];
    bounds
}

/// The bucket that `latency_ms` falls into: the first whose upper bound is
/// strictly greater, else the last.
pub fn bucket_index(latency_ms: u64) -> (index: usize)
    ensures
        index == bucket_for(latency_ms),
        index < BUCKET_COUNT,
{
    let bounds = bucket_upper_bounds();
    let mut index: usize = 0;
    while index < BUCKET_COUNT - 1 && bounds[index] <= latency_ms
        invariant
            bounds@ == bucket_bounds(),
            index <= BUCKET_COUNT - 1,
            forall|j: int| 0 <= j < index ==> #[trigger] bounds@[j] <= latency_ms,
        decreases BUCKET_COUNT - 1 - index,
    {
        index = index + 1;
    }
    proof {
        lemma_first_greater_is_bucket_of(bounds@, latency_ms, index as int);
    }
    index
}

/// For each bucket, how many observations fell into it or into a bucket
/// before it.
pub fn cumulative(counts: &[u64; 8]) -> (sums: [u128; 8])
    ensures
        forall|i: int| 0 <= i < BUCKET_COUNT ==> #[trigger] sums@[i] == cumulative_counts(counts@)[i],
{
    let mut sums: [u128; 8] = [0u128; 8];
    let mut running: u128 = 0;
    let mut index: usize = 0;
    while index < BUCKET_COUNT
        invariant
            index <= BUCKET_COUNT,
            running == prefix_sum(counts@, index as int),
            forall|i: int| 0 <= i < index ==> #[trigger] sums@[i] == prefix_sum(counts@, i + 1),
        decreases BUCKET_COUNT - index,
    {
        proof {
            lemma_prefix_sum_monotone(counts@, index as int, index as int + 1);
        }
        running = running + counts[index] as u128;
        sums[index] = running;
        index = index + 1;
    }
    sums
}

/// The counters of the latency histogram.
#[derive(Clone, Copy, Debug)]
pub struct Histogram {
    counts: [u64; 8],
}

impl View for Histogram {
    type V = Seq<u64>;

    /// The counters, bucket by bucket.
    closed spec fn view(&self) -> Seq<u64> {
        self.counts@
    }
}

impl Histogram {
    /// A histogram that has seen nothing.
    pub fn new() -> (h: Self)
        ensures
            h@ == Seq::new(BUCKET_COUNT as nat, |i: int| 0u64),
    {
        let h = Histogram { counts: [0u64; 8] };
        h
    }

    /// Counts one observation of `latency_ms`.
    pub fn observe(&mut self, latency_ms: u64)
        ensures
            final(self)@ == observed(old(self)@, latency_ms),
    {
        let index = bucket_index(latency_ms);
        let count = self.counts[index];
        self.counts[index] = count.wrapping_add(1);
    }

    /// The counters, bucket by bucket.
    pub fn counts(&self) -> (counts: [u64; 8])
        ensures
            counts@ == self@,
    {
        self.counts
    }
}

} // verus!
