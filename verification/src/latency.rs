//! Aggregation of round-trip samples into a minimum, a maximum and a mean.
//!
//! A sample is a whole number of milliseconds, or `None` where the request
//! behind it failed. Failed samples take no part in the aggregate.

use vstd::prelude::*;

verus! {

/// The samples that succeeded, in the order in which they were taken.
pub open spec fn successes(samples: Seq<Option<u64>>) -> Seq<u64>
    decreases samples.len(),
{
    if samples.len() == 0 {
        Seq::empty()
    } else {
        let earlier = successes(samples.drop_last());
        match samples.last() {
            Some(ms) => earlier.push(ms),
            None => earlier,
        }
    }
}

/// The sum of all values.
pub open spec fn sum(values: Seq<u64>) -> nat
    decreases values.len(),
{
    if values.len() == 0 {
        0
    } else {
        sum(values.drop_last()) + values.last() as nat
    }
}

/// `low` occurs in `values` and no value is below it.
pub open spec fn is_lowest(values: Seq<u64>, low: u64) -> bool {
    &&& values.contains(low)
    &&& forall|i: int| 0 <= i < values.len() ==> low <= #[trigger] values[i]
}

/// `high` occurs in `values` and no value is above it.
pub open spec fn is_highest(values: Seq<u64>, high: u64) -> bool {
    &&& values.contains(high)
    &&& forall|i: int| 0 <= i < values.len() ==> #[trigger] values[i] <= high
}

/// Minimum, maximum, sum and mean of the samples that succeeded.
#[derive(Clone, Copy, Debug, PartialEq, Eq, Structural)]
pub struct LatencyTally {
    /// Smallest successful sample, 0 where there is none.
    pub min: u64,
    /// Largest successful sample, 0 where there is none.
    pub max: u64,
    /// Sum of the successful samples divided by their number, rounded down.
    pub avg: u64,
    /// Sum of the successful samples.
    pub total: u128,
    /// Number of successful samples.
    pub count: usize,
}

impl LatencyTally {
    /// This tally is the aggregate of exactly `values`.
    pub open spec fn summarises(self, values: Seq<u64>) -> bool {
        &&& self.count == values.len()
        &&& self.total == sum(values)
        &&& values.len() == 0 ==> self.min == 0 && self.max == 0 && self.avg == 0
        &&& values.len() > 0 ==> {
            &&& is_lowest(values, self.min)
            &&& is_highest(values, self.max)
            &&& self.avg == sum(values) / values.len()
        }
    }

    /// Aggregates the samples that succeeded. With none the tally is all zero.
    pub fn of(samples: &[Option<u64>]) -> (tally: LatencyTally)
        ensures
            tally.summarises(successes(samples@)),
    {
        let mut min: u64 = 0;
        let mut max: u64 = 0;
        let mut total: u128 = 0;
        let mut count: usize = 0;
        let mut i: usize = 0;
        while i < samples.len()
            invariant
                i <= samples.len(),
                count <= i,
                count == successes(samples@.take(i as int)).len(),
                total == sum(successes(samples@.take(i as int))),
                total <= count * u64::MAX,
                count == 0 ==> min == 0 && max == 0,
                count > 0 ==> is_lowest(successes(samples@.take(i as int)), min) && is_highest(
                    successes(samples@.take(i as int)),
                    max,
                ),
            decreases samples.len() - i,
        {
            let ghost before = successes(samples@.take(i as int));
            proof {
                assert(samples@.take(i + 1).drop_last() =~= samples@.take(i as int));
                assert(samples@.take(i + 1).last() == samples@[i as int]);
            }
            match samples[i] {
                Some(ms) => {
                    proof {
                        let after = before.push(ms);
                        assert(after.drop_last() =~= before);
                        assert(after.last() == ms);
                        assert(after[before.len() as int] == ms);
                        assert(count * u64::MAX + u64::MAX == (count + 1) * u64::MAX)
                            by (nonlinear_arith);
                        assert(i * u64::MAX <= usize::MAX * u64::MAX) by (nonlinear_arith)
                            requires
                                i <= usize::MAX,
                        ;
                        assert(count * u64::MAX <= i * u64::MAX) by (nonlinear_arith)
                            requires
                                count <= i,
                        ;
                        assert(usize::MAX * u64::MAX <= u64::MAX * u64::MAX) by (nonlinear_arith)
                            requires
                                usize::MAX <= u64::MAX,
                        ;
                        if count > 0 {
                            let at_min = choose|k: int| 0 <= k < before.len() && before[k] == min;
                            let at_max = choose|k: int| 0 <= k < before.len() && before[k] == max;
                            assert(after[at_min] == min);
                            assert(after[at_max] == max);
                        }
                    }
                    if count == 0 || ms < min {
                        min = ms;
                    }
                    if count == 0 || ms > max {
                        max = ms;
                    }
                    total = total + ms as u128;
                    count = count + 1;
                },
                None => {},
            }
            i = i + 1;
        }
        proof {
            assert(samples@.take(i as int) =~= samples@);
        }
        let avg: u64 = if count == 0 {
            0
        } else {
            proof {
                assert(total / (count as u128) <= u64::MAX) by (nonlinear_arith)
                    requires
                        count > 0,
                        total <= count * u64::MAX,
                ;
            }
            (total / (count as u128)) as u64
        };
        LatencyTally { min, max, avg, total, count }
    }
}

/// No more samples succeed than were taken.
pub proof fn lemma_successes_len(samples: Seq<Option<u64>>)
    ensures
        successes(samples).len() <= samples.len(),
    decreases samples.len(),
{
    if samples.len() > 0 {
        lemma_successes_len(samples.drop_last());
    }
}

/// The sum of the values lies between their number times the lowest and
/// their number times the highest.
pub proof fn lemma_sum_bounds(values: Seq<u64>, low: u64, high: u64)
    requires
        forall|i: int| 0 <= i < values.len() ==> low <= #[trigger] values[i] <= high,
    ensures
        values.len() * low <= sum(values) <= values.len() * high,
    decreases values.len(),
{
    if values.len() > 0 {
        let earlier = values.drop_last();
        lemma_sum_bounds(earlier, low, high);
        assert(low <= values[values.len() - 1] <= high);
        assert(earlier.len() * low + low == values.len() * low) by (nonlinear_arith)
            requires
                earlier.len() + 1 == values.len(),
        ;
        assert(earlier.len() * high + high == values.len() * high) by (nonlinear_arith)
            requires
                earlier.len() + 1 == values.len(),
        ;
    }
}

/// Of one or more successful samples the mean lies between the minimum and
/// the maximum, and is their sum divided by their number.
pub proof fn lemma_mean_between_extremes(tally: LatencyTally, values: Seq<u64>)
    requires
        values.len() >= 1,
        tally.summarises(values),
    ensures
        tally.min <= tally.avg <= tally.max,
        tally.avg == sum(values) / values.len(),
        values.len() * tally.min <= sum(values) <= values.len() * tally.max,
{
    lemma_sum_bounds(values, tally.min, tally.max);
    let n = values.len();
    let s = sum(values);
    let lo = tally.min as nat;
    let hi = tally.max as nat;
    assert(lo <= s / n <= hi) by (nonlinear_arith)
        requires
            n > 0,
            n * lo <= s <= n * hi,
    ;
}

} // verus!
