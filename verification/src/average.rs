//! A bounded running average over the most recent samples.
//!
//! [`RunningAverage`] keeps the last `capacity` samples in a ring buffer
//! together with a running sum. The sum saturates instead of wrapping, so a
//! window whose true sum does not fit in a `u64` yields a clamped value.

use vstd::prelude::*;

verus! {

/// What a [`RunningAverage`] stands for: its capacity, the retained samples
/// from oldest to newest, and the sum as it is stored.
pub struct AverageModel {
    pub capacity: nat,
    pub samples: Seq<u64>,
    pub total: u64,
}

/// `a + b`, clamped to `u64::MAX`.
pub open spec fn clamped_sum(a: u64, b: u64) -> u64 {
    if a + b > u64::MAX {
        u64::MAX
    } else {
        (a + b) as u64
    }
}

/// `a - b`, clamped to zero.
pub open spec fn clamped_difference(a: u64, b: u64) -> u64 {
    if a < b {
        0
    } else {
        (a - b) as u64
    }
}

/// The exact sum of a sequence of samples.
pub open spec fn sum_of(samples: Seq<u64>) -> nat
    decreases samples.len(),
{
    if samples.len() == 0 {
        0
    } else {
        sum_of(samples.drop_last()) + samples.last() as nat
    }
}

/// The last `capacity` elements of `values`, or all of them when there are
/// fewer.
pub open spec fn most_recent(values: Seq<u64>, capacity: nat) -> Seq<u64> {
    if values.len() <= capacity {
        values
    } else {
        values.subrange(values.len() - capacity, values.len() as int)
    }
}

impl AverageModel {
    /// An average of the given capacity that holds no sample.
    pub open spec fn empty(capacity: nat) -> AverageModel {
        AverageModel { capacity, samples: Seq::empty(), total: 0 }
    }

    /// Whether every slot is populated.
    pub open spec fn is_full(self) -> bool {
        self.samples.len() == self.capacity
    }

    /// The model after one more sample: a full window first gives up its
    /// oldest sample, whose value leaves the sum, then the new value enters
    /// both. Either change to the sum saturates.
    pub open spec fn after_add(self, value: u64) -> AverageModel {
        if self.is_full() {
            AverageModel {
                capacity: self.capacity,
                samples: self.samples.drop_first().push(value),
                total: clamped_sum(clamped_difference(self.total, self.samples[0]), value),
            }
        } else {
            AverageModel {
                capacity: self.capacity,
                samples: self.samples.push(value),
                total: clamped_sum(self.total, value),
            }
        }
    }

    /// The model after the samples of `values`, added in order.
    pub open spec fn after_all(self, values: Seq<u64>) -> AverageModel
        decreases values.len(),
    {
        if values.len() == 0 {
            self
        } else {
            self.after_all(values.drop_last()).after_add(values.last())
        }
    }

    /// The mean as an exact fraction: the stored sum over the number of
    /// retained samples, absent while there is no sample.
    pub open spec fn mean(self) -> Option<(u64, nat)> {
        if self.samples.len() == 0 {
            None
        } else {
            Some((self.total, self.samples.len()))
        }
    }
}

struct Cursor {
    position: usize,
    count: usize,
}

/// Mean of the most recent `capacity` samples.
pub struct RunningAverage {
    values: Vec<u64>,
    capacity: usize,
    sum: u64,
    cursor: Cursor,
}

impl View for RunningAverage {
    type V = AverageModel;

    closed spec fn view(&self) -> AverageModel {
        AverageModel {
            capacity: self.capacity as nat,
            samples: if self.cursor.count < self.capacity {
                self.values@.take(self.cursor.count as int)
            } else {
                self.values@.skip(self.cursor.position as int) + self.values@.take(
                    self.cursor.position as int,
                )
            },
            total: self.sum,
        }
    }
}

impl RunningAverage {
    #[verifier::type_invariant]
    spec fn well_formed(self) -> bool {
        &&& self.capacity > 0
        &&& self.values.len() == self.capacity
        &&& self.cursor.position < self.capacity
        &&& self.cursor.count <= self.capacity
        &&& self.cursor.count < self.capacity ==> self.cursor.position == self.cursor.count
        &&& forall|i: int| self.cursor.count <= i < self.capacity ==> self.values[i] == 0
    }

    /// Creates an empty average over the last `capacity` samples.
    pub fn new(capacity: usize) -> (average: RunningAverage)
        requires
            capacity > 0,
        ensures
            average@ == AverageModel::empty(capacity as nat),
    {
        let values: Vec<u64> = vec![0; capacity];
        let average = RunningAverage {
            values,
            capacity,
            sum: 0,
            cursor: Cursor { position: 0, count: 0 },
        };
        assert(average@.samples =~= Seq::<u64>::empty());
        average
    }

    /// Records one sample, displacing the oldest one once the window is full.
    pub fn add(&mut self, value: u64)
        ensures
            final(self)@ == old(self)@.after_add(value),
            final(self)@.samples.len() <= final(self)@.capacity,
    {
        proof {
            use_type_invariant(&*self);
        }
        let position = self.cursor.position;
        let mut count = self.cursor.count;
        if count == self.capacity {
            self.sum = self.sum.saturating_sub(self.values[position]);
        } else {
            count += 1;
        }
        self.sum = self.sum.saturating_add(value);
        let next = (position + 1) % self.capacity;
        assert(next == if position + 1 == self.capacity { 0 } else { position + 1 }) by {
            if position + 1 == self.capacity {
                vstd::arithmetic::div_mod::lemma_mod_self_0(self.capacity as int);
            } else {
                vstd::arithmetic::div_mod::lemma_small_mod(
                    (position + 1) as nat,
                    self.capacity as nat,
                );
            }
        }
        self.cursor = Cursor { position: next, count };
        self.values[position] = value;
        proof {
            let before = old(self)@.samples;
            let wanted = old(self)@.after_add(value).samples;
            assert(self@.samples.len() == wanted.len());
            assert forall|i: int| 0 <= i < wanted.len() implies self@.samples[i] == wanted[i] by {
                if i + 1 < wanted.len() && old(self)@.is_full() {
                    assert(wanted[i] == before[i + 1]);
                }
            }
            assert(self@.samples =~= wanted);
        }
    }

    /// The mean of the retained samples as an exact fraction, numerator first;
    /// `None` while no sample has been added.
    pub fn get(&self) -> (mean: Option<(u64, usize)>)
        ensures
            match mean {
                Some((total, count)) => self@.mean() == Some((total, count as nat)),
                None => self@.mean() is None,
            },
            self@.samples.len() <= self@.capacity,
    {
        proof {
            use_type_invariant(self);
        }
        if self.cursor.count == 0 {
            None
        } else {
            Some((self.sum, self.cursor.count))
        }
    }

    /// The number of retained samples, which is at most the capacity.
    pub fn count(&self) -> (n: usize)
        ensures
            n == self@.samples.len(),
            n <= self@.capacity,
    {
        proof {
            use_type_invariant(self);
        }
        self.cursor.count
    }

    /// Forgets every sample and zeroes every slot; the capacity stays.
    pub fn clear(&mut self)
        ensures
            final(self)@ == AverageModel::empty(old(self)@.capacity),
    {
        proof {
            use_type_invariant(&*self);
        }
        self.sum = 0;
        self.cursor = Cursor { position: 0, count: self.capacity };
        let mut i: usize = 0;
        while i < self.capacity
            invariant
                self.capacity == old(self).capacity,
                self.capacity > 0,
                self.values.len() == self.capacity,
                self.sum == 0,
                self.cursor.position == 0,
                self.cursor.count == self.capacity,
                i <= self.capacity,
                forall|k: int| 0 <= k < i ==> self.values[k] == 0,
            decreases self.capacity - i,
        {
            self.values[i] = 0;
            i += 1;
        }
        self.cursor = Cursor { position: 0, count: 0 };
        assert(self@.samples =~= Seq::<u64>::empty());
    }
}

/// The sum of a non-empty sequence is its first element plus the sum of the
/// rest.
proof fn lemma_sum_of_first(samples: Seq<u64>)
    requires
        samples.len() > 0,
    ensures
        sum_of(samples) == samples[0] + sum_of(samples.drop_first()),
    decreases samples.len(),
{
    if samples.len() == 1 {
        assert(samples.drop_last() =~= Seq::<u64>::empty());
        assert(samples.drop_first() =~= Seq::<u64>::empty());
    } else {
        lemma_sum_of_first(samples.drop_last());
        assert(samples.drop_last().drop_first() =~= samples.drop_first().drop_last());
    }
}

/// Adding to an empty average keeps exactly the most recent samples: all of
/// them while they fit, the last `capacity` of them afterwards.
pub proof fn lemma_window_is_most_recent(capacity: nat, values: Seq<u64>)
    requires
        capacity > 0,
    ensures
        AverageModel::empty(capacity).after_all(values).samples == most_recent(values, capacity),
        AverageModel::empty(capacity).after_all(values).capacity == capacity,
    decreases values.len(),
{
    if values.len() > 0 {
        let earlier = values.drop_last();
        lemma_window_is_most_recent(capacity, earlier);
        let before = AverageModel::empty(capacity).after_all(earlier);
        assert(before.after_add(values.last()).samples =~= most_recent(values, capacity));
    } else {
        assert(most_recent(values, capacity) =~= Seq::<u64>::empty());
    }
}

/// As long as the sum of each window fits in a `u64`, the stored sum is exact:
/// after `m` additions to an empty average of capacity `c` it is the sum of
/// all `m` values while `m <= c`, and of the last `c` values afterwards. The
/// mean is that sum over the number of retained samples.
pub proof fn lemma_mean_of_most_recent(capacity: nat, values: Seq<u64>)
    requires
        capacity > 0,
        forall|m: int|
            0 <= m <= values.len() ==> sum_of(#[trigger] most_recent(values.take(m), capacity))
                <= u64::MAX,
    ensures
        forall|m: int|
            0 <= m <= values.len() ==> {
                let average = #[trigger] AverageModel::empty(capacity).after_all(values.take(m));
                let recent = most_recent(values.take(m), capacity);
                &&& average.samples == recent
                &&& average.total == sum_of(recent)
                &&& m > 0 ==> average.mean() == Some((average.total, recent.len()))
                &&& m == 0 ==> average.mean() is None
            },
    decreases values.len(),
{
    assert forall|m: int| 0 <= m <= values.len() implies {
        let average = #[trigger] AverageModel::empty(capacity).after_all(values.take(m));
        let recent = most_recent(values.take(m), capacity);
        &&& average.samples == recent
        &&& average.total == sum_of(recent)
        &&& m > 0 ==> average.mean() == Some((average.total, recent.len()))
        &&& m == 0 ==> average.mean() is None
    } by {
        let prefix = values.take(m);
        assert forall|k: int| 0 <= k <= prefix.len() implies sum_of(
            #[trigger] most_recent(prefix.take(k), capacity),
        ) <= u64::MAX by {
            assert(prefix.take(k) =~= values.take(k));
        }
        lemma_exact_total(capacity, prefix);
    }
}

/// The stored sum after `values` is exact when no window along the way
/// overflowed.
proof fn lemma_exact_total(capacity: nat, values: Seq<u64>)
    requires
        capacity > 0,
        forall|m: int|
            0 <= m <= values.len() ==> sum_of(#[trigger] most_recent(values.take(m), capacity))
                <= u64::MAX,
    ensures
        AverageModel::empty(capacity).after_all(values).samples == most_recent(values, capacity),
        AverageModel::empty(capacity).after_all(values).total == sum_of(
            most_recent(values, capacity),
        ),
    decreases values.len(),
{
    lemma_window_is_most_recent(capacity, values);
    if values.len() > 0 {
        let earlier = values.drop_last();
        assert forall|m: int| 0 <= m <= earlier.len() implies sum_of(
            #[trigger] most_recent(earlier.take(m), capacity),
        ) <= u64::MAX by {
            assert(earlier.take(m) =~= values.take(m));
        }
        lemma_exact_total(capacity, earlier);
        lemma_window_is_most_recent(capacity, earlier);
        let before = AverageModel::empty(capacity).after_all(earlier);
        let after = before.after_add(values.last());
        assert(values.take(values.len() as int) =~= values);
        assert(sum_of(most_recent(values, capacity)) <= u64::MAX);
        assert(after.samples == most_recent(values, capacity));
        if before.is_full() {
            lemma_sum_of_first(before.samples);
            let kept = before.samples.drop_first();
            assert(kept.push(values.last()).drop_last() =~= kept);
        } else {
            assert(before.samples.push(values.last()).drop_last() =~= before.samples);
        }
    }
}

} // verus!
