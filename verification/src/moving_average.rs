//! A bounded window of the most recent (value, duration) samples, from which
//! the recorder's terminal view computes a time-weighted moving average.
use vstd::prelude::*;
use std::collections::VecDeque;

verus! {

/// One sample: a value observed for a duration.
#[derive(Clone, Copy, Debug)]
pub struct TimedValue<V> {
    pub value: V,
    pub duration: V,
}

/// Keeps the last `max_values` samples, oldest first.
pub struct MovingAverage<V> {
    values: VecDeque<TimedValue<V>>,
    max_values: usize,
}

/// The window after appending `tv` to `old` and dropping the oldest samples
/// beyond `max`.
pub open spec fn spec_window_after_add<V>(old: Seq<TimedValue<V>>, tv: TimedValue<V>, max: nat) -> Seq<
    TimedValue<V>,
> {
    let pushed = old.push(tv);
    if pushed.len() > max {
        pushed.subrange(pushed.len() - max, pushed.len() as int)
    } else {
        pushed
    }
}

impl<V: Copy> MovingAverage<V> {
    /// The samples currently kept, oldest first.
    pub closed spec fn samples(&self) -> Seq<TimedValue<V>> {
        self.values@
    }

    /// The number of samples the window keeps at most.
    pub closed spec fn spec_capacity(&self) -> nat {
        self.max_values as nat
    }

    /// The window never holds more samples than its capacity.
    pub closed spec fn wf(&self) -> bool {
        self.values@.len() <= self.max_values
    }

    /// An empty window that keeps the last `max_values` samples.
    pub fn new(max_values: usize) -> (r: Self)
        ensures
            r.wf(),
            r.samples() == Seq::<TimedValue<V>>::empty(),
            r.spec_capacity() == max_values,
    {
        MovingAverage { values: VecDeque::new(), max_values }
    }

    /// Adds a sample, dropping the oldest ones beyond the capacity.
    pub fn add_value(&mut self, value: V, duration: V)
        requires
            old(self).wf(),
        ensures
            final(self).wf(),
            final(self).spec_capacity() == old(self).spec_capacity(),
            final(self).samples() == spec_window_after_add(
                old(self).samples(),
                TimedValue { value, duration },
                old(self).spec_capacity(),
            ),
    {
        let ghost pushed = self.values@.push(TimedValue { value, duration });
        self.values.push_back(TimedValue { value, duration });
        // The window held at most `max_values` samples, so at most one is dropped.
        if self.values.len() > self.max_values {
            self.values.pop_front();
            proof {
                assert(self.values@ =~= pushed.subrange(
                    pushed.len() - self.max_values,
                    pushed.len() as int,
                ));
            }
        }
    }

    /// The samples currently kept, oldest first.
    pub fn values(&self) -> (r: &VecDeque<TimedValue<V>>)
        ensures
            r@ == self.samples(),
    {
        &self.values
    }

    /// The number of samples currently kept.
    pub fn len(&self) -> (r: usize)
        ensures
            r == self.samples().len(),
    {
        self.values.len()
    }

    /// Whether no sample is kept.
    pub fn is_empty(&self) -> (r: bool)
        ensures
            r == (self.samples().len() == 0),
    {
        self.values.len() == 0
    }

    /// Drops every sample.
    pub fn clear(&mut self)
        requires
            old(self).wf(),
        ensures
            final(self).wf(),
            final(self).samples() == Seq::<TimedValue<V>>::empty(),
            final(self).spec_capacity() == old(self).spec_capacity(),
    {
        self.values.clear();
    }

    /// The number of samples the window keeps at most.
    pub fn capacity(&self) -> (r: usize)
        ensures
            r == self.spec_capacity(),
    {
        self.max_values
    }
}

/// Whatever was added, a well-formed window never holds more samples than its
/// capacity, and its newest sample is the last one added.
pub proof fn law_window_bounded<V>(old: Seq<TimedValue<V>>, tv: TimedValue<V>, max: nat)
    requires
        old.len() <= max,
    ensures
        spec_window_after_add(old, tv, max).len() <= max,
        max > 0 ==> spec_window_after_add(old, tv, max).last() == tv,
{
}

} // verus!
