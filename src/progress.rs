use vstd::prelude::*;

verus! {

/// `a + b`, held at `u64::MAX` when the sum would not fit.
pub open spec fn saturating_sum(a: u64, b: u64) -> u64 {
    if a + b <= u64::MAX {
        (a + b) as u64
    } else {
        u64::MAX
    }
}

/// The counter's value after the additions `adds`, made in order from `start`.
pub open spec fn value_after(start: u64, adds: Seq<u64>) -> u64
    decreases adds.len(),
{
    if adds.len() == 0 {
        start
    } else {
        saturating_sum(value_after(start, adds.drop_last()), adds.last())
    }
}

/// Count of candidates examined so far. It only grows: each operation adds
/// to it, and it stays at `u64::MAX` rather than wrap.
pub struct ProgressCounter {
    count: u64,
}

impl ProgressCounter {
    /// The value a reader observes.
    pub closed spec fn value(&self) -> u64 {
        self.count
    }

    /// A counter at zero.
    pub fn new() -> (r: ProgressCounter)
        ensures
            r.value() == 0,
    {
        ProgressCounter { count: 0 }
    }

    /// The current value.
    pub fn get(&self) -> (r: u64)
        ensures
            r == self.value(),
    {
        self.count
    }

    /// Adds `n` (a worker's local tally) and returns the new value.
    pub fn add(&mut self, n: u64) -> (r: u64)
        ensures
            final(self).value() == saturating_sum(old(self).value(), n),
            r == final(self).value(),
    {
        self.count = self.count.saturating_add(n);
        self.count
    }

    /// Counts one more examined candidate and returns the new value.
    pub fn increment(&mut self) -> (r: u64)
        ensures
            final(self).value() == saturating_sum(old(self).value(), 1),
            r == final(self).value(),
    {
        self.add(1)
    }
}

/// Monotonicity: whatever additions are made, a read taken after more of
/// them never shows a smaller value than a read taken after fewer.
pub proof fn lemma_value_never_decreases(start: u64, adds: Seq<u64>, i: int, j: int)
    requires
        0 <= i <= j <= adds.len(),
    ensures
        value_after(start, adds.take(i)) <= value_after(start, adds.take(j)),
    decreases j - i,
{
    if i < j {
        lemma_value_never_decreases(start, adds, i, j - 1);
        assert(adds.take(j).drop_last() =~= adds.take(j - 1));
    }
}

} // verus!
