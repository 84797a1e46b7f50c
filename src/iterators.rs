//! Two counters that hand out numbers one at a time.
use vstd::prelude::*;

verus! {

/// Counts from one to five, then reports that it is done.
pub struct Counter {
    count: usize,
}

impl Counter {
    /// How many times `next` has been called.
    pub closed spec fn count(&self) -> usize {
        self.count
    }

    pub fn new() -> (c: Counter)
        ensures
            c.count() == 0,
    {
        Counter { count: 0 }
    }

    /// Advances the count; yields it while it is below six.
    pub fn next(&mut self) -> (r: Option<usize>)
        requires
            old(self).count() < usize::MAX,
        ensures
            final(self).count() == old(self).count() + 1,
            r == if final(self).count() < 6 {
                Some(final(self).count())
            } else {
                None::<usize>
            },
    {
        self.count = self.count + 1;
        if self.count < 6 {
            Some(self.count)
        } else {
            None
        }
    }
}

/// Yields the positive even numbers in increasing order.
pub struct InfiniteEvenNumbers {
    num: u32,
}

impl InfiniteEvenNumbers {
    /// The last number handed out, zero before the first.
    pub closed spec fn last(&self) -> u32 {
        self.num
    }

    pub fn new() -> (e: InfiniteEvenNumbers)
        ensures
            e.last() == 0,
    {
        InfiniteEvenNumbers { num: 0 }
    }

    /// The next even number; it must still fit in a `u32`.
    pub fn next(&mut self) -> (r: Option<u32>)
        requires
            old(self).last() <= u32::MAX - 2,
        ensures
            final(self).last() == old(self).last() + 2,
            r == Some(final(self).last()),
    {
        self.num = self.num + 2;
        Some(self.num)
    }
}

} // verus!
