//! Bounded rolling series of timing samples.

use vstd::prelude::*;

verus! {

/// The number of samples a rolling series keeps.
pub const CAPACITY: usize = 100;

/// The series that results from appending `sample` to `series`: once the
/// series is full, its oldest sample leaves to make room.
pub open spec fn pushed(series: Seq<u64>, sample: u64) -> Seq<u64> {
    if series.len() < CAPACITY {
        series.push(sample)
    } else {
        series.subrange(1, series.len() as int).push(sample)
    }
}

/// The series that results from appending every element of `arrivals`, in
/// order, to `series`.
pub open spec fn pushed_all(series: Seq<u64>, arrivals: Seq<u64>) -> Seq<u64>
    decreases arrivals.len(),
{
    if arrivals.len() == 0 {
        series
    } else {
        pushed(pushed_all(series, arrivals.drop_last()), arrivals.last())
    }
}

/// The last `CAPACITY` elements of `arrivals`, or all of them if there are
/// fewer, in arrival order.
pub open spec fn most_recent(arrivals: Seq<u64>) -> Seq<u64> {
    if arrivals.len() <= CAPACITY {
        arrivals
    } else {
        arrivals.subrange(arrivals.len() - CAPACITY, arrivals.len() as int)
    }
}

/// The sum of a series.
pub open spec fn total(series: Seq<u64>) -> nat
    decreases series.len(),
{
    if series.len() == 0 {
        0
    } else {
        total(series.drop_last()) + series.last() as nat
    }
}

/// The mean of a series, rounded down; an empty series has none.
pub open spec fn mean(series: Seq<u64>) -> Option<u64> {
    if series.len() == 0 {
        None
    } else {
        Some((total(series) / series.len()) as u64)
    }
}

/// A series of at most `CAPACITY` samples, oldest first.
pub struct RollingSamples {
    items: Vec<u64>,
}

impl View for RollingSamples {
    type V = Seq<u64>;

    closed spec fn view(&self) -> Seq<u64> {
        self.items@
    }
}

impl RollingSamples {
    /// The capacity bound, which every operation keeps.
    pub open spec fn wf(&self) -> bool {
        self@.len() <= CAPACITY
    }

    /// An empty series.
    pub fn new() -> (series: RollingSamples)
        ensures
            series.wf(),
            series@ == Seq::<u64>::empty(),
    {
        RollingSamples { items: Vec::new() }
    }

    /// The number of samples held.
    pub fn len(&self) -> (n: usize)
        ensures
            n == self@.len(),
    {
        self.items.len()
    }

    /// The sample at `index`, counted from the oldest.
    pub fn get(&self, index: usize) -> (sample: Option<u64>)
        ensures
            sample == (if index < self@.len() {
                Some(self@[index as int])
            } else {
                None
            }),
    {
        if index < self.items.len() {
            Some(self.items[index])
        } else {
            None
        }
    }

    /// Appends `sample`; a full series first drops its oldest sample.
    pub fn push(&mut self, sample: u64)
        requires
            old(self).wf(),
        ensures
            final(self).wf(),
            final(self)@ == pushed(old(self)@, sample),
    {
        if self.items.len() >= CAPACITY {
            self.items.remove(0);
        }
        self.items.push(sample);
        assert(self.items@ =~= pushed(old(self).items@, sample));
    }

    /// The samples held, oldest first.
    pub fn to_vec(&self) -> (out: Vec<u64>)
        ensures
            out@ == self@,
    {
        self.items.clone()
    }

    /// The mean of the samples held, rounded down; `None` for an empty
    /// series.
    pub fn average(&self) -> (out: Option<u64>)
        requires
            self.wf(),
        ensures
            out == mean(self@),
    {
        let count: usize = self.items.len();
        if count == 0 {
            return None;
        }
        let mut sum: u128 = 0;
        let mut index: usize = 0;
        while index < count
            invariant
                index <= count,
                count == self.items@.len(),
                count <= CAPACITY,
                sum == total(self.items@.take(index as int)),
            decreases count - index,
        {
            proof {
                let next = self.items@.take(index as int + 1);
                assert(next.drop_last() =~= self.items@.take(index as int));
                lemma_total_bounded(next);
            }
            sum = sum + self.items[index] as u128;
            index = index + 1;
        }
        proof {
            assert(self.items@.take(count as int) =~= self.items@);
            lemma_mean_fits(self.items@);
        }
        Some((sum / (count as u128)) as u64)
    }
}

/// A sum is at most as many times the largest sample as it has terms.
pub proof fn lemma_total_bounded(series: Seq<u64>)
    ensures
        total(series) <= series.len() * u64::MAX,
    decreases series.len(),
{
    if series.len() > 0 {
        lemma_total_bounded(series.drop_last());
        assert(total(series.drop_last()) + series.last() <= series.len() * u64::MAX)
            by (nonlinear_arith)
            requires
                total(series.drop_last()) <= (series.len() - 1) * u64::MAX,
                series.last() <= u64::MAX,
        ;
    }
}

/// The mean of a series is no larger than the largest sample there can be.
pub proof fn lemma_mean_fits(series: Seq<u64>)
    requires
        series.len() > 0,
    ensures
        total(series) / series.len() <= u64::MAX,
{
    lemma_total_bounded(series);
    assert(total(series) / series.len() <= u64::MAX) by (nonlinear_arith)
        requires
            total(series) <= series.len() * u64::MAX,
            series.len() > 0,
    ;
}

/// However many samples arrive, a series that started empty holds exactly
/// the most recent `CAPACITY` of them (all of them while fewer have come),
/// in arrival order; its length is the smaller of the number of arrivals and
/// `CAPACITY`.
pub proof fn lemma_series_holds_most_recent(arrivals: Seq<u64>)
    ensures
        pushed_all(Seq::<u64>::empty(), arrivals) == most_recent(arrivals),
        pushed_all(Seq::<u64>::empty(), arrivals).len() == if arrivals.len() <= CAPACITY {
            arrivals.len()
        } else {
            CAPACITY as nat
        },
    decreases arrivals.len(),
{
    if arrivals.len() > 0 {
        lemma_series_holds_most_recent(arrivals.drop_last());
        assert(pushed(most_recent(arrivals.drop_last()), arrivals.last()) =~= most_recent(
            arrivals,
        ));
    }
}

} // verus!
