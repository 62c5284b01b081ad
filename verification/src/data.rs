//! Time series of filtered weight samples, and scale trial requests.

use crate::errors::AppError;
use crate::filter::{
    smoothing_numerator, Filter, MAX_CUTOFF_MILLIHERTZ, MIN_CUTOFF_MILLIHERTZ,
};
use vstd::arithmetic::div_mod::lemma_div_is_ordered_by_denominator;
use vstd::prelude::*;

verus! {

/// The sample times are strictly increasing from one entry to the next.
pub open spec fn times_strictly_increasing(times: Seq<u64>) -> bool {
    forall|i: int| 0 <= i && i + 1 < times.len() ==> #[trigger] times[i] < times[i + 1]
}

/// An ordered, capacity-bounded series of `(elapsed time, filtered
/// weight)` pairs, appended to by an in-progress dispense run and handed
/// to the caller at completion.  Times are milliseconds since the run's
/// feed loop began; readings are thousandths of a unit.
pub struct Data {
    /// Elapsed time of each sample, strictly increasing.
    pub times_ms: Vec<u64>,
    /// Filtered weight of each sample, index-aligned with `times_ms`.
    pub readings_milli: Vec<i64>,
    /// Fixed bound on the number of samples; appends beyond it are
    /// dropped.
    pub capacity: usize,
}

impl Data {
    /// The two columns are index-aligned, within capacity, and in
    /// strictly increasing time order.
    pub open spec fn wf(self) -> bool {
        &&& self.times_ms@.len() == self.readings_milli@.len()
        &&& self.times_ms@.len() <= self.capacity
        &&& times_strictly_increasing(self.times_ms@)
    }

    /// The time of the most recent sample.
    pub open spec fn last_time_spec(self) -> int {
        self.times_ms@.last() as int
    }

    /// Creates an empty series with the given capacity.
    pub fn new(capacity: usize) -> (d: Data)
        ensures
            d.times_ms@.len() == 0,
            d.readings_milli@.len() == 0,
            d.capacity == capacity,
            d.wf(),
    {
        Data { times_ms: Vec::new(), readings_milli: Vec::new(), capacity }
    }

    /// The number of samples recorded so far.
    pub fn len(&self) -> (n: usize)
        requires
            self.wf(),
        ensures
            n == self.times_ms@.len(),
    {
        self.times_ms.len()
    }

    /// Appends one sample.  The time must lie strictly after the last
    /// recorded sample.  When the series is at capacity the sample is
    /// dropped and the series is unchanged; the result says whether the
    /// sample was stored.
    pub fn push(&mut self, time_ms: u64, weight_milli: i64) -> (stored: bool)
        requires
            old(self).wf(),
            old(self).times_ms@.len() > 0 ==> time_ms > old(self).last_time_spec(),
        ensures
            final(self).capacity == old(self).capacity,
            final(self).wf(),
            stored == (old(self).times_ms@.len() < old(self).capacity),
            stored ==> final(self).times_ms@ == old(self).times_ms@.push(time_ms)
                && final(self).readings_milli@ == old(self).readings_milli@.push(weight_milli),
            !stored ==> final(self).times_ms@ == old(self).times_ms@
                && final(self).readings_milli@ == old(self).readings_milli@,
    {
        if self.times_ms.len() < self.capacity {
            self.times_ms.push(time_ms);
            self.readings_milli.push(weight_milli);
            proof {
                assert forall|i: int| 0 <= i && i + 1 < self.times_ms@.len() implies #[trigger] self
                    .times_ms@[i] < self.times_ms@[i + 1] by {
                    if i + 2 < self.times_ms@.len() {
                        assert(self.times_ms@[i] == old(self).times_ms@[i]);
                        assert(self.times_ms@[i + 1] == old(self).times_ms@[i + 1]);
                    } else {
                        assert(self.times_ms@[i] == old(self).times_ms@.last());
                    }
                }
            }
            true
        } else {
            false
        }
    }

    /// Removes the leading sample, used to discard a trial's first,
    /// unsettled reading.  An empty series is left unchanged.
    pub fn drop_first(&mut self)
        requires
            old(self).wf(),
        ensures
            final(self).capacity == old(self).capacity,
            final(self).wf(),
            old(self).times_ms@.len() == 0 ==> final(self).times_ms@ == old(self).times_ms@
                && final(self).readings_milli@ == old(self).readings_milli@,
            old(self).times_ms@.len() > 0 ==> final(self).times_ms@ == old(
                self,
            ).times_ms@.subrange(1, old(self).times_ms@.len() as int)
                && final(self).readings_milli@ == old(self).readings_milli@.subrange(
                1,
                old(self).readings_milli@.len() as int,
            ),
    {
        if self.times_ms.len() > 0 {
            self.times_ms.remove(0);
            self.readings_milli.remove(0);
            proof {
                assert(self.times_ms@ =~= old(self).times_ms@.subrange(
                    1,
                    old(self).times_ms@.len() as int,
                ));
                assert(self.readings_milli@ =~= old(self).readings_milli@.subrange(
                    1,
                    old(self).readings_milli@.len() as int,
                ));
            }
        }
    }
}

/// The kind of measurement a caller asks the scale layer to run.
#[derive(Clone, Copy, Debug, PartialEq, Eq, Structural)]
pub enum TestType {
    /// Low-pass-filtered weight samples.
    Filtered,
    /// Raw instantaneous weight samples.
    Raw,
    /// Median weight samples.
    Median,
    /// A full dispense run; not served by the trial path.
    Dispense,
}

/// How a trial's samples are to be produced: raw, median, or pushed
/// through a freshly built low-pass filter.
pub enum TrialPlan {
    /// Take raw readings.
    Raw,
    /// Take median readings.
    Median,
    /// Push readings through this filter.
    Filtered(Filter),
}

/// A request for a series of weight measurements from the scale.
pub struct DataRequest {
    /// Which kind of measurement to run.
    pub trial: TestType,
    /// How many samples to take.
    pub samples: usize,
    /// Time between samples, in milliseconds.
    pub sample_period_ms: u64,
    /// Cutoff frequency in thousandths of a hertz; required by filtered
    /// trials, ignored by the others.
    pub cutoff_frequency_millihertz: Option<u64>,
}

impl DataRequest {
    /// Decides how the requested trial is to be conducted.  A filtered
    /// trial needs a cutoff frequency and gets a filter built for this
    /// request's sample rate; a dispense cannot be run through the trial
    /// path.
    pub fn plan(&self) -> (r: Result<TrialPlan, AppError>)
        requires
            1 <= self.sample_period_ms <= 10_000,
            self.cutoff_frequency_millihertz matches Some(c) ==> MIN_CUTOFF_MILLIHERTZ <= c
                <= MAX_CUTOFF_MILLIHERTZ,
        ensures
            self.trial == TestType::Raw ==> r == Ok::<TrialPlan, AppError>(TrialPlan::Raw),
            self.trial == TestType::Median ==> r == Ok::<TrialPlan, AppError>(TrialPlan::Median),
            self.trial == TestType::Dispense ==> r == Err::<TrialPlan, AppError>(
                AppError::NotImplemented,
            ),
            self.trial == TestType::Filtered ==> match self.cutoff_frequency_millihertz {
                None => r == Err::<TrialPlan, AppError>(AppError::MissingCutoff),
                Some(c) => r matches Ok(p) && p matches TrialPlan::Filtered(f) && f.wf()
                    && f.state_milli == 0 && f.smoothing_num == smoothing_numerator(
                    (1_000_000u64 / self.sample_period_ms) as int,
                    c as int,
                ),
            },
    {
        match self.trial {
            TestType::Raw => Ok(TrialPlan::Raw),
            TestType::Median => Ok(TrialPlan::Median),
            TestType::Filtered => {
                match self.cutoff_frequency_millihertz {
                    None => Err(AppError::MissingCutoff),
                    Some(cutoff) => {
                        let sample_rate = 1_000_000 / self.sample_period_ms;
                        proof {
                            lemma_div_is_ordered_by_denominator(
                                1_000_000,
                                self.sample_period_ms as int,
                                10_000,
                            );
                            lemma_div_is_ordered_by_denominator(
                                1_000_000,
                                1,
                                self.sample_period_ms as int,
                            );
                        }
                        let f = Filter::new(sample_rate, cutoff);
                        Ok(TrialPlan::Filtered(f))
                    },
                }
            },
            TestType::Dispense => Err(AppError::NotImplemented),
        }
    }
}

/// A request for per-load-cell raw readings across the scale's four
/// cells; conducted by the device layer, which then discards each
/// series' first, unsettled sample.
pub struct LoadCellDataRequest {
    /// How many samples to take from each cell.
    pub samples: usize,
    /// Time between samples, in milliseconds.
    pub sample_period_ms: u64,
}

} // verus!
