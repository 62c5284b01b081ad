//! Single-pole low-pass weight filter.
//!
//! Raw weight readings from the load cell are noisy; the dispense loop
//! feeds them through this filter and uses the smoothed value as its
//! feedback signal.  The filter works in fixed point: weights are
//! thousandths of a unit, frequencies thousandths of a hertz.
//!
//! A single-pole low-pass filter with cutoff frequency `fc` sampled at
//! rate `fs` advances by `state += alpha * (input - state)` with
//! `alpha = k / (k + 1)` where `k = 2*pi*fc/fs`.  Here `k` is held in
//! thousandths as the smoothing numerator `num`, so
//! `alpha = num / (num + 1000)` and the update adds
//! `num * (input - state) / (num + 1000)`, rounded toward zero.

use vstd::arithmetic::div_mod::{
    lemma_div_is_ordered, lemma_div_is_ordered_by_denominator, lemma_div_multiples_vanish,
    lemma_div_pos_is_pos,
};
use vstd::arithmetic::mul::lemma_mul_inequality;
use vstd::prelude::*;

verus! {

/// Largest magnitude, in thousandths of a unit, of any weight the library
/// handles.  Keeps all fixed-point arithmetic far from overflow.
pub const WEIGHT_LIMIT_MILLI: i64 = 1_000_000_000;

/// `2 * pi` in thousandths, used to derive the smoothing factor.
pub const TWO_PI_MILLI: u64 = 6283;

/// The smoothing factor is `num / (num + 1000)`; this is the fixed `1000`.
pub const SMOOTHING_DENOMINATOR_OFFSET: u64 = 1000;

/// Largest smoothing numerator reachable from the admissible rate and
/// cutoff ranges: `2*pi * MAX_CUTOFF / MIN_SAMPLE_RATE` in thousandths.
pub const SMOOTHING_NUMERATOR_LIMIT: u64 = 62_830_000;

/// Slowest admissible sample rate, in thousandths of a hertz (one sample
/// every ten seconds).
pub const MIN_SAMPLE_RATE_MILLIHERTZ: u64 = 100;

/// Fastest admissible sample rate, in thousandths of a hertz (one sample
/// every millisecond).
pub const MAX_SAMPLE_RATE_MILLIHERTZ: u64 = 1_000_000;

/// Smallest admissible cutoff frequency, in thousandths of a hertz.
pub const MIN_CUTOFF_MILLIHERTZ: u64 = 1;

/// Largest admissible cutoff frequency, in thousandths of a hertz.
pub const MAX_CUTOFF_MILLIHERTZ: u64 = 1_000_000;

/// The smoothing numerator derived from a sample rate and a cutoff
/// frequency, both in thousandths of a hertz: `2*pi*fc/fs` in thousandths.
pub open spec fn smoothing_numerator(sample_rate_millihertz: int, cutoff_millihertz: int) -> int {
    TWO_PI_MILLI * cutoff_millihertz / sample_rate_millihertz
}

/// One filter update: the new internal state after feeding `x` into a
/// filter with smoothing numerator `num` and state `state`.  The increment
/// `num * |x - state| / (num + 1000)` is rounded toward zero, so the new
/// state always lies between `state` and `x` inclusive.
pub open spec fn filter_step(num: int, state: int, x: int) -> int {
    if x >= state {
        state + num * (x - state) / (num + SMOOTHING_DENOMINATOR_OFFSET)
    } else {
        state - num * (state - x) / (num + SMOOTHING_DENOMINATOR_OFFSET)
    }
}

/// The filter state after feeding every element of `inputs`, in order,
/// into a filter that started with state `state`.
pub open spec fn filter_state_after(num: int, state: int, inputs: Seq<int>) -> int
    decreases inputs.len(),
{
    if inputs.len() == 0 {
        state
    } else {
        filter_step(num, filter_state_after(num, state, inputs.drop_last()), inputs.last())
    }
}

/// The sequence of filtered values produced by feeding `inputs`, in order,
/// into a filter with smoothing numerator `num` and starting state `state`.
pub open spec fn filter_outputs(num: int, state: int, inputs: Seq<int>) -> Seq<int> {
    Seq::new(inputs.len(), |i: int| filter_state_after(num, state, inputs.take(i + 1)))
}

/// Low-pass filter over weight readings.
///
/// `smoothing_num` is fixed at construction; `state_milli` is the smoothed
/// weight.  A filter must be seeded with a representative starting value
/// (the dispense controller uses a settled median) before its output is
/// used as a feedback signal, since a state far from the true weight
/// biases the output until the filter converges.
pub struct Filter {
    /// Smoothing numerator `k` in thousandths; the smoothing factor is
    /// `k / (k + 1000)`.
    pub smoothing_num: u64,
    /// Current smoothed weight, in thousandths of a unit.
    pub state_milli: i64,
}

impl Filter {
    /// The filter's arithmetic stays in range.
    pub open spec fn wf(self) -> bool {
        &&& self.smoothing_num <= SMOOTHING_NUMERATOR_LIMIT
        &&& -WEIGHT_LIMIT_MILLI <= self.state_milli <= WEIGHT_LIMIT_MILLI
    }

    /// Builds a filter for the given sample rate and cutoff frequency,
    /// both in thousandths of a hertz.  The state starts at zero and must
    /// be seeded before use.
    pub fn new(sample_rate_millihertz: u64, cutoff_millihertz: u64) -> (f: Filter)
        requires
            MIN_SAMPLE_RATE_MILLIHERTZ <= sample_rate_millihertz <= MAX_SAMPLE_RATE_MILLIHERTZ,
            MIN_CUTOFF_MILLIHERTZ <= cutoff_millihertz <= MAX_CUTOFF_MILLIHERTZ,
        ensures
            f.smoothing_num == smoothing_numerator(
                sample_rate_millihertz as int,
                cutoff_millihertz as int,
            ),
            f.state_milli == 0,
            f.wf(),
    {
        proof {
            lemma_div_is_ordered_by_denominator(
                TWO_PI_MILLI * cutoff_millihertz,
                MIN_SAMPLE_RATE_MILLIHERTZ as int,
                sample_rate_millihertz as int,
            );
            lemma_div_is_ordered(
                TWO_PI_MILLI * cutoff_millihertz,
                TWO_PI_MILLI * MAX_CUTOFF_MILLIHERTZ,
                MIN_SAMPLE_RATE_MILLIHERTZ as int,
            );
        }
        let num = TWO_PI_MILLI * cutoff_millihertz / sample_rate_millihertz;
        Filter { smoothing_num: num, state_milli: 0 }
    }

    /// Overwrites the smoothed state with a representative starting
    /// weight, in thousandths of a unit.
    pub fn seed(&mut self, weight_milli: i64)
        requires
            old(self).wf(),
            -WEIGHT_LIMIT_MILLI <= weight_milli <= WEIGHT_LIMIT_MILLI,
        ensures
            final(self).smoothing_num == old(self).smoothing_num,
            final(self).state_milli == weight_milli,
            final(self).wf(),
    {
        self.state_milli = weight_milli;
    }

    /// Feeds one raw reading through the filter and returns the smoothed
    /// weight.  The result is exactly one `filter_step`, and therefore
    /// lies between the previous state and the reading.
    pub fn apply(&mut self, raw_milli: i64) -> (filtered: i64)
        requires
            old(self).wf(),
            -WEIGHT_LIMIT_MILLI <= raw_milli <= WEIGHT_LIMIT_MILLI,
        ensures
            final(self).smoothing_num == old(self).smoothing_num,
            final(self).state_milli == filter_step(
                old(self).smoothing_num as int,
                old(self).state_milli as int,
                raw_milli as int,
            ),
            filtered == final(self).state_milli,
            final(self).wf(),
            old(self).state_milli <= raw_milli ==> old(self).state_milli <= filtered <= raw_milli,
            raw_milli <= old(self).state_milli ==> raw_milli <= filtered <= old(self).state_milli,
    {
        let num = self.smoothing_num;
        let den = num + SMOOTHING_DENOMINATOR_OFFSET;
        if raw_milli >= self.state_milli {
            let diff = (raw_milli - self.state_milli) as u64;
            proof {
                lemma_mul_inequality(num as int, SMOOTHING_NUMERATOR_LIMIT as int, diff as int);
                lemma_mul_inequality(num as int, den as int, diff as int);
                lemma_div_is_ordered(num as int * diff as int, den as int * diff as int, den as int);
                lemma_div_multiples_vanish(diff as int, den as int);
                lemma_div_pos_is_pos(num as int * diff as int, den as int);
            }
            let add = num * diff / den;
            self.state_milli = self.state_milli + add as i64;
        } else {
            let diff = (self.state_milli - raw_milli) as u64;
            proof {
                lemma_mul_inequality(num as int, SMOOTHING_NUMERATOR_LIMIT as int, diff as int);
                lemma_mul_inequality(num as int, den as int, diff as int);
                lemma_div_is_ordered(num as int * diff as int, den as int * diff as int, den as int);
                lemma_div_multiples_vanish(diff as int, den as int);
                lemma_div_pos_is_pos(num as int * diff as int, den as int);
            }
            let sub = num * diff / den;
            self.state_milli = self.state_milli - sub as i64;
        }
        self.state_milli
    }

    /// Feeds a whole sequence of raw readings through the filter, in
    /// order, and returns the smoothed values.  The output is exactly
    /// `filter_outputs` of the starting state and the inputs.
    pub fn apply_all(&mut self, inputs: &Vec<i64>) -> (out: Vec<i64>)
        requires
            old(self).wf(),
            forall|i: int|
                0 <= i < inputs@.len() ==> -WEIGHT_LIMIT_MILLI <= #[trigger] inputs@[i]
                    <= WEIGHT_LIMIT_MILLI,
        ensures
            final(self).smoothing_num == old(self).smoothing_num,
            final(self).wf(),
            out@.len() == inputs@.len(),
            forall|i: int|
                0 <= i < out@.len() ==> #[trigger] out@[i] as int == filter_outputs(
                    old(self).smoothing_num as int,
                    old(self).state_milli as int,
                    inputs@.map_values(|v: i64| v as int),
                )[i],
            final(self).state_milli as int == filter_state_after(
                old(self).smoothing_num as int,
                old(self).state_milli as int,
                inputs@.map_values(|v: i64| v as int),
            ),
    {
        let ghost ins = inputs@.map_values(|v: i64| v as int);
        let ghost num = old(self).smoothing_num as int;
        let ghost start = old(self).state_milli as int;
        let mut out: Vec<i64> = Vec::new();
        let mut k: usize = 0;
        proof {
            assert(ins.take(0) =~= Seq::<int>::empty());
        }
        while k < inputs.len()
            invariant
                0 <= k <= inputs@.len(),
                ins == inputs@.map_values(|v: i64| v as int),
                ins.len() == inputs@.len(),
                self.smoothing_num == old(self).smoothing_num,
                self.wf(),
                self.state_milli as int == filter_state_after(num, start, ins.take(k as int)),
                num == old(self).smoothing_num as int,
                start == old(self).state_milli as int,
                out@.len() == k,
                forall|i: int|
                    0 <= i < k ==> #[trigger] out@[i] as int == filter_state_after(
                        num,
                        start,
                        ins.take(i + 1),
                    ),
                forall|i: int|
                    0 <= i < inputs@.len() ==> -WEIGHT_LIMIT_MILLI <= #[trigger] inputs@[i]
                        <= WEIGHT_LIMIT_MILLI,
            decreases inputs@.len() - k,
        {
            let x = inputs[k];
            proof {
                assert(ins.take(k + 1).drop_last() =~= ins.take(k as int));
                assert(ins.take(k + 1).last() == ins[k as int]);
                assert(ins[k as int] == inputs@[k as int] as int);
            }
            let filtered = self.apply(x);
            out.push(filtered);
            k = k + 1;
        }
        proof {
            assert(forall|i: int|
                0 <= i < out@.len() ==> #[trigger] out@[i] as int == filter_outputs(
                    num,
                    start,
                    ins,
                )[i]);
            assert(ins.take(ins.len() as int) =~= ins);
        }
        out
    }
}

/// One filter step lands between the previous state and the input,
/// inclusive: the smoothing factor is below one and the increment is
/// rounded toward zero.
pub proof fn lemma_filter_step_bounds(num: int, state: int, x: int)
    requires
        0 <= num,
    ensures
        x >= state ==> state <= filter_step(num, state, x) <= x,
        x <= state ==> x <= filter_step(num, state, x) <= state,
{
    let den = num + SMOOTHING_DENOMINATOR_OFFSET;
    if x >= state {
        let diff = x - state;
        lemma_mul_inequality(num, den, diff);
        lemma_div_is_ordered(num * diff, den * diff, den);
        lemma_div_multiples_vanish(diff, den);
        lemma_div_pos_is_pos(num * diff, den);
    } else {
        let diff = state - x;
        lemma_mul_inequality(num, den, diff);
        lemma_div_is_ordered(num * diff, den * diff, den);
        lemma_div_multiples_vanish(diff, den);
        lemma_div_pos_is_pos(num * diff, den);
    }
}

/// Folding from the front: the state after a non-empty input sequence is
/// the state after first taking one step on the leading input and then
/// folding the rest.
pub proof fn lemma_filter_state_after_step(num: int, state: int, inputs: Seq<int>)
    requires
        inputs.len() > 0,
    ensures
        filter_state_after(num, state, inputs) == filter_state_after(
            num,
            filter_step(num, state, inputs[0]),
            inputs.drop_first(),
        ),
    decreases inputs.len(),
{
    let s1 = filter_step(num, state, inputs[0]);
    if inputs.len() == 1 {
        assert(inputs.drop_last() =~= Seq::<int>::empty());
        assert(inputs.drop_first() =~= Seq::<int>::empty());
        assert(filter_state_after(num, state, inputs.drop_last()) == state);
        assert(inputs.last() == inputs[0]);
        assert(filter_state_after(num, state, inputs) == s1);
        assert(filter_state_after(num, s1, inputs.drop_first()) == s1);
    } else {
        let dl = inputs.drop_last();
        let df = inputs.drop_first();
        lemma_filter_state_after_step(num, state, dl);
        assert(dl[0] == inputs[0]);
        assert(dl.drop_first() =~= df.drop_last());
        assert(df.last() == inputs.last());
        assert(filter_state_after(num, state, inputs) == filter_step(
            num,
            filter_state_after(num, state, dl),
            inputs.last(),
        ));
        assert(df.len() > 0);
        assert(filter_state_after(num, s1, df) == filter_step(
            num,
            filter_state_after(num, s1, df.drop_last()),
            df.last(),
        ));
        assert(filter_state_after(num, state, dl) == filter_state_after(num, s1, dl.drop_first()));
    }
}

/// The first filtered output is one step on the first input, and the
/// outputs after it are the outputs of the advanced filter on the
/// remaining inputs.
pub proof fn lemma_filter_outputs_shift(num: int, state: int, inputs: Seq<int>)
    requires
        inputs.len() > 0,
    ensures
        filter_outputs(num, state, inputs)[0] == filter_step(num, state, inputs[0]),
        forall|i: int|
            0 <= i < inputs.len() - 1 ==> #[trigger] filter_outputs(
                num,
                filter_step(num, state, inputs[0]),
                inputs.drop_first(),
            )[i] == filter_outputs(num, state, inputs)[i + 1],
{
    assert(filter_outputs(num, state, inputs)[0] == filter_state_after(num, state, inputs.take(1)));
    assert(inputs.take(1).drop_last() =~= Seq::<int>::empty());
    assert(inputs.take(1).last() == inputs[0]);
    assert(filter_state_after(num, state, inputs.take(1).drop_last()) == state);
    assert(filter_state_after(num, state, inputs.take(1)) == filter_step(num, state, inputs[0]));
    assert forall|i: int| 0 <= i < inputs.len() - 1 implies #[trigger] filter_outputs(
        num,
        filter_step(num, state, inputs[0]),
        inputs.drop_first(),
    )[i] == filter_outputs(num, state, inputs)[i + 1] by {
        lemma_filter_state_after_step(num, state, inputs.take(i + 2));
        assert(inputs.take(i + 2)[0] == inputs[0]);
        assert(inputs.take(i + 2).drop_first() =~= inputs.drop_first().take(i + 1));
    }
}

/// The filter is deterministic and idempotent to re-construction: two
/// filters built with the same smoothing parameter and seeded with the
/// same starting state produce identical output sequences when fed the
/// same inputs.
pub proof fn lemma_filter_determinism(
    num1: int,
    state1: int,
    num2: int,
    state2: int,
    inputs: Seq<int>,
)
    requires
        num1 == num2,
        state1 == state2,
    ensures
        filter_outputs(num1, state1, inputs) == filter_outputs(num2, state2, inputs),
{
}

} // verus!
