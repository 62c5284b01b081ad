//! Run-level guarantees of the dispense controller.
//!
//! The controller's executable functions are each specified as exactly
//! one ghost step (`spec_feed_tick`, `spec_confirm`).  This module folds
//! those steps over whole input sequences and proves what every run
//! satisfies: the feed loop stops at the first threshold crossing and
//! nowhere else, a run never performs more than `RETRY_CAP` confirmation
//! cycles, and a run that never reaches the threshold ends at the first
//! tick past the timeout with a non-empty series reaching at most one
//! period past it.

use crate::dispenser::{
    spec_confirm, spec_feed_tick, stop_threshold_milli, DispModel, Phase, TickStatus, DATA_CAPACITY,
    RETRY_CAP,
};
use crate::filter::{
    filter_outputs, filter_step, lemma_filter_outputs_shift, lemma_filter_step_bounds,
    WEIGHT_LIMIT_MILLI,
};
use vstd::prelude::*;

verus! {

/// One feed-loop input: the elapsed time at the tick and the raw weight
/// read at it.
pub ghost struct TickInput {
    /// Milliseconds since the baseline.
    pub elapsed: int,
    /// Raw weight reading, in thousandths of a unit.
    pub raw: int,
}

/// The raw readings of a tick sequence.
pub open spec fn tick_raws(ticks: Seq<TickInput>) -> Seq<int> {
    ticks.map_values(|t: TickInput| t.raw)
}

/// The filtered weight at each tick, were the whole sequence fed from
/// model `m`.
pub open spec fn feed_filtered(m: DispModel, ticks: Seq<TickInput>) -> Seq<int> {
    filter_outputs(m.smoothing_num, m.filter_state, tick_raws(ticks))
}

/// A tick sequence the feed loop could observe from model `m`: readings
/// in range and times strictly increasing, starting after the last
/// processed tick.
pub open spec fn ticks_admissible(m: DispModel, ticks: Seq<TickInput>) -> bool {
    &&& forall|i: int|
        0 <= i < ticks.len() ==> -WEIGHT_LIMIT_MILLI <= #[trigger] ticks[i].raw
            <= WEIGHT_LIMIT_MILLI
    &&& ticks.len() > 0 ==> ticks[0].elapsed > m.last_elapsed
    &&& forall|i: int|
        0 <= i && i + 1 < ticks.len() ==> #[trigger] ticks[i].elapsed < ticks[i + 1].elapsed
}

/// The tick times advance by at most `period` at a time from `m`'s last
/// processed tick: no ticks are missed.
pub open spec fn ticks_gap_bounded(m: DispModel, ticks: Seq<TickInput>, period: int) -> bool {
    &&& ticks.len() > 0 ==> ticks[0].elapsed <= m.last_elapsed + period
    &&& forall|i: int|
        0 <= i && i + 1 < ticks.len() ==> #[trigger] ticks[i + 1].elapsed <= ticks[i].elapsed
            + period
}

/// Where a fold of the feed loop ended.
pub ghost struct FeedRun {
    /// The model when the loop stopped or the inputs ran out.
    pub m: DispModel,
    /// `Proceed` if the inputs ran out, otherwise the stopping status.
    pub status: TickStatus,
    /// How many ticks were processed.
    pub used: int,
}

/// Folds `spec_feed_tick` over the ticks until one of them stops the
/// loop or the inputs run out.
pub open spec fn run_feed(m: DispModel, ticks: Seq<TickInput>) -> FeedRun
    decreases ticks.len(),
{
    if ticks.len() == 0 {
        FeedRun { m, status: TickStatus::Proceed, used: 0 }
    } else {
        let step = spec_feed_tick(m, ticks[0].elapsed, ticks[0].raw);
        if step.status == TickStatus::Proceed {
            let rest = run_feed(step.m, ticks.drop_first());
            FeedRun { m: rest.m, status: rest.status, used: 1 + rest.used }
        } else {
            FeedRun { m: step.m, status: step.status, used: 1 }
        }
    }
}

/// One feed tick preserves the model invariant, and the parts of the
/// model a tick never touches stay as they were.
pub proof fn lemma_feed_tick_preserves_wf(m: DispModel, elapsed: int, raw: int)
    requires
        m.wf(),
        m.phase == Phase::Feeding,
        elapsed > m.last_elapsed,
        -WEIGHT_LIMIT_MILLI <= raw <= WEIGHT_LIMIT_MILLI,
    ensures
        spec_feed_tick(m, elapsed, raw).m.wf(),
        spec_feed_tick(m, elapsed, raw).m.settings == m.settings,
        spec_feed_tick(m, elapsed, raw).m.starting == m.starting,
        spec_feed_tick(m, elapsed, raw).m.smoothing_num == m.smoothing_num,
        spec_feed_tick(m, elapsed, raw).m.checks >= m.checks,
        spec_feed_tick(m, elapsed, raw).m.last_elapsed == elapsed,
        spec_feed_tick(m, elapsed, raw).m.filter_state == filter_step(
            m.smoothing_num,
            m.filter_state,
            raw,
        ),
        spec_feed_tick(m, elapsed, raw).m.times.len() > 0,
        spec_feed_tick(m, elapsed, raw).m.times.last() <= elapsed,
{
    lemma_filter_step_bounds(m.smoothing_num, m.filter_state, raw);
    let step = spec_feed_tick(m, elapsed, raw);
    if m.times.len() < DATA_CAPACITY {
        assert forall|i: int| 0 <= i && i + 1 < step.m.times.len() implies #[trigger] step
            .m
            .times[i] < step.m.times[i + 1] by {
            if i + 2 < step.m.times.len() {
                assert(step.m.times[i] == m.times[i]);
                assert(step.m.times[i + 1] == m.times[i + 1]);
            } else {
                assert(step.m.times[i] == m.times[m.times.len() - 1]);
                assert(step.m.times[i + 1] == elapsed);
            }
        }
        assert forall|i: int| 0 <= i < step.m.times.len() implies 0 <= #[trigger] step
            .m
            .times[i] by {
            if i + 1 < step.m.times.len() {
                assert(step.m.times[i] == m.times[i]);
            }
        }
    } else {
        assert(step.m.times.last() <= m.last_elapsed);
    }
}

/// One confirmation preserves the model invariant, and the series, the
/// baseline, and the check count are untouched.
pub proof fn lemma_confirm_preserves_wf(m: DispModel, median: int)
    requires
        m.wf(),
        m.phase == Phase::AwaitConfirmation,
        -WEIGHT_LIMIT_MILLI <= median <= WEIGHT_LIMIT_MILLI,
    ensures
        spec_confirm(m, median).m.wf(),
        spec_confirm(m, median).m.settings == m.settings,
        spec_confirm(m, median).m.starting == m.starting,
        spec_confirm(m, median).m.checks == m.checks,
        spec_confirm(m, median).m.times == m.times,
        spec_confirm(m, median).m.readings == m.readings,
{
}

/// Stop-threshold correctness: fed an admissible tick sequence whose
/// times stay within the timeout, the feed loop stops and asks for a
/// confirmation at exactly the first tick whose filtered weight is at or
/// below the stop threshold — `k + 1` ticks are consumed, one
/// stop-and-confirm cycle is begun, and no earlier tick stops the loop.
pub proof fn lemma_stop_at_first_crossing(m: DispModel, ticks: Seq<TickInput>, k: int)
    requires
        m.wf(),
        m.phase == Phase::Feeding,
        ticks_admissible(m, ticks),
        forall|i: int|
            0 <= i < ticks.len() ==> #[trigger] ticks[i].elapsed <= m.settings.timeout_ms,
        0 <= k < ticks.len(),
        feed_filtered(m, ticks)[k] <= stop_threshold_milli(m.settings, m.starting),
        forall|i: int|
            0 <= i < k ==> #[trigger] feed_filtered(m, ticks)[i] > stop_threshold_milli(
                m.settings,
                m.starting,
            ),
    ensures
        run_feed(m, ticks).status == TickStatus::ConfirmRequested,
        run_feed(m, ticks).used == k + 1,
        run_feed(m, ticks).m.phase == Phase::AwaitConfirmation,
        run_feed(m, ticks).m.checks == m.checks + 1,
        run_feed(m, ticks).m.wf(),
    decreases ticks.len(),
{
    let step = spec_feed_tick(m, ticks[0].elapsed, ticks[0].raw);
    let filtered0 = filter_step(m.smoothing_num, m.filter_state, ticks[0].raw);
    lemma_feed_tick_preserves_wf(m, ticks[0].elapsed, ticks[0].raw);
    lemma_filter_outputs_shift(m.smoothing_num, m.filter_state, tick_raws(ticks));
    assert(tick_raws(ticks)[0] == ticks[0].raw);
    assert(feed_filtered(m, ticks)[0] == filtered0);
    if k == 0 {
        assert(step.status == TickStatus::ConfirmRequested);
    } else {
        assert(feed_filtered(m, ticks)[0] > stop_threshold_milli(m.settings, m.starting));
        assert(step.status == TickStatus::Proceed);
        let rest_ticks = ticks.drop_first();
        assert(tick_raws(rest_ticks) =~= tick_raws(ticks).drop_first());
        assert(ticks_admissible(step.m, rest_ticks)) by {
            assert forall|i: int| 0 <= i && i + 1 < rest_ticks.len() implies #[trigger] rest_ticks[i].elapsed
                < rest_ticks[i + 1].elapsed by {
                assert(rest_ticks[i] == ticks[i + 1]);
                assert(rest_ticks[i + 1] == ticks[i + 2]);
            }
            assert forall|i: int| 0 <= i < rest_ticks.len() implies -WEIGHT_LIMIT_MILLI
                <= #[trigger] rest_ticks[i].raw <= WEIGHT_LIMIT_MILLI by {
                assert(rest_ticks[i] == ticks[i + 1]);
            }
        }
        assert forall|i: int| 0 <= i < rest_ticks.len() implies #[trigger] rest_ticks[i].elapsed
            <= step.m.settings.timeout_ms by {
            assert(rest_ticks[i] == ticks[i + 1]);
        }
        assert(feed_filtered(step.m, rest_ticks)[k - 1] <= stop_threshold_milli(
            step.m.settings,
            step.m.starting,
        )) by {
            assert(feed_filtered(step.m, rest_ticks)[k - 1] == feed_filtered(m, ticks)[k]);
        }
        assert forall|i: int| 0 <= i < k - 1 implies #[trigger] feed_filtered(
            step.m,
            rest_ticks,
        )[i] > stop_threshold_milli(step.m.settings, step.m.starting) by {
            assert(feed_filtered(step.m, rest_ticks)[i] == feed_filtered(m, ticks)[i + 1]);
        }
        lemma_stop_at_first_crossing(step.m, rest_ticks, k - 1);
    }
}

/// Timeout partiality: fed an admissible tick sequence with no missed
/// ticks whose filtered weights never reach the stop threshold, the feed
/// loop ends as `TimedOut` at the first tick past the timeout, and the
/// recorded series is non-empty with its last elapsed time at most the
/// timeout plus one tick period.
pub proof fn lemma_timeout_partial(m: DispModel, ticks: Seq<TickInput>, k: int)
    requires
        m.wf(),
        m.phase == Phase::Feeding,
        ticks_admissible(m, ticks),
        ticks_gap_bounded(m, ticks, m.settings.sample_period_ms as int),
        m.last_elapsed <= m.settings.timeout_ms,
        forall|i: int|
            0 <= i < ticks.len() ==> #[trigger] feed_filtered(m, ticks)[i] > stop_threshold_milli(
                m.settings,
                m.starting,
            ),
        0 <= k < ticks.len(),
        ticks[k].elapsed > m.settings.timeout_ms,
        forall|i: int| 0 <= i < k ==> #[trigger] ticks[i].elapsed <= m.settings.timeout_ms,
    ensures
        run_feed(m, ticks).status == TickStatus::TimedOut,
        run_feed(m, ticks).used == k + 1,
        run_feed(m, ticks).m.phase == Phase::Done,
        run_feed(m, ticks).m.wf(),
        run_feed(m, ticks).m.times.len() > 0,
        run_feed(m, ticks).m.times.last() <= m.settings.timeout_ms
            + m.settings.sample_period_ms,
    decreases ticks.len(),
{
    let step = spec_feed_tick(m, ticks[0].elapsed, ticks[0].raw);
    let filtered0 = filter_step(m.smoothing_num, m.filter_state, ticks[0].raw);
    lemma_feed_tick_preserves_wf(m, ticks[0].elapsed, ticks[0].raw);
    lemma_filter_outputs_shift(m.smoothing_num, m.filter_state, tick_raws(ticks));
    assert(tick_raws(ticks)[0] == ticks[0].raw);
    assert(feed_filtered(m, ticks)[0] == filtered0);
    assert(filtered0 > stop_threshold_milli(m.settings, m.starting));
    if k == 0 {
        assert(step.status == TickStatus::TimedOut);
        assert(step.m.times.last() <= ticks[0].elapsed);
        assert(ticks[0].elapsed <= m.last_elapsed + m.settings.sample_period_ms);
    } else {
        assert(ticks[0].elapsed <= m.settings.timeout_ms);
        assert(step.status == TickStatus::Proceed);
        let rest_ticks = ticks.drop_first();
        assert(tick_raws(rest_ticks) =~= tick_raws(ticks).drop_first());
        assert(ticks_admissible(step.m, rest_ticks)) by {
            assert forall|i: int| 0 <= i && i + 1 < rest_ticks.len() implies #[trigger] rest_ticks[i].elapsed
                < rest_ticks[i + 1].elapsed by {
                assert(rest_ticks[i] == ticks[i + 1]);
                assert(rest_ticks[i + 1] == ticks[i + 2]);
            }
            assert forall|i: int| 0 <= i < rest_ticks.len() implies -WEIGHT_LIMIT_MILLI
                <= #[trigger] rest_ticks[i].raw <= WEIGHT_LIMIT_MILLI by {
                assert(rest_ticks[i] == ticks[i + 1]);
            }
        }
        assert(ticks_gap_bounded(step.m, rest_ticks, step.m.settings.sample_period_ms as int)) by {
            assert forall|i: int| 0 <= i && i + 1 < rest_ticks.len() implies #[trigger] rest_ticks[i
                + 1].elapsed <= rest_ticks[i].elapsed + step.m.settings.sample_period_ms by {
                assert(rest_ticks[i] == ticks[i + 1]);
                assert(rest_ticks[i + 1] == ticks[i + 2]);
            }
            if rest_ticks.len() > 0 {
                assert(rest_ticks[0] == ticks[1]);
            }
        }
        assert forall|i: int| 0 <= i < rest_ticks.len() implies #[trigger] feed_filtered(
            step.m,
            rest_ticks,
        )[i] > stop_threshold_milli(step.m.settings, step.m.starting) by {
            assert(feed_filtered(step.m, rest_ticks)[i] == feed_filtered(m, ticks)[i + 1]);
        }
        assert(rest_ticks[k - 1] == ticks[k]);
        assert forall|i: int| 0 <= i < k - 1 implies #[trigger] rest_ticks[i].elapsed
            <= step.m.settings.timeout_ms by {
            assert(rest_ticks[i] == ticks[i + 1]);
        }
        lemma_timeout_partial(step.m, rest_ticks, k - 1);
    }
}

/// One event a run can process after its baseline: a feed tick or a
/// confirmation median.
pub ghost enum DispenseEvent {
    /// A feed tick at this elapsed time with this raw reading.
    Tick {
        /// Milliseconds since the baseline.
        elapsed: int,
        /// Raw weight reading, in thousandths of a unit.
        raw: int,
    },
    /// A settled confirmation median.
    Confirm {
        /// Median weight, in thousandths of a unit.
        median: int,
    },
}

/// Whether the event is one the controller would accept in this state:
/// events of the wrong phase, stale tick times, or out-of-range weights
/// cannot be handed to it.
pub open spec fn event_applies(m: DispModel, ev: DispenseEvent) -> bool {
    match ev {
        DispenseEvent::Tick { elapsed, raw } => m.phase == Phase::Feeding && elapsed
            > m.last_elapsed && -WEIGHT_LIMIT_MILLI <= raw <= WEIGHT_LIMIT_MILLI,
        DispenseEvent::Confirm { median } => m.phase == Phase::AwaitConfirmation
            && -WEIGHT_LIMIT_MILLI <= median <= WEIGHT_LIMIT_MILLI,
    }
}

/// The model after one event; an event the controller would not accept
/// changes nothing.
pub open spec fn spec_event_step(m: DispModel, ev: DispenseEvent) -> DispModel {
    if !event_applies(m, ev) {
        m
    } else {
        match ev {
            DispenseEvent::Tick { elapsed, raw } => spec_feed_tick(m, elapsed, raw).m,
            DispenseEvent::Confirm { median } => spec_confirm(m, median).m,
        }
    }
}

/// Where a fold of a whole event sequence ended.
pub ghost struct EventRun {
    /// The model after all events.
    pub m: DispModel,
    /// How many confirmations were processed.
    pub confirms: int,
}

/// Folds `spec_event_step` over an event sequence, counting the
/// confirmations the controller processed.
pub open spec fn run_events(m: DispModel, evs: Seq<DispenseEvent>) -> EventRun
    decreases evs.len(),
{
    if evs.len() == 0 {
        EventRun { m, confirms: 0 }
    } else {
        let counted: int = if event_applies(m, evs[0]) && evs[0] is Confirm {
            1
        } else {
            0
        };
        let rest = run_events(spec_event_step(m, evs[0]), evs.drop_first());
        EventRun { m: rest.m, confirms: counted + rest.confirms }
    }
}

/// Every event sequence keeps the model well formed, and the
/// confirmations it can still perform are bounded by the retries left.
pub proof fn lemma_event_run_bound(m: DispModel, evs: Seq<DispenseEvent>)
    requires
        m.wf(),
    ensures
        run_events(m, evs).m.wf(),
        run_events(m, evs).confirms <= RETRY_CAP - m.checks + (if m.phase
            == Phase::AwaitConfirmation {
            1int
        } else {
            0int
        }),
    decreases evs.len(),
{
    if evs.len() > 0 {
        let next = spec_event_step(m, evs[0]);
        if event_applies(m, evs[0]) {
            match evs[0] {
                DispenseEvent::Tick { elapsed, raw } => {
                    lemma_feed_tick_preserves_wf(m, elapsed, raw);
                },
                DispenseEvent::Confirm { median } => {
                    lemma_confirm_preserves_wf(m, median);
                },
            }
        }
        lemma_event_run_bound(next, evs.drop_first());
    }
}

/// Retry cap: from the start of a run (no stop-and-confirm cycle yet
/// performed), no sequence of ticks and confirmations ever makes the
/// controller process more than `RETRY_CAP` confirmation attempts —
/// repeated over-threshold confirmations end the run as complete instead
/// of looping.
pub proof fn lemma_retry_cap(m: DispModel, evs: Seq<DispenseEvent>)
    requires
        m.wf(),
        m.checks == 0,
    ensures
        run_events(m, evs).confirms <= RETRY_CAP,
        run_events(m, evs).m.wf(),
{
    lemma_event_run_bound(m, evs);
}

} // verus!
