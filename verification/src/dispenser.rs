//! The closed-loop dispense controller.
//!
//! A dispense run delivers a target mass of material onto the scale.  The
//! controller owns the scale handle and a motor handle for the whole run
//! and works as a state machine: the surrounding program performs the
//! device I/O — it sets velocities, issues moves, stops the motor, reads
//! the scale, and waits out the tick period — and hands each reading to
//! the controller, which decides everything.
//!
//! The run proceeds in phases.  After `start` the program lets mechanical
//! noise settle (`SETTLE_MS`) with the motor already moving at its
//! starting velocity, then measures a settled median weight and hands it
//! to `set_baseline`, which records the starting weight and seeds the
//! filter with it.  Each sample tick the program reads the instantaneous
//! weight and calls `feed_tick`: the reading is filtered and recorded,
//! the velocity is retargeted proportionally (rate-limited to one update
//! per `SPEED_UPDATE_PERIOD_MS`), and the stop logic runs.  When the
//! filtered weight falls to the stop threshold — the starting weight
//! less the target and the check offset, the offset being a safety
//! margin against filter lag — the controller asks for an abrupt stop
//! and a settled confirmation median (`confirm`).  A confirmation at or
//! below the target threshold, or the bounded-retry cap, completes the
//! run; otherwise feeding resumes with a freshly seeded filter.  A tick
//! past the timeout ends the run as a timed-out partial result rather
//! than an error.
//!
//! Every transition is specified exactly by a ghost-level step function
//! (`spec_feed_tick`, `spec_confirm`) over the controller's abstract
//! model, so the run-level guarantees — first-crossing stop, the retry
//! cap, timeout partiality — are proved once about the model and carried
//! by the executable contracts.

use crate::data::Data;
use crate::filter::{
    filter_step, smoothing_numerator, Filter, MAX_CUTOFF_MILLIHERTZ, MIN_CUTOFF_MILLIHERTZ,
    SMOOTHING_NUMERATOR_LIMIT, WEIGHT_LIMIT_MILLI,
};
use crate::state::{MotorHandle, ScaleHandle};
use vstd::arithmetic::div_mod::{lemma_div_is_ordered, lemma_div_is_ordered_by_denominator};
use vstd::arithmetic::mul::lemma_mul_inequality;
use vstd::prelude::*;

verus! {

/// Longest admissible sample period, in milliseconds.
pub const MAX_SAMPLE_PERIOD_MS: u64 = 10_000;

/// Longest admissible timeout, in milliseconds.
pub const MAX_TIMEOUT_MS: u64 = 1_000_000_000;

/// Largest admissible velocity, in thousandths of a unit per second.
pub const VELOCITY_LIMIT_MILLI: i64 = 1_000_000;

/// Samples a run can record before further appends are dropped.
pub const DATA_CAPACITY: usize = 10_000;

/// Settle wait after the motor first starts, before the baseline is
/// measured, in milliseconds; lets button and spin-up noise die down.
pub const SETTLE_MS: u64 = 2_000;

/// Minimum wall-clock gap between velocity retargetings, in milliseconds.
pub const SPEED_UPDATE_PERIOD_MS: u64 = 25;

/// Relative-move distance re-issued to keep the motor fed with queued
/// travel, in thousandths of a unit.  A tunable, not a protocol value.
pub const FEED_MOVE_MILLI: i64 = 1_000_000;

/// Number of median samples for the baseline and confirmation batches.
pub const MEDIAN_SAMPLES: usize = 10;

/// Most stop-and-confirm cycles a run performs before it completes with
/// whatever weight was delivered.
pub const RETRY_CAP: u64 = 3;

/// Immutable parameters of one dispense run.  Weights and velocities are
/// thousandths of a unit, frequencies thousandths of a hertz, durations
/// milliseconds.
#[derive(Clone, Copy, Debug, PartialEq, Eq, Structural)]
pub struct DispenseSettings {
    /// Time between weight samples.
    pub sample_period_ms: u64,
    /// Low-pass cutoff frequency for the weight filter.
    pub cutoff_frequency_millihertz: u64,
    /// Safety margin added to the target when deciding to stop early.
    pub check_offset_milli: i64,
    /// Mass to deliver.
    pub target_weight_milli: i64,
    /// Fastest feed velocity.
    pub max_velocity_milli: i64,
    /// Slowest feed velocity.
    pub min_velocity_milli: i64,
    /// Elapsed time after which the run ends as a partial result.
    pub timeout_ms: u64,
}

impl DispenseSettings {
    /// The admissible parameter ranges: the invariants the data model
    /// asks for (positive period and target, ordered velocities) plus
    /// the fixed-point machine limits.
    pub open spec fn wf(self) -> bool {
        &&& 1 <= self.sample_period_ms <= MAX_SAMPLE_PERIOD_MS
        &&& MIN_CUTOFF_MILLIHERTZ <= self.cutoff_frequency_millihertz <= MAX_CUTOFF_MILLIHERTZ
        &&& 0 <= self.check_offset_milli <= WEIGHT_LIMIT_MILLI
        &&& 1 <= self.target_weight_milli <= WEIGHT_LIMIT_MILLI
        &&& 0 <= self.min_velocity_milli
        &&& self.min_velocity_milli <= self.max_velocity_milli
        &&& self.max_velocity_milli <= VELOCITY_LIMIT_MILLI
        &&& self.timeout_ms <= MAX_TIMEOUT_MS
    }

    /// The sample rate these settings imply, in thousandths of a hertz.
    pub open spec fn sample_rate_millihertz(self) -> int {
        1_000_000int / self.sample_period_ms as int
    }

    /// Builds settings, admitting exactly the values `wf` allows.
    pub fn new(
        sample_period_ms: u64,
        cutoff_frequency_millihertz: u64,
        check_offset_milli: i64,
        target_weight_milli: i64,
        max_velocity_milli: i64,
        min_velocity_milli: i64,
        timeout_ms: u64,
    ) -> (r: Option<DispenseSettings>)
        ensures
            (DispenseSettings {
                sample_period_ms,
                cutoff_frequency_millihertz,
                check_offset_milli,
                target_weight_milli,
                max_velocity_milli,
                min_velocity_milli,
                timeout_ms,
            }).wf() ==> r == Some(
                (DispenseSettings {
                    sample_period_ms,
                    cutoff_frequency_millihertz,
                    check_offset_milli,
                    target_weight_milli,
                    max_velocity_milli,
                    min_velocity_milli,
                    timeout_ms,
                }),
            ),
            !(DispenseSettings {
                sample_period_ms,
                cutoff_frequency_millihertz,
                check_offset_milli,
                target_weight_milli,
                max_velocity_milli,
                min_velocity_milli,
                timeout_ms,
            }).wf() ==> r is None,
    {
        let ok = 1 <= sample_period_ms && sample_period_ms <= MAX_SAMPLE_PERIOD_MS
            && MIN_CUTOFF_MILLIHERTZ <= cutoff_frequency_millihertz && cutoff_frequency_millihertz
            <= MAX_CUTOFF_MILLIHERTZ && 0 <= check_offset_milli && check_offset_milli
            <= WEIGHT_LIMIT_MILLI && 1 <= target_weight_milli && target_weight_milli
            <= WEIGHT_LIMIT_MILLI && 0 <= min_velocity_milli && min_velocity_milli
            <= max_velocity_milli && max_velocity_milli <= VELOCITY_LIMIT_MILLI && timeout_ms
            <= MAX_TIMEOUT_MS;
        if ok {
            Some(
                DispenseSettings {
                    sample_period_ms,
                    cutoff_frequency_millihertz,
                    check_offset_milli,
                    target_weight_milli,
                    max_velocity_milli,
                    min_velocity_milli,
                    timeout_ms,
                },
            )
        } else {
            None
        }
    }
}

impl Default for DispenseSettings {
    /// The stock run: 80 ms samples, 2 Hz cutoff, 5-unit check offset,
    /// 50-unit target, velocities 0.1 to 0.5, 30 s timeout.
    fn default() -> (d: Self)
        ensures
            d.sample_period_ms == 80,
            d.cutoff_frequency_millihertz == 2_000,
            d.check_offset_milli == 5_000,
            d.target_weight_milli == 50_000,
            d.max_velocity_milli == 500,
            d.min_velocity_milli == 100,
            d.timeout_ms == 30_000,
            d.wf(),
    {
        DispenseSettings {
            sample_period_ms: 80,
            cutoff_frequency_millihertz: 2_000,
            check_offset_milli: 5_000,
            target_weight_milli: 50_000,
            max_velocity_milli: 500,
            min_velocity_milli: 100,
            timeout_ms: 30_000,
        }
    }
}

/// Where a dispense run stands.
#[derive(Clone, Copy, Debug, PartialEq, Eq, Structural)]
pub enum Phase {
    /// Created; the motor has not been started.
    Settling,
    /// Motor started; waiting for the baseline median.
    AwaitBaseline,
    /// The feed loop is running.
    Feeding,
    /// Stopped on the filtered threshold; waiting for the confirmation
    /// median.
    AwaitConfirmation,
    /// The run is over; the data and the scale handle can be collected.
    Done,
}

/// What one feed tick decided.
#[derive(Clone, Copy, Debug, PartialEq, Eq, Structural)]
pub enum TickStatus {
    /// Keep feeding.
    Proceed,
    /// The motor was stopped; measure a confirmation median and call
    /// `confirm`.
    ConfirmRequested,
    /// The timeout passed; the run is over with the data so far.
    TimedOut,
}

/// What a confirmation decided.
#[derive(Clone, Copy, Debug, PartialEq, Eq, Structural)]
pub enum ConfirmStatus {
    /// The run is complete.
    Finished,
    /// Target not yet met and retries remain: feeding resumed.
    Resumed,
}

/// A motor operation for the surrounding program to perform, in the
/// order given.
#[derive(Clone, Copy, Debug, PartialEq, Eq, Structural)]
pub enum MotorCommand {
    /// Set the velocity set-point, in thousandths of a unit per second.
    SetVelocity(i64),
    /// Queue a relative move of this many thousandths of a unit.
    RelativeMove(i64),
    /// Stop abruptly, discarding queued travel.
    AbruptStop,
}

/// The filtered weight at which a tick stops and asks for confirmation:
/// the starting weight less the target and the check-offset margin.
pub open spec fn stop_threshold_milli(settings: DispenseSettings, starting: int) -> int {
    starting - (settings.target_weight_milli + settings.check_offset_milli)
}

/// The confirmation weight at or below which the target is met: the
/// starting weight less the target.
pub open spec fn target_threshold_milli(settings: DispenseSettings, starting: int) -> int {
    starting - settings.target_weight_milli
}

/// Proportional feedback: the fraction of the target still to deliver,
/// scaled by the maximum velocity and clamped to the velocity band.
/// `progress` is positive while material remains to be delivered and
/// reaches zero at the target.
pub open spec fn proportional_velocity_milli(
    settings: DispenseSettings,
    starting: int,
    filtered: int,
) -> int {
    let progress = filtered - starting + settings.target_weight_milli;
    if progress <= 0 {
        settings.min_velocity_milli as int
    } else {
        let proposed = progress * settings.max_velocity_milli
            / (settings.target_weight_milli as int);
        if proposed > settings.max_velocity_milli {
            settings.max_velocity_milli as int
        } else if proposed > settings.min_velocity_milli {
            proposed
        } else {
            settings.min_velocity_milli as int
        }
    }
}

/// The controller's abstract state: everything its decisions depend on,
/// with weights and times as unbounded integers.
#[verifier::ext_equal]
pub ghost struct DispModel {
    /// The run's parameters.
    pub settings: DispenseSettings,
    /// The filter's smoothing numerator.
    pub smoothing_num: int,
    /// The filter's smoothed weight.
    pub filter_state: int,
    /// Elapsed times of the recorded samples.
    pub times: Seq<int>,
    /// Filtered weights of the recorded samples.
    pub readings: Seq<int>,
    /// The baseline weight the run started from.
    pub starting: int,
    /// Stop-and-confirm cycles performed so far.
    pub checks: int,
    /// Elapsed time of the last velocity retargeting.
    pub last_update: int,
    /// Elapsed time of the last processed tick.
    pub last_elapsed: int,
    /// Where the run stands.
    pub phase: Phase,
}

impl DispModel {
    /// Model invariant: parameters admissible, the filter matched to
    /// them, weights in range, the series ordered and bounded, times
    /// consistent, and the check counter within the retry discipline.
    pub open spec fn wf(self) -> bool {
        &&& self.settings.wf()
        &&& self.smoothing_num == smoothing_numerator(
            self.settings.sample_rate_millihertz(),
            self.settings.cutoff_frequency_millihertz as int,
        )
        &&& 0 <= self.smoothing_num <= SMOOTHING_NUMERATOR_LIMIT
        &&& -WEIGHT_LIMIT_MILLI <= self.filter_state <= WEIGHT_LIMIT_MILLI
        &&& -WEIGHT_LIMIT_MILLI <= self.starting <= WEIGHT_LIMIT_MILLI
        &&& self.times.len() == self.readings.len()
        &&& self.times.len() <= DATA_CAPACITY
        &&& forall|i: int|
            0 <= i && i + 1 < self.times.len() ==> #[trigger] self.times[i] < self.times[i + 1]
        &&& forall|i: int| 0 <= i < self.times.len() ==> 0 <= #[trigger] self.times[i]
        &&& self.times.len() > 0 ==> self.times.last() <= self.last_elapsed
        &&& 0 <= self.last_update <= self.last_elapsed
        &&& 0 <= self.checks <= RETRY_CAP
        &&& self.phase == Phase::Feeding ==> self.checks < RETRY_CAP
        &&& self.phase == Phase::AwaitConfirmation ==> self.checks >= 1
        &&& (self.phase == Phase::Settling || self.phase == Phase::AwaitBaseline) ==> self.times.len()
            == 0 && self.checks == 0 && self.last_update == 0 && self.last_elapsed == 0
    }
}

/// The outcome of one ghost-level feed tick.
pub ghost struct TickStep {
    /// The model after the tick.
    pub m: DispModel,
    /// What the tick decided.
    pub status: TickStatus,
    /// The motor commands the tick issues, in order.
    pub commands: Seq<MotorCommand>,
}

/// One feed tick over the abstract model, given the elapsed time and the
/// raw weight reading.  The reading is filtered and recorded (dropped
/// only past capacity); the velocity is retargeted when the last update
/// is more than `SPEED_UPDATE_PERIOD_MS` old; then the filtered weight
/// against the stop threshold, and the elapsed time against the timeout,
/// decide how the run continues.  The stop check precedes the timeout
/// check, so a crossing on the last admissible tick is still confirmed.
pub open spec fn spec_feed_tick(m: DispModel, elapsed: int, raw: int) -> TickStep {
    let filtered = filter_step(m.smoothing_num, m.filter_state, raw);
    let stored = m.times.len() < DATA_CAPACITY;
    let update_due = elapsed - m.last_update > SPEED_UPDATE_PERIOD_MS;
    let velocity = proportional_velocity_milli(m.settings, m.starting, filtered);
    let vel_cmds: Seq<MotorCommand> = if update_due {
        seq![
            MotorCommand::SetVelocity(velocity as i64),
            MotorCommand::RelativeMove(FEED_MOVE_MILLI),
        ]
    } else {
        Seq::empty()
    };
    let base = DispModel {
        filter_state: filtered,
        times: if stored {
            m.times.push(elapsed)
        } else {
            m.times
        },
        readings: if stored {
            m.readings.push(filtered)
        } else {
            m.readings
        },
        last_update: if update_due {
            elapsed
        } else {
            m.last_update
        },
        last_elapsed: elapsed,
        ..m
    };
    if filtered <= stop_threshold_milli(m.settings, m.starting) {
        TickStep {
            m: DispModel { checks: m.checks + 1, phase: Phase::AwaitConfirmation, ..base },
            status: TickStatus::ConfirmRequested,
            commands: vel_cmds.push(MotorCommand::AbruptStop),
        }
    } else if elapsed > m.settings.timeout_ms {
        TickStep {
            m: DispModel { phase: Phase::Done, ..base },
            status: TickStatus::TimedOut,
            commands: vel_cmds.push(MotorCommand::AbruptStop),
        }
    } else {
        TickStep { m: base, status: TickStatus::Proceed, commands: vel_cmds }
    }
}

/// The outcome of one ghost-level confirmation.
pub ghost struct ConfirmStep {
    /// The model after the confirmation.
    pub m: DispModel,
    /// Whether the run completed or resumed.
    pub status: ConfirmStatus,
    /// The motor commands issued, in order.
    pub commands: Seq<MotorCommand>,
}

/// One confirmation over the abstract model.  The run completes when the
/// settled median shows the target met, or when the retry cap is
/// reached; otherwise feeding resumes with the filter re-seeded from the
/// median, since the mechanical regime changed while stopped.
pub open spec fn spec_confirm(m: DispModel, median: int) -> ConfirmStep {
    let met = median <= target_threshold_milli(m.settings, m.starting);
    if met || m.checks >= RETRY_CAP {
        ConfirmStep {
            m: DispModel { phase: Phase::Done, ..m },
            status: ConfirmStatus::Finished,
            commands: Seq::empty(),
        }
    } else {
        ConfirmStep {
            m: DispModel { filter_state: median, phase: Phase::Feeding, ..m },
            status: ConfirmStatus::Resumed,
            commands: seq![MotorCommand::RelativeMove(FEED_MOVE_MILLI)],
        }
    }
}

/// What one executable feed tick returned.
pub struct TickResult {
    /// What the tick decided.
    pub status: TickStatus,
    /// Motor commands to perform, in order.
    pub commands: Vec<MotorCommand>,
}

/// What one executable confirmation returned.
pub struct ConfirmResult {
    /// Whether the run completed or resumed.
    pub status: ConfirmStatus,
    /// Motor commands to perform, in order.
    pub commands: Vec<MotorCommand>,
}

/// The dispense controller.  It owns the scale handle and a motor handle
/// for the whole run and gives the scale back when the run is collected,
/// on every path.
pub struct Dispenser {
    /// The run's parameters.
    pub settings: DispenseSettings,
    /// The motor this run commands.
    pub motor: MotorHandle,
    /// Exclusive ownership of the scale for the run's duration.
    pub scale: ScaleHandle,
    /// The feedback filter.
    pub filter: Filter,
    /// The recorded time series.
    pub data: Data,
    /// The baseline weight, in thousandths of a unit.
    pub starting_weight_milli: i64,
    /// Stop-and-confirm cycles performed so far.
    pub checks_made: u64,
    /// Elapsed time of the last velocity retargeting, in milliseconds.
    pub last_update_ms: u64,
    /// Elapsed time of the last processed tick, in milliseconds.
    pub last_elapsed_ms: u64,
    /// Where the run stands.
    pub phase: Phase,
}

impl Dispenser {
    /// The abstract state this controller is in.
    pub open spec fn model(self) -> DispModel {
        DispModel {
            settings: self.settings,
            smoothing_num: self.filter.smoothing_num as int,
            filter_state: self.filter.state_milli as int,
            times: self.data.times_ms@.map_values(|t: u64| t as int),
            readings: self.data.readings_milli@.map_values(|w: i64| w as int),
            starting: self.starting_weight_milli as int,
            checks: self.checks_made as int,
            last_update: self.last_update_ms as int,
            last_elapsed: self.last_elapsed_ms as int,
            phase: self.phase,
        }
    }

    /// Controller invariant: the abstract model is well formed and the
    /// concrete series matches it.
    pub open spec fn wf(self) -> bool {
        &&& self.model().wf()
        &&& self.data.wf()
        &&& self.data.capacity == DATA_CAPACITY
        &&& self.filter.wf()
    }

    /// Creates a controller for one run, taking exclusive ownership of
    /// the scale.  The filter is built for the settings' sample rate and
    /// cutoff; nothing has been recorded.
    pub fn new(motor: MotorHandle, scale: ScaleHandle, settings: DispenseSettings) -> (d:
        Dispenser)
        requires
            settings.wf(),
        ensures
            d.wf(),
            d.phase == Phase::Settling,
            d.settings == settings,
            d.motor == motor,
            d.scale == scale,
            d.model().times.len() == 0,
            d.model().checks == 0,
            d.model().starting == 0,
            d.model().filter_state == 0,
    {
        proof {
            lemma_div_is_ordered_by_denominator(1_000_000, settings.sample_period_ms as int, 10_000);
            lemma_div_is_ordered_by_denominator(1_000_000, 1, settings.sample_period_ms as int);
        }
        let sample_rate = 1_000_000 / settings.sample_period_ms;
        let filter = Filter::new(sample_rate, settings.cutoff_frequency_millihertz);
        let d = Dispenser {
            settings,
            motor,
            scale,
            filter,
            data: Data::new(DATA_CAPACITY),
            starting_weight_milli: 0,
            checks_made: 0,
            last_update_ms: 0,
            last_elapsed_ms: 0,
            phase: Phase::Settling,
        };
        d
    }

    /// Starts the motor for the run: sets the starting velocity and
    /// queues feed travel.  The caller performs the commands, waits out
    /// `SETTLE_MS`, measures a `MEDIAN_SAMPLES`-sample median and hands
    /// it to `set_baseline`.
    pub fn start(&mut self) -> (commands: Vec<MotorCommand>)
        requires
            old(self).wf(),
            old(self).phase == Phase::Settling,
        ensures
            final(self).wf(),
            final(self).model() == (DispModel { phase: Phase::AwaitBaseline, ..old(self).model() }),
            final(self).scale == old(self).scale,
            final(self).motor == old(self).motor,
            commands@ == seq![
                MotorCommand::SetVelocity(old(self).settings.max_velocity_milli),
                MotorCommand::RelativeMove(FEED_MOVE_MILLI),
            ],
    {
        self.phase = Phase::AwaitBaseline;
        let mut commands: Vec<MotorCommand> = Vec::new();
        commands.push(MotorCommand::SetVelocity(self.settings.max_velocity_milli));
        commands.push(MotorCommand::RelativeMove(FEED_MOVE_MILLI));
        proof {
            assert(commands@ =~= seq![
                MotorCommand::SetVelocity(old(self).settings.max_velocity_milli),
                MotorCommand::RelativeMove(FEED_MOVE_MILLI),
            ]);
            assert(final(self).model() =~= (DispModel {
                phase: Phase::AwaitBaseline,
                ..old(self).model()
            }));
        }
        commands
    }

    /// Records the settled baseline weight, taken with the motor already
    /// moving at its starting velocity, and seeds the filter with it;
    /// the feed loop's clock starts at zero here.
    pub fn set_baseline(&mut self, median_milli: i64)
        requires
            old(self).wf(),
            old(self).phase == Phase::AwaitBaseline,
            -WEIGHT_LIMIT_MILLI <= median_milli <= WEIGHT_LIMIT_MILLI,
        ensures
            final(self).wf(),
            final(self).model() == (DispModel {
                starting: median_milli as int,
                filter_state: median_milli as int,
                phase: Phase::Feeding,
                ..old(self).model()
            }),
            final(self).scale == old(self).scale,
            final(self).motor == old(self).motor,
    {
        self.starting_weight_milli = median_milli;
        self.filter.seed(median_milli);
        self.phase = Phase::Feeding;
        proof {
            assert(final(self).model() =~= (DispModel {
                starting: median_milli as int,
                filter_state: median_milli as int,
                phase: Phase::Feeding,
                ..old(self).model()
            }));
        }
    }

    /// The clamped proportional velocity for the current filtered
    /// weight.
    fn compute_velocity(&self, filtered_milli: i64) -> (v: i64)
        requires
            self.settings.wf(),
            -WEIGHT_LIMIT_MILLI <= self.starting_weight_milli <= WEIGHT_LIMIT_MILLI,
            -WEIGHT_LIMIT_MILLI <= filtered_milli <= WEIGHT_LIMIT_MILLI,
        ensures
            v as int == proportional_velocity_milli(
                self.settings,
                self.starting_weight_milli as int,
                filtered_milli as int,
            ),
            self.settings.min_velocity_milli <= v <= self.settings.max_velocity_milli,
    {
        let progress = filtered_milli - self.starting_weight_milli
            + self.settings.target_weight_milli;
        if progress <= 0 {
            self.settings.min_velocity_milli
        } else {
            proof {
                lemma_mul_inequality(
                    progress as int,
                    3 * WEIGHT_LIMIT_MILLI as int,
                    self.settings.max_velocity_milli as int,
                );
                lemma_div_is_ordered(
                    0,
                    progress as int * self.settings.max_velocity_milli as int,
                    self.settings.target_weight_milli as int,
                );
            }
            let scaled = (progress as u64) * (self.settings.max_velocity_milli as u64);
            let proposed_u = scaled / (self.settings.target_weight_milli as u64);
            if proposed_u > (self.settings.max_velocity_milli as u64) {
                self.settings.max_velocity_milli
            } else {
                let proposed = proposed_u as i64;
                if proposed > self.settings.min_velocity_milli {
                    proposed
                } else {
                    self.settings.min_velocity_milli
                }
            }
        }
    }

    /// Processes one feed-loop tick: exactly `spec_feed_tick` of the
    /// current model.  `elapsed_ms` is the time since the baseline,
    /// strictly later than the previous tick (the timer skips missed
    /// ticks rather than bursting, so gaps may exceed one period).  The
    /// caller performs the returned commands in order; on
    /// `ConfirmRequested` it measures a settled median and calls
    /// `confirm`; on `TimedOut` the run is over.
    pub fn feed_tick(&mut self, elapsed_ms: u64, raw_milli: i64) -> (r: TickResult)
        requires
            old(self).wf(),
            old(self).phase == Phase::Feeding,
            elapsed_ms > old(self).last_elapsed_ms,
            -WEIGHT_LIMIT_MILLI <= raw_milli <= WEIGHT_LIMIT_MILLI,
        ensures
            final(self).wf(),
            final(self).model() == spec_feed_tick(
                old(self).model(),
                elapsed_ms as int,
                raw_milli as int,
            ).m,
            r.status == spec_feed_tick(old(self).model(), elapsed_ms as int, raw_milli as int).status,
            r.commands@ == spec_feed_tick(
                old(self).model(),
                elapsed_ms as int,
                raw_milli as int,
            ).commands,
            final(self).scale == old(self).scale,
            final(self).motor == old(self).motor,
    {
        let ghost step = spec_feed_tick(old(self).model(), elapsed_ms as int, raw_milli as int);
        let filtered = self.filter.apply(raw_milli);
        self.data.push(elapsed_ms, filtered);
        let mut commands: Vec<MotorCommand> = Vec::new();
        let update_due = elapsed_ms - self.last_update_ms > SPEED_UPDATE_PERIOD_MS;
        if update_due {
            let v = self.compute_velocity(filtered);
            commands.push(MotorCommand::SetVelocity(v));
            commands.push(MotorCommand::RelativeMove(FEED_MOVE_MILLI));
            self.last_update_ms = elapsed_ms;
        }
        self.last_elapsed_ms = elapsed_ms;
        let threshold = self.starting_weight_milli
            - (self.settings.target_weight_milli + self.settings.check_offset_milli);
        let r = if filtered <= threshold {
            self.checks_made = self.checks_made + 1;
            self.phase = Phase::AwaitConfirmation;
            commands.push(MotorCommand::AbruptStop);
            TickResult { status: TickStatus::ConfirmRequested, commands }
        } else if elapsed_ms > self.settings.timeout_ms {
            self.phase = Phase::Done;
            commands.push(MotorCommand::AbruptStop);
            TickResult { status: TickStatus::TimedOut, commands }
        } else {
            TickResult { status: TickStatus::Proceed, commands }
        };
        proof {
            assert(final(self).model().times =~= step.m.times);
            assert(final(self).model().readings =~= step.m.readings);
            assert(final(self).model() =~= step.m);
            assert(r.commands@ =~= step.commands);
        }
        r
    }

    /// Processes the settled confirmation median after a stop: exactly
    /// `spec_confirm` of the current model.  On `Resumed` the caller
    /// performs the returned commands and continues the feed loop; on
    /// `Finished` the run is over and `finish` collects it.
    pub fn confirm(&mut self, median_milli: i64) -> (r: ConfirmResult)
        requires
            old(self).wf(),
            old(self).phase == Phase::AwaitConfirmation,
            -WEIGHT_LIMIT_MILLI <= median_milli <= WEIGHT_LIMIT_MILLI,
        ensures
            final(self).wf(),
            final(self).model() == spec_confirm(old(self).model(), median_milli as int).m,
            r.status == spec_confirm(old(self).model(), median_milli as int).status,
            r.commands@ == spec_confirm(old(self).model(), median_milli as int).commands,
            final(self).scale == old(self).scale,
            final(self).motor == old(self).motor,
    {
        let ghost step = spec_confirm(old(self).model(), median_milli as int);
        let target_threshold = self.starting_weight_milli - self.settings.target_weight_milli;
        let met = median_milli <= target_threshold;
        let r = if met || self.checks_made >= RETRY_CAP {
            self.phase = Phase::Done;
            ConfirmResult { status: ConfirmStatus::Finished, commands: Vec::new() }
        } else {
            self.filter.seed(median_milli);
            self.phase = Phase::Feeding;
            let mut commands: Vec<MotorCommand> = Vec::new();
            commands.push(MotorCommand::RelativeMove(FEED_MOVE_MILLI));
            ConfirmResult { status: ConfirmStatus::Resumed, commands }
        };
        proof {
            assert(final(self).model() =~= step.m);
            assert(r.commands@ =~= step.commands);
        }
        r
    }

    /// Cancels the run: the motor is stopped abruptly and the run ends
    /// with whatever was collected, mirroring the timeout path.  The
    /// caller performs the command and collects the run with `finish`.
    pub fn cancel(&mut self) -> (commands: Vec<MotorCommand>)
        requires
            old(self).wf(),
        ensures
            final(self).wf(),
            final(self).model() == (DispModel { phase: Phase::Done, ..old(self).model() }),
            final(self).scale == old(self).scale,
            final(self).motor == old(self).motor,
            commands@ == seq![MotorCommand::AbruptStop],
    {
        self.phase = Phase::Done;
        let mut commands: Vec<MotorCommand> = Vec::new();
        commands.push(MotorCommand::AbruptStop);
        proof {
            assert(commands@ =~= seq![MotorCommand::AbruptStop]);
            assert(final(self).model() =~= (DispModel { phase: Phase::Done, ..old(self).model() }));
        }
        commands
    }

    /// Collects a finished run: the recorded series and the scale
    /// handle, which thereby goes back toward the arbitrator.
    pub fn finish(self) -> (r: (Data, ScaleHandle))
        requires
            self.wf(),
            self.phase == Phase::Done,
        ensures
            r.0 == self.data,
            r.1 == self.scale,
            r.0.wf(),
    {
        let Dispenser { data, scale, .. } = self;
        (data, scale)
    }

    /// Abandons a run after a hardware fault, surfacing whatever was
    /// collected so far together with the scale handle, so the caller
    /// can report the partial data and restore the arbitrator.
    pub fn abort(self) -> (r: (Data, ScaleHandle))
        requires
            self.wf(),
        ensures
            r.0 == self.data,
            r.1 == self.scale,
            r.0.wf(),
    {
        let Dispenser { data, scale, .. } = self;
        (data, scale)
    }
}

} // verus!
