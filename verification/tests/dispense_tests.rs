use dispenser::{
    AppData, ConfirmStatus, DispenseSettings, Dispenser, MotorCommand, Phase, ScaleHandle,
    TickStatus,
};

fn scale() -> ScaleHandle {
    ScaleHandle::new(1, [1_000, 1_000, 1_000, 1_000])
}

// A controller already driven to the feed loop with the given baseline.
fn feeding_dispenser(settings: DispenseSettings, baseline_milli: i64) -> Dispenser {
    let mut state = AppData::new();
    assert!(state.connect_scale(scale()).is_none());
    let taken = state.take_scale().unwrap();
    let motor = state.get_motor(0);
    let mut d = Dispenser::new(motor, taken, settings);
    let start_cmds = d.start();
    assert_eq!(
        start_cmds,
        vec![
            MotorCommand::SetVelocity(settings.max_velocity_milli),
            MotorCommand::RelativeMove(1_000_000),
        ]
    );
    d.set_baseline(baseline_milli);
    d
}

#[test]
fn default_settings_exact_values() {
    let s = DispenseSettings::default();
    assert_eq!(s.sample_period_ms, 80);
    assert_eq!(s.cutoff_frequency_millihertz, 2_000);
    assert_eq!(s.check_offset_milli, 5_000);
    assert_eq!(s.target_weight_milli, 50_000);
    assert_eq!(s.max_velocity_milli, 500);
    assert_eq!(s.min_velocity_milli, 100);
    assert_eq!(s.timeout_ms, 30_000);
}

#[test]
fn settings_new_checks_invariants() {
    // Velocities out of order.
    assert!(DispenseSettings::new(80, 2_000, 5_000, 50_000, 100, 500, 30_000).is_none());
    // Zero target weight.
    assert!(DispenseSettings::new(80, 2_000, 5_000, 0, 500, 100, 30_000).is_none());
    // Zero sample period.
    assert!(DispenseSettings::new(0, 2_000, 5_000, 50_000, 500, 100, 30_000).is_none());
    let s = DispenseSettings::new(80, 2_000, 5_000, 50_000, 500, 100, 30_000).unwrap();
    assert_eq!(s, DispenseSettings::default());
}

#[test]
fn baseline_seeds_filter_and_starts_feeding() {
    let d = feeding_dispenser(DispenseSettings::default(), 123_000);
    assert_eq!(d.phase, Phase::Feeding);
    assert_eq!(d.starting_weight_milli, 123_000);
    assert_eq!(d.filter.state_milli, 123_000);
    assert_eq!(d.data.times_ms.len(), 0);
}

#[test]
fn proportional_velocity_exact_value() {
    let mut d = feeding_dispenser(DispenseSettings::default(), 100_000);
    // Filtered becomes 100000 - 1005*40000/2005 = 79951; progress 29951;
    // proposed 29951*500/50000 = 299.
    let r = d.feed_tick(80, 60_000);
    assert_eq!(r.status, TickStatus::Proceed);
    assert_eq!(
        r.commands,
        vec![MotorCommand::SetVelocity(299), MotorCommand::RelativeMove(1_000_000)]
    );
}

#[test]
fn velocity_clamps_to_band() {
    // At the starting weight the full target remains: proposed equals the
    // maximum velocity.
    let mut d = feeding_dispenser(DispenseSettings::default(), 100_000);
    let r = d.feed_tick(80, 100_000);
    assert_eq!(r.commands[0], MotorCommand::SetVelocity(500));

    // Filtered just above the stop threshold: progress is negative, so
    // the minimum velocity is commanded.
    let mut d2 = feeding_dispenser(DispenseSettings::default(), 100_000);
    let r2 = d2.feed_tick(80, 0);
    assert_eq!(d2.filter.state_milli, 49_876);
    assert_eq!(r2.status, TickStatus::Proceed);
    assert_eq!(r2.commands[0], MotorCommand::SetVelocity(100));
}

#[test]
fn velocity_updates_are_rate_limited() {
    let mut d = feeding_dispenser(DispenseSettings::default(), 100_000);
    let first = d.feed_tick(80, 99_000);
    assert_eq!(first.commands.len(), 2);
    // 20 ms after the last update: no retargeting.
    let second = d.feed_tick(100, 99_000);
    assert!(second.commands.is_empty());
    // 26 ms after the last update: retargeting again.
    let third = d.feed_tick(106, 99_000);
    assert_eq!(third.commands.len(), 2);
}

// Stop-threshold correctness: with starting weight 100, target 50 and
// check offset 5 (in thousandths), a monotonically decreasing filtered
// sequence triggers the stop-and-confirm cycle exactly once, at the
// first sample at or below 45.
#[test]
fn stop_triggers_at_first_crossing() {
    let mut d = feeding_dispenser(DispenseSettings::default(), 100_000);
    // Raw ramp 97000, 94000, ... gives a strictly decreasing filtered
    // sequence that first reaches 45000 at the twentieth tick.
    let mut expected = dispenser::Filter::new(12_500, 2_000);
    expected.seed(100_000);
    let mut triggers: Vec<u64> = Vec::new();
    for n in 1..=20u64 {
        let raw = 100_000 - 3_000 * (n as i64);
        let filtered = expected.apply(raw);
        let r = d.feed_tick(80 * n, raw);
        match r.status {
            TickStatus::ConfirmRequested => {
                assert!(filtered <= 45_000);
                assert_eq!(r.commands.last(), Some(&MotorCommand::AbruptStop));
                triggers.push(n);
            }
            TickStatus::Proceed => assert!(filtered > 45_000),
            TickStatus::TimedOut => panic!("no timeout expected"),
        }
        if !triggers.is_empty() {
            break;
        }
    }
    assert_eq!(triggers, vec![20]);
    assert_eq!(d.phase, Phase::AwaitConfirmation);
    assert_eq!(d.checks_made, 1);
    assert_eq!(d.data.times_ms.len(), 20);

    // The settled median confirms the target is met: run complete.
    let c = d.confirm(40_000);
    assert_eq!(c.status, ConfirmStatus::Finished);
    let (data, returned) = d.finish();
    assert_eq!(data.times_ms.len(), 20);
    assert_eq!(returned.phidget_id, 1);
}

// Retry cap: when the confirmation median repeatedly exceeds the target
// threshold, the third stop-and-confirm cycle completes the run instead
// of looping.
#[test]
fn retry_cap_completes_after_three_confirmations() {
    let mut d = feeding_dispenser(DispenseSettings::default(), 100_000);

    let r1 = d.feed_tick(80, -50_000);
    assert_eq!(r1.status, TickStatus::ConfirmRequested);
    assert_eq!(d.checks_made, 1);
    // Median above the target threshold (50000): not met, resume.
    let c1 = d.confirm(60_000);
    assert_eq!(c1.status, ConfirmStatus::Resumed);
    assert_eq!(c1.commands, vec![MotorCommand::RelativeMove(1_000_000)]);
    // The filter was reseeded with the confirmation weight.
    assert_eq!(d.filter.state_milli, 60_000);

    let r2 = d.feed_tick(160, -50_000);
    assert_eq!(r2.status, TickStatus::ConfirmRequested);
    assert_eq!(d.checks_made, 2);
    let c2 = d.confirm(60_000);
    assert_eq!(c2.status, ConfirmStatus::Resumed);

    let r3 = d.feed_tick(240, -50_000);
    assert_eq!(r3.status, TickStatus::ConfirmRequested);
    assert_eq!(d.checks_made, 3);
    // Still not met, but the cap is reached: the run completes.
    let c3 = d.confirm(60_000);
    assert_eq!(c3.status, ConfirmStatus::Finished);
    assert_eq!(d.phase, Phase::Done);
    assert_eq!(d.checks_made, 3);
}

// Timeout partiality: with a 200 ms timeout and a feed that never
// reaches the stop threshold, the run ends as a timed-out partial
// result whose non-empty series ends within one tick period of the
// timeout.
#[test]
fn timeout_returns_partial_data() {
    let settings = DispenseSettings::new(80, 2_000, 5_000, 50_000, 500, 100, 200).unwrap();
    let mut d = feeding_dispenser(settings, 100_000);
    assert_eq!(d.feed_tick(80, 100_000).status, TickStatus::Proceed);
    assert_eq!(d.feed_tick(160, 100_000).status, TickStatus::Proceed);
    let r = d.feed_tick(240, 100_000);
    assert_eq!(r.status, TickStatus::TimedOut);
    assert_eq!(r.commands.last(), Some(&MotorCommand::AbruptStop));
    assert_eq!(d.phase, Phase::Done);
    let (data, _scale) = d.finish();
    assert!(data.times_ms.len() > 0);
    assert_eq!(data.times_ms, vec![80, 160, 240]);
    assert!(*data.times_ms.last().unwrap() <= 200 + 80);
}

#[test]
fn stop_check_takes_priority_over_timeout() {
    let settings = DispenseSettings::new(80, 2_000, 5_000, 50_000, 500, 100, 200).unwrap();
    let mut d = feeding_dispenser(settings, 100_000);
    // Past the timeout, but the filtered weight crosses the stop
    // threshold on the same tick: the crossing is still confirmed.
    let r = d.feed_tick(240, -100_000);
    assert_eq!(r.status, TickStatus::ConfirmRequested);
    assert_eq!(d.phase, Phase::AwaitConfirmation);
}

// End-to-end scenario: default settings, a simulated scale starting at
// 200 units and decreasing one unit per tick.  The filtered signal lags
// the ramp by about one unit, so the stop fires on the 56th tick, the
// settled median of 144 units confirms the target met, and the run
// completes with 56 units delivered.
#[test]
fn end_to_end_linear_ramp() {
    let settings = DispenseSettings::default();
    let mut d = feeding_dispenser(settings, 200_000);
    let mut n: u64 = 0;
    let median;
    loop {
        n += 1;
        assert!(n < 400, "run should stop long before the timeout");
        let raw = 200_000 - 1_000 * (n as i64);
        let r = d.feed_tick(80 * n, raw);
        match r.status {
            TickStatus::Proceed => continue,
            TickStatus::ConfirmRequested => {
                // The simulated hopper stops losing weight once the
                // motor stops; the settled median is the current weight.
                median = raw;
                break;
            }
            TickStatus::TimedOut => panic!("the ramp must reach the stop threshold"),
        }
    }
    assert_eq!(n, 56);
    assert_eq!(d.filter.state_milli, 144_996);
    assert_eq!(median, 144_000);

    let c = d.confirm(median);
    assert_eq!(c.status, ConfirmStatus::Finished);
    let delivered = 200_000 - median;
    assert_eq!(delivered, 56_000);

    let (data, returned) = d.finish();
    assert_eq!(data.times_ms.len(), 56);
    assert_eq!(*data.times_ms.last().unwrap(), 56 * 80);
    assert_eq!(*data.readings_milli.last().unwrap(), 144_996);
    // The series is strictly increasing in time.
    for w in data.times_ms.windows(2) {
        assert!(w[0] < w[1]);
    }
    assert_eq!(returned.phidget_id, 1);
}

#[test]
fn cancel_mirrors_timeout_path() {
    let mut d = feeding_dispenser(DispenseSettings::default(), 100_000);
    assert_eq!(d.feed_tick(80, 99_000).status, TickStatus::Proceed);
    let commands = d.cancel();
    assert_eq!(commands, vec![MotorCommand::AbruptStop]);
    assert_eq!(d.phase, Phase::Done);
    let (data, returned) = d.finish();
    assert_eq!(data.times_ms.len(), 1);
    assert_eq!(returned.phidget_id, 1);
}

#[test]
fn abort_surfaces_partial_data_and_scale() {
    let mut d = feeding_dispenser(DispenseSettings::default(), 100_000);
    let _ = d.feed_tick(80, 99_000);
    let (data, returned) = d.abort();
    assert_eq!(data.times_ms.len(), 1);
    assert_eq!(returned.phidget_id, 1);
}
