use dispenser::{AppData, AppError, CalibrationTrial, Coefficients, ScaleHandle};

fn handle() -> ScaleHandle {
    ScaleHandle::new(715_406, [1_000, 1_000, 1_000, 1_000])
}

#[test]
fn take_scale_without_scale_fails() {
    let mut state = AppData::new();
    assert_eq!(state.take_scale().unwrap_err(), AppError::NoScale);
}

// Ownership invariant, concretely: after a checkout the one return
// succeeds exactly once, and a second return without an intervening
// checkout is rejected as an attempted duplication.
#[test]
fn checkout_return_cycle_preserves_single_ownership() {
    let mut state = AppData::new();
    assert!(state.connect_scale(handle()).is_none());

    let taken = state.take_scale().unwrap();
    // While checked out, the arbitrator has nothing to hand out.
    assert_eq!(state.take_scale().unwrap_err(), AppError::NoScale);

    // The single return succeeds.
    assert!(state.return_scale(taken).is_ok());
    // A second return would duplicate the handle and is rejected.
    assert_eq!(
        state.return_scale(handle()).unwrap_err(),
        AppError::ScaleAlreadyPresent
    );
    // The original handle is still the one stored.
    let again = state.take_scale().unwrap();
    assert_eq!(again.phidget_id, 715_406);
}

#[test]
fn connect_scale_is_idempotent_and_rejects_second_handle() {
    let mut state = AppData::new();
    assert!(state.connect_scale(handle()).is_none());
    let second = ScaleHandle::new(9, [0, 0, 0, 0]);
    let rejected = state.connect_scale(second).unwrap();
    assert_eq!(rejected.phidget_id, 9);
    // The first connection's calibration collection is untouched.
    assert_eq!(state.get_calibration_data().unwrap().phidget_id, 715_406);
}

#[test]
fn update_coefficients_requires_scale() {
    let mut state = AppData::new();
    let coeffs = Coefficients { coefficients_milli: [2_000, 2_100, 1_900, 2_050] };
    assert_eq!(state.update_coefficients(coeffs).unwrap_err(), AppError::NoScale);

    assert!(state.connect_scale(handle()).is_none());
    assert!(state.update_coefficients(coeffs).is_ok());
    let taken = state.take_scale().unwrap();
    assert_eq!(taken.coefficients_milli, [2_000, 2_100, 1_900, 2_050]);
    assert_eq!(state.coefficients, Some([2_000, 2_100, 1_900, 2_050]));
}

#[test]
fn add_calibration_trial_requires_collection() {
    let mut state = AppData::new();
    let trial = CalibrationTrial::from_array([10_000, 10_500, 9_800, 10_200], 500_000, 1_234);
    match state.add_calibration_trial(trial) {
        Err(AppError::NoScale) => {}
        _ => panic!("expected NoScale before any scale is connected"),
    }

    assert!(state.connect_scale(handle()).is_none());
    let stored = state.add_calibration_trial(trial).unwrap();
    assert_eq!(stored.weight_milli, 500_000);
    let data = state.get_calibration_data().unwrap();
    assert_eq!(data.trials.len(), 1);
    assert_eq!(data.trials[0].readings_milli, [10_000, 10_500, 9_800, 10_200]);
    assert_eq!(data.trials[0].timestamp_ms, 1_234);
}

#[test]
fn calibration_trial_rejects_zero_samples() {
    match CalibrationTrial::new(0, [1, 2, 3, 4], 100_000, 99) {
        Err(AppError::ZeroSamples) => {}
        _ => panic!("expected ZeroSamples"),
    }
    let trial = CalibrationTrial::new(10, [1, 2, 3, 4], 100_000, 99).unwrap();
    assert_eq!(trial.readings_milli, [1, 2, 3, 4]);
    assert_eq!(trial.weight_milli, 100_000);
    assert_eq!(trial.timestamp_ms, 99);
}

#[test]
fn get_motor_marks_connection_established() {
    let mut state = AppData::new();
    assert!(state.needs_motor_connection());
    let motor = state.get_motor(0);
    assert_eq!(motor.id, 0);
    assert!(!state.needs_motor_connection());
    // Later calls reuse the connection and can address other motors.
    let other = state.get_motor(1);
    assert_eq!(other.id, 1);
    assert!(!state.needs_motor_connection());
}

#[test]
fn get_calibration_data_without_scale_is_none() {
    let state = AppData::new();
    assert!(state.get_calibration_data().is_none());
}
