//! Calibration trials: labeled median readings used by the calibration
//! backend to fit load-cell coefficients.

use crate::errors::AppError;
use vstd::prelude::*;

verus! {

/// One calibration trial: the median reading of each of the scale's four
/// load cells, in thousandths of a unit, tagged with the reference weight
/// that was on the scale and a wall-clock timestamp supplied by the
/// caller.
#[derive(Clone, Copy, Debug)]
pub struct CalibrationTrial {
    /// Median raw reading of each of the four load cells.
    pub readings_milli: [i64; 4],
    /// The known reference weight present during the trial.
    pub weight_milli: i64,
    /// Wall-clock time of the trial, in milliseconds since the epoch.
    pub timestamp_ms: u64,
}

impl CalibrationTrial {
    /// Packs four per-cell medians and their reference weight into a
    /// trial.
    pub fn from_array(data: [i64; 4], weight_milli: i64, timestamp_ms: u64) -> (t: Self)
        ensures
            t.readings_milli == data,
            t.weight_milli == weight_milli,
            t.timestamp_ms == timestamp_ms,
    {
        CalibrationTrial { readings_milli: data, weight_milli, timestamp_ms }
    }

    /// Builds a trial from a sampling batch of `samples` medians per
    /// cell.  A zero-length batch is rejected with `ZeroSamples`, exactly
    /// then.
    pub fn new(
        samples: usize,
        readings_milli: [i64; 4],
        weight_milli: i64,
        timestamp_ms: u64,
    ) -> (r: Result<Self, AppError>)
        ensures
            samples == 0 ==> r == Err::<Self, AppError>(AppError::ZeroSamples),
            samples > 0 ==> (r matches Ok(t) && t.readings_milli == readings_milli
                && t.weight_milli == weight_milli && t.timestamp_ms == timestamp_ms),
    {
        if samples == 0 {
            return Err(AppError::ZeroSamples);
        }
        Ok(Self::from_array(readings_milli, weight_milli, timestamp_ms))
    }
}

/// All trials collected for one scale, identified by the device id of the
/// sensor bridge they were taken from.
#[derive(Debug)]
pub struct CalibrationData {
    /// The collected trials, in collection order.
    pub trials: Vec<CalibrationTrial>,
    /// Device id of the scale the trials belong to.
    pub phidget_id: i32,
}

impl CalibrationData {
    /// Starts an empty collection for the given scale.
    pub fn new(phidget_id: i32) -> (d: Self)
        ensures
            d.trials@.len() == 0,
            d.phidget_id == phidget_id,
    {
        CalibrationData { trials: Vec::new(), phidget_id }
    }

    /// Appends one trial.
    pub fn add_trial(&mut self, trial: CalibrationTrial)
        ensures
            final(self).trials@ == old(self).trials@.push(trial),
            final(self).phidget_id == old(self).phidget_id,
    {
        self.trials.push(trial);
    }
}

impl Clone for CalibrationData {
    /// The clone carries the same trials and the same device id.
    fn clone(&self) -> (r: Self)
        ensures
            r.trials@ == self.trials@,
            r.phidget_id == self.phidget_id,
    {
        let mut trials: Vec<CalibrationTrial> = Vec::new();
        let mut i: usize = 0;
        while i < self.trials.len()
            invariant
                0 <= i <= self.trials@.len(),
                trials@ == self.trials@.take(i as int),
            decreases self.trials@.len() - i,
        {
            trials.push(self.trials[i]);
            proof {
                assert(self.trials@.take(i + 1) =~= self.trials@.take(i as int).push(
                    self.trials@[i as int],
                ));
            }
            i = i + 1;
        }
        proof {
            assert(self.trials@.take(self.trials@.len() as int) =~= self.trials@);
        }
        CalibrationData { trials, phidget_id: self.phidget_id }
    }
}

/// Fitted load-cell coefficients, in thousandths, as returned by the
/// calibration backend.
#[derive(Clone, Copy, Debug)]
pub struct Coefficients {
    /// One coefficient per load cell.
    pub coefficients_milli: [i64; 4],
}

impl Coefficients {
    /// The four per-cell coefficients.
    pub fn get_coefficients(&self) -> (c: [i64; 4])
        ensures
            c == self.coefficients_milli,
    {
        self.coefficients_milli
    }
}

} // verus!
