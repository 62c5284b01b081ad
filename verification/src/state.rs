//! Resource arbitration: exclusive ownership of the scale and shared
//! access to the motor connection.
//!
//! The application holds one `AppData` value.  It owns the single scale
//! handle when no operation is using it; an operation checks the handle
//! out with `take_scale`, works with exclusive ownership, and gives it
//! back with `return_scale`.  The ownership discipline is stated as a
//! small transition system (`arb_step`) and proved invariant for every
//! sequence of checkouts and returns (`lemma_scale_ownership_invariant`);
//! the executable methods' contracts mirror those transitions exactly.

use crate::calibration_data::{CalibrationData, CalibrationTrial, Coefficients};
use crate::errors::AppError;
use vstd::prelude::*;

verus! {

/// The exclusive-ownership capability for the weighing sensor.  At most
/// one of these exists per connected scale; it is either stored in
/// `AppData` or held by exactly one in-flight operation.  Deliberately
/// neither `Clone` nor `Copy`.
#[derive(Debug)]
pub struct ScaleHandle {
    /// Device id of the sensor bridge.
    pub phidget_id: i32,
    /// The load-cell coefficients the scale currently applies, in
    /// thousandths.
    pub coefficients_milli: [i64; 4],
}

impl ScaleHandle {
    /// Wraps a freshly connected scale.  Called once per device
    /// connection by the I/O layer.
    pub fn new(phidget_id: i32, coefficients_milli: [i64; 4]) -> (h: Self)
        ensures
            h.phidget_id == phidget_id,
            h.coefficients_milli == coefficients_milli,
    {
        ScaleHandle { phidget_id, coefficients_milli }
    }
}

/// A shareable reference to the dispensing motor's command channel.  Many
/// call sites may hold one concurrently; the underlying link serializes
/// the commands.
#[derive(Clone, Copy, Debug, PartialEq, Eq, Structural)]
pub struct MotorHandle {
    /// Which motor on the controller.
    pub id: usize,
}

/// One operation the arbitrator can be asked to perform on the scale.
#[derive(Clone, Copy, Debug, PartialEq, Eq, Structural)]
pub enum ArbOp {
    /// Check the scale handle out for exclusive use.
    Checkout,
    /// Give a checked-out handle back.
    Return,
}

/// Abstract ownership state: whether the arbitrator holds the scale
/// handle, and how many handles are checked out to callers.
pub ghost struct ArbModel {
    /// The arbitrator holds the handle.
    pub held: bool,
    /// Handles currently in callers' hands.
    pub outstanding: nat,
}

/// How many scale handles exist in total in this state.
pub open spec fn arb_total(m: ArbModel) -> nat {
    (if m.held {
        1nat
    } else {
        0nat
    }) + m.outstanding
}

/// One arbitration step.  A checkout succeeds only while the arbitrator
/// holds the handle and moves it to the caller; it fails (`NoScale`) and
/// changes nothing otherwise.  A return moves an outstanding handle back;
/// while the arbitrator already holds the handle a return is rejected
/// (`ScaleAlreadyPresent`) and changes nothing, and with no outstanding
/// handle no return can be formed at all.
pub open spec fn arb_step(m: ArbModel, op: ArbOp) -> ArbModel {
    match op {
        ArbOp::Checkout => if m.held {
            ArbModel { held: false, outstanding: m.outstanding + 1 }
        } else {
            m
        },
        ArbOp::Return => if !m.held && m.outstanding > 0 {
            ArbModel { held: true, outstanding: (m.outstanding - 1) as nat }
        } else {
            m
        },
    }
}

/// The ownership state after a whole sequence of checkouts and returns.
pub open spec fn arb_run(m: ArbModel, ops: Seq<ArbOp>) -> ArbModel
    decreases ops.len(),
{
    if ops.len() == 0 {
        m
    } else {
        arb_run(arb_step(m, ops[0]), ops.drop_first())
    }
}

/// Ownership invariant: starting from a state with exactly one scale
/// handle in existence, every sequence of checkout and return calls
/// leaves exactly one handle in existence — the arbitrator never holds
/// more than one, never grants a checkout while it holds none, and a
/// return while it already holds the handle is rejected rather than
/// duplicating it.
pub proof fn lemma_scale_ownership_invariant(m: ArbModel, ops: Seq<ArbOp>)
    requires
        arb_total(m) == 1,
    ensures
        arb_total(arb_run(m, ops)) == 1,
    decreases ops.len(),
{
    if ops.len() > 0 {
        lemma_scale_ownership_invariant(arb_step(m, ops[0]), ops.drop_first());
    }
}

/// The application's shared state: the optional scale handle, the last
/// fitted coefficients, the calibration trials collected so far, and
/// whether the motor-controller link has been brought up.
#[derive(Debug)]
pub struct AppData {
    /// The scale handle, present while no operation has it checked out.
    pub scale: Option<ScaleHandle>,
    /// The most recently applied load-cell coefficients.
    pub coefficients: Option<[i64; 4]>,
    /// Calibration trials collected for the connected scale.
    pub calibration_data: Option<CalibrationData>,
    /// Whether the motor-controller connection has been established.
    pub motor_connected: bool,
}

impl AppData {
    /// Fresh state: nothing connected, nothing collected.
    pub fn new() -> (d: Self)
        ensures
            d.scale is None,
            d.coefficients is None,
            d.calibration_data is None,
            !d.motor_connected,
    {
        AppData { scale: None, coefficients: None, calibration_data: None, motor_connected: false }
    }

    /// Whether an operation could check the scale out right now.
    fn has_connected_scale(&self) -> (r: Result<(), AppError>)
        ensures
            r == if self.scale is Some {
                Ok::<(), AppError>(())
            } else {
                Err::<(), AppError>(AppError::NoScale)
            },
    {
        if self.scale.is_some() {
            Ok(())
        } else {
            Err(AppError::NoScale)
        }
    }

    /// Registers a freshly connected scale and starts a new calibration
    /// collection for it.  The device connection itself is the I/O
    /// layer's work; this takes over the resulting handle.  While a scale
    /// is already registered the state is unchanged and the new handle is
    /// handed back to the caller.
    pub fn connect_scale(&mut self, scale: ScaleHandle) -> (rejected: Option<ScaleHandle>)
        ensures
            old(self).scale is Some ==> *final(self) == *old(self) && (rejected matches Some(h)
                && h.phidget_id == scale.phidget_id && h.coefficients_milli
                == scale.coefficients_milli),
            old(self).scale is None ==> rejected is None && (final(self).scale matches Some(h)
                && h.phidget_id == scale.phidget_id && h.coefficients_milli
                == scale.coefficients_milli) && (final(self).calibration_data matches Some(cd)
                && cd.trials@.len() == 0 && cd.phidget_id == scale.phidget_id) && final(self).coefficients == old(self).coefficients && final(self).motor_connected == old(self).motor_connected,
    {
        if self.has_connected_scale().is_ok() {
            return Some(scale);
        }
        self.calibration_data = Some(CalibrationData::new(scale.phidget_id));
        self.scale = Some(scale);
        None
    }

    /// Re-labels the scale with freshly fitted coefficients and records
    /// them.  Needs the scale to be present; fails with `NoScale`, and
    /// changes nothing, exactly when it is not.
    pub fn update_coefficients(&mut self, coefficients: Coefficients) -> (r: Result<(), AppError>)
        ensures
            old(self).scale is None ==> r == Err::<(), AppError>(AppError::NoScale) && *final(self)
                == *old(self),
            old(self).scale matches Some(h) ==> r == Ok::<(), AppError>(()) && (final(self).scale matches Some(h2) && h2.phidget_id == h.phidget_id && h2.coefficients_milli
                == coefficients.coefficients_milli) && final(self).coefficients == Some(coefficients.coefficients_milli) && final(self).calibration_data == old(self).calibration_data && final(self).motor_connected == old(self).motor_connected,
    {
        let scale = match self.scale.take() {
            Some(s) => s,
            None => {
                return Err(AppError::NoScale);
            },
        };
        let updated = ScaleHandle::new(scale.phidget_id, coefficients.get_coefficients());
        self.scale = Some(updated);
        self.coefficients = Some(coefficients.get_coefficients());
        Ok(())
    }

    /// A copy of the calibration trials collected so far.
    pub fn get_calibration_data(&self) -> (r: Option<CalibrationData>)
        ensures
            self.calibration_data is None ==> r is None,
            self.calibration_data matches Some(cd) ==> (r matches Some(rc) && rc.trials@
                == cd.trials@ && rc.phidget_id == cd.phidget_id),
    {
        match &self.calibration_data {
            Some(cd) => Some(cd.clone()),
            None => None,
        }
    }

    /// Appends a trial to the collection and hands the trial back for
    /// display.  Fails with `NoScale`, and changes nothing, exactly when
    /// no collection was started (no scale was ever connected).
    pub fn add_calibration_trial(&mut self, calibration_trial: CalibrationTrial) -> (r: Result<
        CalibrationTrial,
        AppError,
    >)
        ensures
            old(self).calibration_data is None ==> r == Err::<CalibrationTrial, AppError>(
                AppError::NoScale,
            ) && *final(self) == *old(self),
            old(self).calibration_data matches Some(cd) ==> (r matches Ok(t) && t.readings_milli
                == calibration_trial.readings_milli && t.weight_milli
                == calibration_trial.weight_milli && t.timestamp_ms
                == calibration_trial.timestamp_ms) && (final(self).calibration_data matches Some(cd2) && cd2.trials@ == cd.trials@.push(calibration_trial) && cd2.phidget_id
                == cd.phidget_id) && final(self).scale == old(self).scale && final(self).coefficients == old(self).coefficients && final(self).motor_connected == old(self).motor_connected,
    {
        match self.calibration_data.take() {
            Some(mut calibration_data) => {
                calibration_data.add_trial(calibration_trial);
                self.calibration_data = Some(calibration_data);
                Ok(calibration_trial)
            },
            None => Err(AppError::NoScale),
        }
    }

    /// Whether the next `get_motor` call is the one that must first
    /// bring the controller link up (and wait out its settle period).
    pub fn needs_motor_connection(&self) -> (b: bool)
        ensures
            b == !self.motor_connected,
    {
        !self.motor_connected
    }

    /// Hands out a handle to the requested motor.  The first call marks
    /// the shared controller connection as established — the I/O layer
    /// brings the link up and waits out the settle period before issuing
    /// commands; later calls reuse it and return cheaply.  The scale and
    /// the collected data are untouched.
    pub fn get_motor(&mut self, id: usize) -> (m: MotorHandle)
        ensures
            m.id == id,
            final(self).motor_connected,
            final(self).scale == old(self).scale,
            final(self).coefficients == old(self).coefficients,
            final(self).calibration_data == old(self).calibration_data,
    {
        if !self.motor_connected {
            self.motor_connected = true;
        }
        MotorHandle { id }
    }

    /// Checks the scale handle out for exclusive use: the `Checkout`
    /// transition of `arb_step`.  Succeeds, leaving the arbitrator
    /// empty-handed, exactly when the handle is present; fails with
    /// `NoScale`, changing nothing, exactly when it is not.
    pub fn take_scale(&mut self) -> (r: Result<ScaleHandle, AppError>)
        ensures
            old(self).scale matches Some(h) ==> (r matches Ok(taken) && taken.phidget_id
                == h.phidget_id && taken.coefficients_milli == h.coefficients_milli) && final(self).scale is None,
            old(self).scale is None ==> r == Err::<ScaleHandle, AppError>(AppError::NoScale)
                && final(self).scale is None,
            final(self).coefficients == old(self).coefficients,
            final(self).calibration_data == old(self).calibration_data,
            final(self).motor_connected == old(self).motor_connected,
    {
        match self.scale.take() {
            Some(s) => Ok(s),
            None => Err(AppError::NoScale),
        }
    }

    /// Gives a checked-out scale handle back: the `Return` transition of
    /// `arb_step`.  Succeeds exactly when the arbitrator holds no scale;
    /// while one is already present the return is rejected with
    /// `ScaleAlreadyPresent` — an attempted duplication of ownership —
    /// and the stored state is unchanged.
    pub fn return_scale(&mut self, scale: ScaleHandle) -> (r: Result<(), AppError>)
        ensures
            old(self).scale is None ==> r == Ok::<(), AppError>(()) && (final(self).scale matches Some(h) && h.phidget_id == scale.phidget_id && h.coefficients_milli
                == scale.coefficients_milli),
            old(self).scale is Some ==> r == Err::<(), AppError>(AppError::ScaleAlreadyPresent)
                && final(self).scale == old(self).scale,
            final(self).coefficients == old(self).coefficients,
            final(self).calibration_data == old(self).calibration_data,
            final(self).motor_connected == old(self).motor_connected,
    {
        if self.scale.is_none() {
            self.scale = Some(scale);
            Ok(())
        } else {
            Err(AppError::ScaleAlreadyPresent)
        }
    }
}

} // verus!
