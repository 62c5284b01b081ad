//! Closed-loop dispense control library.
//!
//! The library drives a motorized dispenser that delivers a target mass of
//! material onto a load-cell scale.  It contains the logic of the system:
//! a single-pole low-pass filter that smooths noisy weight readings, a
//! resource arbitrator that enforces exclusive ownership of the scale, and
//! the dispense controller itself, a state machine that decides, tick by
//! tick, how fast to feed and when to stop.  Device I/O (reading the scale,
//! commanding the motor, timers) is performed by the surrounding program,
//! which feeds readings in and carries motor commands out.
//!
//! All quantities are fixed-point integers: weights and velocities are held
//! in thousandths of a unit, frequencies in thousandths of a hertz, and
//! durations in milliseconds.

pub mod calibration_data;
pub mod data;
pub mod dispenser;
pub mod errors;
pub mod filter;
pub mod laws;
pub mod state;

pub use calibration_data::{CalibrationData, CalibrationTrial, Coefficients};
pub use data::{Data, DataRequest, LoadCellDataRequest, TestType, TrialPlan};
pub use dispenser::{ConfirmStatus, DispenseSettings, Dispenser, MotorCommand, Phase, TickStatus};
pub use errors::AppError;
pub use filter::Filter;
pub use state::{AppData, MotorHandle, ScaleHandle};
