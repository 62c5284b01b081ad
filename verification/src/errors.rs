//! The library's error taxonomy.

use vstd::prelude::*;

verus! {

/// Errors raised by the library's operations.
///
/// `NoScale` and `ScaleAlreadyPresent` are ownership-contract violations:
/// an operation needed the scale handle and the arbitrator had none, or a
/// return would have duplicated the single handle.  `ZeroSamples` rejects a
/// zero-length sampling batch.  `MissingCutoff` rejects a filtered-trial
/// request without a cutoff frequency.  `HardwareFault` stands for a scale
/// or motor I/O failure reported by the surrounding program.  Rendering to
/// a human-readable string happens at the process boundary, outside this
/// library.
#[derive(Clone, Copy, Debug, PartialEq, Eq, Structural)]
pub enum AppError {
    /// An operation needed the scale but the arbitrator holds none.
    NoScale,
    /// A returned scale would duplicate the one already held.
    ScaleAlreadyPresent,
    /// A sampling batch of zero samples was requested.
    ZeroSamples,
    /// A filtered trial was requested without a cutoff frequency.
    MissingCutoff,
    /// A scale or motor operation failed in the device layer.
    HardwareFault,
    /// The requested feature is a stub.
    NotImplemented,
}

} // verus!
