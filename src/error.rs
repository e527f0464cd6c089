use vstd::prelude::*;

verus! {

/// Faults that the engine surfaces to its caller.
#[derive(Debug, Clone, Copy, PartialEq, Eq, Structural)]
pub enum Error {
    /// The sensor channel failed to produce a sample; carries the driver's code.
    Sensor(i32),
    /// Opening or closing the sensor channel failed; carries the driver's code.
    Connection(i32),
    /// A settle-and-measure call did not converge before its deadline.
    Timeout,
    /// A device reported a serial number that is not a decimal `i32`.
    ParseInt,
    /// The calibration input is malformed (for example a zero buffer length).
    Config,
}

} // verus!
