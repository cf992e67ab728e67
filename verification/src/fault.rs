//! The conditions under which a simulation run must stop.
use vstd::prelude::*;

verus! {

/// Why an input, or an intermediate result, cannot be taken into a time step.
///
/// Every fault is fatal to the run: after one, the volumes no longer hold a
/// consistent state.
#[derive(Clone, Copy, Debug, PartialEq, Eq, Structural)]
pub enum Fault {
    /// The specific gas constant is not a positive number, or the ratio of
    /// specific heats is not a finite number above one.
    InvalidGasProperties,
    /// A pressure, temperature, density or specific internal energy is not a
    /// positive number.
    InvalidThermodynamicState,
    /// The size of a control volume, or the effective area of an orifice, is
    /// not a positive number.
    InvalidGeometry,
    /// A computed mass flow rate is not a finite number at or above zero.
    InvalidMassFlow,
    /// An orifice names a control volume that the network does not hold.
    UnknownVolume,
    /// A time step is not a positive number.
    InvalidStep,
    /// A vector does not hold as many entries as the network has places for.
    DimensionMismatch,
}

} // verus!
