//! Which inputs a time step may take.
//!
//! The gas relations divide by the temperature, by the density and by
//! `gamma - 1`, and take roots and powers of pressures. Outside the physical
//! range they yield no number, or a number that means nothing. Each check here
//! names the fault that such an input would cause, before it can spread.
use vstd::prelude::*;
use crate::fault::Fault;
use crate::layout::state_len;
use crate::scalar::unit;
use crate::scalar::values;
use crate::scalar::Extended;
use crate::scalar::Scalar;

verus! {

/// Gas properties are valid when the specific gas constant is a positive
/// number and the ratio of specific heats a finite number above one.
pub open spec fn gas_verdict(
    specific_gas_constant: Extended,
    specific_heat_ratio: Extended,
) -> Result<(), Fault> {
    if specific_gas_constant.is_positive() && (specific_heat_ratio matches Extended::Finite(u)
        && u > unit()) {
        Ok(())
    } else {
        Err(Fault::InvalidGasProperties)
    }
}

/// A size (of a control volume, of a flow area) is valid when it is a
/// positive number.
pub open spec fn geometry_verdict(size: Extended) -> Result<(), Fault> {
    if size.is_positive() {
        Ok(())
    } else {
        Err(Fault::InvalidGeometry)
    }
}

/// A time step is valid when it is a positive number.
pub open spec fn step_verdict(dt: Extended) -> Result<(), Fault> {
    if dt.is_positive() {
        Ok(())
    } else {
        Err(Fault::InvalidStep)
    }
}

/// The two quantities that fix the state of a control volume (pressure and
/// temperature, or density and specific internal energy) are valid when both
/// are positive numbers.
pub open spec fn thermodynamic_verdict(first: Extended, second: Extended) -> Result<(), Fault> {
    if first.is_positive() && second.is_positive() {
        Ok(())
    } else {
        Err(Fault::InvalidThermodynamicState)
    }
}

/// A state vector is valid for a network of `volumes` control volumes when it
/// holds two entries for each volume and every entry is a positive number. A
/// wrong length is reported before a wrong entry.
pub open spec fn state_verdict(state: Seq<Extended>, volumes: nat) -> Result<(), Fault> {
    if state.len() != 2 * volumes {
        Err(Fault::DimensionMismatch)
    } else if forall|k: int| 0 <= k < state.len() ==> (#[trigger] state[k]).is_positive() {
        Ok(())
    } else {
        Err(Fault::InvalidThermodynamicState)
    }
}

/// Checks the properties of a gas.
pub fn check_gas(specific_gas_constant: Scalar, specific_heat_ratio: Scalar) -> (checked: Result<
    (),
    Fault,
>)
    ensures
        checked == gas_verdict(specific_gas_constant@, specific_heat_ratio@),
{
    if specific_gas_constant.is_positive() && specific_heat_ratio.is_finite()
        && specific_heat_ratio.gt(&Scalar::one()) {
        Ok(())
    } else {
        Err(Fault::InvalidGasProperties)
    }
}

/// Checks the size of a control volume, or the effective area of an orifice.
pub fn check_geometry(size: Scalar) -> (checked: Result<(), Fault>)
    ensures
        checked == geometry_verdict(size@),
{
    if size.is_positive() {
        Ok(())
    } else {
        Err(Fault::InvalidGeometry)
    }
}

/// Checks a time step.
pub fn check_step(dt: Scalar) -> (checked: Result<(), Fault>)
    ensures
        checked == step_verdict(dt@),
{
    if dt.is_positive() {
        Ok(())
    } else {
        Err(Fault::InvalidStep)
    }
}

/// Checks the two quantities from which the state of a control volume is to
/// be updated: pressure and temperature, or density and specific internal
/// energy.
pub fn check_thermodynamic(first: Scalar, second: Scalar) -> (checked: Result<(), Fault>)
    ensures
        checked == thermodynamic_verdict(first@, second@),
{
    if first.is_positive() && second.is_positive() {
        Ok(())
    } else {
        Err(Fault::InvalidThermodynamicState)
    }
}

/// Checks a whole state vector against the number of control volumes.
pub fn check_state(state: &[Scalar], volumes: usize) -> (checked: Result<(), Fault>)
    ensures
        checked == state_verdict(values(state@), volumes as nat),
{
    let len = state.len();
    let fits = match state_len(volumes) {
        Some(expected) => expected == len,
        None => false,
    };
    if !fits {
        return Err(Fault::DimensionMismatch);
    }
    let mut k: usize = 0;
    while k < len
        invariant
            len == state@.len(),
            k <= len,
            state@.len() == 2 * volumes,
            forall|j: int| 0 <= j < k ==> (#[trigger] values(state@)[j]).is_positive(),
        decreases len - k,
    {
        if !state[k].is_positive() {
            assert(!values(state@)[k as int].is_positive());
            return Err(Fault::InvalidThermodynamicState);
        }
        k += 1;
    }
    Ok(())
}

} // verus!
