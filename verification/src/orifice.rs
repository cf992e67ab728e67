//! Orifices: which way the gas runs, and how far the pressure ratio may drop.
//!
//! An orifice joins two control volumes, named by their indices. The names
//! `inlet` and `outlet` fix nothing about the direction of the flow: at every
//! evaluation the end at the higher pressure is upstream.
use vstd::prelude::*;
use crate::fault::Fault;
use crate::scalar::larger_of;
use crate::scalar::lemma_opposite_negates;
use crate::scalar::Extended;
use crate::scalar::Scalar;

verus! {

/// The two control volumes that an orifice joins, as declared.
#[derive(Clone, Copy, Debug, PartialEq, Eq, Structural)]
pub struct OrificeLink {
    pub inlet_index: usize,
    pub outlet_index: usize,
}

/// The direction of the flow through an orifice at one evaluation.
#[derive(Clone, Copy, Debug, PartialEq, Eq, Structural)]
pub struct Flow {
    /// The volume that the gas leaves.
    pub upstream: usize,
    /// The volume that the gas enters.
    pub downstream: usize,
}

/// What one exchange adds to the accumulators of one control volume.
#[derive(Clone, Copy, Debug)]
pub struct Contribution {
    /// The volume whose accumulators change.
    pub volume: usize,
    /// Added to the volume's net mass rate.
    pub mass_rate: Scalar,
    /// Added to the volume's net energy rate.
    pub energy_rate: Scalar,
}

impl Flow {
    /// What the exchange takes out of the upstream volume: the rates with
    /// their signs changed.
    pub open spec fn withdrawal(self, mass_rate: Scalar, energy_rate: Scalar) -> Contribution {
        Contribution {
            volume: self.upstream,
            mass_rate: mass_rate.opposite(),
            energy_rate: energy_rate.opposite(),
        }
    }

    /// What the exchange brings into the downstream volume: the rates as
    /// they are.
    pub open spec fn deposit(self, mass_rate: Scalar, energy_rate: Scalar) -> Contribution {
        Contribution { volume: self.downstream, mass_rate, energy_rate }
    }

    /// Splits one exchange into what it adds to each of the two volumes.
    ///
    /// `mass_rate` is the mass flow through the orifice and `energy_rate` the
    /// enthalpy that the gas carries with it. The first contribution is for
    /// the upstream volume, the second for the downstream volume; they are to
    /// be added to the accumulators in that order.
    pub fn exchange(&self, mass_rate: Scalar, energy_rate: Scalar) -> (parts: (
        Contribution,
        Contribution,
    ))
        ensures
            parts.0 == self.withdrawal(mass_rate, energy_rate),
            parts.1 == self.deposit(mass_rate, energy_rate),
    {
        (
            Contribution {
                volume: self.upstream,
                mass_rate: mass_rate.negated(),
                energy_rate: energy_rate.negated(),
            },
            Contribution { volume: self.downstream, mass_rate, energy_rate },
        )
    }
}

impl OrificeLink {
    /// Whether both ends name one of the first `volumes` control volumes.
    pub open spec fn within(self, volumes: nat) -> bool {
        self.inlet_index < volumes && self.outlet_index < volumes
    }

    /// The same orifice declared the other way round.
    pub open spec fn reversed(self) -> OrificeLink {
        OrificeLink { inlet_index: self.outlet_index, outlet_index: self.inlet_index }
    }

    /// The direction of the flow at the given end pressures: out of the inlet
    /// when the inlet pressure is strictly the higher one, out of the outlet
    /// otherwise.
    pub open spec fn flow(self, inlet_pressure: Extended, outlet_pressure: Extended) -> Flow {
        if outlet_pressure.less_than(inlet_pressure) {
            Flow { upstream: self.inlet_index, downstream: self.outlet_index }
        } else {
            Flow { upstream: self.outlet_index, downstream: self.inlet_index }
        }
    }

    /// Declares an orifice between two control volumes.
    pub fn new(inlet_index: usize, outlet_index: usize) -> (link: OrificeLink)
        ensures
            link.inlet_index == inlet_index,
            link.outlet_index == outlet_index,
    {
        OrificeLink { inlet_index, outlet_index }
    }

    /// Whether both ends name one of the first `volumes` control volumes.
    pub fn is_within(&self, volumes: usize) -> (r: bool)
        ensures
            r == self.within(volumes as nat),
    {
        self.inlet_index < volumes && self.outlet_index < volumes
    }

    /// Resolves the direction of the flow from the pressures at the two ends.
    pub fn resolve(&self, inlet_pressure: Scalar, outlet_pressure: Scalar) -> (flow: Flow)
        ensures
            flow == self.flow(inlet_pressure@, outlet_pressure@),
    {
        if inlet_pressure.gt(&outlet_pressure) {
            Flow { upstream: self.inlet_index, downstream: self.outlet_index }
        } else {
            Flow { upstream: self.outlet_index, downstream: self.inlet_index }
        }
    }
}

/// The pressure ratio that drives the flow: the ratio of downstream to
/// upstream pressure, held at the critical ratio once it falls below it.
///
/// Below the critical ratio the flow is choked, and lowering the downstream
/// pressure further no longer changes the mass flow.
pub fn effective_pressure_ratio(ratio: Scalar, critical: Scalar) -> (effective: Scalar)
    ensures
        effective == larger_of(ratio, critical),
{
    ratio.max(critical)
}

/// Accepts a computed mass flow rate: a finite number at or above zero.
///
/// A square root or a power taken outside its domain yields no number; that
/// shows here.
pub fn check_mass_flow(mass_flow_rate: Scalar) -> (checked: Result<(), Fault>)
    ensures
        checked is Ok <==> (mass_flow_rate@ matches Extended::Finite(u) && u >= 0),
        checked is Err ==> checked == Err::<(), Fault>(Fault::InvalidMassFlow),
{
    if mass_flow_rate.is_positive() || mass_flow_rate.is_zero() {
        Ok(())
    } else {
        Err(Fault::InvalidMassFlow)
    }
}

/// The flow joins the two declared ends, one as upstream and the other as
/// downstream: whatever leaves one volume enters the other.
pub proof fn lemma_flow_joins_ends(link: OrificeLink, inlet_pressure: Extended, outlet_pressure: Extended)
    ensures
        ({
            let flow = link.flow(inlet_pressure, outlet_pressure);
            ||| (flow.upstream == link.inlet_index && flow.downstream == link.outlet_index)
            ||| (flow.upstream == link.outlet_index && flow.downstream == link.inlet_index)
        }),
{
}

/// The gas never runs uphill: the downstream pressure is not above the
/// upstream pressure.
pub proof fn lemma_flow_runs_downhill(link: OrificeLink, pressures: Seq<Extended>)
    requires
        link.within(pressures.len()),
    ensures
        ({
            let flow = link.flow(
                pressures[link.inlet_index as int],
                pressures[link.outlet_index as int],
            );
            !pressures[flow.upstream as int].less_than(pressures[flow.downstream as int])
        }),
{
}

/// Declaring an orifice the other way round does not change the direction of
/// the flow, as long as the two pressures are different numbers.
pub proof fn lemma_flow_ignores_declaration(
    link: OrificeLink,
    inlet_pressure: Extended,
    outlet_pressure: Extended,
)
    requires
        !(inlet_pressure is NotANumber),
        !(outlet_pressure is NotANumber),
        inlet_pressure != outlet_pressure,
    ensures
        link.reversed().flow(outlet_pressure, inlet_pressure) == link.flow(
            inlet_pressure,
            outlet_pressure,
        ),
{
}

/// At equal pressures the two declarations of an orifice resolve to opposite
/// directions.
pub proof fn lemma_flow_at_equal_pressures(link: OrificeLink, pressure: Extended)
    ensures
        link.flow(pressure, pressure) == (Flow {
            upstream: link.outlet_index,
            downstream: link.inlet_index,
        }),
        link.reversed().flow(pressure, pressure) == (Flow {
            upstream: link.inlet_index,
            downstream: link.outlet_index,
        }),
{
}

/// An exchange creates and destroys nothing: what it takes out of the
/// upstream volume is, to the last bit, what it brings into the downstream
/// volume.
pub proof fn lemma_exchange_conserves(flow: Flow, mass_rate: Scalar, energy_rate: Scalar)
    ensures
        ({
            let out = flow.withdrawal(mass_rate, energy_rate);
            let into = flow.deposit(mass_rate, energy_rate);
            &&& out.volume == flow.upstream
            &&& into.volume == flow.downstream
            &&& out.mass_rate@ == into.mass_rate@.negation()
            &&& out.energy_rate@ == into.energy_rate@.negation()
            &&& out.mass_rate.opposite() == into.mass_rate
            &&& out.energy_rate.opposite() == into.energy_rate
        }),
{
    lemma_opposite_negates(mass_rate);
    lemma_opposite_negates(energy_rate);
}

/// A pressure ratio that is a number and not below the critical ratio drives
/// the flow as it is.
pub proof fn lemma_unchoked_ratio_is_kept(ratio: Scalar, critical: Scalar)
    requires
        !(ratio@ is NotANumber),
        !ratio@.less_than(critical@),
    ensures
        larger_of(ratio, critical) == ratio,
{
}

} // verus!
