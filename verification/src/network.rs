//! The topology of a network: how many control volumes there are, and which
//! orifices join them.
//!
//! The volumes themselves stay with the caller. The network knows them by
//! their indices only, so several orifices can meet at one volume without
//! sharing anything but a number.
use vstd::prelude::*;
use crate::fault::Fault;
use crate::orifice::Flow;
use crate::orifice::OrificeLink;
use crate::orifice::lemma_flow_joins_ends;
use crate::orifice::lemma_flow_runs_downhill;
use crate::scalar::values;
use crate::scalar::Extended;
use crate::scalar::Scalar;

verus! {

/// The control volumes of a network, counted, and its orifices, in the order
/// in which they were connected.
#[derive(Debug)]
pub struct Network {
    volumes: usize,
    links: Vec<OrificeLink>,
}

/// What a network is, to a contract.
pub struct Topology {
    /// Number of control volumes; they are indexed from zero.
    pub volumes: nat,
    /// The orifices, in the order in which they interact.
    pub links: Seq<OrificeLink>,
}

impl Topology {
    /// Every orifice joins two control volumes of the network.
    pub open spec fn closed_under_links(self) -> bool {
        forall|i: int| 0 <= i < self.links.len() ==> (#[trigger] self.links[i]).within(self.volumes)
    }

    /// The direction of the flow through every orifice, in the order of the
    /// orifices, when volume `v` is at pressure `pressures[v]`.
    pub open spec fn flows(self, pressures: Seq<Extended>) -> Seq<Flow> {
        Seq::new(
            self.links.len(),
            |i: int|
                self.links[i].flow(
                    pressures[self.links[i].inlet_index as int],
                    pressures[self.links[i].outlet_index as int],
                ),
        )
    }
}

impl View for Network {
    type V = Topology;

    closed spec fn view(&self) -> Topology {
        Topology { volumes: self.volumes as nat, links: self.links@ }
    }
}

impl Network {
    /// The invariant of a network: its orifices join volumes that it holds.
    pub open spec fn wf(&self) -> bool {
        self@.closed_under_links()
    }

    /// A network of `volumes` control volumes and no orifice.
    pub fn new(volumes: usize) -> (network: Network)
        ensures
            network.wf(),
            network@.volumes == volumes,
            network@.links == Seq::<OrificeLink>::empty(),
    {
        Network { volumes, links: Vec::new() }
    }

    /// Number of control volumes.
    pub fn volume_count(&self) -> (count: usize)
        ensures
            count == self@.volumes,
    {
        self.volumes
    }

    /// Number of orifices.
    pub fn link_count(&self) -> (count: usize)
        ensures
            count == self@.links.len(),
    {
        self.links.len()
    }

    /// The orifice at the given position, if there is one.
    pub fn link(&self, index: usize) -> (found: Option<OrificeLink>)
        ensures
            match found {
                Some(link) => index < self@.links.len() && link == self@.links[index as int],
                None => index >= self@.links.len(),
            },
    {
        if index < self.links.len() {
            Some(self.links[index])
        } else {
            None
        }
    }

    /// Joins two control volumes by a new orifice, which interacts after all
    /// the orifices connected before it, and returns its position.
    ///
    /// Fails with `UnknownVolume`, and leaves the network as it was, when one
    /// of the indices names no volume of the network.
    pub fn connect(&mut self, inlet_index: usize, outlet_index: usize) -> (added: Result<
        usize,
        Fault,
    >)
        requires
            old(self).wf(),
        ensures
            final(self).wf(),
            final(self)@.volumes == old(self)@.volumes,
            match added {
                Ok(position) => {
                    &&& inlet_index < old(self)@.volumes
                    &&& outlet_index < old(self)@.volumes
                    &&& position == old(self)@.links.len()
                    &&& final(self)@.links == old(self)@.links.push(
                        OrificeLink { inlet_index, outlet_index },
                    )
                },
                Err(fault) => {
                    &&& fault == Fault::UnknownVolume
                    &&& (inlet_index >= old(self)@.volumes || outlet_index >= old(self)@.volumes)
                    &&& final(self)@.links == old(self)@.links
                },
            },
    {
        let link = OrificeLink::new(inlet_index, outlet_index);
        if !link.is_within(self.volumes) {
            return Err(Fault::UnknownVolume);
        }
        let position = self.links.len();
        self.links.push(link);
        assert forall|i: int| 0 <= i < self@.links.len() implies (#[trigger] self@.links[i]).within(
            self@.volumes,
        ) by {
            if i < position {
                assert(old(self)@.links[i].within(old(self)@.volumes));
            }
        }
        Ok(position)
    }

    /// Resolves the direction of the flow through every orifice from one
    /// snapshot of the pressures, `pressures[v]` being the pressure in volume
    /// `v`. The flows come in the order of the orifices.
    ///
    /// Fails with `DimensionMismatch` when there is not exactly one pressure
    /// for each control volume.
    pub fn resolve_flows(&self, pressures: &[Scalar]) -> (resolved: Result<Vec<Flow>, Fault>)
        requires
            self.wf(),
        ensures
            match resolved {
                Ok(flows) => {
                    &&& pressures@.len() == self@.volumes
                    &&& flows@ == self@.flows(values(pressures@))
                },
                Err(fault) => {
                    &&& fault == Fault::DimensionMismatch
                    &&& pressures@.len() != self@.volumes
                },
            },
    {
        if pressures.len() != self.volumes {
            return Err(Fault::DimensionMismatch);
        }
        let mut flows: Vec<Flow> = Vec::new();
        let mut i: usize = 0;
        while i < self.links.len()
            invariant
                self.wf(),
                pressures@.len() == self@.volumes,
                i <= self@.links.len(),
                flows@.len() == i,
                forall|j: int| 0 <= j < i ==> flows@[j] == self@.flows(values(pressures@))[j],
            decreases self@.links.len() - i,
        {
            let link = self.links[i];
            assert(self@.links[i as int].within(self@.volumes));
            flows.push(link.resolve(pressures[link.inlet_index], pressures[link.outlet_index]));
            i += 1;
        }
        assert(flows@ =~= self@.flows(values(pressures@)));
        Ok(flows)
    }
}

/// Every resolved flow joins the two ends of its own orifice and runs from
/// the higher pressure to the lower: no flow runs uphill.
pub proof fn lemma_flows_run_downhill(topology: Topology, pressures: Seq<Extended>, i: int)
    requires
        topology.closed_under_links(),
        pressures.len() == topology.volumes,
        0 <= i < topology.links.len(),
    ensures
        topology.flows(pressures).len() == topology.links.len(),
        ({
            let flow = topology.flows(pressures)[i];
            let link = topology.links[i];
            &&& flow.upstream < topology.volumes
            &&& flow.downstream < topology.volumes
            &&& (flow.upstream == link.inlet_index && flow.downstream == link.outlet_index
                || flow.upstream == link.outlet_index && flow.downstream == link.inlet_index)
            &&& !pressures[flow.upstream as int].less_than(pressures[flow.downstream as int])
        }),
{
    let link = topology.links[i];
    assert(link.within(topology.volumes));
    lemma_flow_joins_ends(
        link,
        pressures[link.inlet_index as int],
        pressures[link.outlet_index as int],
    );
    lemma_flow_runs_downhill(link, pressures);
}

} // verus!
