use gas_network::fault::Fault;
use gas_network::network::Network;
use gas_network::orifice::{Flow, OrificeLink};
use gas_network::scalar::Scalar;

fn enc(x: f32) -> Scalar {
    Scalar::from_bits(x.to_bits())
}

#[test]
fn new_network_has_volumes_and_no_orifice() {
    let network = Network::new(3);
    assert_eq!(network.volume_count(), 3);
    assert_eq!(network.link_count(), 0);
    assert_eq!(network.link(0), None);
}

#[test]
fn connect_appends_in_order() {
    let mut network = Network::new(3);
    assert_eq!(network.connect(0, 1), Ok(0));
    assert_eq!(network.connect(2, 1), Ok(1));
    assert_eq!(network.connect(1, 1), Ok(2));
    assert_eq!(network.link_count(), 3);
    assert_eq!(network.link(0), Some(OrificeLink { inlet_index: 0, outlet_index: 1 }));
    assert_eq!(network.link(1), Some(OrificeLink { inlet_index: 2, outlet_index: 1 }));
    assert_eq!(network.link(2), Some(OrificeLink { inlet_index: 1, outlet_index: 1 }));
    assert_eq!(network.link(3), None);
    assert_eq!(network.volume_count(), 3);
}

#[test]
fn connect_refuses_a_volume_that_is_not_there() {
    let mut network = Network::new(2);
    assert_eq!(network.connect(0, 2), Err(Fault::UnknownVolume));
    assert_eq!(network.connect(2, 0), Err(Fault::UnknownVolume));
    assert_eq!(network.connect(usize::MAX, usize::MAX), Err(Fault::UnknownVolume));
    assert_eq!(network.link_count(), 0);
    assert_eq!(network.connect(1, 0), Ok(0));
    assert_eq!(network.connect(0, 2), Err(Fault::UnknownVolume));
    assert_eq!(network.link_count(), 1);
    assert_eq!(network.link(0), Some(OrificeLink { inlet_index: 1, outlet_index: 0 }));
}

#[test]
fn connect_in_an_empty_network_always_fails() {
    let mut network = Network::new(0);
    assert_eq!(network.connect(0, 0), Err(Fault::UnknownVolume));
    assert_eq!(network.link_count(), 0);
}

#[test]
fn flows_follow_the_pressures() {
    let mut network = Network::new(3);
    network.connect(0, 1).unwrap();
    network.connect(1, 2).unwrap();
    network.connect(0, 2).unwrap();
    let falling = [enc(30e5), enc(20e5), enc(10e5)];
    assert_eq!(
        network.resolve_flows(&falling),
        Ok(vec![
            Flow { upstream: 0, downstream: 1 },
            Flow { upstream: 1, downstream: 2 },
            Flow { upstream: 0, downstream: 2 },
        ])
    );
    let rising = [enc(10e5), enc(20e5), enc(30e5)];
    assert_eq!(
        network.resolve_flows(&rising),
        Ok(vec![
            Flow { upstream: 1, downstream: 0 },
            Flow { upstream: 2, downstream: 1 },
            Flow { upstream: 2, downstream: 0 },
        ])
    );
    let peak = [enc(10e5), enc(20e5), enc(10e5)];
    assert_eq!(
        network.resolve_flows(&peak),
        Ok(vec![
            Flow { upstream: 1, downstream: 0 },
            Flow { upstream: 1, downstream: 2 },
            Flow { upstream: 2, downstream: 0 },
        ])
    );
}

#[test]
fn flows_of_a_network_without_orifices() {
    let network = Network::new(2);
    assert_eq!(network.resolve_flows(&[enc(1e5), enc(2e5)]), Ok(vec![]));
}

#[test]
fn flows_need_one_pressure_for_each_volume() {
    let mut network = Network::new(2);
    network.connect(0, 1).unwrap();
    assert_eq!(network.resolve_flows(&[]), Err(Fault::DimensionMismatch));
    assert_eq!(network.resolve_flows(&[enc(1e5)]), Err(Fault::DimensionMismatch));
    assert_eq!(
        network.resolve_flows(&[enc(1e5), enc(2e5), enc(3e5)]),
        Err(Fault::DimensionMismatch)
    );
}

#[test]
fn flows_never_run_uphill() {
    let mut network = Network::new(4);
    for (a, b) in [(0, 1), (1, 2), (2, 3), (3, 0), (0, 2), (3, 1), (2, 2)] {
        network.connect(a, b).unwrap();
    }
    let pressures = [4.0e5f32, 1.0e5, 9.5e5, 4.0e5];
    let encoded: Vec<Scalar> = pressures.iter().map(|p| enc(*p)).collect();
    let flows = network.resolve_flows(&encoded).unwrap();
    assert_eq!(flows.len(), 7);
    for (i, flow) in flows.iter().enumerate() {
        let link = network.link(i).unwrap();
        assert!(pressures[flow.upstream] >= pressures[flow.downstream]);
        assert!(
            (flow.upstream, flow.downstream) == (link.inlet_index, link.outlet_index)
                || (flow.upstream, flow.downstream) == (link.outlet_index, link.inlet_index)
        );
    }
}
