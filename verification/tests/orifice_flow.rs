use gas_network::fault::Fault;
use gas_network::orifice::{check_mass_flow, effective_pressure_ratio, Flow, OrificeLink};
use gas_network::scalar::Scalar;

fn enc(x: f32) -> Scalar {
    Scalar::from_bits(x.to_bits())
}

#[test]
fn link_keeps_its_ends() {
    let link = OrificeLink::new(3, 7);
    assert_eq!(link.inlet_index, 3);
    assert_eq!(link.outlet_index, 7);
}

#[test]
fn link_within_the_network() {
    let link = OrificeLink::new(0, 1);
    assert!(link.is_within(2));
    assert!(!link.is_within(1));
    assert!(!link.is_within(0));
    assert!(!OrificeLink::new(2, 0).is_within(2));
    assert!(OrificeLink::new(4, 4).is_within(5));
}

#[test]
fn flow_leaves_the_inlet_when_the_inlet_is_higher() {
    let flow = OrificeLink::new(0, 1).resolve(enc(100e5), enc(1e5));
    assert_eq!(flow, Flow { upstream: 0, downstream: 1 });
}

#[test]
fn flow_leaves_the_outlet_when_the_outlet_is_higher() {
    let flow = OrificeLink::new(0, 1).resolve(enc(1e5), enc(10e5));
    assert_eq!(flow, Flow { upstream: 1, downstream: 0 });
}

#[test]
fn flow_leaves_the_outlet_at_equal_pressures() {
    let flow = OrificeLink::new(0, 1).resolve(enc(1e5), enc(1e5));
    assert_eq!(flow, Flow { upstream: 1, downstream: 0 });
    let mirrored = OrificeLink::new(1, 0).resolve(enc(1e5), enc(1e5));
    assert_eq!(mirrored, Flow { upstream: 0, downstream: 1 });
}

#[test]
fn flow_leaves_the_outlet_when_a_pressure_is_no_number() {
    let link = OrificeLink::new(5, 6);
    assert_eq!(link.resolve(enc(f32::NAN), enc(1e5)), Flow { upstream: 6, downstream: 5 });
    assert_eq!(link.resolve(enc(1e5), enc(f32::NAN)), Flow { upstream: 6, downstream: 5 });
}

#[test]
fn flow_does_not_depend_on_the_declaration() {
    let pressures = [0.5f32, 1e5, 1.000_000_1e5, 7e6, 100e5, f32::MAX];
    for a in pressures {
        for b in pressures {
            if a == b {
                continue;
            }
            let declared = OrificeLink::new(2, 9).resolve(enc(a), enc(b));
            let swapped = OrificeLink::new(9, 2).resolve(enc(b), enc(a));
            assert_eq!(declared, swapped);
            let expected = if a > b { 2 } else { 9 };
            assert_eq!(declared.upstream, expected);
            assert_eq!(declared.downstream, 11 - expected);
        }
    }
}

#[test]
fn flow_within_one_volume() {
    let flow = OrificeLink::new(4, 4).resolve(enc(2e5), enc(2e5));
    assert_eq!(flow, Flow { upstream: 4, downstream: 4 });
}

#[test]
fn exchange_takes_from_upstream_and_gives_to_downstream() {
    let flow = Flow { upstream: 0, downstream: 1 };
    let (out, into) = flow.exchange(enc(1.5), enc(960_000.0));
    assert_eq!(out.volume, 0);
    assert_eq!(out.mass_rate.to_bits(), (-1.5f32).to_bits());
    assert_eq!(out.energy_rate.to_bits(), (-960_000.0f32).to_bits());
    assert_eq!(into.volume, 1);
    assert_eq!(into.mass_rate.to_bits(), 1.5f32.to_bits());
    assert_eq!(into.energy_rate.to_bits(), 960_000.0f32.to_bits());
}

#[test]
fn exchange_parts_cancel_exactly() {
    let flow = Flow { upstream: 3, downstream: 2 };
    for mass in [0.0f32, 1e-30, 0.027_3, 1.701_312, 3.4e38] {
        let energy = mass * 641_000.0;
        let (out, into) = flow.exchange(enc(mass), enc(energy));
        let (m_out, m_in) = (f32::from_bits(out.mass_rate.to_bits()), f32::from_bits(into.mass_rate.to_bits()));
        let (e_out, e_in) = (f32::from_bits(out.energy_rate.to_bits()), f32::from_bits(into.energy_rate.to_bits()));
        assert_eq!(m_out, -m_in);
        assert_eq!(e_out, -e_in);
        assert_eq!(0.0 + m_out, -(0.0 + m_in));
        assert_eq!(out.mass_rate.to_bits() ^ into.mass_rate.to_bits(), 0x8000_0000);
        assert_eq!(out.energy_rate.to_bits() ^ into.energy_rate.to_bits(), 0x8000_0000);
    }
}

#[test]
fn pressure_ratio_above_the_critical_ratio_is_kept() {
    let kept = effective_pressure_ratio(enc(0.9), enc(0.542));
    assert_eq!(kept.to_bits(), 0.9f32.to_bits());
    let one = effective_pressure_ratio(enc(1.0), enc(0.542));
    assert_eq!(one.to_bits(), 1.0f32.to_bits());
}

#[test]
fn pressure_ratio_below_the_critical_ratio_is_held() {
    let held = effective_pressure_ratio(enc(0.01), enc(0.542));
    assert_eq!(held.to_bits(), 0.542f32.to_bits());
    let at_zero = effective_pressure_ratio(enc(0.0), enc(0.542));
    assert_eq!(at_zero.to_bits(), 0.542f32.to_bits());
}

#[test]
fn pressure_ratio_at_the_critical_ratio() {
    let at = effective_pressure_ratio(enc(0.542), enc(0.542));
    assert_eq!(at.to_bits(), 0.542f32.to_bits());
}

#[test]
fn pressure_ratio_agrees_with_the_machine() {
    let ratios = [0.0f32, 0.01, 0.3, 0.541_999, 0.542, 0.542_001, 0.9, 1.0, f32::NAN];
    let criticals = [0.5f32, 0.528_28, 0.542, 0.6, f32::NAN];
    for r in ratios {
        for c in criticals {
            let ours = f32::from_bits(effective_pressure_ratio(enc(r), enc(c)).to_bits());
            let theirs = f32::max(r, c);
            if theirs.is_nan() {
                assert!(ours.is_nan());
            } else {
                assert_eq!(ours, theirs);
            }
        }
    }
}

#[test]
fn mass_flow_at_or_above_zero_is_accepted() {
    assert_eq!(check_mass_flow(enc(0.0)), Ok(()));
    assert_eq!(check_mass_flow(enc(-0.0)), Ok(()));
    assert_eq!(check_mass_flow(enc(1.701_312)), Ok(()));
    assert_eq!(check_mass_flow(enc(f32::MAX)), Ok(()));
    assert_eq!(check_mass_flow(Scalar::from_bits(1)), Ok(()));
}

#[test]
fn mass_flow_below_zero_or_no_number_is_a_fault() {
    assert_eq!(check_mass_flow(enc(-1e-30)), Err(Fault::InvalidMassFlow));
    assert_eq!(check_mass_flow(enc(-1.0)), Err(Fault::InvalidMassFlow));
    assert_eq!(check_mass_flow(enc(f32::NAN)), Err(Fault::InvalidMassFlow));
    assert_eq!(check_mass_flow(enc(f32::INFINITY)), Err(Fault::InvalidMassFlow));
    assert_eq!(check_mass_flow(enc(f32::NEG_INFINITY)), Err(Fault::InvalidMassFlow));
    assert_eq!(check_mass_flow(enc(f32::sqrt(-1.0))), Err(Fault::InvalidMassFlow));
}
