use neuron::connections::ConnectionSet;
use neuron::fixed::{fixed_div, fixed_mul, UNIT};
use neuron::geometry::{rounded_distance, rounded_sqrt};
use neuron::neuron::{InvalidArgument, Neuron};

fn assert_within_bounds(n: &Neuron) {
    assert!(Neuron::MIN_THRESHOLD_POTENTIAL <= n.tp && n.tp <= Neuron::MAX_THRESHOLD_POTENTIAL);
    assert!(Neuron::MIN_MEMBRANE_POTENTIAL <= n.mp && n.mp <= Neuron::MAX_MEMBRANE_POTENTIAL);
    assert!(0 <= n.fr && n.fr <= Neuron::MAX_FIRING_RATE);
    assert!(0 <= n.pr && n.pr <= Neuron::MAX_PLASTICITY_RATE);
    assert!(0 <= n.rrp && n.rrp <= Neuron::BASE_RELATIVE_REFRACTORY_PERIOD);
    assert!(0 <= n.arp && n.arp <= Neuron::BASE_ABSOLUTE_REFRACTORY_PERIOD);
    assert!(Neuron::MIN_LTD <= n.sst && n.sst <= Neuron::MAX_LTP);
    assert!(Neuron::MIN_LTD <= n.sw && n.sw <= Neuron::MAX_LTP);
    assert!(0 <= n.ltp && n.ltp <= Neuron::MAX_LTP);
    assert!(Neuron::MIN_LTD <= n.ltd && n.ltd <= 0);
}

#[test]
fn construction_rejects_codes_out_of_range() {
    assert_eq!(
        Neuron::try_new(1, 2, 3, 2, 3, 4, 3, 1).err(),
        Some(InvalidArgument::NeuronType(3))
    );
    assert_eq!(
        Neuron::try_new(1, 2, 3, 2, 3, 4, 0, 2).err(),
        Some(InvalidArgument::NeurotransmitterType(2))
    );
    assert_eq!(
        Neuron::try_new(1, 2, 3, 2, 3, 4, 7, 9).err(),
        Some(InvalidArgument::NeuronType(7))
    );
}

#[test]
fn construction_defaults() {
    for nt in 0..3u32 {
        for nrt in 0..2u32 {
            let n = Neuron::try_new(1, 2, 3, 4, 5, 6, nt, nrt).unwrap();
            assert_eq!(n.tp, -55 * UNIT);
            assert_eq!(n.mp, -70 * UNIT);
            assert_eq!(n.ap, 0);
            assert_eq!(n.sw, UNIT);
            assert_eq!((n.ax, n.ay, n.az), (4, 5, 6));
            assert_eq!(n.ac.len(), 0);
            assert_eq!(n.dc.len(), 0);
            assert_within_bounds(&n);
        }
    }
}

#[test]
fn establish_changes_only_the_edge() {
    let mut a = Neuron::new(1, 2, 3, 2, 3, 4, 0, 1);
    let mut b = Neuron::new(4, 5, 6, 5, 6, 7, 1, 0);
    a.establish_axonal_connection(&mut b);
    assert_eq!(a.ac.to_vec(), vec![(4, 5, 6)]);
    assert_eq!(a.dc.len(), 0);
    assert_eq!(b.dc.to_vec(), vec![(1, 2, 3)]);
    assert_eq!(b.ac.len(), 0);
    assert_eq!(a.sw, UNIT);
    assert_eq!(b.tp, -55 * UNIT);
}

#[test]
fn terminate_reverses_establish() {
    let mut a = Neuron::new(1, 2, 3, 2, 3, 4, 0, 1);
    let mut b = Neuron::new(4, 5, 6, 5, 6, 7, 0, 1);
    let mut c = Neuron::new(7, 8, 9, 8, 9, 10, 0, 1);
    a.establish_axonal_connection(&mut c);
    a.establish_axonal_connection(&mut b);
    a.terminate_axonal_connection(&mut b);
    assert_eq!(a.ac.to_vec(), vec![(7, 8, 9)]);
    assert_eq!(b.dc.len(), 0);
    a.establish_dendritic_connection(&mut b);
    a.terminate_dendritic_connection(&mut b);
    assert_eq!(a.dc.len(), 0);
    assert_eq!(b.ac.len(), 0);
}

#[test]
fn terminate_absent_edge_is_no_op() {
    let mut a = Neuron::new(1, 2, 3, 2, 3, 4, 0, 1);
    let mut b = Neuron::new(4, 5, 6, 5, 6, 7, 0, 1);
    a.terminate_axonal_connection(&mut b);
    a.terminate_dendritic_connection(&mut b);
    assert_eq!(a.ac.len() + a.dc.len() + b.ac.len() + b.dc.len(), 0);
}

#[test]
fn establish_twice_equals_once() {
    let mut a = Neuron::new(1, 2, 3, 2, 3, 4, 0, 1);
    let mut b = Neuron::new(4, 5, 6, 5, 6, 7, 0, 1);
    a.establish_axonal_connection(&mut b);
    a.establish_axonal_connection(&mut b);
    assert_eq!(a.ac.to_vec(), vec![(4, 5, 6)]);
    assert_eq!(b.dc.to_vec(), vec![(1, 2, 3)]);
}

#[test]
fn prune_axonal_establishes_when_stronger() {
    let mut a = Neuron::new(1, 2, 3, 2, 3, 4, 0, 1);
    let mut b = Neuron::new(4, 5, 6, 5, 6, 7, 0, 1);
    a.sw = 100_000;
    b.sw = 50_000;
    a.prune_axonal_connection(&mut b);
    assert!(a.ac.contains(&(4, 5, 6)));
    assert!(b.dc.contains(&(1, 2, 3)));
}

#[test]
fn prune_axonal_equal_weights_establish() {
    let mut a = Neuron::new(1, 2, 3, 2, 3, 4, 0, 1);
    let mut b = Neuron::new(4, 5, 6, 5, 6, 7, 0, 1);
    a.sw = 50_000;
    a.sst = 50_000;
    b.sw = 50_000;
    a.prune_axonal_connection(&mut b);
    assert!(a.ac.contains(&(4, 5, 6)));
    assert!(b.dc.contains(&(1, 2, 3)));
}

#[test]
fn prune_axonal_weak_above_threshold_keeps_edge() {
    let mut a = Neuron::new(1, 2, 3, 2, 3, 4, 0, 1);
    let mut b = Neuron::new(4, 5, 6, 5, 6, 7, 0, 1);
    a.establish_axonal_connection(&mut b);
    a.sw = 50_000;
    a.sst = 0;
    b.sw = 100_000;
    a.prune_axonal_connection(&mut b);
    assert!(a.ac.contains(&(4, 5, 6)));
    assert!(b.dc.contains(&(1, 2, 3)));
}

#[test]
fn prune_dendritic_establishes_when_partner_stronger() {
    let mut a = Neuron::new(1, 2, 3, 2, 3, 4, 0, 1);
    let mut b = Neuron::new(4, 5, 6, 5, 6, 7, 0, 1);
    a.sw = 50_000;
    b.sw = 100_000;
    a.prune_dendritic_connection(&mut b);
    assert!(a.dc.contains(&(4, 5, 6)));
    assert!(b.ac.contains(&(1, 2, 3)));
}

#[test]
fn detect_quiescent_returns_zero() {
    let mut n = Neuron::new(1, 2, 3, 2, 3, 4, 0, 1);
    n.ap = 7 * UNIT;
    assert_eq!(n.detect(), 0);
    assert_eq!(n.ap, 7 * UNIT);
}

#[test]
fn detect_firing_resets_potential() {
    let mut n = Neuron::new(1, 2, 3, 2, 3, 4, 0, 1);
    n.mp = -50 * UNIT;
    n.ap = 123_456_789;
    n.fr = 16_000;
    let out = n.detect();
    assert_eq!(out, Neuron::MAX_EXCITATORY_SIGNAL);
    assert_eq!(n.ap, 0);
}

#[test]
fn excitatory_signal_values() {
    let mut n = Neuron::new(1, 2, 3, 2, 3, 4, 0, 1);
    n.mp = -50 * UNIT;
    n.ap = 16 * UNIT;
    n.fr = 16_000;
    assert_eq!(n.detect(), 10 * UNIT);
    n.ap = UNIT;
    assert_eq!(n.detect(), Neuron::MIN_EXCITATORY_SIGNAL);
    n.ap = -40 * UNIT;
    assert_eq!(n.detect(), Neuron::MIN_EXCITATORY_SIGNAL);
}

#[test]
fn inhibitory_signal_values() {
    let mut n = Neuron::new(1, 2, 3, 2, 3, 4, 0, 0);
    n.mp = -50 * UNIT;
    n.ap = 16 * UNIT;
    n.fr = 16_000;
    assert_eq!(n.detect(), -10 * UNIT);
    n.ap = 500 * UNIT;
    assert_eq!(n.detect(), Neuron::MIN_INHIBITORY_SIGNAL);
    n.ap = 0;
    assert_eq!(n.detect(), Neuron::MAX_INHIBITORY_SIGNAL);
}

#[test]
fn signal_with_zero_firing_rate_saturates() {
    let mut e = Neuron::new(1, 2, 3, 2, 3, 4, 0, 1);
    e.mp = -50 * UNIT;
    e.ap = 1;
    assert_eq!(e.detect(), Neuron::MAX_EXCITATORY_SIGNAL);
    e.ap = -1;
    assert_eq!(e.detect(), Neuron::MIN_EXCITATORY_SIGNAL);
    e.ap = 0;
    assert_eq!(e.detect(), Neuron::MIN_EXCITATORY_SIGNAL);
    let mut i = Neuron::new(1, 2, 3, 2, 3, 4, 0, 0);
    i.mp = -50 * UNIT;
    i.ap = 1;
    assert_eq!(i.detect(), Neuron::MIN_INHIBITORY_SIGNAL);
    i.ap = -1;
    assert_eq!(i.detect(), Neuron::MAX_INHIBITORY_SIGNAL);
}

#[test]
fn unknown_neurotransmitter_signals_zero() {
    let mut n = Neuron::new(1, 2, 3, 2, 3, 4, 0, 1);
    n.nrt = 5;
    n.mp = -50 * UNIT;
    n.ap = 16 * UNIT;
    n.fr = 16_000;
    assert_eq!(n.detect(), 0);
    assert_eq!(n.ap, 0);
}

#[test]
fn transmit_strong_input_exact_state() {
    let mut n = Neuron::new(1, 2, 3, 2, 3, 4, 0, 1);
    n.transmit(20 * UNIT);
    assert_eq!(n.ap, 16 * UNIT);
    assert_eq!(n.mp, -54 * UNIT);
    assert_eq!(n.tp, -54_840_000);
    assert_eq!(n.arp, UNIT);
    assert_eq!(n.rrp, 0);
    assert_eq!(n.fr, 16_000);
    assert_eq!(n.pr, UNIT);
    assert_eq!(n.ltp, 20_000);
    assert_eq!(n.ltd, 0);
    assert_eq!(n.sst, -20_000);
    assert_eq!(n.sw, UNIT);
}

#[test]
fn transmit_slight_input_exact_state() {
    let mut n = Neuron::new(1, 2, 3, 2, 3, 4, 0, 1);
    n.transmit(5 * UNIT);
    assert_eq!(n.ap, 400_000);
    assert_eq!(n.mp, -69_600_000);
    assert_eq!(n.tp, -54_996_000);
    assert_eq!(n.fr, 0);
    assert_eq!(n.pr, 960_000);
    assert_eq!(n.ltp, 5_000);
    assert_eq!(n.sst, -5_000);
    assert_eq!(n.sw, UNIT);
}

#[test]
fn transmit_negative_input_exact_state() {
    let mut n = Neuron::new(1, 2, 3, 2, 3, 4, 0, 0);
    n.transmit(-30 * UNIT);
    assert_eq!(n.ap, -24 * UNIT);
    assert_eq!(n.mp, Neuron::MIN_MEMBRANE_POTENTIAL);
    assert_eq!(n.tp, -55 * UNIT);
    assert_eq!(n.ltd, -30_000);
    assert_eq!(n.sst, 30_000);
    assert_eq!(n.sw, 971_200);
}

#[test]
fn refractory_gate_drops_input() {
    let mut n = Neuron::new(1, 2, 3, 2, 3, 4, 0, 1);
    n.transmit(20 * UNIT);
    let before = n.clone();
    n.transmit(50 * UNIT);
    assert!(n.arp < before.arp);
    assert_eq!(n.arp, 984_160);
    assert_eq!(n.ap, before.ap);
    assert_eq!(n.mp, before.mp);
    assert_eq!(n.tp, before.tp);
    assert_eq!(n.fr, before.fr);
    assert_eq!(n.sw, before.sw);
    assert_eq!(n.sst, before.sst);
    assert_eq!(n.ltp, before.ltp);
}

#[test]
fn bounds_hold_over_random_inputs() {
    let mut seed: u64 = 0x2545_F491_4F6C_DD1D;
    for nrt in 0..2u32 {
        let mut n = Neuron::new(0, 0, 0, 1, 1, 1, 0, nrt);
        for _ in 0..2_000 {
            seed = seed.wrapping_mul(6_364_136_223_846_793_005).wrapping_add(1_442_695_040_888_963_407);
            let input = ((seed >> 33) % 200_000_001) as i64 - 100 * UNIT;
            n.transmit(input);
            assert_within_bounds(&n);
            let _ = n.detect();
            assert_within_bounds(&n);
        }
    }
}

#[test]
fn signal_delay_is_rounded_distance() {
    let a = Neuron::new(1, 2, 3, 2, 3, 4, 0, 1);
    let b = Neuron::new(4, 5, 6, 5, 6, 7, 0, 1);
    let c = Neuron::new(0, 0, 0, 9, 9, 9, 0, 1);
    assert_eq!(a.signal_delay(&b), 5);
    assert_eq!(b.signal_delay(&a), 5);
    assert_eq!(a.signal_delay(&a), 0);
    assert_eq!(c.signal_delay(&Neuron::new(1, 1, 1, 0, 0, 0, 0, 1)), 2);
    assert_eq!(rounded_distance((0, 0, 0), (usize::MAX, usize::MAX, usize::MAX)), u64::MAX);
    assert_eq!(rounded_distance((0, 0, 0), (usize::MAX, 0, 0)), u64::MAX);
    assert_eq!(rounded_distance((10, 0, 0), (0, 0, 0)), 10);
}

#[test]
fn rounded_sqrt_values() {
    assert_eq!(rounded_sqrt(0), 0);
    assert_eq!(rounded_sqrt(1), 1);
    assert_eq!(rounded_sqrt(2), 1);
    assert_eq!(rounded_sqrt(3), 2);
    assert_eq!(rounded_sqrt(6), 2);
    assert_eq!(rounded_sqrt(7), 3);
    assert_eq!(rounded_sqrt(27), 5);
    assert_eq!(rounded_sqrt(u128::MAX), 1u128 << 64);
}

#[test]
fn fixed_point_arithmetic() {
    assert_eq!(fixed_mul(1_500_000, 2_000_000), 3_000_000);
    assert_eq!(fixed_mul(-1_500_000, 500_000), -750_000);
    assert_eq!(fixed_mul(-1, 1), 0);
    assert_eq!(fixed_mul(i64::MAX, i64::MAX), i64::MAX);
    assert_eq!(fixed_mul(i64::MIN, i64::MAX), i64::MIN);
    assert_eq!(fixed_div(1, 3), 333_333);
    assert_eq!(fixed_div(-UNIT, 3 * UNIT), -333_333);
    assert_eq!(fixed_div(i64::MAX, 1), i64::MAX);
}

#[test]
fn connection_set_operations() {
    let mut s = ConnectionSet::new();
    assert!(!s.contains(&(1, 2, 3)));
    s.insert((1, 2, 3));
    s.insert((4, 5, 6));
    s.insert((1, 2, 3));
    assert_eq!(s.len(), 2);
    let t = s.clone();
    s.remove(&(1, 2, 3));
    assert!(!s.contains(&(1, 2, 3)));
    assert!(s.contains(&(4, 5, 6)));
    assert_eq!(s.len(), 1);
    assert_eq!(t.len(), 2);
    s.remove(&(9, 9, 9));
    assert_eq!(s.to_vec(), vec![(4, 5, 6)]);
}
