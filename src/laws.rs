//! Properties that relate several calls, or hold of every state.
use vstd::prelude::*;
use crate::fixed::{UNIT, abs, fdiv, tdiv, lemma_fmul_sign, lemma_fdiv_sign};
use crate::neuron::Neuron;

verus! {

/// Every signal keeps the bounds on threshold and membrane potential, firing
/// and plasticity rates, refractory periods, synaptic threshold and weight,
/// potentiation and depression.
pub proof fn lemma_transmit_keeps_bounds(n: Neuron, input: i64)
    requires
        n.within_bounds(),
    ensures
        n.after_transmit(input).within_bounds(),
{
    if n.arp > 0 {
        return;
    }
    let s2 = n.accumulated(input).settled_membrane();
    let s3 = s2.adjusted_threshold();
    let s4 = s3.adjusted_refractory();
    let s5 = s4.adjusted_firing_rate();
    let s6 = s5.adjusted_plasticity_rate();
    let s7 = s6.adjusted_ltp(input);
    let s8 = s7.adjusted_ltd(input);
    lemma_fmul_sign(Neuron::THRESHOLD_POTENTIAL_BOOST_FACTOR_FOR_ACCUMULATED_POTENTIAL as int, s2.ap as int);
    lemma_fmul_sign(Neuron::THRESHOLD_POTENTIAL_BOOST_FACTOR_FOR_FIRING_RATE as int, s2.fr as int);
    assert(Neuron::MIN_THRESHOLD_POTENTIAL <= s3.tp <= Neuron::MAX_THRESHOLD_POTENTIAL);
    lemma_fmul_sign(Neuron::RELATIVE_REFRACTORY_PERIOD_RECOVERY_FACTOR as int, s3.fr as int);
    assert(0 <= s4.rrp <= Neuron::BASE_RELATIVE_REFRACTORY_PERIOD);
    assert(0 <= s4.arp <= Neuron::BASE_ABSOLUTE_REFRACTORY_PERIOD);
    if s4.firing_eligible() {
        // Reaching the threshold takes an accumulated potential of at least
        // the distance from rest to the lowest threshold.
        assert(s4.ap > 0);
        lemma_fdiv_sign(s4.ap as int, Neuron::ACCUMULATED_POTENTIAL_CRITICAL_VALUE as int);
        lemma_fmul_sign(
            Neuron::FIRING_RATE_BOOST_FACTOR as int,
            fdiv(s4.ap as int, Neuron::ACCUMULATED_POTENTIAL_CRITICAL_VALUE as int),
        );
    } else {
        lemma_fmul_sign(s4.fr as int, Neuron::FIRING_RATE_DECREASE_FACTOR as int);
    }
    assert(0 <= s5.fr <= Neuron::MAX_FIRING_RATE);
    lemma_fmul_sign(Neuron::PLASTICITY_RATE_BOOST_FACTOR as int, s5.fr as int);
    lemma_fmul_sign(s5.pr as int, Neuron::PLASTICITY_RATE_DECREASE_FACTOR as int);
    assert(0 <= s6.pr <= Neuron::MAX_PLASTICITY_RATE);
    lemma_fdiv_sign(input as int, Neuron::ACCUMULATED_POTENTIAL_CRITICAL_VALUE as int);
    lemma_fmul_sign(
        Neuron::LTP_BOOST_FACTOR as int,
        fdiv(input as int, Neuron::ACCUMULATED_POTENTIAL_CRITICAL_VALUE as int),
    );
    lemma_fmul_sign(s6.ltp as int, Neuron::LTP_DECREASE_FACTOR as int);
    assert(0 <= s7.ltp <= Neuron::MAX_LTP);
    lemma_fmul_sign(
        Neuron::LTD_BOOST_FACTOR as int,
        fdiv(input as int, Neuron::ACCUMULATED_POTENTIAL_CRITICAL_VALUE as int),
    );
    lemma_fmul_sign(s7.ltd as int, Neuron::LTD_DECREASE_FACTOR as int);
    assert(Neuron::MIN_LTD <= s8.ltd <= 0);
}

/// While absolutely refractory with a positive firing rate, a signal
/// strictly shortens the absolute refractory period and changes nothing
/// else: the input is dropped.
pub proof fn lemma_refractory_gate(n: Neuron, input: i64)
    requires
        n.within_bounds(),
        n.arp > 0,
        n.fr > 0,
    ensures
        n.after_transmit(input).arp < n.arp,
        n.after_transmit(input) == (Neuron { arp: n.after_transmit(input).arp, ..n }),
{
    let p = n.arp * UNIT - Neuron::ABSOLUTE_REFRACTORY_PERIOD_DECREASE_FACTOR * n.fr;
    assert(Neuron::ABSOLUTE_REFRACTORY_PERIOD_DECREASE_FACTOR * n.fr > 0) by (nonlinear_arith)
        requires
            n.fr > 0,
    ;
    if p >= 0 {
        assert(p / (UNIT as int) < n.arp) by (nonlinear_arith)
            requires
                0 <= p < n.arp * UNIT,
        ;
        assert(tdiv(p, UNIT as int) == p / (UNIT as int));
    } else {
        assert(abs(p) / (UNIT as int) >= 0) by (nonlinear_arith)
            requires
                abs(p) >= 0,
        ;
    }
}

/// The state after a sequence of signals, applied in order.
pub open spec fn after_signals(n: Neuron, inputs: Seq<i64>) -> Neuron
    decreases inputs.len(),
{
    if inputs.len() == 0 {
        n
    } else {
        after_signals(n.after_transmit(inputs[0]), inputs.drop_first())
    }
}

/// The bounds hold after any sequence of signals applied to a neuron that
/// meets them, a freshly built one in particular.
pub proof fn lemma_bounds_hold_over_signals(n: Neuron, inputs: Seq<i64>)
    requires
        n.within_bounds(),
    ensures
        after_signals(n, inputs).within_bounds(),
    decreases inputs.len(),
{
    if inputs.len() > 0 {
        lemma_transmit_keeps_bounds(n, inputs[0]);
        lemma_bounds_hold_over_signals(n.after_transmit(inputs[0]), inputs.drop_first());
    }
}

/// Terminating an axonal edge that establishing has just created gives back
/// both connection sets as they were.
pub proof fn lemma_axonal_terminate_undoes_establish(a: Neuron, b: Neuron)
    requires
        !a.ac@.contains(b.soma()),
        !b.dc@.contains(a.soma()),
    ensures
        a.ac@.insert(b.soma()).remove(b.soma()) == a.ac@,
        b.dc@.insert(a.soma()).remove(a.soma()) == b.dc@,
{
    assert(a.ac@.insert(b.soma()).remove(b.soma()) =~= a.ac@);
    assert(b.dc@.insert(a.soma()).remove(a.soma()) =~= b.dc@);
}

/// Terminating a dendritic edge that establishing has just created gives
/// back both connection sets as they were.
pub proof fn lemma_dendritic_terminate_undoes_establish(a: Neuron, b: Neuron)
    requires
        !a.dc@.contains(b.soma()),
        !b.ac@.contains(a.soma()),
    ensures
        a.dc@.insert(b.soma()).remove(b.soma()) == a.dc@,
        b.ac@.insert(a.soma()).remove(a.soma()) == b.ac@,
{
    assert(a.dc@.insert(b.soma()).remove(b.soma()) =~= a.dc@);
    assert(b.ac@.insert(a.soma()).remove(a.soma()) =~= b.ac@);
}

/// Establishing an axonal edge twice leaves both connection sets as
/// establishing it once does.
pub proof fn lemma_establish_idempotent(a: Neuron, b: Neuron)
    ensures
        a.ac@.insert(b.soma()).insert(b.soma()) == a.ac@.insert(b.soma()),
        b.dc@.insert(a.soma()).insert(a.soma()) == b.dc@.insert(a.soma()),
{
    assert(a.ac@.insert(b.soma()).insert(b.soma()) =~= a.ac@.insert(b.soma()));
    assert(b.dc@.insert(a.soma()).insert(a.soma()) =~= b.dc@.insert(a.soma()));
}

} // verus!
