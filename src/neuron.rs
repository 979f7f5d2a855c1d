//! The neuron: its state, its connection protocol, firing and the per-signal
//! update pipeline.
//!
//! Potentials, rates, periods and weights are fixed-point values in
//! millionths of a unit (see `fixed`): `-55_000_000` stands for `-55.0`.
//! Firing divides by the firing rate; at a rate of zero the gain is taken as
//! unbounded, so the signal sits at the bound of its range on the side of
//! the accumulated potential's sign (see `drive`).
use vstd::prelude::*;
use crate::connections::{ConnectionSet, Coord};
use crate::fixed::{
    UNIT, abs, clamp, sat, at_most, at_least, fmul, fdiv, tdiv, fixed_mul, fixed_div, saturate,
    clamp_i128, trunc_div, lemma_scaled_bound,
};
use crate::geometry::{is_rounded_distance, rounded_distance};

verus! {

/// Why a neuron could not be built.
#[derive(Clone, Copy, Debug, PartialEq, Eq, Structural)]
pub enum InvalidArgument {
    /// The neuron type is not 0 (contact), 1 (sensory) or 2 (motor).
    NeuronType(u32),
    /// The neurotransmitter type is not 0 (inhibitory) or 1 (excitatory).
    NeurotransmitterType(u32),
}

/// A spiking neuron.
#[derive(Clone, Debug)]
pub struct Neuron {
    /// Soma x-coordinate.
    pub x: usize,
    /// Soma y-coordinate.
    pub y: usize,
    /// Soma z-coordinate.
    pub z: usize,
    /// Axon terminal x-coordinate.
    pub ax: usize,
    /// Axon terminal y-coordinate.
    pub ay: usize,
    /// Axon terminal z-coordinate.
    pub az: usize,
    /// Neuron type: 0 contact, 1 sensory, 2 motor.
    pub nt: u32,
    /// Neurotransmitter type: 0 inhibitory, 1 excitatory.
    pub nrt: u32,
    /// Accumulated potential.
    pub ap: i64,
    /// Threshold potential.
    pub tp: i64,
    /// Membrane potential.
    pub mp: i64,
    /// Firing rate.
    pub fr: i64,
    /// Synaptic weight.
    pub sw: i64,
    /// Synaptic strength threshold.
    pub sst: i64,
    /// Plasticity rate.
    pub pr: i64,
    /// Absolute refractory period.
    pub arp: i64,
    /// Relative refractory period.
    pub rrp: i64,
    /// Soma coordinates of the neurons this one's axon reaches.
    pub ac: ConnectionSet,
    /// Soma coordinates of the neurons whose axons reach this one.
    pub dc: ConnectionSet,
    /// Neurotransmitter concentration.
    pub nc: i64,
    /// Long-term potentiation.
    pub ltp: i64,
    /// Long-term depression.
    pub ltd: i64,
}

impl Neuron {
    pub const BASE_ABSOLUTE_REFRACTORY_PERIOD: i64 = 1_000_000;
    pub const ABSOLUTE_REFRACTORY_PERIOD_DECREASE_FACTOR: i64 = 990_000;
    pub const BASE_RELATIVE_REFRACTORY_PERIOD: i64 = 1_000_000;
    pub const RELATIVE_REFRACTORY_PERIOD_RECOVERY_FACTOR: i64 = 165_000;
    pub const RESTING_POTENTIAL: i64 = -70_000_000;
    pub const ACCUMULATED_POTENTIAL_CRITICAL_VALUE: i64 = 10_000_000;
    pub const ACCUMULATED_POTENTIAL_STIMULUS_INTENSITY: i64 = 800_000;
    pub const ACCUMULATED_POTENTIAL_SLIGHT_INTENSITY: i64 = 80_000;
    pub const MAX_THRESHOLD_POTENTIAL: i64 = -50_000_000;
    pub const MIN_THRESHOLD_POTENTIAL: i64 = -55_000_000;
    pub const THRESHOLD_POTENTIAL_BOOST_FACTOR_FOR_ACCUMULATED_POTENTIAL: i64 = 10_000;
    pub const THRESHOLD_POTENTIAL_BOOST_FACTOR_FOR_FIRING_RATE: i64 = 20_000;
    pub const MIN_MEMBRANE_POTENTIAL: i64 = -90_000_000;
    pub const MAX_MEMBRANE_POTENTIAL: i64 = -20_000_000;
    pub const MIN_EXCITATORY_SIGNAL: i64 = 1_000_000;
    pub const MAX_EXCITATORY_SIGNAL: i64 = 30_000_000;
    pub const MIN_INHIBITORY_SIGNAL: i64 = -20_000_000;
    pub const MAX_INHIBITORY_SIGNAL: i64 = -1_000_000;
    pub const MAX_FIRING_RATE: i64 = 1_000_000;
    pub const FIRING_RATE_DECREASE_FACTOR: i64 = 920_000;
    pub const FIRING_RATE_BOOST_FACTOR: i64 = 10_000;
    pub const MAX_PLASTICITY_RATE: i64 = 1_000_000;
    pub const PLASTICITY_RATE_DECREASE_FACTOR: i64 = 960_000;
    pub const PLASTICITY_RATE_BOOST_FACTOR: i64 = 10_000;
    pub const MAX_LTP: i64 = 1_000_000;
    pub const LTP_BOOST_FACTOR: i64 = 10_000;
    pub const LTP_DECREASE_FACTOR: i64 = 960_000;
    pub const MIN_LTD: i64 = -1_000_000;
    pub const LTD_BOOST_FACTOR: i64 = 10_000;
    pub const LTD_DECREASE_FACTOR: i64 = 960_000;
    pub const SYNAPTIC_STRENGTH_THRESHOLD_BOOST_FACTOR: i64 = 10_000;

    /// The soma coordinate, which identifies the neuron to its neighbours.
    pub open spec fn soma(self) -> Coord {
        (self.x, self.y, self.z)
    }

    /// The bounds that every update keeps.
    pub open spec fn within_bounds(self) -> bool {
        &&& Self::MIN_THRESHOLD_POTENTIAL <= self.tp <= Self::MAX_THRESHOLD_POTENTIAL
        &&& Self::MIN_MEMBRANE_POTENTIAL <= self.mp <= Self::MAX_MEMBRANE_POTENTIAL
        &&& 0 <= self.fr <= Self::MAX_FIRING_RATE
        &&& 0 <= self.pr <= Self::MAX_PLASTICITY_RATE
        &&& 0 <= self.rrp <= Self::BASE_RELATIVE_REFRACTORY_PERIOD
        &&& 0 <= self.arp <= Self::BASE_ABSOLUTE_REFRACTORY_PERIOD
        &&& Self::MIN_LTD <= self.sst <= Self::MAX_LTP
        &&& Self::MIN_LTD <= self.sw <= Self::MAX_LTP
        &&& 0 <= self.ltp <= Self::MAX_LTP
        &&& Self::MIN_LTD <= self.ltd <= 0
    }

    /// The membrane potential has reached the threshold.
    pub open spec fn firing_eligible(self) -> bool {
        self.mp >= self.tp
    }

    /// A neuron at rest: every value at its default, no connections.
    pub fn new(x: usize, y: usize, z: usize, ax: usize, ay: usize, az: usize, nt: u32, nrt: u32) -> (r:
        Neuron)
        requires
            nt <= 2,
            nrt <= 1,
        ensures
            r.soma() == (x, y, z),
            r.ax == ax && r.ay == ay && r.az == az,
            r.nt == nt && r.nrt == nrt,
            r.ap == 0,
            r.tp == Self::MIN_THRESHOLD_POTENTIAL,
            r.mp == Self::RESTING_POTENTIAL,
            r.fr == 0,
            r.sw == UNIT,
            r.sst == 0,
            r.pr == UNIT,
            r.arp == 0,
            r.rrp == Self::BASE_RELATIVE_REFRACTORY_PERIOD,
            r.nc == UNIT,
            r.ltp == 0,
            r.ltd == 0,
            r.ac@ == Set::<Coord>::empty(),
            r.dc@ == Set::<Coord>::empty(),
            r.within_bounds(),
    {
        Neuron {
            x,
            y,
            z,
            ax,
            ay,
            az,
            nt,
            nrt,
            ap: 0,
            tp: Self::MIN_THRESHOLD_POTENTIAL,
            mp: Self::RESTING_POTENTIAL,
            fr: 0,
            sw: UNIT,
            sst: 0,
            pr: UNIT,
            arp: 0,
            rrp: Self::BASE_RELATIVE_REFRACTORY_PERIOD,
            ac: ConnectionSet::new(),
            dc: ConnectionSet::new(),
            nc: UNIT,
            ltp: 0,
            ltd: 0,
        }
    }

    /// `new`, or the code that is out of range: the neuron type is checked
    /// first.
    pub fn try_new(x: usize, y: usize, z: usize, ax: usize, ay: usize, az: usize, nt: u32, nrt: u32) -> (r:
        Result<Neuron, InvalidArgument>)
        ensures
            nt > 2 ==> r == Err::<Neuron, InvalidArgument>(InvalidArgument::NeuronType(nt)),
            nt <= 2 && nrt > 1 ==> r == Err::<Neuron, InvalidArgument>(
                InvalidArgument::NeurotransmitterType(nrt),
            ),
            r is Ok <==> nt <= 2 && nrt <= 1,
            r matches Ok(n) ==> {
                &&& n.soma() == (x, y, z)
                &&& n.ax == ax && n.ay == ay && n.az == az
                &&& n.nt == nt && n.nrt == nrt
                &&& n.ap == 0 && n.tp == Self::MIN_THRESHOLD_POTENTIAL
                &&& n.mp == Self::RESTING_POTENTIAL && n.sw == UNIT
                &&& n.ac@ == Set::<Coord>::empty() && n.dc@ == Set::<Coord>::empty()
                &&& n.within_bounds()
            },
    {
        if nt > 2 {
            Err(InvalidArgument::NeuronType(nt))
        } else if nrt > 1 {
            Err(InvalidArgument::NeurotransmitterType(nrt))
        } else {
            Ok(Neuron::new(x, y, z, ax, ay, az, nt, nrt))
        }
    }

    /// Adds an edge from this neuron's axon to `neuron`'s dendrites, on both
    /// sides.
    pub fn establish_axonal_connection(&mut self, neuron: &mut Neuron)
        ensures
            final(self).ac@ == old(self).ac@.insert(old(neuron).soma()),
            final(neuron).dc@ == old(neuron).dc@.insert(old(self).soma()),
            *final(self) == (Neuron { ac: final(self).ac, ..*old(self) }),
            *final(neuron) == (Neuron { dc: final(neuron).dc, ..*old(neuron) }),
    {
        self.ac.insert((neuron.x, neuron.y, neuron.z));
        neuron.dc.insert((self.x, self.y, self.z));
    }

    /// Adds an edge from `neuron`'s axon to this neuron's dendrites, on both
    /// sides.
    pub fn establish_dendritic_connection(&mut self, neuron: &mut Neuron)
        ensures
            final(self).dc@ == old(self).dc@.insert(old(neuron).soma()),
            final(neuron).ac@ == old(neuron).ac@.insert(old(self).soma()),
            *final(self) == (Neuron { dc: final(self).dc, ..*old(self) }),
            *final(neuron) == (Neuron { ac: final(neuron).ac, ..*old(neuron) }),
    {
        self.dc.insert((neuron.x, neuron.y, neuron.z));
        neuron.ac.insert((self.x, self.y, self.z));
    }

    /// Removes the edge from this neuron's axon to `neuron`, on both sides.
    pub fn terminate_axonal_connection(&mut self, neuron: &mut Neuron)
        ensures
            final(self).ac@ == old(self).ac@.remove(old(neuron).soma()),
            final(neuron).dc@ == old(neuron).dc@.remove(old(self).soma()),
            *final(self) == (Neuron { ac: final(self).ac, ..*old(self) }),
            *final(neuron) == (Neuron { dc: final(neuron).dc, ..*old(neuron) }),
    {
        self.ac.remove(&(neuron.x, neuron.y, neuron.z));
        neuron.dc.remove(&(self.x, self.y, self.z));
    }

    /// Removes the edge from `neuron`'s axon to this neuron, on both sides.
    pub fn terminate_dendritic_connection(&mut self, neuron: &mut Neuron)
        ensures
            final(self).dc@ == old(self).dc@.remove(old(neuron).soma()),
            final(neuron).ac@ == old(neuron).ac@.remove(old(self).soma()),
            *final(self) == (Neuron { dc: final(self).dc, ..*old(self) }),
            *final(neuron) == (Neuron { ac: final(neuron).ac, ..*old(neuron) }),
    {
        self.dc.remove(&(neuron.x, neuron.y, neuron.z));
        neuron.ac.remove(&(self.x, self.y, self.z));
    }

    /// Keeps, removes or (re-)creates the edge from this neuron's axon to
    /// `neuron` by comparing synaptic weights: a weight at or below its own
    /// threshold and below the partner's loses the edge; a weight at least
    /// the partner's gets it; otherwise nothing changes.
    pub fn prune_axonal_connection(&mut self, neuron: &mut Neuron)
        ensures
            old(self).sw <= old(self).sst && old(self).sw < old(neuron).sw ==> {
                &&& final(self).ac@ == old(self).ac@.remove(old(neuron).soma())
                &&& final(neuron).dc@ == old(neuron).dc@.remove(old(self).soma())
            },
            !(old(self).sw <= old(self).sst && old(self).sw < old(neuron).sw) && old(self).sw
                >= old(neuron).sw ==> {
                &&& final(self).ac@ == old(self).ac@.insert(old(neuron).soma())
                &&& final(neuron).dc@ == old(neuron).dc@.insert(old(self).soma())
            },
            !(old(self).sw <= old(self).sst && old(self).sw < old(neuron).sw) && old(self).sw
                < old(neuron).sw ==> *final(self) == *old(self) && *final(neuron) == *old(neuron),
            *final(self) == (Neuron { ac: final(self).ac, ..*old(self) }),
            *final(neuron) == (Neuron { dc: final(neuron).dc, ..*old(neuron) }),
    {
        if self.sw <= self.sst && self.sw < neuron.sw {
            self.terminate_axonal_connection(neuron);
        } else if self.sw >= neuron.sw {
            self.establish_axonal_connection(neuron);
        }
    }

    /// The mirror of `prune_axonal_connection` for the edge from `neuron`'s
    /// axon to this neuron: a weight at or below its own threshold and above
    /// the partner's loses the edge; a partner weight at least this one's
    /// gets it; otherwise nothing changes.
    pub fn prune_dendritic_connection(&mut self, neuron: &mut Neuron)
        ensures
            old(self).sw <= old(self).sst && old(neuron).sw < old(self).sw ==> {
                &&& final(self).dc@ == old(self).dc@.remove(old(neuron).soma())
                &&& final(neuron).ac@ == old(neuron).ac@.remove(old(self).soma())
            },
            !(old(self).sw <= old(self).sst && old(neuron).sw < old(self).sw) && old(neuron).sw
                >= old(self).sw ==> {
                &&& final(self).dc@ == old(self).dc@.insert(old(neuron).soma())
                &&& final(neuron).ac@ == old(neuron).ac@.insert(old(self).soma())
            },
            !(old(self).sw <= old(self).sst && old(neuron).sw < old(self).sw) && old(neuron).sw
                < old(self).sw ==> *final(self) == *old(self) && *final(neuron) == *old(neuron),
            *final(self) == (Neuron { dc: final(self).dc, ..*old(self) }),
            *final(neuron) == (Neuron { ac: final(neuron).ac, ..*old(neuron) }),
    {
        if self.sw <= self.sst && neuron.sw < self.sw {
            self.terminate_dendritic_connection(neuron);
        } else if neuron.sw >= self.sw {
            self.establish_dendritic_connection(neuron);
        }
    }
}

/// The gain-scaled drive `p * FIRING_RATE_BOOST_FACTOR / fr` behind a signal.
/// A zero firing rate makes the gain unbounded: the drive then lies beyond
/// every signal bound on the side of `p`'s sign, and is zero where `p` is.
pub open spec fn drive(p: int, fr: int) -> int {
    if fr == 0 {
        if p > 0 {
            i64::MAX as int
        } else if p < 0 {
            i64::MIN as int
        } else {
            0
        }
    } else {
        tdiv(p * Neuron::FIRING_RATE_BOOST_FACTOR, fr)
    }
}

fn drive_of(p: i128, fr: i64) -> (r: i128)
    requires
        -0x8000_0000_0000_0000 <= p <= 0x8000_0000_0000_0000,
    ensures
        r == drive(p as int, fr as int),
{
    if fr == 0 {
        if p > 0 {
            i64::MAX as i128
        } else if p < 0 {
            i64::MIN as i128
        } else {
            0
        }
    } else {
        proof {
            assert(-0x8000_0000_0000_0000 * Neuron::FIRING_RATE_BOOST_FACTOR <= p
                * Neuron::FIRING_RATE_BOOST_FACTOR <= 0x8000_0000_0000_0000
                * Neuron::FIRING_RATE_BOOST_FACTOR) by (nonlinear_arith)
                requires
                    -0x8000_0000_0000_0000 <= p <= 0x8000_0000_0000_0000,
            ;
        }
        trunc_div(p * (Neuron::FIRING_RATE_BOOST_FACTOR as i128), fr as i128)
    }
}

impl Neuron {
    /// The signal that firing emits: the drive of the accumulated potential,
    /// clamped to the excitatory range, or its negation clamped to the
    /// inhibitory range; zero for an unknown neurotransmitter type.
    pub open spec fn signal(self) -> int {
        if self.nrt == 1 {
            clamp(drive(self.ap as int, self.fr as int), Self::MIN_EXCITATORY_SIGNAL as int, Self::MAX_EXCITATORY_SIGNAL as int)
        } else if self.nrt == 0 {
            clamp(drive(-self.ap, self.fr as int), Self::MIN_INHIBITORY_SIGNAL as int, Self::MAX_INHIBITORY_SIGNAL as int)
        } else {
            0
        }
    }

    /// The absolute refractory period after one blocked signal.
    pub open spec fn decayed_arp(self) -> int {
        clamp(
            tdiv(self.arp * UNIT - Self::ABSOLUTE_REFRACTORY_PERIOD_DECREASE_FACTOR * self.fr, UNIT as int),
            0,
            Self::BASE_ABSOLUTE_REFRACTORY_PERIOD as int,
        )
    }

    /// Adds the input to the accumulated potential, scaled by the
    /// neurotransmitter concentration, the relative refractory period and a
    /// gain that is ten times higher for inputs of at least the critical
    /// value in magnitude.
    pub open spec fn accumulated(self, input: i64) -> Neuron {
        let gain = if abs(input as int) >= Self::ACCUMULATED_POTENTIAL_CRITICAL_VALUE {
            Self::ACCUMULATED_POTENTIAL_STIMULUS_INTENSITY
        } else {
            Self::ACCUMULATED_POTENTIAL_SLIGHT_INTENSITY
        };
        let delta = fmul(fmul(fmul(gain as int, input as int), self.nc as int), self.rrp as int);
        Neuron { ap: sat(self.ap + delta) as i64, ..self }
    }

    /// The membrane potential: rest plus the accumulated potential, clamped.
    pub open spec fn settled_membrane(self) -> Neuron {
        Neuron {
            mp: clamp(Self::RESTING_POTENTIAL + self.ap, Self::MIN_MEMBRANE_POTENTIAL as int, Self::MAX_MEMBRANE_POTENTIAL as int) as i64,
            ..self
        }
    }

    /// The threshold, recomputed from its minimum: raised by a share of a
    /// positive accumulated potential and of the firing rate, then capped.
    pub open spec fn adjusted_threshold(self) -> Neuron {
        let from_ap = if self.ap > 0 {
            fmul(Self::THRESHOLD_POTENTIAL_BOOST_FACTOR_FOR_ACCUMULATED_POTENTIAL as int, self.ap as int)
        } else {
            0
        };
        let from_fr = fmul(Self::THRESHOLD_POTENTIAL_BOOST_FACTOR_FOR_FIRING_RATE as int, self.fr as int);
        Neuron {
            tp: at_most(Self::MIN_THRESHOLD_POTENTIAL + from_ap + from_fr, Self::MAX_THRESHOLD_POTENTIAL as int) as i64,
            ..self
        }
    }

    /// The relative refractory period recovers with the firing rate; reaching
    /// the threshold starts a full absolute period and empties the relative
    /// one.
    pub open spec fn adjusted_refractory(self) -> Neuron {
        let rrp = if self.rrp < Self::BASE_RELATIVE_REFRACTORY_PERIOD {
            at_most(
                self.rrp + fmul(Self::RELATIVE_REFRACTORY_PERIOD_RECOVERY_FACTOR as int, self.fr as int),
                Self::BASE_RELATIVE_REFRACTORY_PERIOD as int,
            )
        } else {
            self.rrp as int
        };
        if self.firing_eligible() {
            Neuron { arp: Self::BASE_ABSOLUTE_REFRACTORY_PERIOD, rrp: 0, ..self }
        } else {
            Neuron { rrp: rrp as i64, ..self }
        }
    }

    /// The firing rate rises with the accumulated potential at the threshold
    /// and decays below it; capped.
    pub open spec fn adjusted_firing_rate(self) -> Neuron {
        let fr = if self.firing_eligible() {
            self.fr + fmul(Self::FIRING_RATE_BOOST_FACTOR as int, fdiv(self.ap as int, Self::ACCUMULATED_POTENTIAL_CRITICAL_VALUE as int))
        } else {
            fmul(self.fr as int, Self::FIRING_RATE_DECREASE_FACTOR as int)
        };
        Neuron { fr: at_most(fr, Self::MAX_FIRING_RATE as int) as i64, ..self }
    }

    /// The plasticity rate rises with the firing rate at the threshold and
    /// decays below it; capped.
    pub open spec fn adjusted_plasticity_rate(self) -> Neuron {
        let pr = if self.firing_eligible() {
            self.pr + fmul(Self::PLASTICITY_RATE_BOOST_FACTOR as int, self.fr as int)
        } else {
            fmul(self.pr as int, Self::PLASTICITY_RATE_DECREASE_FACTOR as int)
        };
        Neuron { pr: at_most(pr, Self::MAX_PLASTICITY_RATE as int) as i64, ..self }
    }

    /// Long-term potentiation rises with a positive input and decays
    /// otherwise; capped.
    pub open spec fn adjusted_ltp(self, input: i64) -> Neuron {
        let ltp = if input > 0 {
            self.ltp + fmul(Self::LTP_BOOST_FACTOR as int, fdiv(input as int, Self::ACCUMULATED_POTENTIAL_CRITICAL_VALUE as int))
        } else {
            fmul(self.ltp as int, Self::LTP_DECREASE_FACTOR as int)
        };
        Neuron { ltp: at_most(ltp, Self::MAX_LTP as int) as i64, ..self }
    }

    /// Long-term depression falls with a negative input and decays toward
    /// zero otherwise; floored.
    pub open spec fn adjusted_ltd(self, input: i64) -> Neuron {
        let ltd = if input < 0 {
            self.ltd + fmul(Self::LTD_BOOST_FACTOR as int, fdiv(input as int, Self::ACCUMULATED_POTENTIAL_CRITICAL_VALUE as int))
        } else {
            fmul(self.ltd as int, Self::LTD_DECREASE_FACTOR as int)
        };
        Neuron { ltd: at_least(ltd, Self::MIN_LTD as int) as i64, ..self }
    }

    /// The synaptic strength threshold moves against the input; clamped.
    pub open spec fn adjusted_sst(self, input: i64) -> Neuron {
        let sst = self.sst - fmul(Self::SYNAPTIC_STRENGTH_THRESHOLD_BOOST_FACTOR as int, fdiv(input as int, Self::ACCUMULATED_POTENTIAL_CRITICAL_VALUE as int));
        Neuron { sst: clamp(sst, Self::MIN_LTD as int, Self::MAX_LTP as int) as i64, ..self }
    }

    /// The synaptic weight moves by potentiation plus depression, scaled by
    /// the plasticity rate; clamped.
    pub open spec fn adjusted_sw(self) -> Neuron {
        let sw = self.sw + fmul(sat(self.ltp + self.ltd), self.pr as int);
        Neuron { sw: clamp(sw, Self::MIN_LTD as int, Self::MAX_LTP as int) as i64, ..self }
    }

    /// The full update for one signal that is not blocked: each stage reads
    /// what the stage before it wrote.
    pub open spec fn processed(self, input: i64) -> Neuron {
        self.accumulated(input)
            .settled_membrane()
            .adjusted_threshold()
            .adjusted_refractory()
            .adjusted_firing_rate()
            .adjusted_plasticity_rate()
            .adjusted_ltp(input)
            .adjusted_ltd(input)
            .adjusted_sst(input)
            .adjusted_sw()
    }

    /// The state after one signal: while absolutely refractory the signal is
    /// dropped and only the refractory period decays.
    pub open spec fn after_transmit(self, input: i64) -> Neuron {
        if self.arp > 0 {
            Neuron { arp: self.decayed_arp() as i64, ..self }
        } else {
            self.processed(input)
        }
    }

    /// Fires if the membrane potential has reached the threshold, returning
    /// the signal; otherwise returns 0 and changes nothing. Firing resets the
    /// accumulated potential to 0.
    pub fn detect(&mut self) -> (r: i64)
        ensures
            !old(self).firing_eligible() ==> r == 0 && *final(self) == *old(self),
            old(self).firing_eligible() ==> r == old(self).signal(),
            old(self).firing_eligible() ==> *final(self) == (Neuron { ap: 0, ..*old(self) }),
            old(self).firing_eligible() && old(self).nrt == 1 ==> Self::MIN_EXCITATORY_SIGNAL <= r
                <= Self::MAX_EXCITATORY_SIGNAL,
            old(self).firing_eligible() && old(self).nrt == 0 ==> Self::MIN_INHIBITORY_SIGNAL <= r
                <= Self::MAX_INHIBITORY_SIGNAL,
    {
        if self.mp >= self.tp {
            return self.fire();
        }
        0
    }

    fn fire(&mut self) -> (r: i64)
        ensures
            r == old(self).signal(),
            *final(self) == (Neuron { ap: 0, ..*old(self) }),
    {
        let output: i64 = if self.nrt == 1 {
            clamp_i128(drive_of(self.ap as i128, self.fr), Self::MIN_EXCITATORY_SIGNAL, Self::MAX_EXCITATORY_SIGNAL)
        } else if self.nrt == 0 {
            clamp_i128(drive_of(-(self.ap as i128), self.fr), Self::MIN_INHIBITORY_SIGNAL, Self::MAX_INHIBITORY_SIGNAL)
        } else {
            0
        };
        self.ap = 0;
        output
    }

    /// The delay in milliseconds before a signal from `source` arrives: the
    /// Euclidean distance between the two somas, rounded to the nearest
    /// integer (capped at the largest `u64`).
    pub fn signal_delay(&self, source: &Neuron) -> (r: u64)
        ensures
            is_rounded_distance(r, self.soma(), source.soma()),
    {
        rounded_distance((self.x, self.y, self.z), (source.x, source.y, source.z))
    }

    /// Applies one arriving signal: while absolutely refractory only the
    /// refractory period decays; otherwise the potentials, rates, periods and
    /// weights are updated in turn.
    pub fn transmit(&mut self, input: i64)
        ensures
            *final(self) == old(self).after_transmit(input),
            old(self).within_bounds() ==> final(self).within_bounds(),
            old(self).arp > 0 ==> (*final(self) == Neuron { arp: final(self).arp, ..*old(self) }),
            old(self).within_bounds() && old(self).arp > 0 && old(self).fr > 0 ==> final(self).arp
                < old(self).arp,
    {
        proof {
            if old(self).within_bounds() {
                crate::laws::lemma_transmit_keeps_bounds(*old(self), input);
            }
            if old(self).within_bounds() && old(self).arp > 0 && old(self).fr > 0 {
                crate::laws::lemma_refractory_gate(*old(self), input);
            }
        }
        if self.detection_arp() {
            return;
        }
        self.update_ap(input);
        self.update_mp();
        self.update_tp();
        self.update_rp();
        self.update_fr();
        self.update_pr();
        self.update_ltp(input);
        self.update_ltd(input);
        self.update_sst(input);
        self.update_sw();
    }

    fn detection_arp(&mut self) -> (r: bool)
        ensures
            r == (old(self).arp > 0),
            r ==> *final(self) == (Neuron { arp: old(self).decayed_arp() as i64, ..*old(self) }),
            !r ==> *final(self) == *old(self),
    {
        if self.arp > 0 {
            proof {
                lemma_scaled_bound(self.arp as int, UNIT as int);
                lemma_scaled_bound(self.fr as int, Self::ABSOLUTE_REFRACTORY_PERIOD_DECREASE_FACTOR as int);
            }
            let n: i128 = (self.arp as i128) * (UNIT as i128) - (Self::ABSOLUTE_REFRACTORY_PERIOD_DECREASE_FACTOR as i128) * (self.fr as i128);
            self.arp = clamp_i128(trunc_div(n, UNIT as i128), 0, Self::BASE_ABSOLUTE_REFRACTORY_PERIOD);
            return true;
        }
        false
    }

    fn update_ap(&mut self, input: i64)
        ensures
            *final(self) == old(self).accumulated(input),
    {
        let gain: i64 = if input >= Self::ACCUMULATED_POTENTIAL_CRITICAL_VALUE || input <= -Self::ACCUMULATED_POTENTIAL_CRITICAL_VALUE {
            Self::ACCUMULATED_POTENTIAL_STIMULUS_INTENSITY
        } else {
            Self::ACCUMULATED_POTENTIAL_SLIGHT_INTENSITY
        };
        let delta = fixed_mul(fixed_mul(fixed_mul(gain, input), self.nc), self.rrp);
        self.ap = saturate(self.ap as i128 + delta as i128);
    }

    fn update_mp(&mut self)
        ensures
            *final(self) == old(self).settled_membrane(),
    {
        self.mp = clamp_i128(Self::RESTING_POTENTIAL as i128 + self.ap as i128, Self::MIN_MEMBRANE_POTENTIAL, Self::MAX_MEMBRANE_POTENTIAL);
    }

    fn update_tp(&mut self)
        ensures
            *final(self) == old(self).adjusted_threshold(),
    {
        let from_ap: i64 = if self.ap > 0 {
            fixed_mul(Self::THRESHOLD_POTENTIAL_BOOST_FACTOR_FOR_ACCUMULATED_POTENTIAL, self.ap)
        } else {
            0
        };
        let from_fr = fixed_mul(Self::THRESHOLD_POTENTIAL_BOOST_FACTOR_FOR_FIRING_RATE, self.fr);
        self.tp = clamp_i128(Self::MIN_THRESHOLD_POTENTIAL as i128 + from_ap as i128 + from_fr as i128, i64::MIN, Self::MAX_THRESHOLD_POTENTIAL);
    }

    fn update_rp(&mut self)
        ensures
            *final(self) == old(self).adjusted_refractory(),
    {
        if self.rrp < Self::BASE_RELATIVE_REFRACTORY_PERIOD {
            let boost = fixed_mul(Self::RELATIVE_REFRACTORY_PERIOD_RECOVERY_FACTOR, self.fr);
            self.rrp = clamp_i128(self.rrp as i128 + boost as i128, i64::MIN, Self::BASE_RELATIVE_REFRACTORY_PERIOD);
        }
        if self.mp >= self.tp {
            self.arp = Self::BASE_ABSOLUTE_REFRACTORY_PERIOD;
            self.rrp = 0;
        }
    }

    fn update_fr(&mut self)
        ensures
            *final(self) == old(self).adjusted_firing_rate(),
    {
        let fr: i128 = if self.mp >= self.tp {
            let boost = fixed_mul(Self::FIRING_RATE_BOOST_FACTOR, fixed_div(self.ap, Self::ACCUMULATED_POTENTIAL_CRITICAL_VALUE));
            self.fr as i128 + boost as i128
        } else {
            fixed_mul(self.fr, Self::FIRING_RATE_DECREASE_FACTOR) as i128
        };
        self.fr = clamp_i128(fr, i64::MIN, Self::MAX_FIRING_RATE);
    }

    fn update_pr(&mut self)
        ensures
            *final(self) == old(self).adjusted_plasticity_rate(),
    {
        let pr: i128 = if self.mp >= self.tp {
            self.pr as i128 + fixed_mul(Self::PLASTICITY_RATE_BOOST_FACTOR, self.fr) as i128
        } else {
            fixed_mul(self.pr, Self::PLASTICITY_RATE_DECREASE_FACTOR) as i128
        };
        self.pr = clamp_i128(pr, i64::MIN, Self::MAX_PLASTICITY_RATE);
    }

    fn update_ltp(&mut self, input: i64)
        ensures
            *final(self) == old(self).adjusted_ltp(input),
    {
        let ltp: i128 = if input > 0 {
            let boost = fixed_mul(Self::LTP_BOOST_FACTOR, fixed_div(input, Self::ACCUMULATED_POTENTIAL_CRITICAL_VALUE));
            self.ltp as i128 + boost as i128
        } else {
            fixed_mul(self.ltp, Self::LTP_DECREASE_FACTOR) as i128
        };
        self.ltp = clamp_i128(ltp, i64::MIN, Self::MAX_LTP);
    }

    fn update_ltd(&mut self, input: i64)
        ensures
            *final(self) == old(self).adjusted_ltd(input),
    {
        let ltd: i128 = if input < 0 {
            let boost = fixed_mul(Self::LTD_BOOST_FACTOR, fixed_div(input, Self::ACCUMULATED_POTENTIAL_CRITICAL_VALUE));
            self.ltd as i128 + boost as i128
        } else {
            fixed_mul(self.ltd, Self::LTD_DECREASE_FACTOR) as i128
        };
        self.ltd = clamp_i128(ltd, Self::MIN_LTD, i64::MAX);
    }

    fn update_sst(&mut self, input: i64)
        ensures
            *final(self) == old(self).adjusted_sst(input),
    {
        let change = fixed_mul(Self::SYNAPTIC_STRENGTH_THRESHOLD_BOOST_FACTOR, fixed_div(input, Self::ACCUMULATED_POTENTIAL_CRITICAL_VALUE));
        self.sst = clamp_i128(self.sst as i128 - change as i128, Self::MIN_LTD, Self::MAX_LTP);
    }

    fn update_sw(&mut self)
        ensures
            *final(self) == old(self).adjusted_sw(),
    {
        let net = saturate(self.ltp as i128 + self.ltd as i128);
        let change = fixed_mul(net, self.pr);
        self.sw = clamp_i128(self.sw as i128 + change as i128, Self::MIN_LTD, Self::MAX_LTP);
    }
}

} // verus!
