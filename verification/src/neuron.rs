//! One simulated Izhikevich neuron: its four dynamics constants, synapse
//! polarity, outgoing connection weights, and mutable state.
//!
//! All real-valued quantities are IEEE-754 binary64 bit patterns (see
//! `fp`); the uniform draw that randomizes a neuron's parameters is an
//! explicit `u64` bit-pattern argument, so that construction is a pure
//! function of its inputs.

use vstd::prelude::*;

use crate::fp::{
    f_add_bits, f_ge_bits, f_mul_bits, f_sub_bits, fp_add, fp_ge, fp_mul, fp_sub, is_finite_bits,
    spec_is_finite,
};

verus! {

/// Bit pattern of 0.0.
pub const ZERO_BITS: u64 = 0;

/// Bit pattern of 0.02.
pub const P0_02_BITS: u64 = 0x3F94_7AE1_47AE_147B;

/// Bit pattern of 0.04.
pub const P0_04_BITS: u64 = 0x3FA4_7AE1_47AE_147B;

/// Bit pattern of 0.05.
pub const P0_05_BITS: u64 = 0x3FA9_9999_9999_999A;

/// Bit pattern of 0.08.
pub const P0_08_BITS: u64 = 0x3FB4_7AE1_47AE_147B;

/// Bit pattern of 0.1.
pub const P0_1_BITS: u64 = 0x3FB9_9999_9999_999A;

/// Bit pattern of 0.2.
pub const P0_2_BITS: u64 = 0x3FC9_9999_9999_999A;

/// Bit pattern of 0.25.
pub const P0_25_BITS: u64 = 0x3FD0_0000_0000_0000;

/// Bit pattern of 0.5.
pub const HALF_BITS: u64 = 0x3FE0_0000_0000_0000;

/// Bit pattern of 2.0.
pub const TWO_BITS: u64 = 0x4000_0000_0000_0000;

/// Bit pattern of 4.0.
pub const FOUR_BITS: u64 = 0x4010_0000_0000_0000;

/// Bit pattern of 5.0.
pub const FIVE_BITS: u64 = 0x4014_0000_0000_0000;

/// Bit pattern of 6.0.
pub const SIX_BITS: u64 = 0x4018_0000_0000_0000;

/// Bit pattern of 8.0.
pub const EIGHT_BITS: u64 = 0x4020_0000_0000_0000;

/// Bit pattern of 15.0.
pub const FIFTEEN_BITS: u64 = 0x402E_0000_0000_0000;

/// Bit pattern of 30.0, the spike threshold.
pub const THIRTY_BITS: u64 = 0x403E_0000_0000_0000;

/// Bit pattern of 140.0.
pub const C140_BITS: u64 = 0x4061_8000_0000_0000;

/// Bit pattern of -50.0.
pub const NEG_50_BITS: u64 = 0xC049_0000_0000_0000;

/// Bit pattern of -55.0.
pub const NEG_55_BITS: u64 = 0xC04B_8000_0000_0000;

/// Bit pattern of -65.0, the initial membrane potential.
pub const NEG_65_BITS: u64 = 0xC050_4000_0000_0000;

/// The four scalar constants governing one neuron's dynamics, each held
/// as the bit pattern of an IEEE-754 binary64 value.
#[derive(Clone, Copy, PartialEq, Eq, Structural, Debug)]
pub struct NeuronParameters {
    /// Time scale of the recovery variable `u`.
    pub a: u64,
    /// Sensitivity of the recovery variable `u` to subthreshold
    /// fluctuations of the membrane potential `v`.
    pub b: u64,
    /// After-spike reset value of the membrane potential `v`.
    pub c: u64,
    /// After-spike increment of the recovery variable `u`.
    pub d: u64,
}

/// Whether a neuron excites or inhibits its targets; also selects the
/// scaling of its thalamic drive and its parameter-randomization rule.
#[derive(Clone, Copy, PartialEq, Eq, Structural, Debug)]
pub enum SynapseType {
    Excitatory,
    Inhibitory,
}

/// A richer per-neuron archetype; each maps to a fixed parameter preset
/// and a synapse polarity.
#[derive(Clone, Copy, PartialEq, Eq, Structural, Debug)]
pub enum NeuronType {
    Regular,
    IntrinsicallyBursting,
    Chattering,
    FastSpiking,
    LowThresholdSpiking,
}

/// The synapse polarity of each archetype.
pub open spec fn spec_polarity(neuron_type: NeuronType) -> SynapseType {
    match neuron_type {
        NeuronType::Regular => SynapseType::Excitatory,
        NeuronType::IntrinsicallyBursting => SynapseType::Excitatory,
        NeuronType::Chattering => SynapseType::Excitatory,
        NeuronType::FastSpiking => SynapseType::Inhibitory,
        NeuronType::LowThresholdSpiking => SynapseType::Inhibitory,
    }
}

/// The fixed parameter preset of each archetype.
pub open spec fn spec_preset(neuron_type: NeuronType) -> NeuronParameters {
    match neuron_type {
        NeuronType::Regular => NeuronParameters {
            a: P0_02_BITS,
            b: P0_2_BITS,
            c: NEG_65_BITS,
            d: TWO_BITS,
        },
        NeuronType::IntrinsicallyBursting => NeuronParameters {
            a: P0_02_BITS,
            b: P0_2_BITS,
            c: NEG_55_BITS,
            d: FOUR_BITS,
        },
        NeuronType::Chattering => NeuronParameters {
            a: P0_02_BITS,
            b: P0_2_BITS,
            c: NEG_50_BITS,
            d: TWO_BITS,
        },
        NeuronType::FastSpiking => NeuronParameters {
            a: P0_1_BITS,
            b: P0_2_BITS,
            c: NEG_65_BITS,
            d: TWO_BITS,
        },
        NeuronType::LowThresholdSpiking => NeuronParameters {
            a: P0_1_BITS,
            b: P0_25_BITS,
            c: NEG_55_BITS,
            d: TWO_BITS,
        },
    }
}

/// Excitatory randomization: keep `a` and `b`, and draw `c` and `d`
/// toward the regular-spiking corner using the square of the uniform
/// draw `r`: `c = -65 + 15 r²`, `d = 8 - 6 r²`.
pub open spec fn spec_randomized_excitatory(a: u64, b: u64, r: u64) -> NeuronParameters {
    NeuronParameters {
        a,
        b,
        c: f_add_bits(NEG_65_BITS, f_mul_bits(f_mul_bits(FIFTEEN_BITS, r), r)),
        d: f_sub_bits(EIGHT_BITS, f_mul_bits(f_mul_bits(SIX_BITS, r), r)),
    }
}

/// Inhibitory randomization: re-draw `a` and `b` away from the given
/// base values using the uniform draw `r` (`a = a₀ + 0.08 r`,
/// `b = b₀ - 0.05 r`), keeping the given `c` and `d`.
pub open spec fn spec_randomized_inhibitory(base: NeuronParameters, r: u64) -> NeuronParameters {
    NeuronParameters {
        a: f_add_bits(base.a, f_mul_bits(P0_08_BITS, r)),
        b: f_sub_bits(base.b, f_mul_bits(P0_05_BITS, r)),
        c: base.c,
        d: base.d,
    }
}

/// The parameters a neuron built from a bare synapse type receives, as a
/// function of its uniform draw `r`: the excitatory rule from the
/// regular-spiking defaults, or the inhibitory rule from the
/// fast-spiking-corner defaults `a = 0.02`, `b = 0.25`, `c = -65`,
/// `d = 2`.
pub open spec fn spec_params_from_synapse(synapse_type: SynapseType, r: u64) -> NeuronParameters {
    match synapse_type {
        SynapseType::Excitatory => spec_randomized_excitatory(P0_02_BITS, P0_2_BITS, r),
        SynapseType::Inhibitory => spec_randomized_inhibitory(
            NeuronParameters { a: P0_02_BITS, b: P0_25_BITS, c: NEG_65_BITS, d: TWO_BITS },
            r,
        ),
    }
}

/// The base current a neuron receives from its thalamic sample:
/// excitatory cells are driven five times as strongly, inhibitory cells
/// twice.
pub open spec fn spec_base_current(synapse_type: SynapseType, thalamic: u64) -> u64 {
    match synapse_type {
        SynapseType::Excitatory => f_mul_bits(thalamic, FIVE_BITS),
        SynapseType::Inhibitory => f_mul_bits(thalamic, TWO_BITS),
    }
}

/// The synaptic current over the first `k` source neurons: starting from
/// 0.0, the weights at indices whose source spiked are added in index
/// order.
pub open spec fn spec_synaptic_sum(spikes: Seq<bool>, weights: Seq<u64>, k: int) -> u64
    decreases k,
{
    if k <= 0 {
        ZERO_BITS
    } else {
        let rest = spec_synaptic_sum(spikes, weights, k - 1);
        if spikes[k - 1] {
            f_add_bits(rest, weights[k - 1])
        } else {
            rest
        }
    }
}

/// One Euler half-step of the membrane potential:
/// `v + 0.5 · (0.04 v² + 5 v + 140 - u + i)`, with every operation and
/// its order exactly as performed.
pub open spec fn spec_half_step(v: u64, u: u64, i: u64) -> u64 {
    f_add_bits(
        v,
        f_mul_bits(
            HALF_BITS,
            f_add_bits(
                f_sub_bits(
                    f_add_bits(
                        f_add_bits(f_mul_bits(f_mul_bits(P0_04_BITS, v), v), f_mul_bits(FIVE_BITS, v)),
                        C140_BITS,
                    ),
                    u,
                ),
                i,
            ),
        ),
    )
}

/// The recovery update performed once per tick: `u + a · (b v - u)`.
pub open spec fn spec_recovery_update(u: u64, a: u64, b: u64, v: u64) -> u64 {
    f_add_bits(u, f_mul_bits(a, f_sub_bits(f_mul_bits(b, v), u)))
}

/// The full per-tick update of one neuron: its post-tick value and
/// whether it spiked, as a function of its pre-tick value, its thalamic
/// sample, and the previous tick's spike vector.
pub open spec fn spec_neuron_step(pre: NeuronView, thalamic: u64, synaptic: Seq<bool>) -> (
    NeuronView,
    bool,
) {
    let i = f_add_bits(
        spec_base_current(pre.synapse_type, thalamic),
        spec_synaptic_sum(synaptic, pre.weights, synaptic.len() as int),
    );
    let v1 = spec_half_step(pre.v, pre.u, i);
    let v2 = spec_half_step(v1, pre.u, i);
    let u2 = spec_recovery_update(pre.u, pre.parameters.a, pre.parameters.b, v2);
    let spiked = f_ge_bits(v2, THIRTY_BITS);
    if spiked {
        (
            NeuronView { v: pre.parameters.c, u: f_add_bits(u2, pre.parameters.d), ..pre },
            true,
        )
    } else {
        (NeuronView { v: v2, u: u2, ..pre }, false)
    }
}

/// After a tick in which a neuron spikes, its potential is exactly its
/// own after-spike reset value `c`, and its recovery variable is exactly
/// its pre-spike-check value (the recovery update of this tick) plus its
/// own increment `d`.
pub proof fn lemma_spike_reset(pre: NeuronView, thalamic: u64, synaptic: Seq<bool>)
    requires
        spec_neuron_step(pre, thalamic, synaptic).1,
    ensures
        spec_neuron_step(pre, thalamic, synaptic).0.v == pre.parameters.c,
        spec_neuron_step(pre, thalamic, synaptic).0.u == f_add_bits(
            spec_recovery_update(
                pre.u,
                pre.parameters.a,
                pre.parameters.b,
                spec_half_step(
                    spec_half_step(
                        pre.v,
                        pre.u,
                        f_add_bits(
                            spec_base_current(pre.synapse_type, thalamic),
                            spec_synaptic_sum(synaptic, pre.weights, synaptic.len() as int),
                        ),
                    ),
                    pre.u,
                    f_add_bits(
                        spec_base_current(pre.synapse_type, thalamic),
                        spec_synaptic_sum(synaptic, pre.weights, synaptic.len() as int),
                    ),
                ),
            ),
            pre.parameters.d,
        ),
{
}

/// One simulated cell: parameters, synapse polarity, outgoing connection
/// weights (index = target neuron), and the mutable state `v` and `u`.
pub struct Neuron {
    /// Izhikevich dynamics parameters.
    pub parameters: NeuronParameters,
    /// Excitatory or inhibitory; scales the thalamic input.
    pub synapse_type: SynapseType,
    /// Pairwise weights to the other neurons, as binary64 bit patterns.
    pub connection_weights: Vec<u64>,
    /// Membrane potential, as a binary64 bit pattern.
    pub v: u64,
    /// Membrane recovery variable, as a binary64 bit pattern.
    pub u: u64,
}

/// The mathematical value of a `Neuron`: the same fields with the weight
/// vector abstracted to a sequence.
pub ghost struct NeuronView {
    pub parameters: NeuronParameters,
    pub synapse_type: SynapseType,
    pub weights: Seq<u64>,
    pub v: u64,
    pub u: u64,
}

impl View for Neuron {
    type V = NeuronView;

    open spec fn view(&self) -> NeuronView {
        NeuronView {
            parameters: self.parameters,
            synapse_type: self.synapse_type,
            weights: self.connection_weights@,
            v: self.v,
            u: self.u,
        }
    }
}

impl From<NeuronType> for SynapseType {
    /// The archetype-to-polarity lookup.
    fn from(neuron_type: NeuronType) -> (result: Self) {
        match neuron_type {
            NeuronType::Regular => SynapseType::Excitatory,
            NeuronType::IntrinsicallyBursting => SynapseType::Excitatory,
            NeuronType::Chattering => SynapseType::Excitatory,
            NeuronType::FastSpiking => SynapseType::Inhibitory,
            NeuronType::LowThresholdSpiking => SynapseType::Inhibitory,
        }
    }
}

impl vstd::std_specs::convert::FromSpecImpl<NeuronType> for SynapseType {
    open spec fn obeys_from_spec() -> bool {
        true
    }

    open spec fn from_spec(neuron_type: NeuronType) -> Self {
        spec_polarity(neuron_type)
    }
}

impl NeuronType {
    /// The fixed parameter preset of this archetype.
    pub fn params(&self) -> (result: NeuronParameters)
        ensures
            result == spec_preset(*self),
    {
        match self {
            NeuronType::Regular => NeuronParameters {
                a: P0_02_BITS,
                b: P0_2_BITS,
                c: NEG_65_BITS,
                d: TWO_BITS,
            },
            NeuronType::IntrinsicallyBursting => NeuronParameters {
                a: P0_02_BITS,
                b: P0_2_BITS,
                c: NEG_55_BITS,
                d: FOUR_BITS,
            },
            NeuronType::Chattering => NeuronParameters {
                a: P0_02_BITS,
                b: P0_2_BITS,
                c: NEG_50_BITS,
                d: TWO_BITS,
            },
            NeuronType::FastSpiking => NeuronParameters {
                a: P0_1_BITS,
                b: P0_2_BITS,
                c: NEG_65_BITS,
                d: TWO_BITS,
            },
            NeuronType::LowThresholdSpiking => NeuronParameters {
                a: P0_1_BITS,
                b: P0_25_BITS,
                c: NEG_55_BITS,
                d: TWO_BITS,
            },
        }
    }
}

impl Neuron {
    /// Builds a neuron from a bare synapse type and one uniform draw `r`
    /// (the bit pattern of a value in `[0, 1)`), with no connections yet.
    /// The initial state is `v = -65` and `u = b · (-65)` for the `b`
    /// actually assigned to this neuron.
    pub fn from_synapse_type(synapse_type: SynapseType, r: u64) -> (result: Neuron)
        ensures
            result.parameters == spec_params_from_synapse(synapse_type, r),
            result.synapse_type == synapse_type,
            result.connection_weights@.len() == 0,
            result.v == NEG_65_BITS,
            result.u == f_mul_bits(result.parameters.b, NEG_65_BITS),
    {
        let params = match synapse_type {
            SynapseType::Excitatory => NeuronParameters {
                a: P0_02_BITS,
                b: P0_2_BITS,
                c: fp_add(NEG_65_BITS, fp_mul(fp_mul(FIFTEEN_BITS, r), r)),
                d: fp_sub(EIGHT_BITS, fp_mul(fp_mul(SIX_BITS, r), r)),
            },
            SynapseType::Inhibitory => NeuronParameters {
                a: fp_add(P0_02_BITS, fp_mul(P0_08_BITS, r)),
                b: fp_sub(P0_25_BITS, fp_mul(P0_05_BITS, r)),
                c: NEG_65_BITS,
                d: TWO_BITS,
            },
        };
        let recovery = fp_mul(params.b, NEG_65_BITS);
        Neuron {
            parameters: params,
            synapse_type,
            connection_weights: Vec::new(),
            v: NEG_65_BITS,
            u: recovery,
        }
    }

    /// Builds a neuron from an archetype and one uniform draw `r`. The
    /// randomization is seeded from the archetype's preset rather than
    /// the synapse-type-only defaults: an excitatory archetype keeps the
    /// preset's `a` and `b` and randomizes `c` and `d`; an inhibitory
    /// archetype re-draws `a` and `b` away from the preset's `a` and `b`
    /// and keeps the preset's `c` and `d`. Note: the initial recovery
    /// value uses the archetype preset's `b`, while the assigned
    /// parameters may hold a different `b`; this asymmetry with
    /// `from_synapse_type` is kept deliberately.
    pub fn from_neuron_type(neuron_type: NeuronType, r: u64) -> (result: Neuron)
        ensures
            result.synapse_type == spec_polarity(neuron_type),
            result.parameters == (match spec_polarity(neuron_type) {
                SynapseType::Excitatory => spec_randomized_excitatory(
                    spec_preset(neuron_type).a,
                    spec_preset(neuron_type).b,
                    r,
                ),
                SynapseType::Inhibitory => spec_randomized_inhibitory(spec_preset(neuron_type), r),
            }),
            result.connection_weights@.len() == 0,
            result.v == NEG_65_BITS,
            result.u == f_mul_bits(spec_preset(neuron_type).b, NEG_65_BITS),
    {
        let preset = neuron_type.params();
        let synapse_type = SynapseType::from(neuron_type);
        let params = match synapse_type {
            SynapseType::Excitatory => NeuronParameters {
                a: preset.a,
                b: preset.b,
                c: fp_add(NEG_65_BITS, fp_mul(fp_mul(FIFTEEN_BITS, r), r)),
                d: fp_sub(EIGHT_BITS, fp_mul(fp_mul(SIX_BITS, r), r)),
            },
            SynapseType::Inhibitory => NeuronParameters {
                a: fp_add(preset.a, fp_mul(P0_08_BITS, r)),
                b: fp_sub(preset.b, fp_mul(P0_05_BITS, r)),
                c: preset.c,
                d: preset.d,
            },
        };
        let recovery = fp_mul(preset.b, NEG_65_BITS);
        Neuron {
            parameters: params,
            synapse_type,
            connection_weights: Vec::new(),
            v: NEG_65_BITS,
            u: recovery,
        }
    }

    /// Installs this neuron's outgoing connection weights; the other
    /// fields are untouched.
    pub fn connect(&mut self, connection_weights: Vec<u64>)
        ensures
            final(self).connection_weights@ == connection_weights@,
            final(self).parameters == old(self).parameters,
            final(self).synapse_type == old(self).synapse_type,
            final(self).v == old(self).v,
            final(self).u == old(self).u,
    {
        self.connection_weights = connection_weights;
    }

    /// Whether this neuron's potential or recovery variable holds a NaN
    /// or an infinity: the unrecoverable numeric fault that a driver
    /// must treat as fatal rather than step past.
    pub fn has_non_finite_state(&self) -> (faulted: bool)
        ensures
            faulted == !(spec_is_finite(self.v) && spec_is_finite(self.u)),
    {
        !is_finite_bits(self.v) || !is_finite_bits(self.u)
    }

    /// Advances this neuron by one tick: scales the thalamic sample by
    /// the synapse polarity, adds the weights of the sources that spiked
    /// last tick, integrates the potential in two Euler half-steps,
    /// updates the recovery variable, and applies the spike reset if the
    /// potential reached the threshold. Returns whether the neuron
    /// spiked; the exact post-state is `spec_neuron_step` of the
    /// pre-state.
    pub fn step(&mut self, thalamic_input: u64, synaptic_input: &Vec<bool>) -> (spiked: bool)
        requires
            old(self).connection_weights@.len() == synaptic_input@.len(),
        ensures
            final(self)@ == spec_neuron_step(old(self)@, thalamic_input, synaptic_input@).0,
            spiked == spec_neuron_step(old(self)@, thalamic_input, synaptic_input@).1,
    {
        let base: u64 = match self.synapse_type {
            SynapseType::Excitatory => fp_mul(thalamic_input, FIVE_BITS),
            SynapseType::Inhibitory => fp_mul(thalamic_input, TWO_BITS),
        };

        let mut acc: u64 = ZERO_BITS;
        let mut j: usize = 0;
        while j < synaptic_input.len()
            invariant
                j <= synaptic_input.len(),
                self.connection_weights@.len() == synaptic_input@.len(),
                acc == spec_synaptic_sum(synaptic_input@, self.connection_weights@, j as int),
            decreases synaptic_input.len() - j,
        {
            if synaptic_input[j] {
                acc = fp_add(acc, self.connection_weights[j]);
            }
            j += 1;
        }
        let current = fp_add(base, acc);

        let inner1 = fp_add(
            fp_sub(
                fp_add(
                    fp_add(fp_mul(fp_mul(P0_04_BITS, self.v), self.v), fp_mul(FIVE_BITS, self.v)),
                    C140_BITS,
                ),
                self.u,
            ),
            current,
        );
        self.v = fp_add(self.v, fp_mul(HALF_BITS, inner1));
        let inner2 = fp_add(
            fp_sub(
                fp_add(
                    fp_add(fp_mul(fp_mul(P0_04_BITS, self.v), self.v), fp_mul(FIVE_BITS, self.v)),
                    C140_BITS,
                ),
                self.u,
            ),
            current,
        );
        self.v = fp_add(self.v, fp_mul(HALF_BITS, inner2));
        self.u = fp_add(
            self.u,
            fp_mul(self.parameters.a, fp_sub(fp_mul(self.parameters.b, self.v), self.u)),
        );

        if fp_ge(self.v, THIRTY_BITS) {
            self.v = self.parameters.c;
            self.u = fp_add(self.u, self.parameters.d);
            true
        } else {
            false
        }
    }
}

} // verus!
