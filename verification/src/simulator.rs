//! The population of neurons, their weighted connectivity, and the
//! time-ordered history of spike vectors, together with the per-tick
//! stepping scheduler.
//!
//! Construction consumes an explicit vector of uniform draws (binary64
//! bit patterns in `[0, 1)`): the first `n` draws randomize the neuron
//! parameters, the remaining `n·(n-1)` fill the off-diagonal cells of
//! the connectivity matrix in row-major order. Stepping consumes the
//! tick's thalamic noise samples. The whole evolution is therefore a
//! mathematical function of its inputs, stated by `spec_initial_world`,
//! `spec_step_world` and `spec_run`.

use vstd::prelude::*;

use crate::fp::{f_mul_bits, f_neg_bits, fp_mul, fp_neg, spec_is_finite};
use crate::neuron::{
    spec_neuron_step, spec_params_from_synapse, Neuron, NeuronView, SynapseType, HALF_BITS,
    NEG_65_BITS, ZERO_BITS,
};

verus! {

/// The population, the append-only spike history, and the tick counter.
pub struct WorldState {
    /// The neuron list: excitatory neurons first, inhibitory after.
    pub neurons: Vec<Neuron>,
    /// One boolean vector per tick, index 0 being the all-false state
    /// before any stepping; entry `t` records which neurons spiked at
    /// simulated time `t` milliseconds.
    pub action_potentials: Vec<Vec<bool>>,
    /// How many ticks have been run.
    pub time_step: usize,
}

/// The mathematical value of a `WorldState`.
#[verifier::ext_equal]
pub ghost struct WorldView {
    pub neurons: Seq<NeuronView>,
    pub spikes: Seq<Seq<bool>>,
    pub time_step: int,
}

impl View for WorldState {
    type V = WorldView;

    open spec fn view(&self) -> WorldView {
        WorldView {
            neurons: self.neurons@.map(|i: int, n: Neuron| n@),
            spikes: self.action_potentials@.map(|i: int, v: Vec<bool>| v@),
            time_step: self.time_step as int,
        }
    }
}

impl WorldView {
    /// Well-formedness: the spike history holds exactly one vector per
    /// tick run plus the initial one, every spike vector covers the
    /// whole population, and every neuron carries one outgoing weight
    /// per neuron.
    pub open spec fn wf(self) -> bool {
        &&& 0 <= self.time_step
        &&& self.spikes.len() == self.time_step + 1
        &&& forall|t: int|
            0 <= t < self.spikes.len() ==> (#[trigger] self.spikes[t]).len() == self.neurons.len()
        &&& forall|i: int|
            0 <= i < self.neurons.len() ==> (#[trigger] self.neurons[i]).weights.len()
                == self.neurons.len()
    }
}

/// Position in the draw vector of the weight draw for the off-diagonal
/// cell `(i, j)`: the first `n` draws belong to the neuron parameters,
/// and each row spends `n - 1` draws, skipping its diagonal cell.
pub open spec fn spec_weight_draw_index(n: int, i: int, j: int) -> int {
    n + i * (n - 1) + (if j > i {
        j - 1
    } else {
        j
    })
}

/// The connectivity cell `(i, j)`: zero on the diagonal; a cell whose
/// target `j` is excitatory holds `0.5 · r`, one whose target is
/// inhibitory holds `-r`, where `r` is the cell's uniform draw.
pub open spec fn spec_weight(excitatory: int, n: int, draws: Seq<u64>, i: int, j: int) -> u64 {
    if i == j {
        ZERO_BITS
    } else {
        let r = draws[spec_weight_draw_index(n, i, j)];
        if j < excitatory {
            f_mul_bits(HALF_BITS, r)
        } else {
            f_neg_bits(r)
        }
    }
}

/// Neuron `i` of a freshly constructed population: excitatory for
/// `i < excitatory`, randomized by draw `i`, with row `i` of the
/// connectivity matrix as its outgoing weights.
pub open spec fn spec_initial_neuron(excitatory: int, n: int, draws: Seq<u64>, i: int) -> NeuronView {
    let st = if i < excitatory {
        SynapseType::Excitatory
    } else {
        SynapseType::Inhibitory
    };
    let params = spec_params_from_synapse(st, draws[i]);
    NeuronView {
        parameters: params,
        synapse_type: st,
        weights: Seq::new(n as nat, |j: int| spec_weight(excitatory, n, draws, i, j)),
        v: NEG_65_BITS,
        u: f_mul_bits(params.b, NEG_65_BITS),
    }
}

/// A freshly constructed world: the population as above, a single
/// all-false spike vector, and tick counter zero.
pub open spec fn spec_initial_world(excitatory: int, inhibitory: int, draws: Seq<u64>) -> WorldView {
    let n = excitatory + inhibitory;
    WorldView {
        neurons: Seq::new(n as nat, |i: int| spec_initial_neuron(excitatory, n, draws, i)),
        spikes: seq![Seq::new(n as nat, |j: int| false)],
        time_step: 0,
    }
}

/// One tick: every neuron advances by `spec_neuron_step` with its own
/// thalamic sample and the previous tick's spike vector, the new spike
/// vector is appended, and the tick counter is incremented.
pub open spec fn spec_step_world(w: WorldView, thalamic: Seq<u64>) -> WorldView {
    let syn = w.spikes[w.time_step];
    WorldView {
        neurons: Seq::new(
            w.neurons.len(),
            |k: int| spec_neuron_step(w.neurons[k], thalamic[k], syn).0,
        ),
        spikes: w.spikes.push(
            Seq::new(w.neurons.len(), |k: int| spec_neuron_step(w.neurons[k], thalamic[k], syn).1),
        ),
        time_step: w.time_step + 1,
    }
}

/// The world after construction and one tick per element of `noise`:
/// the entire simulation as a function of the population sizes and the
/// random draws.
pub open spec fn spec_run(
    excitatory: int,
    inhibitory: int,
    draws: Seq<u64>,
    noise: Seq<Seq<u64>>,
) -> WorldView
    decreases noise.len(),
{
    if noise.len() == 0 {
        spec_initial_world(excitatory, inhibitory, draws)
    } else {
        spec_step_world(spec_run(excitatory, inhibitory, draws, noise.drop_last()), noise.last())
    }
}

/// Whether every neuron's potential and recovery variable are finite:
/// the condition under which a run may continue.
pub open spec fn spec_all_finite(w: WorldView) -> bool {
    forall|i: int|
        0 <= i < w.neurons.len() ==> spec_is_finite((#[trigger] w.neurons[i]).v) && spec_is_finite(
            w.neurons[i].u,
        )
}

/// The spike history of a run holds exactly one vector per tick run plus
/// the initial one, for every number of ticks.
pub proof fn lemma_history_length(
    excitatory: int,
    inhibitory: int,
    draws: Seq<u64>,
    noise: Seq<Seq<u64>>,
)
    ensures
        spec_run(excitatory, inhibitory, draws, noise).time_step == noise.len(),
        spec_run(excitatory, inhibitory, draws, noise).spikes.len() == noise.len() + 1,
    decreases noise.len(),
{
    if noise.len() > 0 {
        lemma_history_length(excitatory, inhibitory, draws, noise.drop_last());
    }
}

/// Tick 0's spike vector is all-false for every configuration: no neuron
/// spikes before any integration has happened.
pub proof fn lemma_initial_spikes_all_false(excitatory: int, inhibitory: int, draws: Seq<u64>)
    ensures
        spec_initial_world(excitatory, inhibitory, draws).spikes.len() == 1,
        forall|j: int|
            0 <= j < excitatory + inhibitory ==> (#[trigger] spec_initial_world(
                excitatory,
                inhibitory,
                draws,
            ).spikes[0][j]) == false,
{
}

/// The connectivity matrix has a zero diagonal: no neuron carries a
/// weight to itself.
pub proof fn lemma_zero_diagonal(excitatory: int, inhibitory: int, draws: Seq<u64>)
    ensures
        forall|i: int|
            0 <= i < excitatory + inhibitory ==> (#[trigger] spec_initial_world(
                excitatory,
                inhibitory,
                draws,
            ).neurons[i]).weights[i] == ZERO_BITS,
{
}

/// Determinism: two runs configured with the same population sizes, the
/// same construction draws and the same noise samples are the same
/// world, spike history included.
pub proof fn lemma_run_deterministic(
    excitatory1: int,
    inhibitory1: int,
    draws1: Seq<u64>,
    noise1: Seq<Seq<u64>>,
    excitatory2: int,
    inhibitory2: int,
    draws2: Seq<u64>,
    noise2: Seq<Seq<u64>>,
)
    requires
        excitatory1 == excitatory2,
        inhibitory1 == inhibitory2,
        draws1 == draws2,
        noise1 == noise2,
    ensures
        spec_run(excitatory1, inhibitory1, draws1, noise1) == spec_run(
            excitatory2,
            inhibitory2,
            draws2,
            noise2,
        ),
{
}

impl WorldState {
    /// Builds the population and its connectivity. `excitatory` and
    /// `inhibitory` may each be zero: a population of zero neurons is a
    /// well-defined no-op world whose history holds one empty vector.
    /// `draws` supplies one uniform draw per neuron followed by one per
    /// off-diagonal connectivity cell, `n·n` in total.
    pub fn new(excitatory: usize, inhibitory: usize, draws: &Vec<u64>) -> (result: WorldState)
        requires
            excitatory + inhibitory <= usize::MAX,
            draws@.len() == (excitatory + inhibitory) * (excitatory + inhibitory),
        ensures
            result@ == spec_initial_world(excitatory as int, inhibitory as int, draws@),
            result@.wf(),
    {
        let n = excitatory + inhibitory;
        let total = draws.len();

        let mut neurons: Vec<Neuron> = Vec::new();
        let mut i: usize = 0;
        while i < n
            invariant
                i <= n,
                n == excitatory + inhibitory,
                total == n * n,
                total == draws@.len(),
                neurons@.len() == i,
                forall|k: int|
                    0 <= k < i ==> (#[trigger] neurons@[k])@ == spec_initial_neuron(
                        excitatory as int,
                        n as int,
                        draws@,
                        k,
                    ),
            decreases n - i,
        {
            let st = if i < excitatory {
                SynapseType::Excitatory
            } else {
                SynapseType::Inhibitory
            };
            proof {
                assert(i < n * n) by (nonlinear_arith)
                    requires
                        0 <= i < n,
                ;
            }
            let mut nrn = Neuron::from_synapse_type(st, draws[i]);

            let mut row: Vec<u64> = Vec::new();
            let mut j: usize = 0;
            while j < n
                invariant
                    j <= n,
                    i < n,
                    n == excitatory + inhibitory,
                    total == n * n,
                    total == draws@.len(),
                    row@.len() == j,
                    forall|l: int|
                        0 <= l < j ==> row@[l] == spec_weight(
                            excitatory as int,
                            n as int,
                            draws@,
                            i as int,
                            l,
                        ),
                decreases n - j,
            {
                if j == i {
                    row.push(ZERO_BITS);
                } else {
                    let jj = if j > i {
                        j - 1
                    } else {
                        j
                    };
                    proof {
                        assert(n + i * (n - 1) + jj < n * n) by (nonlinear_arith)
                            requires
                                0 <= i < n,
                                0 <= jj <= n - 2,
                                n >= 2,
                        ;
                    }
                    let idx = n + i * (n - 1) + jj;
                    let r = draws[idx];
                    if j < excitatory {
                        row.push(fp_mul(HALF_BITS, r));
                    } else {
                        row.push(fp_neg(r));
                    }
                }
                j += 1;
            }

            nrn.connect(row);
            proof {
                assert(nrn@.weights =~= spec_initial_neuron(
                    excitatory as int,
                    n as int,
                    draws@,
                    i as int,
                ).weights);
            }
            neurons.push(nrn);
            i += 1;
        }

        let mut first_row: Vec<bool> = Vec::new();
        let mut k: usize = 0;
        while k < n
            invariant
                k <= n,
                first_row@.len() == k,
                forall|l: int| 0 <= l < k ==> first_row@[l] == false,
            decreases n - k,
        {
            first_row.push(false);
            k += 1;
        }

        let mut action_potentials: Vec<Vec<bool>> = Vec::new();
        action_potentials.push(first_row);

        let result = WorldState { neurons, action_potentials, time_step: 0 };
        proof {
            assert(result@.neurons =~= spec_initial_world(
                excitatory as int,
                inhibitory as int,
                draws@,
            ).neurons);
            assert(result@.spikes[0] =~= spec_initial_world(
                excitatory as int,
                inhibitory as int,
                draws@,
            ).spikes[0]);
            assert(result@.spikes =~= spec_initial_world(
                excitatory as int,
                inhibitory as int,
                draws@,
            ).spikes);
            assert(result@ =~= spec_initial_world(excitatory as int, inhibitory as int, draws@));
        }
        result
    }

    /// Runs one tick: every neuron is advanced with its own thalamic
    /// sample and a shared read-only snapshot of the previous tick's
    /// spike vector (one-tick synaptic delay, never read-after-write
    /// within a tick), the new spike vector is appended, and the tick
    /// counter is incremented.
    pub fn step(&mut self, thalamic_input: &Vec<u64>)
        requires
            old(self)@.wf(),
            thalamic_input@.len() == old(self)@.neurons.len(),
        ensures
            final(self)@ == spec_step_world(old(self)@, thalamic_input@),
            final(self)@.wf(),
    {
        let count = self.neurons.len();
        let hist_len = self.action_potentials.len();
        proof {
            assert(old(self)@.spikes[old(self)@.time_step] == old(self).action_potentials@[old(
                self,
            ).time_step as int]@);
            assert(old(self)@.spikes[old(self)@.time_step].len() == old(self)@.neurons.len());
        }
        let synaptic_input = copy_spike_vector(&self.action_potentials[self.time_step]);

        let mut spikes: Vec<bool> = Vec::new();
        let mut k: usize = 0;
        while k < count
            invariant
                k <= count,
                count == old(self).neurons@.len(),
                count == old(self)@.neurons.len(),
                thalamic_input@.len() == count,
                synaptic_input@ == old(self).action_potentials@[old(self).time_step as int]@,
                synaptic_input@.len() == count,
                old(self)@.wf(),
                self.action_potentials@ == old(self).action_potentials@,
                self.time_step == old(self).time_step,
                self.neurons@.len() == count,
                forall|l: int|
                    0 <= l < count - k ==> #[trigger] self.neurons@[l] == old(
                        self,
                    ).neurons@[l + k],
                forall|l: int|
                    0 <= l < k ==> (#[trigger] self.neurons@[count - k + l])@ == spec_neuron_step(
                        old(self).neurons@[l]@,
                        thalamic_input@[l],
                        synaptic_input@,
                    ).0,
                spikes@.len() == k,
                forall|l: int|
                    0 <= l < k ==> #[trigger] spikes@[l] == spec_neuron_step(
                        old(self).neurons@[l]@,
                        thalamic_input@[l],
                        synaptic_input@,
                    ).1,
            decreases count - k,
        {
            proof {
                assert(old(self)@.neurons[k as int] == old(self).neurons@[k as int]@);
                assert(old(self)@.neurons[k as int].weights.len() == old(self)@.neurons.len());
            }
            let ghost prev_list = self.neurons@;
            let mut nrn = self.neurons.remove(0);
            let spiked = nrn.step(thalamic_input[k], &synaptic_input);
            let ghost stepped = nrn;
            spikes.push(spiked);
            self.neurons.push(nrn);
            proof {
                assert(prev_list[0] == old(self).neurons@[k as int]);
                assert(self.neurons@ == prev_list.remove(0).push(stepped));
                assert forall|l: int| 0 <= l < k + 1 implies (#[trigger] self.neurons@[count - (k
                    + 1) + l])@ == spec_neuron_step(
                    old(self).neurons@[l]@,
                    thalamic_input@[l],
                    synaptic_input@,
                ).0 by {
                    if l < k {
                        assert(self.neurons@[count - (k + 1) + l] == prev_list.remove(0)[count - (k
                            + 1) + l]);
                        assert(prev_list.remove(0)[count - (k + 1) + l] == prev_list[count - k
                            + l]);
                    } else {
                        assert(self.neurons@[count - 1] == stepped);
                    }
                }
            }
            k += 1;
        }

        let ghost new_spikes = spikes@;
        self.time_step = self.time_step + 1;
        self.action_potentials.push(spikes);

        proof {
            let ghost pre = old(self)@;
            let ghost post = spec_step_world(pre, thalamic_input@);
            assert(pre.spikes[pre.time_step] == old(self).action_potentials@[pre.time_step]@);
            assert forall|l: int| 0 <= l < count implies self@.neurons[l] == post.neurons[l] by {
                assert((self.neurons@[count - k + l])@ == spec_neuron_step(
                    old(self).neurons@[l]@,
                    thalamic_input@[l],
                    synaptic_input@,
                ).0);
                assert(count - k + l == l);
                assert(self@.neurons[l] == self.neurons@[l]@);
                assert(pre.neurons[l] == old(self).neurons@[l]@);
            }
            assert(self@.neurons =~= post.neurons);
            assert(new_spikes =~= Seq::new(
                count as nat,
                |l: int|
                    spec_neuron_step(
                        pre.neurons[l],
                        thalamic_input@[l],
                        pre.spikes[pre.time_step],
                    ).1,
            )) by {
                assert forall|l: int| 0 <= l < count implies new_spikes[l] == spec_neuron_step(
                    pre.neurons[l],
                    thalamic_input@[l],
                    pre.spikes[pre.time_step],
                ).1 by {
                    assert(pre.neurons[l] == old(self).neurons@[l]@);
                }
            }
            assert forall|t: int| 0 <= t < self@.spikes.len() implies self@.spikes[t]
                == post.spikes[t] by {
                assert(self@.spikes[t] == self.action_potentials@[t]@);
                if t < pre.spikes.len() {
                    assert(self.action_potentials@[t] == old(self).action_potentials@[t]);
                    assert(pre.spikes[t] == old(self).action_potentials@[t]@);
                } else {
                    assert(self.action_potentials@[t]@ == new_spikes);
                }
            }
            assert(self@.spikes =~= post.spikes);
            assert(self@ =~= post);
        }
    }

    /// Whether any neuron's potential or recovery variable became a NaN
    /// or an infinity. Extreme parameter combinations can diverge
    /// numerically; such a state is an unrecoverable fault, and a driver
    /// must abort the run on it rather than step past it.
    pub fn has_non_finite_state(&self) -> (faulted: bool)
        ensures
            faulted == !spec_all_finite(self@),
    {
        let mut k: usize = 0;
        while k < self.neurons.len()
            invariant
                k <= self.neurons@.len(),
                forall|l: int|
                    0 <= l < k ==> spec_is_finite((#[trigger] self.neurons@[l])@.v)
                        && spec_is_finite(self.neurons@[l]@.u),
            decreases self.neurons@.len() - k,
        {
            if self.neurons[k].has_non_finite_state() {
                proof {
                    assert(self@.neurons[k as int] == self.neurons@[k as int]@);
                    assert(!spec_all_finite(self@));
                }
                return true;
            }
            k += 1;
        }
        proof {
            assert forall|i: int| 0 <= i < self@.neurons.len() implies spec_is_finite(
                (#[trigger] self@.neurons[i]).v,
            ) && spec_is_finite(self@.neurons[i].u) by {
                assert(self@.neurons[i] == self.neurons@[i]@);
            }
        }
        false
    }
}

/// Copies a spike vector, so that a tick works on a read-only snapshot
/// of the previous tick's spikes.
fn copy_spike_vector(src: &Vec<bool>) -> (result: Vec<bool>)
    ensures
        result@ == src@,
{
    let mut result: Vec<bool> = Vec::new();
    let mut k: usize = 0;
    while k < src.len()
        invariant
            k <= src.len(),
            result@.len() == k,
            forall|l: int| 0 <= l < k ==> result@[l] == src@[l],
        decreases src.len() - k,
    {
        result.push(src[k]);
        k += 1;
    }
    proof {
        assert(result@ =~= src@);
    }
    result
}

} // verus!
