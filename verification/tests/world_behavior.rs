use izhikevich_net::simulator::WorldState;
use rand::rngs::StdRng;
use rand::{Rng, SeedableRng};
use rand_distr::{Distribution, Normal};

/// One uniform draw in `[0, 1)` per neuron followed by one per
/// off-diagonal connectivity cell, as bit patterns.
fn uniform_draws(seed: u64, count: usize) -> Vec<u64> {
    let mut rng = StdRng::seed_from_u64(seed);
    (0..count).map(|_| rng.gen::<f64>().to_bits()).collect()
}

/// A tick's worth of standard-normal thalamic samples, as bit patterns.
fn normal_noise(rng: &mut StdRng, n: usize) -> Vec<u64> {
    let normal = Normal::new(0.0f64, 1.0).unwrap();
    (0..n).map(|_| normal.sample(rng).to_bits()).collect()
}

/// Position in the draw vector of the weight draw for cell `(i, j)`.
fn weight_draw_index(n: usize, i: usize, j: usize) -> usize {
    n + i * (n - 1) + if j > i { j - 1 } else { j }
}

#[test]
fn connectivity_matrix_diagonal_and_ranges() {
    let excitatory = 3usize;
    let inhibitory = 2usize;
    let n = excitatory + inhibitory;
    let draws = uniform_draws(7, n * n);
    let world = WorldState::new(excitatory, inhibitory, &draws);

    assert_eq!(world.neurons.len(), n);
    for i in 0..n {
        let weights = &world.neurons[i].connection_weights;
        assert_eq!(weights.len(), n);
        for j in 0..n {
            if i == j {
                assert_eq!(weights[j], 0u64);
            } else {
                let r = f64::from_bits(draws[weight_draw_index(n, i, j)]);
                let w = f64::from_bits(weights[j]);
                if j < excitatory {
                    assert_eq!(weights[j], (0.5 * r).to_bits());
                    assert!(0.0 <= w && w < 0.5);
                } else {
                    assert_eq!(weights[j], (-r).to_bits());
                    assert!(-1.0 < w && w <= 0.0);
                }
            }
        }
    }
}

#[test]
fn tick_zero_all_false() {
    let excitatory = 4usize;
    let inhibitory = 2usize;
    let n = excitatory + inhibitory;
    let draws = uniform_draws(11, n * n);
    let world = WorldState::new(excitatory, inhibitory, &draws);

    assert_eq!(world.time_step, 0);
    assert_eq!(world.action_potentials.len(), 1);
    assert_eq!(world.action_potentials[0].len(), n);
    assert!(world.action_potentials[0].iter().all(|s| !s));
    for neuron in &world.neurons {
        assert_eq!(neuron.v, (-65.0f64).to_bits());
    }
}

#[test]
fn zero_population_is_noop() {
    // Both counts zero is accepted as a zero-length no-op world.
    let mut world = WorldState::new(0, 0, &Vec::new());
    assert_eq!(world.neurons.len(), 0);
    assert_eq!(world.action_potentials.len(), 1);
    assert_eq!(world.action_potentials[0].len(), 0);
    world.step(&Vec::new());
    assert_eq!(world.time_step, 1);
    assert_eq!(world.action_potentials.len(), 2);
    assert_eq!(world.action_potentials[1].len(), 0);
}

#[test]
fn three_excitatory_ten_ticks() {
    let excitatory = 3usize;
    let inhibitory = 0usize;
    let n = excitatory + inhibitory;
    let draws = uniform_draws(23, n * n);
    let mut world = WorldState::new(excitatory, inhibitory, &draws);
    let mut rng = StdRng::seed_from_u64(42);
    for _ in 0..10 {
        let noise = normal_noise(&mut rng, n);
        world.step(&noise);
    }
    assert_eq!(world.time_step, 10);
    assert_eq!(world.action_potentials.len(), 11);
    for vector in &world.action_potentials {
        assert_eq!(vector.len(), 3);
    }
}

#[test]
fn determinism_same_seed() {
    let excitatory = 5usize;
    let inhibitory = 3usize;
    let n = excitatory + inhibitory;
    let draws = uniform_draws(99, n * n);

    let mut world_a = WorldState::new(excitatory, inhibitory, &draws);
    let mut world_b = WorldState::new(excitatory, inhibitory, &draws);
    let mut rng_a = StdRng::seed_from_u64(1234);
    let mut rng_b = StdRng::seed_from_u64(1234);
    for _ in 0..5 {
        world_a.step(&normal_noise(&mut rng_a, n));
        world_b.step(&normal_noise(&mut rng_b, n));
    }

    assert_eq!(world_a.action_potentials, world_b.action_potentials);
    for (a, b) in world_a.neurons.iter().zip(world_b.neurons.iter()) {
        assert_eq!(a.v, b.v);
        assert_eq!(a.u, b.u);
        assert_eq!(a.connection_weights, b.connection_weights);
    }
}

#[test]
fn non_finite_state_is_detected() {
    // A thalamic sample of f64::MAX overflows the potential to infinity
    // within one tick; the recovery variable keeps the infinity through
    // the spike reset, and the fault is reported.
    let draws = vec![0.0f64.to_bits()];
    let mut world = WorldState::new(1, 0, &draws);
    assert!(!world.has_non_finite_state());
    assert!(!world.neurons[0].has_non_finite_state());
    world.step(&vec![f64::MAX.to_bits()]);
    assert!(world.neurons[0].has_non_finite_state());
    assert!(world.has_non_finite_state());
}

#[test]
fn two_neuron_network_matches_hardware_oracle() {
    // One excitatory and one inhibitory neuron, stepped for twenty
    // ticks under strong drive, checked bit for bit against the same
    // dynamics computed independently with hardware doubles. This
    // exercises the weight layout, the thalamic scaling and the
    // one-tick synaptic delay together.
    let n = 2usize;
    let draws = uniform_draws(5, n * n);
    let mut world = WorldState::new(1, 1, &draws);

    let r0 = f64::from_bits(draws[0]);
    let r1 = f64::from_bits(draws[1]);
    let params = [
        (0.02, 0.2, -65. + 15. * r0 * r0, 8. - 6. * r0 * r0),
        (0.02 + 0.08 * r1, 0.25 - 0.05 * r1, -65., 2.),
    ];
    // Row i holds neuron i's outgoing weights; the cell targeting the
    // excitatory neuron 0 is scaled by 0.5, the one targeting the
    // inhibitory neuron 1 is negated.
    let weights = [
        [0.0, -f64::from_bits(draws[2])],
        [0.5 * f64::from_bits(draws[3]), 0.0],
    ];
    let mut v = [-65.0f64, -65.0];
    let mut u = [params[0].1 * -65., params[1].1 * -65.];
    let mut prev_spikes = [false, false];

    let mut rng = StdRng::seed_from_u64(77);
    for t in 1..=20usize {
        let noise = normal_noise(&mut rng, n);
        world.step(&noise);

        let mut new_spikes = [false, false];
        for k in 0..n {
            let (a, b, c, d) = params[k];
            let thalamic = f64::from_bits(noise[k]);
            let mut i = if k == 0 { thalamic * 5. } else { thalamic * 2. };
            let mut sum = 0.0f64;
            for j in 0..n {
                if prev_spikes[j] {
                    sum += weights[k][j];
                }
            }
            i += sum;
            v[k] += 0.5 * ((0.04 * v[k] * v[k]) + (5. * v[k]) + 140. - u[k] + i);
            v[k] += 0.5 * ((0.04 * v[k] * v[k]) + (5. * v[k]) + 140. - u[k] + i);
            u[k] += a * ((b * v[k]) - u[k]);
            if v[k] >= 30. {
                v[k] = c;
                u[k] += d;
                new_spikes[k] = true;
            }
        }
        prev_spikes = new_spikes;

        assert_eq!(world.action_potentials[t], new_spikes.to_vec());
        for k in 0..n {
            assert_eq!(world.neurons[k].v, v[k].to_bits());
            assert_eq!(world.neurons[k].u, u[k].to_bits());
        }
    }
}

#[test]
fn single_regular_spiking_trajectory() {
    // One excitatory neuron whose single (self) weight is forced to zero
    // by the zero-diagonal rule, driven by a fixed thalamic input of 2.0
    // (a base current of 10): the canonical regular-spiking cell when
    // the uniform draw is 0, checked tick by tick against the dynamics
    // computed independently with hardware doubles.
    let draws = vec![0.0f64.to_bits()];
    let mut world = WorldState::new(1, 0, &draws);
    assert_eq!(world.neurons[0].connection_weights, vec![0u64]);
    assert_eq!(world.neurons[0].parameters.c, (-65.0f64).to_bits());
    assert_eq!(world.neurons[0].parameters.d, 8.0f64.to_bits());

    let (a, b, c, d) = (0.02f64, 0.2f64, -65.0f64, 8.0f64);
    let mut v = -65.0f64;
    let mut u = b * -65.;
    let thalamic = 2.0f64;
    let mut spike_count = 0usize;
    for t in 1..=100usize {
        world.step(&vec![thalamic.to_bits()]);

        let i = thalamic * 5.;
        v += 0.5 * ((0.04 * v * v) + (5. * v) + 140. - u + i);
        v += 0.5 * ((0.04 * v * v) + (5. * v) + 140. - u + i);
        u += a * ((b * v) - u);
        let spiked = if v >= 30. {
            v = c;
            u += d;
            true
        } else {
            false
        };

        assert_eq!(world.action_potentials[t], vec![spiked]);
        assert_eq!(world.neurons[0].v, v.to_bits());
        assert_eq!(world.neurons[0].u, u.to_bits());
        if spiked {
            spike_count += 1;
        }
    }
    assert!(spike_count >= 1);
}
