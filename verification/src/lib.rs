//! A verified implementation of an Izhikevich spiking-neuron network.
//!
//! The library evolves a population of two-variable Izhikevich neurons
//! under per-tick thalamic noise and recurrent synaptic coupling, and
//! records which neurons spike at each discrete millisecond.
//!
//! Every real-valued quantity is carried as the `u64` bit pattern of an
//! IEEE-754 binary64 value (see `fp`), and every random quantity is an
//! explicit input: construction takes the uniform draws that randomize
//! parameters and connectivity, stepping takes the tick's thalamic noise
//! samples. The whole evolution is therefore a mathematical function of
//! its inputs, which the contracts state exactly.

pub mod fp;
pub mod neuron;
pub mod simulator;

