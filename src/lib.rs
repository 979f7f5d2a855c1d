//! A single spiking neuron: membrane dynamics, refractory behaviour, synaptic
//! plasticity and the axonal and dendritic connections to other neurons.
//!
//! Real-valued quantities are fixed-point integers in millionths of a unit
//! (`fixed`); connections are sets of soma coordinates (`connections`); the
//! propagation delay between two neurons is their rounded distance
//! (`geometry`); `laws` states what holds across calls.
pub mod fixed;
pub mod connections;
pub mod geometry;
pub mod neuron;
pub mod laws;

pub use crate::connections::{ConnectionSet, Coord};
pub use crate::fixed::UNIT;
pub use crate::neuron::{InvalidArgument, Neuron};
