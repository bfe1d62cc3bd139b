//! The integer decisions of a single-neuron trainer and of its plots: the
//! epoch schedule that drives both training methods, the fixed-step rule of
//! the naive trainer, and the marker style of a training path.

pub mod schedule;
pub mod naive;
pub mod markers;
