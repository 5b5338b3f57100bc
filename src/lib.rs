//! Timing logic for a real-time Hindmarsh-Rose neuron simulation.
//!
//! A host calls the simulation once per tick with a fixed period. The
//! integrator inside must take a step small enough to stay stable, and it must
//! fit a whole number of such steps in each tick. This crate holds the part of
//! that work that decides the step: an ordered table of step sizes with the
//! points each achieves per second of burst, the search that picks a step for
//! a requested burst window, and the timing state that reruns the search when
//! the configuration or the host period changes.
//!
//! Times are integer nanoseconds. Achievable points are stored in millionths
//! of a point, so every decision is exact integer arithmetic.
use vstd::prelude::*;

pub mod negotiator;
pub mod table;
pub mod timing;

pub use table::{standard_rows, StepEntry, StepSizeTable};
pub use timing::{Timing, TimingConfig, TimingView, MAX_SUB_STEPS};
