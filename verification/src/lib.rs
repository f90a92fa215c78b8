//! A verified cyclic cellular automaton on a toroidal 2-D grid.
//!
//! One dynamical system owns a double-buffered grid of discrete cell states
//! and a parameter pair (state count, threshold). Each step rewrites every
//! cell synchronously by the cyclic rule — a cell advances to its cyclic
//! successor exactly when enough of its eight toroidal Moore neighbors already
//! hold that successor — through one of two backends: a host-parallel pass
//! over compute workers, or a modeled device dispatch (buffer upload, masked
//! workgroup execution, readback), both proved to produce bit-identical
//! generations. A colorizer maps each cell state to an RGBA pixel, by linear
//! grayscale or by a lookup in the Turbo perceptual colormap.

pub mod color;
pub mod engine;
pub mod grid;
pub mod rule;
pub mod system;

use vstd::prelude::*;

verus! {

/// The errors the automaton core can report.
#[derive(Clone, Copy, Debug, PartialEq, Eq, Structural)]
pub enum AutomatonError {
    /// A grid was requested with a zero dimension, or with backing data whose
    /// length does not match the requested dimensions.
    Dimension,
    /// A state count of zero was passed where a positive one is needed.
    InvalidStateCount,
    /// The device backend was selected without a usable device capability.
    DeviceUnavailable,
    /// A step was requested while an earlier step is still in flight.
    StepInProgress,
}

} // verus!
