//! A scalar-field construction kit: expression trees over 2D coordinates,
//! evaluated in exact fixed-point arithmetic, sampled into square grids,
//! and driven by a polled generation state machine.

pub mod interner;
pub mod laws;
pub mod pipeline;
pub mod sample;
pub mod scalar;
pub mod scripts;
pub mod tree;
