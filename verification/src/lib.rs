//! Feasibility planning for linear-phase FIR lowpass filter design.
//!
//! The design problem samples the frequency axis, partitions the samples into
//! passband, stopband and transition band, and hands the resulting constraint
//! blocks to a primal-dual feasibility iteration. Everything that can be
//! stated exactly — the sampling layout, the band partition, the shape of the
//! stacked constraint system, configuration validity and the iteration
//! control — lives here as verified code over integers and rationals (each
//! frequency is a rational multiple of pi). The floating-point evaluation of
//! the cosine basis, the decibel bounds and the iteration itself consume this
//! plan from outside the verified core.

pub mod assembly;
pub mod config;
pub mod errors;
pub mod grid;
pub mod partition;
pub mod plan;
pub mod solver;
