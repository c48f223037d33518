//! Benchmarking zero-knowledge virtual machines: the workloads, the protocol
//! of a run, and the record that a run leaves.
//!
//! The workload kernels are [`fib`], [`fastfib`] (with [`fastfib_iter`], the
//! same function written as a loop), [`lcs`], [`lcs2`] and [`sum`]. All
//! arithmetic is on 64-bit words and wraps. [`workload`] names the workloads
//! and runs their kernels; [`config`] works out a workload's parameters from
//! overrides and defaults.
//!
//! [`driver`] is the state machine of one run, from setup through proving to
//! a verified result, and [`stats`] is the record of a verified run.
//! [`progress`] writes the line that tells a reader what was computed.
//!
//! [`lurk`] writes the workloads as Lurk programs and lays out the arguments
//! of Lurk's entry point; [`sp1`] says what a run on SP1 tells of its trace.
//!
//! [`matrix`], [`subsequence`], [`decimal`] and [`text`] hold the mathematics
//! and the conversions that the other modules rest on.

pub mod config;
pub mod decimal;
pub mod driver;
pub mod fastfib;
pub mod fastfib_iter;
pub mod fib;
pub mod lcs;
pub mod lcs2;
pub mod lurk;
pub mod matrix;
pub mod progress;
pub mod sp1;
pub mod stats;
pub mod subsequence;
pub mod sum;
pub mod text;
pub mod workload;
