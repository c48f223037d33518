//! Programs in the Lurk language for the workloads, as text, and the
//! arguments of the Lurk entry point.

pub mod fastfib;
pub mod fib;
pub mod input;
pub mod lcs;
pub mod sum;
