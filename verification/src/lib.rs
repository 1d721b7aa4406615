//! Verified core of a one-pass parallel sum reduction.
//!
//! The library covers the algorithmic heart of a workgroup-based reduction:
//! a partition planner that splits an input of 32-bit words into
//! workgroup-sized slices, the wrapped-sum semantics of the parallel phase
//! (one partial sum per workgroup, landing in a fixed slot), the host-side
//! aggregation of the partial sums, and the state machine that drives one
//! reduction call from submission to completion. Device handling itself
//! (adapters, buffers, command encoding) is left to the unverified driver
//! around this crate.

pub mod error;
pub mod plan;
pub mod protocol;
pub mod reduce;
pub mod sum;
