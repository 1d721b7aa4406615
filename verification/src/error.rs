use vstd::prelude::*;

verus! {

/// Why one reduction call failed. Every failure is terminal for that call:
/// nothing is retried, and the error is surfaced to the caller.
#[derive(Clone, Copy, Debug, PartialEq, Eq, Structural)]
pub enum ReduceError {
    /// The input length is not a positive multiple of the workgroup width.
    InvalidPartition,
    /// No compatible compute-capable device could be acquired.
    DeviceUnavailable,
    /// Allocating the input or partial-sum storage failed.
    ResourceExhausted,
    /// Submission was rejected, or completion could not be observed in time.
    ExecutionFailed,
    /// Mapping the partial sums into host-visible memory failed.
    MappingFailed,
}

} // verus!
