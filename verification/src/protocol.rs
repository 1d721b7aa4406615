use vstd::prelude::*;

use crate::error::ReduceError;

verus! {

/// The states one reduction call moves through, in order, plus the terminal
/// failure state. A single control thread drives the call; the parallel
/// phase itself runs outside and is observed only through events.
#[derive(Clone, Copy, Debug, PartialEq, Eq, Structural)]
pub enum Phase {
    /// Nothing submitted yet; device and storage are being acquired.
    Idle,
    /// The parallel phase has been submitted.
    Dispatched,
    /// Submission acknowledged; waiting for the completion signal.
    AwaitingCompletion,
    /// The device confirmed completion; partial sums are safe to read.
    Readable,
    /// The host has read and summed the partial sums.
    Aggregated,
    /// Terminal: the result was returned and transient resources released.
    Done,
    /// Terminal: the call failed; no transition is retried.
    Failed(ReduceError),
}

/// What the driver observes from the outside collaborator while moving one
/// reduction call forward.
#[derive(Clone, Copy, Debug, PartialEq, Eq, Structural)]
pub enum Event {
    /// No compute-capable device could be acquired.
    DeviceDenied,
    /// Allocating input or partial-sum storage failed.
    AllocationFailed,
    /// The parallel phase was handed to the device.
    Submitted,
    /// The device acknowledged the submission.
    SubmitAcknowledged,
    /// The device rejected the submission.
    SubmitRejected,
    /// The device signalled that all parallel work is complete.
    CompletionSignaled,
    /// The completion signal was not observed within the bounded wait.
    WaitExpired,
    /// Mapping the partial sums into host-visible memory was refused.
    MapRefused,
    /// The host read the full partial-sum sequence.
    PartialsRead,
    /// The final result was handed back to the caller.
    ResultReturned,
}

/// The transition relation of one reduction call. Terminal phases absorb
/// every event; each nominal phase advances on exactly one event, maps the
/// failure it can observe to its error, and treats any other event as a
/// synchronization fault.
pub open spec fn step_spec(phase: Phase, event: Event) -> Phase {
    match phase {
        Phase::Idle => match event {
            Event::Submitted => Phase::Dispatched,
            Event::DeviceDenied => Phase::Failed(ReduceError::DeviceUnavailable),
            Event::AllocationFailed => Phase::Failed(ReduceError::ResourceExhausted),
            _ => Phase::Failed(ReduceError::ExecutionFailed),
        },
        Phase::Dispatched => match event {
            Event::SubmitAcknowledged => Phase::AwaitingCompletion,
            _ => Phase::Failed(ReduceError::ExecutionFailed),
        },
        Phase::AwaitingCompletion => match event {
            Event::CompletionSignaled => Phase::Readable,
            _ => Phase::Failed(ReduceError::ExecutionFailed),
        },
        Phase::Readable => match event {
            Event::PartialsRead => Phase::Aggregated,
            Event::MapRefused => Phase::Failed(ReduceError::MappingFailed),
            _ => Phase::Failed(ReduceError::ExecutionFailed),
        },
        Phase::Aggregated => match event {
            Event::ResultReturned => Phase::Done,
            _ => Phase::Failed(ReduceError::ExecutionFailed),
        },
        Phase::Done => Phase::Done,
        Phase::Failed(e) => Phase::Failed(e),
    }
}

/// A phase from which no event moves the call any further.
pub open spec fn is_terminal(phase: Phase) -> bool {
    phase is Done || phase is Failed
}

/// Advance one reduction call by one observed event.
pub fn step(phase: Phase, event: Event) -> (next: Phase)
    ensures
        next == step_spec(phase, event),
{
    match phase {
        Phase::Idle => match event {
            Event::Submitted => Phase::Dispatched,
            Event::DeviceDenied => Phase::Failed(ReduceError::DeviceUnavailable),
            Event::AllocationFailed => Phase::Failed(ReduceError::ResourceExhausted),
            _ => Phase::Failed(ReduceError::ExecutionFailed),
        },
        Phase::Dispatched => match event {
            Event::SubmitAcknowledged => Phase::AwaitingCompletion,
            _ => Phase::Failed(ReduceError::ExecutionFailed),
        },
        Phase::AwaitingCompletion => match event {
            Event::CompletionSignaled => Phase::Readable,
            _ => Phase::Failed(ReduceError::ExecutionFailed),
        },
        Phase::Readable => match event {
            Event::PartialsRead => Phase::Aggregated,
            Event::MapRefused => Phase::Failed(ReduceError::MappingFailed),
            _ => Phase::Failed(ReduceError::ExecutionFailed),
        },
        Phase::Aggregated => match event {
            Event::ResultReturned => Phase::Done,
            _ => Phase::Failed(ReduceError::ExecutionFailed),
        },
        Phase::Done => Phase::Done,
        Phase::Failed(e) => Phase::Failed(e),
    }
}

/// The error a failed call surfaces: `Some` exactly in the failure state.
pub fn error_of(phase: Phase) -> (e: Option<ReduceError>)
    ensures
        match phase {
            Phase::Failed(err) => e == Some(err),
            _ => e == None::<ReduceError>,
        },
{
    match phase {
        Phase::Failed(err) => Some(err),
        _ => None,
    }
}

/// Law: every failure is terminal for the call, and a finished call stays
/// finished: no later event moves a terminal phase.
pub proof fn lemma_terminal_absorbs(phase: Phase, event: Event)
    requires
        is_terminal(phase),
    ensures
        step_spec(phase, event) == phase,
{
}

/// Law: the nominal event order drives one call through every state of the
/// protocol, from idle to done, without passing the failure state.
pub proof fn lemma_nominal_run()
    ensures
        step_spec(Phase::Idle, Event::Submitted) == Phase::Dispatched,
        step_spec(Phase::Dispatched, Event::SubmitAcknowledged) == Phase::AwaitingCompletion,
        step_spec(Phase::AwaitingCompletion, Event::CompletionSignaled) == Phase::Readable,
        step_spec(Phase::Readable, Event::PartialsRead) == Phase::Aggregated,
        step_spec(Phase::Aggregated, Event::ResultReturned) == Phase::Done,
{
}

} // verus!
