use webgpu_sum::error::ReduceError;
use webgpu_sum::protocol::{error_of, step, Event, Phase};

#[test]
fn nominal_run_reaches_done() {
    let mut phase = Phase::Idle;
    phase = step(phase, Event::Submitted);
    assert_eq!(phase, Phase::Dispatched);
    phase = step(phase, Event::SubmitAcknowledged);
    assert_eq!(phase, Phase::AwaitingCompletion);
    phase = step(phase, Event::CompletionSignaled);
    assert_eq!(phase, Phase::Readable);
    phase = step(phase, Event::PartialsRead);
    assert_eq!(phase, Phase::Aggregated);
    phase = step(phase, Event::ResultReturned);
    assert_eq!(phase, Phase::Done);
    assert_eq!(error_of(phase), None);
}

#[test]
fn device_denial_fails_with_device_unavailable() {
    // A simulated device-acquisition failure: the call ends in the failure
    // state with the right error instead of crashing, and never dispatches.
    let phase = step(Phase::Idle, Event::DeviceDenied);
    assert_eq!(phase, Phase::Failed(ReduceError::DeviceUnavailable));
    assert_eq!(error_of(phase), Some(ReduceError::DeviceUnavailable));
}

#[test]
fn allocation_failure_maps_to_resource_exhausted() {
    let phase = step(Phase::Idle, Event::AllocationFailed);
    assert_eq!(phase, Phase::Failed(ReduceError::ResourceExhausted));
}

#[test]
fn expired_wait_maps_to_execution_failed() {
    let phase = step(Phase::AwaitingCompletion, Event::WaitExpired);
    assert_eq!(phase, Phase::Failed(ReduceError::ExecutionFailed));
}

#[test]
fn refused_mapping_maps_to_mapping_failed() {
    let phase = step(Phase::Readable, Event::MapRefused);
    assert_eq!(phase, Phase::Failed(ReduceError::MappingFailed));
}

#[test]
fn terminal_phases_absorb_every_event() {
    let failed = Phase::Failed(ReduceError::DeviceUnavailable);
    assert_eq!(step(failed, Event::Submitted), failed);
    assert_eq!(step(failed, Event::CompletionSignaled), failed);
    assert_eq!(step(Phase::Done, Event::Submitted), Phase::Done);
    assert_eq!(step(Phase::Done, Event::DeviceDenied), Phase::Done);
}

#[test]
fn out_of_order_event_is_a_synchronization_fault() {
    let phase = step(Phase::Dispatched, Event::PartialsRead);
    assert_eq!(phase, Phase::Failed(ReduceError::ExecutionFailed));
}
