use zeroscope::worker::{WorkerLifecycle, WorkerPhase};
use zeroscope::PipelineError;

#[test]
fn test_early_exit_is_surfaced_not_ignored() {
    // A thread that already finished right after the spawn never got
    // its event loop going: that is a failure, not a live worker.
    let r = WorkerLifecycle::confirm_started(true);
    assert_eq!(r.err(), Some(PipelineError::WorkerTerminated));
}

#[test]
fn test_stop_then_join_clean() {
    let mut worker = WorkerLifecycle::confirm_started(false).unwrap();
    worker.request_stop();
    let r = worker.complete_join(Ok(()));
    assert!(r.is_ok());
}

#[test]
fn test_join_propagates_the_loop_error() {
    // An error the event loop died with must surface at the join.
    let mut worker = WorkerLifecycle::confirm_started(false).unwrap();
    worker.request_stop();
    let r = worker.complete_join(Err(PipelineError::Initialization));
    assert_eq!(r.err(), Some(PipelineError::Initialization));
}

#[test]
fn test_phases_move_forward() {
    let mut worker = WorkerLifecycle::confirm_started(false).unwrap();
    assert_eq!(worker.current_phase(), WorkerPhase::Running);
    worker.request_stop();
    assert_eq!(worker.current_phase(), WorkerPhase::StopRequested);
    let _ = worker.complete_join(Ok(()));
    assert_eq!(worker.current_phase(), WorkerPhase::Joined);
}
