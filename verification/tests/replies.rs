use ark_supervisor::{Reply, StartError, State, StopError};

#[test]
fn a_successful_start_is_done() {
    assert_eq!(Reply::for_start(&Ok(())), Reply::Done);
}

#[test]
fn a_start_refused_for_the_state_is_a_conflict() {
    assert_eq!(Reply::for_start(&Err(StartError::CapacityExceeded)), Reply::Conflict);
    assert_eq!(Reply::for_start(&Err(StartError::AlreadyRunning)), Reply::Conflict);
}

#[test]
fn a_start_that_failed_to_spawn_is_a_failure() {
    assert_eq!(Reply::for_start(&Err(StartError::SpawnFailed("No such file".to_string()))), Reply::Failure);
    assert_eq!(Reply::for_start(&Err(StartError::SpawnFailed(String::new()))), Reply::Failure);
}

#[test]
fn a_successful_stop_is_done() {
    assert_eq!(Reply::for_stop(&Ok(())), Reply::Done);
}

#[test]
fn a_stop_refused_for_the_state_is_a_conflict() {
    assert_eq!(Reply::for_stop(&Err(StopError::AlreadyStopped)), Reply::Conflict);
}

#[test]
fn a_stop_that_failed_to_signal_is_a_failure() {
    assert_eq!(Reply::for_stop(&Err(StopError::SignalFailed("No such process".to_string()))), Reply::Failure);
    assert_eq!(Reply::for_stop(&Err(StopError::SignalFailed(String::new()))), Reply::Failure);
}

#[test]
fn the_two_states_differ() {
    assert_ne!(State::Running, State::Stopped);
    assert_eq!(State::Running, State::Running);
}

#[test]
fn failures_differ_by_their_text() {
    assert_eq!(StartError::SpawnFailed("a".to_string()), StartError::SpawnFailed("a".to_string()));
    assert_ne!(StartError::SpawnFailed("a".to_string()), StartError::SpawnFailed("b".to_string()));
    assert_ne!(StopError::SignalFailed("a".to_string()), StopError::AlreadyStopped);
}
