use screen_recorder::error::RecorderError;
use screen_recorder::session::{SessionController, SessionState};

#[test]
fn new_controller_is_idle_without_path() {
    let c = SessionController::new();
    assert_eq!(c.state(), SessionState::Idle);
    assert_eq!(c.frame_count(), 0);
    assert_eq!(c.get_recording_path(), Err(RecorderError::NoRecordingAvailable));
}

#[test]
fn start_moves_idle_to_recording() {
    let mut c = SessionController::new();
    assert_eq!(c.start_recording("/tmp/a.mp4".to_string()), Ok(()));
    assert_eq!(c.state(), SessionState::Recording);
    assert_eq!(c.get_recording_path(), Ok("/tmp/a.mp4".to_string()));
}

#[test]
fn second_start_is_already_in_progress() {
    let mut c = SessionController::new();
    c.start_recording("/tmp/a.mp4".to_string()).unwrap();
    c.record_frame(&"/tmp/a.mp4".to_string());
    c.record_frame(&"/tmp/a.mp4".to_string());
    assert_eq!(c.start_recording("/tmp/b.mp4".to_string()), Err(RecorderError::AlreadyInProgress));
    assert_eq!(c.state(), SessionState::Recording);
    assert_eq!(c.frame_count(), 2);
    assert_eq!(c.get_recording_path(), Ok("/tmp/a.mp4".to_string()));
}

#[test]
fn start_while_paused_is_refused() {
    let mut c = SessionController::new();
    c.start_recording("/tmp/a.mp4".to_string()).unwrap();
    c.pause_recording().unwrap();
    assert_eq!(c.start_recording("/tmp/b.mp4".to_string()), Err(RecorderError::AlreadyInProgress));
    assert_eq!(c.state(), SessionState::Paused);
}

#[test]
fn pause_twice_returns_to_recording() {
    let mut c = SessionController::new();
    c.start_recording("/tmp/a.mp4".to_string()).unwrap();
    assert_eq!(c.pause_recording(), Ok(()));
    assert_eq!(c.state(), SessionState::Paused);
    assert_eq!(c.pause_recording(), Ok(()));
    assert_eq!(c.state(), SessionState::Recording);
}

#[test]
fn stop_and_pause_need_an_active_session() {
    let mut c = SessionController::new();
    assert_eq!(c.stop_recording(), Err(RecorderError::NoActiveRecording));
    assert_eq!(c.pause_recording(), Err(RecorderError::NoActiveRecording));
    assert_eq!(c.state(), SessionState::Idle);
    c.start_recording("/tmp/a.mp4".to_string()).unwrap();
    assert_eq!(c.stop_recording(), Ok(()));
    assert_eq!(c.state(), SessionState::Stopped);
    assert_eq!(c.stop_recording(), Err(RecorderError::NoActiveRecording));
    assert_eq!(c.pause_recording(), Err(RecorderError::NoActiveRecording));
    assert_eq!(c.state(), SessionState::Stopped);
}

#[test]
fn stop_from_paused() {
    let mut c = SessionController::new();
    c.start_recording("/tmp/a.mp4".to_string()).unwrap();
    c.pause_recording().unwrap();
    assert_eq!(c.stop_recording(), Ok(()));
    assert_eq!(c.state(), SessionState::Stopped);
}

#[test]
fn path_survives_pause_and_stop() {
    let mut c = SessionController::new();
    c.start_recording("/tmp/a.mp4".to_string()).unwrap();
    c.pause_recording().unwrap();
    assert_eq!(c.get_recording_path(), Ok("/tmp/a.mp4".to_string()));
    c.stop_recording().unwrap();
    assert_eq!(c.get_recording_path(), Ok("/tmp/a.mp4".to_string()));
    let _ = c.pause_recording();
    assert_eq!(c.get_recording_path(), Ok("/tmp/a.mp4".to_string()));
}

#[test]
fn restart_after_stop_opens_new_session() {
    let mut c = SessionController::new();
    c.start_recording("/tmp/a.mp4".to_string()).unwrap();
    c.record_frame(&"/tmp/a.mp4".to_string());
    c.stop_recording().unwrap();
    assert_eq!(c.start_recording("/tmp/b.mp4".to_string()), Ok(()));
    assert_eq!(c.state(), SessionState::Recording);
    assert_eq!(c.frame_count(), 0);
    assert_eq!(c.get_recording_path(), Ok("/tmp/b.mp4".to_string()));
}

#[test]
fn is_active_follows_state() {
    let mut c = SessionController::new();
    assert!(!c.is_active());
    c.start_recording("/tmp/a.mp4".to_string()).unwrap();
    assert!(c.is_active());
    c.pause_recording().unwrap();
    assert!(c.is_active());
    c.stop_recording().unwrap();
    assert!(!c.is_active());
}

#[test]
fn reused_path_is_refused() {
    let mut c = SessionController::new();
    c.start_recording("/tmp/a.mp4".to_string()).unwrap();
    c.stop_recording().unwrap();
    assert!(c.has_used(&"/tmp/a.mp4".to_string()));
    assert!(!c.has_used(&"/tmp/b.mp4".to_string()));
    assert_eq!(c.start_recording("/tmp/a.mp4".to_string()), Err(RecorderError::PathInUse));
    assert_eq!(c.state(), SessionState::Stopped);
    c.start_recording("/tmp/b.mp4".to_string()).unwrap();
    c.stop_recording().unwrap();
    assert_eq!(c.start_recording("/tmp/a.mp4".to_string()), Err(RecorderError::PathInUse));
    assert_eq!(c.get_recording_path(), Ok("/tmp/b.mp4".to_string()));
}

#[test]
fn frames_of_an_earlier_session_are_not_counted() {
    let mut c = SessionController::new();
    c.record_frame(&"/tmp/a.mp4".to_string());
    assert_eq!(c.frame_count(), 0);
    c.start_recording("/tmp/a.mp4".to_string()).unwrap();
    c.record_frame(&"/tmp/a.mp4".to_string());
    c.stop_recording().unwrap();
    c.start_recording("/tmp/b.mp4".to_string()).unwrap();
    c.record_frame(&"/tmp/a.mp4".to_string());
    assert_eq!(c.frame_count(), 0);
    c.record_frame(&"/tmp/b.mp4".to_string());
    assert_eq!(c.frame_count(), 1);
}
