use screen_recorder::capture::{
    pick_display, CaptureEvent, CapturePhase, CaptureRun, CaptureStep, FRAMES_PER_RUN, FRAME_DELAY_MS,
};
use screen_recorder::error::RecorderError;

fn drive(run: &mut CaptureRun, encode_ok: bool) -> Vec<u64> {
    let mut frames = Vec::new();
    loop {
        match run.next_step() {
            CaptureStep::CaptureFrame(i) => {
                frames.push(i);
                run.advance(CaptureEvent::FrameStored);
            }
            CaptureStep::Wait(ms) => {
                assert_eq!(ms, FRAME_DELAY_MS);
                run.advance(CaptureEvent::Waited);
            }
            CaptureStep::Encode => run.advance(if encode_ok {
                CaptureEvent::EncodeSucceeded
            } else {
                CaptureEvent::EncodeFailed
            }),
            CaptureStep::DiscardOutput => run.advance(CaptureEvent::OutputDiscarded),
            CaptureStep::Succeeded | CaptureStep::Stopped(_) => return frames,
        }
    }
}

#[test]
fn no_display_is_an_error() {
    assert_eq!(pick_display(0), Err(RecorderError::NoDisplayAvailable));
    assert_eq!(pick_display(3), Ok(0));
}

#[test]
fn full_run_numbers_frames_contiguously() {
    let mut run = CaptureRun::new(FRAMES_PER_RUN);
    let frames = drive(&mut run, true);
    assert_eq!(frames, (0..FRAMES_PER_RUN).collect::<Vec<u64>>());
    assert_eq!(run.stored(), 3000);
    assert_eq!(run.phase(), CapturePhase::Finished);
    assert_eq!(run.outcome(), Some(Ok(())));
}

#[test]
fn small_run_steps_in_order() {
    let mut run = CaptureRun::new(2);
    assert_eq!(run.outcome(), None);
    assert_eq!(run.next_step(), CaptureStep::CaptureFrame(0));
    run.advance(CaptureEvent::FrameStored);
    assert_eq!(run.next_step(), CaptureStep::Wait(40));
    run.advance(CaptureEvent::Waited);
    assert_eq!(run.next_step(), CaptureStep::CaptureFrame(1));
    run.advance(CaptureEvent::FrameStored);
    assert_eq!(run.next_step(), CaptureStep::Wait(40));
    run.advance(CaptureEvent::Waited);
    assert_eq!(run.next_step(), CaptureStep::Encode);
}

#[test]
fn capture_failure_stops_before_encoding() {
    let mut run = CaptureRun::new(5);
    run.advance(CaptureEvent::FrameStored);
    run.advance(CaptureEvent::Waited);
    run.advance(CaptureEvent::FrameFailed);
    assert_eq!(run.next_step(), CaptureStep::Stopped(RecorderError::CaptureFailed));
    assert_eq!(run.stored(), 1);
    assert_eq!(run.outcome(), Some(Err(RecorderError::CaptureFailed)));
}

#[test]
fn encode_failure_discards_output() {
    let mut run = CaptureRun::new(3);
    let frames = drive(&mut run, false);
    assert_eq!(frames, vec![0, 1, 2]);
    assert_eq!(run.phase(), CapturePhase::Failed(RecorderError::EncodeFailed));
    assert_eq!(run.outcome(), Some(Err(RecorderError::EncodeFailed)));
}

#[test]
fn encode_failure_asks_for_discard_first() {
    let mut run = CaptureRun::new(1);
    run.advance(CaptureEvent::FrameStored);
    run.advance(CaptureEvent::Waited);
    run.advance(CaptureEvent::EncodeFailed);
    assert_eq!(run.next_step(), CaptureStep::DiscardOutput);
    assert_eq!(run.outcome(), None);
    run.advance(CaptureEvent::EncodeSucceeded);
    assert_eq!(run.next_step(), CaptureStep::DiscardOutput);
    run.advance(CaptureEvent::OutputDiscarded);
    assert_eq!(run.next_step(), CaptureStep::Stopped(RecorderError::EncodeFailed));
}

#[test]
fn out_of_turn_events_change_nothing() {
    let mut run = CaptureRun::new(2);
    run.advance(CaptureEvent::Waited);
    run.advance(CaptureEvent::EncodeSucceeded);
    assert_eq!(run.next_step(), CaptureStep::CaptureFrame(0));
    assert_eq!(run.stored(), 0);
}

#[test]
fn empty_run_goes_straight_to_encoding() {
    let run = CaptureRun::new(0);
    assert_eq!(run.next_step(), CaptureStep::Encode);
}

#[test]
fn failed_discard_ends_with_io_error() {
    let mut run = CaptureRun::new(1);
    run.advance(CaptureEvent::FrameStored);
    run.advance(CaptureEvent::Waited);
    run.advance(CaptureEvent::EncodeFailed);
    run.advance(CaptureEvent::DiscardFailed);
    assert_eq!(run.next_step(), CaptureStep::Stopped(RecorderError::IoFailed));
    assert_eq!(run.outcome(), Some(Err(RecorderError::IoFailed)));
}
