use vstd::prelude::*;

verus! {

/// Every failure the recorder reports.
#[derive(Clone, Copy, Debug, PartialEq, Eq, Structural)]
pub enum RecorderError {
    /// A recording is already running or paused.
    AlreadyInProgress,
    /// A session has already recorded to the path given for a new one.
    PathInUse,
    /// Stop or pause was asked while nothing is being recorded.
    NoActiveRecording,
    /// No recording has ever been started, so there is no path to report.
    NoRecordingAvailable,
    /// The machine offers no display to capture.
    NoDisplayAvailable,
    /// Capturing or storing one frame failed.
    CaptureFailed,
    /// The encoder did not turn the frames into a video.
    EncodeFailed,
    /// The trimming tool did not produce the trimmed video.
    TrimFailed,
    /// A trim range whose end does not lie after its start.
    InvalidTimeRange,
    /// A directory or file could not be created.
    IoFailed,
}

} // verus!
