use vstd::prelude::*;
use crate::error::RecorderError;

verus! {

/// How many frames one capture run stores.
pub const FRAMES_PER_RUN: u64 = 3000;

/// The pause between two captures, in milliseconds.
pub const FRAME_DELAY_MS: u64 = 40;

/// The frame rate the encoder is told the frames were taken at.
pub const FRAME_RATE: u64 = 25;

/// Which display to capture, given how many the machine offers: the first.
pub fn pick_display(count: usize) -> (r: Result<usize, RecorderError>)
    ensures
        count == 0 ==> r == Err::<usize, RecorderError>(RecorderError::NoDisplayAvailable),
        count > 0 ==> r == Ok::<usize, RecorderError>(0),
{
    if count == 0 {
        Err(RecorderError::NoDisplayAvailable)
    } else {
        Ok(0)
    }
}

/// Where a capture run stands.
#[derive(Clone, Copy, Debug, PartialEq, Eq, Structural)]
pub enum CapturePhase {
    /// Frames are still being taken.
    Capturing,
    /// All frames are stored; the encoder is to be run.
    Encoding,
    /// The encoder failed; whatever it left at the output path is to go.
    Discarding,
    /// The video was produced.
    Finished,
    /// The run ended without a video.
    Failed(RecorderError),
}

/// What the driver of a capture run is to do next.
#[derive(Clone, Copy, Debug, PartialEq, Eq, Structural)]
pub enum CaptureStep {
    /// Capture the screen and store the image as frame `index`.
    CaptureFrame(u64),
    /// Wait this many milliseconds, then capture the next frame.
    Wait(u64),
    /// Run the encoder on the stored frames.
    Encode,
    /// Remove any file at the output path.
    DiscardOutput,
    /// Nothing more; the run succeeded.
    Succeeded,
    /// Nothing more; the run failed with this error.
    Stopped(RecorderError),
}

/// What the driver reports back after doing a step.
#[derive(Clone, Copy, Debug, PartialEq, Eq, Structural)]
pub enum CaptureEvent {
    FrameStored,
    FrameFailed,
    Waited,
    EncodeSucceeded,
    EncodeFailed,
    OutputDiscarded,
    /// The file at the output path could not be removed.
    DiscardFailed,
}

/// The mathematical picture of a [`CaptureRun`].
pub ghost struct CaptureView {
    pub total: nat,
    /// How many frames are stored.
    pub stored: nat,
    /// Whether the pause after the last stored frame is still owed.
    pub waiting: bool,
    pub phase: CapturePhase,
    /// The frame numbers stored so far, in the order they were stored.
    pub written: Seq<nat>,
}

impl CaptureView {
    pub open spec fn start(total: nat) -> CaptureView {
        CaptureView {
            total,
            stored: 0,
            waiting: false,
            phase: if total == 0 { CapturePhase::Encoding } else { CapturePhase::Capturing },
            written: Seq::empty(),
        }
    }

    pub open spec fn wf(self) -> bool {
        &&& self.stored <= self.total
        &&& self.written.len() == self.stored
        &&& forall|i: int| 0 <= i < self.written.len() ==> self.written[i] == i
        &&& self.waiting ==> self.phase == CapturePhase::Capturing
        &&& self.phase == CapturePhase::Capturing ==> self.stored < self.total || self.waiting
        &&& (self.phase == CapturePhase::Encoding || self.phase == CapturePhase::Discarding
            || self.phase == CapturePhase::Finished) ==> self.stored == self.total
    }

    /// The step a run in this state asks for.
    pub open spec fn step(self) -> CaptureStep {
        match self.phase {
            CapturePhase::Capturing => if self.waiting {
                CaptureStep::Wait(FRAME_DELAY_MS)
            } else {
                CaptureStep::CaptureFrame(self.stored as u64)
            },
            CapturePhase::Encoding => CaptureStep::Encode,
            CapturePhase::Discarding => CaptureStep::DiscardOutput,
            CapturePhase::Finished => CaptureStep::Succeeded,
            CapturePhase::Failed(e) => CaptureStep::Stopped(e),
        }
    }

    /// The run after `event`; an event that does not answer the current step
    /// changes nothing.
    pub open spec fn after(self, event: CaptureEvent) -> CaptureView {
        match (self.step(), event) {
            (CaptureStep::CaptureFrame(_), CaptureEvent::FrameStored) => CaptureView {
                stored: self.stored + 1,
                waiting: true,
                written: self.written.push(self.stored),
                ..self
            },
            (CaptureStep::CaptureFrame(_), CaptureEvent::FrameFailed) => CaptureView {
                phase: CapturePhase::Failed(RecorderError::CaptureFailed),
                ..self
            },
            (CaptureStep::Wait(_), CaptureEvent::Waited) => CaptureView {
                waiting: false,
                phase: if self.stored < self.total {
                    CapturePhase::Capturing
                } else {
                    CapturePhase::Encoding
                },
                ..self
            },
            (CaptureStep::Encode, CaptureEvent::EncodeSucceeded) => CaptureView {
                phase: CapturePhase::Finished,
                ..self
            },
            (CaptureStep::Encode, CaptureEvent::EncodeFailed) => CaptureView {
                phase: CapturePhase::Discarding,
                ..self
            },
            (CaptureStep::DiscardOutput, CaptureEvent::OutputDiscarded) => CaptureView {
                phase: CapturePhase::Failed(RecorderError::EncodeFailed),
                ..self
            },
            (CaptureStep::DiscardOutput, CaptureEvent::DiscardFailed) => CaptureView {
                phase: CapturePhase::Failed(RecorderError::IoFailed),
                ..self
            },
            _ => self,
        }
    }
}

/// One run of the capture loop: a fixed number of frames, taken one after
/// another with a pause after each, then handed to the encoder once. Pause
/// and stop requests on the session do not shorten a run.
pub struct CaptureRun {
    total: u64,
    stored: u64,
    waiting: bool,
    phase: CapturePhase,
    written: Ghost<Seq<nat>>,
}

impl View for CaptureRun {
    type V = CaptureView;

    closed spec fn view(&self) -> CaptureView {
        CaptureView {
            total: self.total as nat,
            stored: self.stored as nat,
            waiting: self.waiting,
            phase: self.phase,
            written: self.written@,
        }
    }
}

impl CaptureRun {
    pub open spec fn wf(&self) -> bool {
        self@.wf()
    }

    /// A run that will store `total` frames.
    pub fn new(total: u64) -> (r: CaptureRun)
        ensures
            r.wf(),
            r@ == CaptureView::start(total as nat),
    {
        CaptureRun {
            total,
            stored: 0,
            waiting: false,
            phase: if total == 0 { CapturePhase::Encoding } else { CapturePhase::Capturing },
            written: Ghost(Seq::empty()),
        }
    }

    /// How many frames are stored so far.
    pub fn stored(&self) -> (r: u64)
        ensures
            r == self@.stored,
    {
        self.stored
    }

    pub fn phase(&self) -> (r: CapturePhase)
        ensures
            r == self@.phase,
    {
        self.phase
    }

    /// How the run ended, once it has: the value that the detached capture
    /// task reports to whoever watches it.
    pub fn outcome(&self) -> (r: Option<Result<(), RecorderError>>)
        ensures
            self@.phase == CapturePhase::Finished ==> r == Some(Ok::<(), RecorderError>(())),
            self@.phase is Failed ==> r == Some(Err::<(), RecorderError>(self@.phase->Failed_0)),
            !(self@.phase == CapturePhase::Finished || self@.phase is Failed) ==> r is None,
    {
        match self.phase {
            CapturePhase::Finished => Some(Ok(())),
            CapturePhase::Failed(e) => Some(Err(e)),
            _ => None,
        }
    }

    /// The step the driver is to do next.
    pub fn next_step(&self) -> (r: CaptureStep)
        requires
            self.wf(),
        ensures
            r == self@.step(),
    {
        match self.phase {
            CapturePhase::Capturing => if self.waiting {
                CaptureStep::Wait(FRAME_DELAY_MS)
            } else {
                CaptureStep::CaptureFrame(self.stored)
            },
            CapturePhase::Encoding => CaptureStep::Encode,
            CapturePhase::Discarding => CaptureStep::DiscardOutput,
            CapturePhase::Finished => CaptureStep::Succeeded,
            CapturePhase::Failed(e) => CaptureStep::Stopped(e),
        }
    }

    /// Takes in what happened after the last step.
    pub fn advance(&mut self, event: CaptureEvent)
        requires
            old(self).wf(),
        ensures
            final(self).wf(),
            final(self)@ == old(self)@.after(event),
    {
        let step = self.next_step();
        match (step, event) {
            (CaptureStep::CaptureFrame(_), CaptureEvent::FrameStored) => {
                proof {
                    self.written@ = self.written@.push(self.stored as nat);
                }
                self.stored = self.stored + 1;
                self.waiting = true;
            },
            (CaptureStep::CaptureFrame(_), CaptureEvent::FrameFailed) => {
                self.phase = CapturePhase::Failed(RecorderError::CaptureFailed);
            },
            (CaptureStep::Wait(_), CaptureEvent::Waited) => {
                self.waiting = false;
                if self.stored == self.total {
                    self.phase = CapturePhase::Encoding;
                }
            },
            (CaptureStep::Encode, CaptureEvent::EncodeSucceeded) => {
                self.phase = CapturePhase::Finished;
            },
            (CaptureStep::Encode, CaptureEvent::EncodeFailed) => {
                self.phase = CapturePhase::Discarding;
            },
            (CaptureStep::DiscardOutput, CaptureEvent::OutputDiscarded) => {
                self.phase = CapturePhase::Failed(RecorderError::EncodeFailed);
            },
            (CaptureStep::DiscardOutput, CaptureEvent::DiscardFailed) => {
                self.phase = CapturePhase::Failed(RecorderError::IoFailed);
            },
            _ => {},
        }
        assert(self@ =~= old(self)@.after(event));
    }
}

/// The run after a whole sequence of events.
pub open spec fn replay_events(v: CaptureView, events: Seq<CaptureEvent>) -> CaptureView
    decreases events.len(),
{
    if events.len() == 0 {
        v
    } else {
        replay_events(v.after(events[0]), events.drop_first())
    }
}

/// Every event keeps a run well formed.
pub proof fn events_keep_run_sound(v: CaptureView, events: Seq<CaptureEvent>)
    requires
        v.wf(),
    ensures
        replay_events(v, events).wf(),
        replay_events(v, events).total == v.total,
    decreases events.len(),
{
    if events.len() > 0 {
        one_event_keeps_run_sound(v, events[0]);
        events_keep_run_sound(v.after(events[0]), events.drop_first());
    }
}

proof fn one_event_keeps_run_sound(v: CaptureView, event: CaptureEvent)
    requires
        v.wf(),
    ensures
        v.after(event).wf(),
{
    let w = v.after(event);
    assert forall|i: int| 0 <= i < w.written.len() implies w.written[i] == i by {
        if i < v.written.len() {
            assert(w.written[i] == v.written[i]);
        }
    }
}

/// A run of `total` frames that ends with a video has stored exactly the
/// frames numbered `0` to `total - 1`, each once and in that order.
pub proof fn completed_run_stores_every_frame(total: nat, events: Seq<CaptureEvent>)
    requires
        replay_events(CaptureView::start(total), events).phase == CapturePhase::Finished,
    ensures
        replay_events(CaptureView::start(total), events).written == Seq::new(total, |i: int| i as nat),
{
    assert(CaptureView::start(total).wf());
    events_keep_run_sound(CaptureView::start(total), events);
    let w = replay_events(CaptureView::start(total), events);
    assert(w.written =~= Seq::new(total, |i: int| i as nat));
}

/// Once the encoder has failed, the run asks for the output to be removed,
/// ends with `EncodeFailed` once that is done (with `IoFailed` if the removal
/// failed), and never reports success.
pub proof fn failed_encode_discards_output(v: CaptureView, events: Seq<CaptureEvent>)
    requires
        v.wf(),
        v.step() == CaptureStep::Encode,
    ensures
        v.after(CaptureEvent::EncodeFailed).step() == CaptureStep::DiscardOutput,
        v.after(CaptureEvent::EncodeFailed).after(CaptureEvent::OutputDiscarded).step()
            == CaptureStep::Stopped(RecorderError::EncodeFailed),
        v.after(CaptureEvent::EncodeFailed).after(CaptureEvent::DiscardFailed).step()
            == CaptureStep::Stopped(RecorderError::IoFailed),
        replay_events(v.after(CaptureEvent::EncodeFailed), events).phase != CapturePhase::Finished,
{
    never_finishes(v.after(CaptureEvent::EncodeFailed), events);
}

proof fn never_finishes(v: CaptureView, events: Seq<CaptureEvent>)
    requires
        v.phase == CapturePhase::Discarding || v.phase is Failed,
    ensures
        replay_events(v, events).phase == CapturePhase::Discarding
            || replay_events(v, events).phase is Failed,
    decreases events.len(),
{
    if events.len() > 0 {
        never_finishes(v.after(events[0]), events.drop_first());
    }
}

} // verus!
