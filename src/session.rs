use vstd::prelude::*;
use crate::error::RecorderError;

verus! {

/// Where the single recording session of the process stands.
#[derive(Clone, Copy, Debug, PartialEq, Eq, Structural)]
pub enum SessionState {
    /// No session has been started yet.
    Idle,
    Recording,
    Paused,
    /// The last session was stopped; a new start supersedes it.
    Stopped,
}

/// The mathematical picture of a [`SessionController`].
pub ghost struct SessionView {
    pub state: SessionState,
    /// The output paths of all sessions started so far, oldest first; the
    /// last one belongs to the current session.
    pub paths: Seq<Seq<char>>,
    pub frame_count: nat,
}

impl SessionView {
    /// The controller before any request.
    pub open spec fn initial() -> SessionView {
        SessionView { state: SessionState::Idle, paths: Seq::empty(), frame_count: 0 }
    }

    /// The output path of the current session, once one has been started.
    pub open spec fn path(self) -> Option<Seq<char>> {
        if self.paths.len() == 0 {
            None
        } else {
            Some(self.paths.last())
        }
    }

    /// A path is known exactly when some session has been started, and no
    /// two sessions share a path.
    pub open spec fn wf(self) -> bool {
        &&& (self.state == SessionState::Idle) <==> self.paths.len() == 0
        &&& forall|i: int, j: int|
            0 <= i < j < self.paths.len() ==> #[trigger] self.paths[i] != #[trigger] self.paths[j]
    }

    pub open spec fn is_active(self) -> bool {
        self.state == SessionState::Recording || self.state == SessionState::Paused
    }
}

/// What a start request does: it is refused while a session is active or
/// when an earlier session already used `path`, and otherwise opens a fresh
/// session on `path` with no frames.
pub open spec fn start_outcome(v: SessionView, path: Seq<char>) -> (Result<(), RecorderError>, SessionView) {
    if v.is_active() {
        (Err(RecorderError::AlreadyInProgress), v)
    } else if v.paths.contains(path) {
        (Err(RecorderError::PathInUse), v)
    } else {
        (Ok(()), SessionView { state: SessionState::Recording, paths: v.paths.push(path), frame_count: 0 })
    }
}

/// What a stop request does: an active session becomes stopped.
pub open spec fn stop_outcome(v: SessionView) -> (Result<(), RecorderError>, SessionView) {
    if v.is_active() {
        (Ok(()), SessionView { state: SessionState::Stopped, ..v })
    } else {
        (Err(RecorderError::NoActiveRecording), v)
    }
}

/// What a pause request does: it toggles between recording and paused.
pub open spec fn pause_outcome(v: SessionView) -> (Result<(), RecorderError>, SessionView) {
    match v.state {
        SessionState::Recording => (Ok(()), SessionView { state: SessionState::Paused, ..v }),
        SessionState::Paused => (Ok(()), SessionView { state: SessionState::Recording, ..v }),
        _ => (Err(RecorderError::NoActiveRecording), v),
    }
}

/// What a path query answers.
pub open spec fn path_outcome(v: SessionView) -> Result<Seq<char>, RecorderError> {
    match v.path() {
        Some(p) => Ok(p),
        None => Err(RecorderError::NoRecordingAvailable),
    }
}

/// What a frame reported by the capture loop recording to `path` does: it
/// counts for the current session only, and the count stops at the largest
/// `u64`.
pub open spec fn frame_outcome(v: SessionView, path: Seq<char>) -> SessionView {
    if v.path() == Some(path) && v.frame_count < u64::MAX {
        SessionView { frame_count: v.frame_count + 1, ..v }
    } else {
        v
    }
}

/// The single process-wide owner of the recording session.
pub struct SessionController {
    state: SessionState,
    used_paths: Vec<String>,
    frame_count: u64,
}

impl View for SessionController {
    type V = SessionView;

    closed spec fn view(&self) -> SessionView {
        SessionView {
            state: self.state,
            paths: self.used_paths@.map_values(|s: String| s@),
            frame_count: self.frame_count as nat,
        }
    }
}

impl SessionController {
    pub open spec fn wf(&self) -> bool {
        self@.wf()
    }

    pub fn new() -> (r: SessionController)
        ensures
            r.wf(),
            r@ == SessionView::initial(),
    {
        let r = SessionController { state: SessionState::Idle, used_paths: Vec::new(), frame_count: 0 };
        assert(r@.paths =~= Seq::empty());
        r
    }

    pub fn state(&self) -> (r: SessionState)
        ensures
            r == self@.state,
    {
        self.state
    }

    pub fn frame_count(&self) -> (r: u64)
        ensures
            r == self@.frame_count,
    {
        self.frame_count
    }

    pub fn is_active(&self) -> (r: bool)
        ensures
            r == self@.is_active(),
    {
        match self.state {
            SessionState::Recording | SessionState::Paused => true,
            _ => false,
        }
    }

    /// Whether some session has already recorded to `path`.
    pub fn has_used(&self, path: &String) -> (r: bool)
        ensures
            r == self@.paths.contains(path@),
    {
        let mut i: usize = 0;
        while i < self.used_paths.len()
            invariant
                i <= self.used_paths.len(),
                forall|j: int| 0 <= j < i ==> self.used_paths@[j]@ != path@,
            decreases self.used_paths.len() - i,
        {
            if self.used_paths[i] == *path {
                assert(self@.paths[i as int] == path@);
                return true;
            }
            i = i + 1;
        }
        assert forall|j: int| 0 <= j < self@.paths.len() implies self@.paths[j] != path@ by {
            assert(self@.paths[j] == self.used_paths@[j]@);
        }
        false
    }

    /// Opens a new session that records to `output_path`.
    pub fn start_recording(&mut self, output_path: String) -> (r: Result<(), RecorderError>)
        requires
            old(self).wf(),
        ensures
            final(self).wf(),
            (r, final(self)@) == start_outcome(old(self)@, output_path@),
    {
        if self.is_active() {
            return Err(RecorderError::AlreadyInProgress);
        }
        if self.has_used(&output_path) {
            return Err(RecorderError::PathInUse);
        }
        let ghost before = self@;
        self.state = SessionState::Recording;
        self.used_paths.push(output_path);
        self.frame_count = 0;
        assert(self@.paths =~= before.paths.push(output_path@));
        assert forall|i: int, j: int| 0 <= i < j < self@.paths.len() implies self@.paths[i]
            != self@.paths[j] by {
            if j == self@.paths.len() - 1 {
                assert(before.paths[i] == self@.paths[i]);
            }
        }
        Ok(())
    }

    /// Ends the active session; its path stays available.
    pub fn stop_recording(&mut self) -> (r: Result<(), RecorderError>)
        requires
            old(self).wf(),
        ensures
            final(self).wf(),
            (r, final(self)@) == stop_outcome(old(self)@),
    {
        if !self.is_active() {
            return Err(RecorderError::NoActiveRecording);
        }
        self.state = SessionState::Stopped;
        Ok(())
    }

    /// Toggles the active session between recording and paused.
    pub fn pause_recording(&mut self) -> (r: Result<(), RecorderError>)
        requires
            old(self).wf(),
        ensures
            final(self).wf(),
            (r, final(self)@) == pause_outcome(old(self)@),
    {
        match self.state {
            SessionState::Recording => {
                self.state = SessionState::Paused;
                Ok(())
            },
            SessionState::Paused => {
                self.state = SessionState::Recording;
                Ok(())
            },
            _ => Err(RecorderError::NoActiveRecording),
        }
    }

    /// The output path of the most recently started session.
    pub fn get_recording_path(&self) -> (r: Result<String, RecorderError>)
        ensures
            match r {
                Ok(p) => path_outcome(self@) == Ok::<Seq<char>, RecorderError>(p@),
                Err(e) => path_outcome(self@) == Err::<Seq<char>, RecorderError>(e),
            },
    {
        let n = self.used_paths.len();
        if n == 0 {
            Err(RecorderError::NoRecordingAvailable)
        } else {
            Ok(self.used_paths[n - 1].clone())
        }
    }

    /// Counts one more frame captured for the session recording to `path`;
    /// a frame from an earlier session's capture loop is not counted.
    pub fn record_frame(&mut self, path: &String)
        requires
            old(self).wf(),
        ensures
            final(self).wf(),
            final(self)@ == frame_outcome(old(self)@, path@),
    {
        let n = self.used_paths.len();
        if n > 0 && self.used_paths[n - 1] == *path && self.frame_count < u64::MAX {
            self.frame_count = self.frame_count + 1;
        }
        assert(self@ =~= frame_outcome(old(self)@, path@));
    }
}

/// A state-changing request to the controller.
pub ghost enum Request {
    Start(Seq<char>),
    Stop,
    Pause,
}

/// The outcome of one request, as the controller's methods produce it.
pub open spec fn request_outcome(v: SessionView, req: Request) -> (Result<(), RecorderError>, SessionView) {
    match req {
        Request::Start(p) => start_outcome(v, p),
        Request::Stop => stop_outcome(v),
        Request::Pause => pause_outcome(v),
    }
}

/// The controller after a whole sequence of requests, whatever each returned.
pub open spec fn replay(v: SessionView, reqs: Seq<Request>) -> SessionView
    decreases reqs.len(),
{
    if reqs.len() == 0 {
        v
    } else {
        replay(request_outcome(v, reqs[0]).1, reqs.drop_first())
    }
}

/// Every request keeps the controller well formed, and a refused request
/// leaves it exactly as it was, so along any sequence of requests the
/// controller stays well formed.
pub proof fn requests_keep_controller_sound(v: SessionView, reqs: Seq<Request>)
    requires
        v.wf(),
    ensures
        replay(v, reqs).wf(),
        forall|r: Request| #[trigger] request_outcome(v, r).0 is Err ==> request_outcome(v, r).1 == v,
        forall|r: Request| request_outcome(v, r).1.wf(),
    decreases reqs.len(),
{
    if reqs.len() > 0 {
        requests_keep_controller_sound(request_outcome(v, reqs[0]).1, reqs.drop_first());
    }
}

/// A second start without a stop in between is refused with
/// `AlreadyInProgress` and leaves the first session's path and frame count
/// as they were.
pub proof fn second_start_is_refused(v: SessionView, first: Seq<char>, second: Seq<char>)
    requires
        v.wf(),
        start_outcome(v, first).0 is Ok,
    ensures
        ({
            let after_first = start_outcome(v, first).1;
            start_outcome(after_first, second) == (
                Err::<(), RecorderError>(RecorderError::AlreadyInProgress),
                after_first,
            )
            && after_first.path() == Some(first)
            && after_first.frame_count == 0
        }),
{
}

/// A start succeeds only on a path that no earlier session used; the new
/// session then owns that path, and all sessions' paths stay distinct.
pub proof fn session_paths_are_unique(v: SessionView, path: Seq<char>)
    requires
        v.wf(),
    ensures
        start_outcome(v, path).0 is Ok ==> !v.paths.contains(path),
        start_outcome(v, path).0 is Ok ==> start_outcome(v, path).1.path() == Some(path),
        v.paths.contains(path) ==> start_outcome(v, path).0 is Err,
        start_outcome(v, path).1.wf(),
{
    let w = start_outcome(v, path).1;
    if start_outcome(v, path).0 is Ok {
        assert forall|i: int, j: int| 0 <= i < j < w.paths.len() implies w.paths[i] != w.paths[j] by {
            if j == w.paths.len() - 1 {
                assert(w.paths[i] == v.paths[i]);
            }
        }
    }
}

/// Two pauses in a row bring a recording session back to recording, with
/// nothing else changed.
pub proof fn pause_twice_resumes(v: SessionView)
    requires
        v.state == SessionState::Recording,
    ensures
        pause_outcome(v).0 is Ok,
        pause_outcome(v).1.state == SessionState::Paused,
        pause_outcome(pause_outcome(v).1) == (Ok::<(), RecorderError>(()), v),
{
}

/// Before any start the path query fails with `NoRecordingAvailable`; after a
/// start on `path`, any sequence of stops and pauses leaves the answer `path`.
pub proof fn path_survives_stop_and_pause(path: Seq<char>, later: Seq<Request>)
    requires
        forall|i: int| 0 <= i < later.len() ==> !(later[i] is Start),
    ensures
        path_outcome(SessionView::initial()) == Err::<Seq<char>, RecorderError>(
            RecorderError::NoRecordingAvailable,
        ),
        path_outcome(replay(start_outcome(SessionView::initial(), path).1, later)) == Ok::<
            Seq<char>,
            RecorderError,
        >(path),
{
    path_kept(start_outcome(SessionView::initial(), path).1, later);
}

proof fn path_kept(v: SessionView, later: Seq<Request>)
    requires
        forall|i: int| 0 <= i < later.len() ==> !(later[i] is Start),
    ensures
        replay(v, later).paths == v.paths,
    decreases later.len(),
{
    if later.len() > 0 {
        assert(!(later[0] is Start));
        let rest = later.drop_first();
        assert forall|i: int| 0 <= i < rest.len() implies !(rest[i] is Start) by {
            assert(rest[i] == later[i + 1]);
        }
        path_kept(request_outcome(v, later[0]).1, rest);
    }
}

} // verus!
