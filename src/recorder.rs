//! The toggle state machine that starts and stops audio capture.
//!
//! The loop around it performs each action (spawning the capture process,
//! interrupting it, reading what it wrote) and hands the outcome back.
use vstd::prelude::*;

verus! {

/// How many toggles may wait to be served; more are dropped.
pub const TOGGLE_QUEUE_CAPACITY: usize = 100;

/// Where the capture stands.
#[derive(Clone, Copy, Debug, PartialEq, Eq, Structural)]
pub enum Phase {
    /// No session.
    Idle,
    /// A capture process was asked for and runs until the next toggle.
    Recording,
    /// The capture process was interrupted; its audio is awaited.
    Stopping,
}

/// Why a session yielded no audio.
#[derive(Clone, Copy, Debug, PartialEq, Eq, Structural)]
pub enum CaptureError {
    /// The capture process could not be started.
    Spawn,
    /// The capture process did not exit cleanly.
    Exit,
    /// What the capture process wrote could not be read.
    Read,
}

/// The controller's state: the phase, the process identifier of the most
/// recently started capture, and whether captured audio is kept on disk.
#[derive(Clone, Copy, Debug, PartialEq, Eq, Structural)]
pub struct Recorder {
    pub phase: Phase,
    pub pid: u32,
    pub keep_audio: bool,
}

/// What a toggle asks of the loop.
#[derive(Clone, Copy, Debug, PartialEq, Eq, Structural)]
pub enum ToggleAction {
    /// Start a capture process and report its identifier.
    StartCapture,
    /// Interrupt the capture process `pid`, then report what it captured.
    StopCapture { pid: u32 },
    /// Nothing to do: a stop is already under way.
    Wait,
}

/// What ends a session: the audio to transcribe, if any, and whether the
/// capture file is to be removed.
pub struct SessionEnd {
    pub audio: Option<Vec<u8>>,
    pub remove_capture: bool,
}

pub open spec fn toggle_action(r: Recorder) -> ToggleAction {
    match r.phase {
        Phase::Idle => ToggleAction::StartCapture,
        Phase::Recording => ToggleAction::StopCapture { pid: r.pid },
        Phase::Stopping => ToggleAction::Wait,
    }
}

pub open spec fn toggle_next(r: Recorder) -> Recorder {
    match r.phase {
        Phase::Idle => Recorder { phase: Phase::Recording, ..r },
        Phase::Recording => Recorder { phase: Phase::Stopping, ..r },
        Phase::Stopping => r,
    }
}

pub open spec fn started_next(r: Recorder, pid: u32) -> Recorder {
    if r.phase == Phase::Recording {
        Recorder { pid, ..r }
    } else {
        r
    }
}

pub open spec fn start_failed_next(r: Recorder) -> Recorder {
    if r.phase == Phase::Recording {
        Recorder { phase: Phase::Idle, ..r }
    } else {
        r
    }
}

/// The captured bytes, or why there are none.
pub open spec fn capture_view(c: Result<Vec<u8>, CaptureError>) -> Result<Seq<u8>, CaptureError> {
    match c {
        Ok(bytes) => Ok(bytes@),
        Err(e) => Err(e),
    }
}

pub open spec fn captured_next(r: Recorder) -> Recorder {
    if r.phase == Phase::Stopping {
        Recorder { phase: Phase::Idle, ..r }
    } else {
        r
    }
}

/// The audio handed to transcription when a capture ends with `c`: exactly
/// the captured bytes, and only when a stop was under way.
pub open spec fn session_audio(r: Recorder, c: Result<Seq<u8>, CaptureError>) -> Option<Seq<u8>> {
    if r.phase == Phase::Stopping {
        match c {
            Ok(bytes) => Some(bytes),
            Err(_) => None,
        }
    } else {
        None
    }
}

/// Whether the capture file goes once a capture ends: after every finished
/// session unless audio is kept.
pub open spec fn removes_capture(r: Recorder) -> bool {
    r.phase == Phase::Stopping && !r.keep_audio
}

impl Recorder {
    /// An idle controller.
    pub fn new(keep_audio: bool) -> (r: Recorder)
        ensures
            r.phase == Phase::Idle,
            r.pid == 0,
            r.keep_audio == keep_audio,
    {
        Recorder { phase: Phase::Idle, pid: 0, keep_audio }
    }

    /// A toggle: from Idle it asks for a capture to start; while Recording it
    /// asks for the process in the PID register to be interrupted.
    pub fn on_toggle(&mut self) -> (r: ToggleAction)
        ensures
            r == toggle_action(*old(self)),
            *final(self) == toggle_next(*old(self)),
    {
        match self.phase {
            Phase::Idle => {
                self.phase = Phase::Recording;
                ToggleAction::StartCapture
            },
            Phase::Recording => {
                self.phase = Phase::Stopping;
                ToggleAction::StopCapture { pid: self.pid }
            },
            Phase::Stopping => ToggleAction::Wait,
        }
    }

    /// The capture process started as `pid`: the PID register takes it.
    pub fn on_started(&mut self, pid: u32)
        ensures
            *final(self) == started_next(*old(self), pid),
    {
        if self.phase == Phase::Recording {
            self.pid = pid;
        }
    }

    /// The capture process could not be started: back to Idle.
    pub fn on_start_failed(&mut self)
        ensures
            *final(self) == start_failed_next(*old(self)),
    {
        if self.phase == Phase::Recording {
            self.phase = Phase::Idle;
        }
    }

    /// The interrupted capture ended with `captured`: back to Idle, handing
    /// on exactly the captured bytes for one transcription.
    pub fn on_captured(&mut self, captured: Result<Vec<u8>, CaptureError>) -> (r: SessionEnd)
        ensures
            *final(self) == captured_next(*old(self)),
            match r.audio {
                Some(a) => session_audio(*old(self), capture_view(captured)) == Some(a@),
                None => session_audio(*old(self), capture_view(captured)) is None,
            },
            r.remove_capture == removes_capture(*old(self)),
    {
        if self.phase == Phase::Stopping {
            self.phase = Phase::Idle;
            let audio = match captured {
                Ok(bytes) => Some(bytes),
                Err(_) => None,
            };
            SessionEnd { audio, remove_capture: !self.keep_audio }
        } else {
            SessionEnd { audio: None, remove_capture: false }
        }
    }
}

/// One toggle served by the loop when every outside step succeeds: a start
/// reports `pid`, a stop reports `audio`. Beside the next state it gives, for
/// a stop, the process interrupted and the audio transcribed.
pub open spec fn serve(r: Recorder, pid: u32, audio: Seq<u8>) -> (Recorder, Option<(u32, Option<Seq<u8>>)>) {
    let r1 = toggle_next(r);
    match toggle_action(r) {
        ToggleAction::StartCapture => (started_next(r1, pid), None),
        ToggleAction::StopCapture { pid: p } => (captured_next(r1), Some((p, session_audio(r1, Ok(audio))))),
        ToggleAction::Wait => (r1, None),
    }
}

/// The first `n` toggles served in delivery order, the k-th with `pids[k]`
/// and `audios[k]`.
pub open spec fn serve_all(r: Recorder, pids: Seq<u32>, audios: Seq<Seq<u8>>, n: nat) -> (Recorder, Seq<Option<(u32, Option<Seq<u8>>)>>)
    decreases n,
{
    if n == 0 {
        (r, Seq::empty())
    } else {
        let prev = serve_all(r, pids, audios, (n - 1) as nat);
        let step = serve(prev.0, pids[n - 1], audios[n - 1]);
        (step.0, prev.1.push(step.1))
    }
}

/// Toggles delivered to an idle controller are served in order and alternate
/// start and stop: after `n` of them the controller records exactly when `n`
/// is odd; each even toggle starts a capture; each odd one interrupts the
/// process that the toggle before it started (the PID register holds the most
/// recent spawn) and hands exactly the audio of that session to one
/// transcription.
pub proof fn lemma_toggles_alternate(r: Recorder, pids: Seq<u32>, audios: Seq<Seq<u8>>, n: nat)
    requires
        r.phase == Phase::Idle,
        n <= pids.len(),
        n <= audios.len(),
    ensures
        serve_all(r, pids, audios, n).0.phase == (if n % 2 == 0 { Phase::Idle } else { Phase::Recording }),
        n % 2 == 1 ==> serve_all(r, pids, audios, n).0.pid == pids[n - 1],
        serve_all(r, pids, audios, n).0.keep_audio == r.keep_audio,
        serve_all(r, pids, audios, n).1.len() == n,
        forall|k: int|
            0 <= k < n ==> #[trigger] serve_all(r, pids, audios, n).1[k] == (if k % 2 == 0 {
                None
            } else {
                Some((pids[k - 1], Some(audios[k])))
            }),
    decreases n,
{
    if n > 0 {
        lemma_toggles_alternate(r, pids, audios, (n - 1) as nat);
        let prev = serve_all(r, pids, audios, (n - 1) as nat);
        let all = serve_all(r, pids, audios, n);
        assert forall|k: int| 0 <= k < n implies #[trigger] all.1[k] == (if k % 2 == 0 {
            None
        } else {
            Some((pids[k - 1], Some(audios[k])))
        }) by {
            if k < n - 1 {
                assert(all.1[k] == prev.1[k]);
            }
        }
    }
}

/// No transcription starts from Idle: a capture that ends while no stop is
/// under way hands no audio on, and a toggle there only asks for a start.
pub proof fn lemma_idle_never_transcribes(r: Recorder, c: Result<Seq<u8>, CaptureError>)
    requires
        r.phase == Phase::Idle,
    ensures
        session_audio(r, c) is None,
        toggle_action(r) == ToggleAction::StartCapture,
        captured_next(r) == r,
{
}

/// A session yields audio only when the capture succeeded, and then exactly
/// the bytes captured.
pub proof fn lemma_session_audio_exact(r: Recorder, c: Result<Seq<u8>, CaptureError>)
    requires
        r.phase == Phase::Stopping,
    ensures
        session_audio(r, c) == (match c {
            Ok(bytes) => Some(bytes),
            Err(_) => None::<Seq<u8>>,
        }),
        captured_next(r).phase == Phase::Idle,
{
}

} // verus!
