//! The single-writer motion-capture engine: a session records full-pose
//! frames sampled from the latest telemetry and ends in one persisted
//! artifact. Exactly one session is active at a time.

use vstd::prelude::*;
use crate::json::{capture_filename, capture_filename_spec};

verus! {

/// Playback hint recorded with every frame, in milliseconds.
pub const FRAME_DELAY_MS: u32 = 100;

/// One full-pose snapshot: every servo's raw position in chain order,
/// plus the inter-frame playback delay.
pub struct Frame {
    pub positions: Vec<u16>,
    pub delay_ms: u32,
}

/// Mathematical image of a frame.
pub struct FrameView {
    pub positions: Seq<u16>,
    pub delay_ms: u32,
}

impl View for Frame {
    type V = FrameView;

    open spec fn view(&self) -> FrameView {
        FrameView { positions: self.positions@, delay_ms: self.delay_ms }
    }
}

/// A completed capture, ready to be rendered and persisted.
pub struct CaptureArtifact {
    pub name: String,
    pub frames: Vec<Frame>,
}

/// Why a capture operation was rejected.
#[derive(Clone, Copy, Debug, PartialEq, Eq, Structural)]
pub enum CaptureError {
    /// A start was asked for while a session is recording; the existing
    /// session is untouched.
    SessionAlreadyActive,
}

/// The capture state machine: idle, or recording frames under a name.
pub struct CaptureSession {
    pub name: String,
    pub frames: Vec<Frame>,
    pub recording: bool,
}

impl CaptureSession {
    /// Fresh idle session.
    pub fn new() -> (s: CaptureSession)
        ensures
            !s.recording,
            s.frames@.len() == 0,
            s.name@.len() == 0,
    {
        CaptureSession { name: String::new(), frames: Vec::new(), recording: false }
    }

    /// Start recording under `name`: rejected while a session is active,
    /// otherwise the frame sequence is cleared, one immediate frame is
    /// sampled from the given positions (a capture always holds at least
    /// one frame), and the output file name is derived from the name and
    /// the timestamp.
    pub fn start_capture(&mut self, name: String, positions: Vec<u16>, stamp: &str) -> (r: Result<
        String,
        CaptureError,
    >)
        ensures
            old(self).recording ==> r == Err::<String, CaptureError>(
                CaptureError::SessionAlreadyActive,
            ) && *final(self) == *old(self),
            !old(self).recording ==> {
                &&& r matches Ok(f) && f@ == capture_filename_spec(name@, stamp@)
                &&& final(self).recording
                &&& final(self).name == name
                &&& final(self).frames@.len() == 1
                &&& final(self).frames@[0]@.positions == positions@
                &&& final(self).frames@[0]@.delay_ms == FRAME_DELAY_MS
            },
    {
        if self.recording {
            return Err(CaptureError::SessionAlreadyActive);
        }
        let filename = capture_filename(name.as_str(), stamp);
        self.name = name;
        self.frames = Vec::new();
        self.frames.push(Frame { positions, delay_ms: FRAME_DELAY_MS });
        self.recording = true;
        Ok(filename)
    }

    /// Start recording with a timestamp taken from the wall clock.
    pub fn start_capture_now(&mut self, name: String, positions: Vec<u16>) -> (r: Result<
        String,
        CaptureError,
    >)
        ensures
            old(self).recording ==> r == Err::<String, CaptureError>(
                CaptureError::SessionAlreadyActive,
            ) && *final(self) == *old(self),
            !old(self).recording ==> {
                &&& r is Ok
                &&& final(self).recording
                &&& final(self).name == name
                &&& final(self).frames@.len() == 1
                &&& final(self).frames@[0]@.positions == positions@
                &&& final(self).frames@[0]@.delay_ms == FRAME_DELAY_MS
            },
    {
        let stamp = now_stamp();
        self.start_capture(name, positions, stamp.as_str())
    }

    /// Append one frame sampled from the given positions. Ignored (and
    /// reported as such) when no session is recording: a user-error
    /// signal for the boundary, not a failure.
    pub fn capture_frame(&mut self, positions: Vec<u16>) -> (appended: bool)
        ensures
            appended == old(self).recording,
            !old(self).recording ==> *final(self) == *old(self),
            old(self).recording ==> {
                &&& final(self).recording
                &&& final(self).name == old(self).name
                &&& final(self).frames@.len() == old(self).frames@.len() + 1
                &&& forall|i: int|
                    0 <= i < old(self).frames@.len() ==> final(self).frames@[i] == old(
                        self,
                    ).frames@[i]
                &&& final(self).frames@.last()@.positions == positions@
                &&& final(self).frames@.last()@.delay_ms == FRAME_DELAY_MS
            },
    {
        if !self.recording {
            return false;
        }
        self.frames.push(Frame { positions, delay_ms: FRAME_DELAY_MS });
        true
    }

    /// End the session: hand out the completed artifact, clear the frame
    /// sequence and return to idle. Silently a no-op when nothing is
    /// recording.
    pub fn end_capture(&mut self) -> (r: Option<CaptureArtifact>)
        ensures
            !old(self).recording ==> r is None && *final(self) == *old(self),
            old(self).recording ==> {
                &&& r matches Some(a) && a.name == old(self).name && a.frames@ == old(
                    self,
                ).frames@
                &&& !final(self).recording
                &&& final(self).frames@.len() == 0
            },
    {
        if !self.recording {
            return None;
        }
        let mut frames: Vec<Frame> = Vec::new();
        core::mem::swap(&mut self.frames, &mut frames);
        let mut name: String = String::new();
        core::mem::swap(&mut self.name, &mut name);
        self.recording = false;
        Some(CaptureArtifact { name, frames })
    }
}

/// What one capture key press asks for, given whether a session is
/// recording and whether the press asked to end.
#[derive(Clone, Copy, Debug, PartialEq, Eq, Structural)]
pub enum CaptureCommand {
    /// No session yet and not an end request: ask the operator for a name.
    PromptForName,
    /// A session is recording and the press continues it.
    AppendFrame,
    /// A session is recording and the press ends it.
    Finish,
    /// An end request with nothing recording: nothing to do.
    Ignore,
}

/// Dispatch one capture key press.
pub fn capture_dispatch(recording: bool, end_requested: bool) -> (c: CaptureCommand)
    ensures
        c == (if !recording && !end_requested {
            CaptureCommand::PromptForName
        } else if recording && end_requested {
            CaptureCommand::Finish
        } else if recording {
            CaptureCommand::AppendFrame
        } else {
            CaptureCommand::Ignore
        }),
{
    if !recording && !end_requested {
        CaptureCommand::PromptForName
    } else if recording && end_requested {
        CaptureCommand::Finish
    } else if recording {
        CaptureCommand::AppendFrame
    } else {
        CaptureCommand::Ignore
    }
}

/// Relies on chrono's `Local::now` and `DateTime::format`: the local wall
/// clock rendered as a `YYYYMMDD-HHMMSS` timestamp. The result depends on
/// the clock, so nothing is promised of it.
#[verifier::external_body]
fn now_stamp() -> String {
    chrono::Local::now().format("%Y%m%d-%H%M%S").to_string()
}

} // verus!
