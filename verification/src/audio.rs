//! The capture side: the decisions of the thread that owns the microphone
//! stream. Opening and dropping the stream is done outside the library.
use vstd::prelude::*;

verus! {

/// Commands sent to the audio capture thread.
#[derive(Debug, Clone)]
pub enum CaptureCommand {
    /// Start capturing for this session.
    Start { session_id: String },
    /// Stop the capture in progress.
    Stop,
    /// Request a list of available input device names.
    ListDevices,
}

/// What the capture thread is to do after a command.
#[derive(Debug, Clone)]
#[allow(inconsistent_fields)]
pub enum CaptureAction {
    /// A start arrived while already recording: leave the running capture alone.
    IgnoreStart,
    /// Open a stream for this session, then report the outcome.
    OpenStream { session_id: String },
    /// Drop the stream (if any) of this session; the recording flag is cleared.
    CloseStream { session_id: Option<String> },
    /// Enumerate the input devices and reply.
    ListDevices,
}

/// State of the capture thread: the session whose stream is open, if any.
pub struct AudioEngine {
    active_session: Option<String>,
}

impl AudioEngine {
    /// The session being captured, if any.
    pub closed spec fn active(&self) -> Option<Seq<char>> {
        match self.active_session {
            Some(s) => Some(s@),
            None => None,
        }
    }

    /// No capture in progress.
    pub fn new() -> (e: Self)
        ensures
            e.active() is None,
    {
        AudioEngine { active_session: None }
    }

    /// Whether a stream is open.
    pub fn is_capturing(&self) -> (b: bool)
        ensures
            b == (self.active() is Some),
    {
        self.active_session.is_some()
    }

    /// Handles one command. Only one stream is ever open: a start while
    /// capturing is ignored. A stop closes the stream of the session in
    /// progress and always leaves the engine idle.
    pub fn on_command(&mut self, cmd: CaptureCommand) -> (a: CaptureAction)
        ensures
            match cmd {
                CaptureCommand::Start { session_id } => if old(self).active() is Some {
                    a is IgnoreStart && final(self).active() == old(self).active()
                } else {
                    (a matches CaptureAction::OpenStream { session_id: s } && s == session_id)
                        && final(self).active() is None
                },
                CaptureCommand::Stop => (a matches CaptureAction::CloseStream { session_id: s }
                    && match s {
                    Some(t) => old(self).active() == Some(t@),
                    None => old(self).active() is None,
                }) && final(self).active() is None,
                CaptureCommand::ListDevices => a is ListDevices && final(self).active() == old(
                    self,
                ).active(),
            },
    {
        match cmd {
            CaptureCommand::Start { session_id } => {
                if self.active_session.is_some() {
                    CaptureAction::IgnoreStart
                } else {
                    CaptureAction::OpenStream { session_id }
                }
            },
            CaptureCommand::Stop => {
                let prev = self.active_session.take();
                CaptureAction::CloseStream { session_id: prev }
            },
            CaptureCommand::ListDevices => CaptureAction::ListDevices,
        }
    }

    /// Records the outcome of opening a stream for `session_id`, and returns
    /// the value of the recording flag: set when the stream runs, cleared when
    /// it could not be opened.
    pub fn on_stream_opened(&mut self, session_id: String, ok: bool) -> (recording: bool)
        ensures
            recording == ok,
            ok ==> final(self).active() == Some(session_id@),
            !ok ==> final(self).active() == old(self).active(),
    {
        if ok {
            self.active_session = Some(session_id);
            true
        } else {
            false
        }
    }
}

} // verus!
