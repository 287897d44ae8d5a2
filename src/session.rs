use vstd::prelude::*;

use crate::content::{resolve_target, target_in, CaptureTarget, ShareableContent};
use crate::decode::{decode_frame, decoded, frame_decodable, RawFrame, RgbaRaster};
use crate::error::{ErrorKind, XCapError, XCapResult};

verus! {

/// Where a session stands on its way to one frame.
#[derive(Clone, Copy, Debug, PartialEq, Eq, Structural)]
pub enum Phase {
    /// Configured, stream not started yet.
    Idle,
    /// Stream started, no frame yet.
    Waiting,
    /// The first frame is in the slot.
    FrameReceived,
    /// The bounded wait elapsed with no frame.
    TimedOut,
    /// Starting or delivery failed with this kind.
    Failed(ErrorKind),
}

/// One native resource to release, in the order `stop` lists them.
#[derive(Clone, Copy, Debug, PartialEq, Eq, Structural)]
pub enum TeardownStep {
    /// Remove the output callback, so that no delivery reaches the session.
    UnregisterCallback,
    /// Stop the native capture stream.
    StopStream,
}

/// What the code that drives a session does next.
#[derive(Clone, Copy, Debug, PartialEq, Eq, Structural)]
pub enum NextAction {
    /// Start the native stream and report how that went.
    StartStream,
    /// Block for a frame, a stream error or the end of the bounded wait.
    AwaitFrame,
    /// Release the native resources that `stop` lists.
    TearDown,
    /// Everything is released: take the result.
    Finish,
}

/// One single-frame capture of one target. The slot holds at most one frame:
/// the first that the session's own stream delivers.
#[derive(Debug)]
pub struct CaptureSession {
    pub stream_id: u64,
    pub target: CaptureTarget,
    pub width: u32,
    pub height: u32,
    pub phase: Phase,
    pub callback_registered: bool,
    pub stream_running: bool,
    pub stopped: bool,
    pub slot: Option<RawFrame>,
}

impl CaptureSession {
    /// The slot is full exactly when a frame was received; a session that was
    /// never started holds nothing live, and a stopped one holds nothing live.
    pub open spec fn wf(&self) -> bool {
        &&& (self.phase == Phase::FrameReceived) == (self.slot is Some)
        &&& self.phase == Phase::Idle ==> !self.callback_registered && !self.stream_running
        &&& self.stopped ==> !self.callback_registered && !self.stream_running
    }
}

/// A session as `open` makes it.
pub open spec fn fresh_session(stream_id: u64, target: CaptureTarget, width: u32, height: u32) -> CaptureSession {
    CaptureSession {
        stream_id,
        target,
        width,
        height,
        phase: Phase::Idle,
        callback_registered: false,
        stream_running: false,
        stopped: false,
        slot: None,
    }
}

/// The session takes a frame delivered on `stream`: it is its own stream, the
/// callback is still registered, and no frame came before.
pub open spec fn accepts_frame(s: CaptureSession, stream: u64) -> bool {
    &&& s.phase == Phase::Waiting
    &&& s.callback_registered
    &&& s.stream_id == stream
}

pub open spec fn after_start(s: CaptureSession, started: bool) -> CaptureSession {
    if s.phase == Phase::Idle && !s.stopped {
        if started {
            CaptureSession {
                phase: Phase::Waiting,
                callback_registered: true,
                stream_running: true,
                ..s
            }
        } else {
            CaptureSession { phase: Phase::Failed(ErrorKind::StartFailed), ..s }
        }
    } else {
        s
    }
}

pub open spec fn after_frame(s: CaptureSession, stream: u64, f: RawFrame) -> CaptureSession {
    if accepts_frame(s, stream) {
        CaptureSession { phase: Phase::FrameReceived, slot: Some(f), ..s }
    } else {
        s
    }
}

pub open spec fn after_wait_elapsed(s: CaptureSession) -> CaptureSession {
    if s.phase == Phase::Waiting {
        CaptureSession { phase: Phase::TimedOut, ..s }
    } else {
        s
    }
}

pub open spec fn after_stream_error(s: CaptureSession) -> CaptureSession {
    if s.phase == Phase::Waiting {
        CaptureSession { phase: Phase::Failed(ErrorKind::DeliveryError), ..s }
    } else {
        s
    }
}

/// What `stop` releases: the callback first, then the stream, each only if live.
pub open spec fn teardown_steps(s: CaptureSession) -> Seq<TeardownStep> {
    (if s.callback_registered {
        seq![TeardownStep::UnregisterCallback]
    } else {
        Seq::empty()
    }) + (if s.stream_running {
        seq![TeardownStep::StopStream]
    } else {
        Seq::empty()
    })
}

pub open spec fn after_stop(s: CaptureSession) -> CaptureSession {
    CaptureSession { callback_registered: false, stream_running: false, stopped: true, ..s }
}

/// The error that `finish` reports, or `None` where it returns the image.
pub open spec fn failure(s: CaptureSession) -> Option<ErrorKind> {
    match s.phase {
        Phase::FrameReceived => match s.slot {
            Some(f) => if f.width == s.width && f.height == s.height && frame_decodable(f) {
                None
            } else {
                Some(ErrorKind::DecodeFailed)
            },
            None => Some(ErrorKind::DecodeFailed),
        },
        Phase::TimedOut => Some(ErrorKind::CaptureTimedOut),
        Phase::Failed(k) => Some(k),
        _ => Some(ErrorKind::Other),
    }
}

pub open spec fn action_of(s: CaptureSession) -> NextAction {
    if s.stopped {
        NextAction::Finish
    } else if s.phase == Phase::Idle {
        NextAction::StartStream
    } else if s.phase == Phase::Waiting {
        NextAction::AwaitFrame
    } else {
        NextAction::TearDown
    }
}

impl CaptureSession {
    /// Configures a capture of `target` at `width` x `height` pixels against
    /// the current snapshot. Zero dimensions give `StartFailed` and no session;
    /// a target absent from the snapshot gives `TargetNotFound`.
    pub fn open(
        stream_id: u64,
        snapshot: &ShareableContent,
        target: CaptureTarget,
        width: u32,
        height: u32,
    ) -> (r: XCapResult<CaptureSession>)
        ensures
            match r {
                Ok(s) => {
                    &&& width > 0 && height > 0
                    &&& target_in(*snapshot, target)
                    &&& s == fresh_session(stream_id, target, width, height)
                    &&& s.wf()
                },
                Err(e) => if width == 0 || height == 0 {
                    e.kind == ErrorKind::StartFailed
                } else {
                    !target_in(*snapshot, target) && e.kind == ErrorKind::TargetNotFound
                },
            },
    {
        if width == 0 || height == 0 {
            return Err(
                XCapError::with_kind(ErrorKind::StartFailed, "capture width and height must be positive"),
            );
        }
        match resolve_target(snapshot, target) {
            Ok(()) => {},
            Err(e) => {
                return Err(e);
            },
        }
        Ok(
            CaptureSession {
                stream_id,
                target,
                width,
                height,
                phase: Phase::Idle,
                callback_registered: false,
                stream_running: false,
                stopped: false,
                slot: None,
            },
        )
    }

    /// What the driver does next.
    pub fn next_action(&self) -> (r: NextAction)
        ensures
            r == action_of(*self),
    {
        if self.stopped {
            NextAction::Finish
        } else {
            match self.phase {
                Phase::Idle => NextAction::StartStream,
                Phase::Waiting => NextAction::AwaitFrame,
                _ => NextAction::TearDown,
            }
        }
    }

    /// Records whether the platform accepted the stream; a rejection is
    /// `StartFailed`.
    pub fn on_start_result(&mut self, started: bool)
        requires
            old(self).wf(),
        ensures
            final(self).wf(),
            *final(self) == after_start(*old(self), started),
    {
        if self.phase == Phase::Idle && !self.stopped {
            if started {
                self.phase = Phase::Waiting;
                self.callback_registered = true;
                self.stream_running = true;
            } else {
                self.phase = Phase::Failed(ErrorKind::StartFailed);
            }
        }
    }

    /// Called for every delivery on `stream`. Only the first frame of the
    /// session's own stream is kept; every other delivery changes nothing.
    pub fn on_frame(&mut self, stream: u64, frame: RawFrame) -> (accepted: bool)
        requires
            old(self).wf(),
        ensures
            final(self).wf(),
            accepted == accepts_frame(*old(self), stream),
            *final(self) == after_frame(*old(self), stream, frame),
    {
        if self.phase == Phase::Waiting && self.callback_registered && self.stream_id == stream {
            self.phase = Phase::FrameReceived;
            self.slot = Some(frame);
            true
        } else {
            false
        }
    }

    /// The bounded wait elapsed: a session still waiting times out.
    pub fn on_wait_elapsed(&mut self)
        requires
            old(self).wf(),
        ensures
            final(self).wf(),
            *final(self) == after_wait_elapsed(*old(self)),
    {
        if self.phase == Phase::Waiting {
            self.phase = Phase::TimedOut;
        }
    }

    /// The platform reported a stream failure: a session still waiting fails
    /// with `DeliveryError`.
    pub fn on_stream_error(&mut self)
        requires
            old(self).wf(),
        ensures
            final(self).wf(),
            *final(self) == after_stream_error(*old(self)),
    {
        if self.phase == Phase::Waiting {
            self.phase = Phase::Failed(ErrorKind::DeliveryError);
        }
    }

    /// Marks the session stopped and lists what to release, callback before
    /// stream. Once stopped, a further call lists nothing.
    pub fn stop(&mut self) -> (steps: Vec<TeardownStep>)
        requires
            old(self).wf(),
        ensures
            final(self).wf(),
            *final(self) == after_stop(*old(self)),
            steps@ == teardown_steps(*old(self)),
    {
        let mut steps: Vec<TeardownStep> = Vec::new();
        if self.callback_registered {
            steps.push(TeardownStep::UnregisterCallback);
            self.callback_registered = false;
        }
        if self.stream_running {
            steps.push(TeardownStep::StopStream);
            self.stream_running = false;
        }
        self.stopped = true;
        assert(steps@ =~= teardown_steps(*old(self)));
        steps
    }

    /// The result of a stopped session: the decoded frame, or the error that
    /// ended it. A frame whose size differs from the one configured, or which
    /// cannot be normalised, is `DecodeFailed`.
    pub fn finish(self) -> (r: XCapResult<RgbaRaster>)
        requires
            self.wf(),
            self.stopped,
        ensures
            match r {
                Ok(img) => {
                    &&& failure(self) is None
                    &&& self.slot matches Some(f) && img.pixels@ == decoded(f)
                    &&& img.width == self.width
                    &&& img.height == self.height
                    &&& img.pixels@.len() == self.width * self.height * 4
                },
                Err(e) => failure(self) == Some(e.kind),
            },
    {
        match self.phase {
            Phase::FrameReceived => match self.slot {
                Some(f) => {
                    if f.width != self.width || f.height != self.height {
                        return Err(
                            XCapError::with_kind(
                                ErrorKind::DecodeFailed,
                                "frame size differs from the configured size",
                            ),
                        );
                    }
                    decode_frame(&f)
                },
                None => Err(XCapError::with_kind(ErrorKind::DecodeFailed, "no frame in the slot")),
            },
            Phase::TimedOut => Err(
                XCapError::with_kind(ErrorKind::CaptureTimedOut, "no frame arrived in time"),
            ),
            Phase::Failed(k) => Err(XCapError::with_kind(k, "capture failed")),
            _ => Err(
                XCapError::with_kind(ErrorKind::Other, "capture stopped before a frame arrived"),
            ),
        }
    }
}

/// A session whose bounded wait elapses with no frame reports
/// `CaptureTimedOut`; once it is stopped it holds no live callback or stream,
/// and a late delivery on any stream leaves it as it is.
pub proof fn lemma_timed_out_session_ignores_late_frames(s: CaptureSession, stream: u64, late: RawFrame)
    requires
        s.wf(),
        s.phase == Phase::Waiting,
    ensures
        after_stop(after_wait_elapsed(s)).wf(),
        failure(after_stop(after_wait_elapsed(s))) == Some(ErrorKind::CaptureTimedOut),
        !after_stop(after_wait_elapsed(s)).callback_registered,
        !after_stop(after_wait_elapsed(s)).stream_running,
        after_frame(after_stop(after_wait_elapsed(s)), stream, late) == after_stop(
            after_wait_elapsed(s),
        ),
        after_stop(after_wait_elapsed(s)).slot is None,
{
}

/// Stopping twice is stopping once: the second call changes nothing and
/// lists nothing to release, and the first releases each resource at most once.
pub proof fn lemma_stop_is_idempotent(s: CaptureSession)
    requires
        s.wf(),
    ensures
        after_stop(after_stop(s)) == after_stop(s),
        teardown_steps(after_stop(s)) == Seq::<TeardownStep>::empty(),
        teardown_steps(s).no_duplicates(),
        failure(after_stop(s)) == failure(s),
{
    assert(teardown_steps(after_stop(s)) =~= Seq::<TeardownStep>::empty());
    let t = teardown_steps(s);
    if s.callback_registered && s.stream_running {
        assert(t =~= seq![TeardownStep::UnregisterCallback, TeardownStep::StopStream]);
    } else if s.callback_registered {
        assert(t =~= seq![TeardownStep::UnregisterCallback]);
    } else if s.stream_running {
        assert(t =~= seq![TeardownStep::StopStream]);
    } else {
        assert(t =~= Seq::<TeardownStep>::empty());
    }
}

/// Two sessions on different streams share nothing: a frame delivered for
/// one never reaches the other, and each keeps the frame of its own stream.
pub proof fn lemma_sessions_keep_their_own_frames(
    a: CaptureSession,
    b: CaptureSession,
    fa: RawFrame,
    fb: RawFrame,
)
    requires
        a.wf(),
        b.wf(),
        a.stream_id != b.stream_id,
        a.phase == Phase::Waiting && a.callback_registered,
        b.phase == Phase::Waiting && b.callback_registered,
    ensures
        after_frame(b, a.stream_id, fa) == b,
        after_frame(a, b.stream_id, fb) == a,
        after_frame(after_frame(a, b.stream_id, fb), a.stream_id, fa).slot == Some(fa),
        after_frame(after_frame(b, a.stream_id, fa), b.stream_id, fb).slot == Some(fb),
{
}

/// Only the first frame counts: once a frame was accepted, every later
/// delivery leaves the session unchanged.
pub proof fn lemma_first_frame_wins(s: CaptureSession, stream: u64, first: RawFrame, later: RawFrame)
    requires
        s.wf(),
        accepts_frame(s, stream),
    ensures
        after_frame(s, stream, first).slot == Some(first),
        forall|any: u64|
            after_frame(after_frame(s, stream, first), any, later) == after_frame(s, stream, first),
{
}

} // verus!
