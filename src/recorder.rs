use crate::planner::{frame_bytes, plan, planned, ConfigError, FrameFormat, RetentionPolicy};
use crate::ring::{fit_to, AllocationError, RingBuffer};
use crate::save::{check_raw_len, IntegrityError};
use crate::session::{next_state, state_after_save, ControlEvent, Session, SessionState};
use vstd::prelude::*;

verus! {

/// Why a recorder could not start.
#[derive(Debug, Clone, Copy, PartialEq, Eq, Structural)]
pub enum StartError {
    Config(ConfigError),
    Allocation(AllocationError),
}

/// What the capture loop does on a tick.
#[derive(Debug, Clone, Copy, PartialEq, Eq, Structural)]
pub enum TickAction {
    /// Poll the frame source and hand any frame to the recorder.
    Capture,
    /// Write the ring out, then end the save.
    Save,
    /// Do nothing this tick.
    Idle,
    /// Leave the loop.
    Stop,
}

/// What to do once a tick's work is done.
#[derive(Debug, Clone, Copy, PartialEq, Eq, Structural)]
pub enum Pacing {
    /// Sleep this many nanoseconds, to the end of the tick.
    Sleep(u64),
    /// The tick ran over its budget by this many nanoseconds.
    Overrun(u64),
}

/// The tick action for a state: only a buffering session captures.
pub open spec fn action_for(s: SessionState) -> TickAction {
    match s {
        SessionState::Buffering => TickAction::Capture,
        SessionState::Saving => TickAction::Save,
        SessionState::Paused => TickAction::Idle,
        SessionState::Exiting => TickAction::Stop,
    }
}

/// Only a buffering session captures: while saving, paused or exiting, no
/// tick writes the ring.
pub proof fn lemma_capture_only_while_buffering(s: SessionState)
    ensures
        action_for(s) == TickAction::Capture <==> s == SessionState::Buffering,
{
}

/// The length of one tick at `frame_rate` frames a second, in nanoseconds.
pub fn tick_nanos(frame_rate: u32) -> (r: u64)
    requires
        frame_rate > 0,
    ensures
        r == 1_000_000_000u64 / (frame_rate as u64),
{
    1_000_000_000u64 / (frame_rate as u64)
}

/// Sleep for the rest of the tick, or report by how much it ran over.
pub fn pace(elapsed_nanos: u64, tick_nanos: u64) -> (r: Pacing)
    ensures
        elapsed_nanos <= tick_nanos ==> r == Pacing::Sleep((tick_nanos - elapsed_nanos) as u64),
        elapsed_nanos > tick_nanos ==> r == Pacing::Overrun((elapsed_nanos - tick_nanos) as u64),
{
    if elapsed_nanos <= tick_nanos {
        Pacing::Sleep(tick_nanos - elapsed_nanos)
    } else {
        Pacing::Overrun(elapsed_nanos - tick_nanos)
    }
}

/// A ring of frames and the session that says when it may be written, read
/// out, or left.
pub struct Recorder {
    ring: RingBuffer,
    session: Session,
    format: FrameFormat,
}

impl Recorder {
    pub closed spec fn spec_ring(&self) -> RingBuffer {
        self.ring
    }

    pub closed spec fn spec_session(&self) -> Session {
        self.session
    }

    pub closed spec fn spec_format(&self) -> FrameFormat {
        self.format
    }

    pub open spec fn spec_state(&self) -> SessionState {
        self.spec_session().spec_state()
    }

    pub open spec fn wf(&self) -> bool {
        &&& self.spec_ring().wf()
        &&& self.spec_session().wf()
        &&& self.spec_ring().spec_bytes_per_frame() == frame_bytes(self.spec_format())
    }

    /// Plans the ring for `format` and `policy`, reserves it, and starts
    /// buffering.
    pub fn new(format: FrameFormat, policy: RetentionPolicy) -> (r: Result<Recorder, StartError>)
        ensures
            match planned(format, policy) {
                Err(e) => r == Err::<Recorder, StartError>(StartError::Config(e)),
                Ok(c) => {
                    &&& c * frame_bytes(format) > usize::MAX ==> r == Err::<Recorder, StartError>(
                        StartError::Allocation(AllocationError::TooLarge),
                    )
                    &&& r matches Err(x) ==> {
                        ||| x == StartError::Allocation(AllocationError::TooLarge)
                            && c * frame_bytes(format) > usize::MAX
                        ||| x == StartError::Allocation(AllocationError::OutOfMemory)
                            && c * frame_bytes(format) <= usize::MAX
                    }
                    &&& r matches Ok(rec) ==> {
                        &&& rec.wf()
                        &&& rec.spec_format() == format
                        &&& rec.spec_ring().spec_capacity() == c
                        &&& rec.spec_ring().history() == Seq::<Seq<u8>>::empty()
                        &&& rec.spec_state() == SessionState::Buffering
                    }
                },
            },
    {
        let capacity = match plan(&format, &policy) {
            Ok(c) => c,
            Err(e) => {
                return Err(StartError::Config(e));
            },
        };
        let bytes = match format.bytes_per_frame() {
            Ok(b) => b,
            Err(e) => {
                return Err(StartError::Config(e));
            },
        };
        match RingBuffer::new(capacity, bytes) {
            Ok(ring) => Ok(Recorder { ring, session: Session::new(), format }),
            Err(e) => Err(StartError::Allocation(e)),
        }
    }

    pub fn format(&self) -> (r: FrameFormat)
        ensures
            r == self.spec_format(),
    {
        self.format
    }

    pub fn state(&self) -> (r: SessionState)
        ensures
            r == self.spec_state(),
    {
        self.session.state()
    }

    pub fn ring(&self) -> (r: &RingBuffer)
        ensures
            *r == self.spec_ring(),
    {
        &self.ring
    }

    /// Applies a control event; the ring is left as it is.
    pub fn apply(&mut self, e: ControlEvent) -> (r: SessionState)
        requires
            old(self).wf(),
        ensures
            final(self).wf(),
            (final(self).spec_state(), final(self).spec_session().spec_resume_to()) == next_state(
                old(self).spec_state(),
                old(self).spec_session().spec_resume_to(),
                e,
            ),
            r == final(self).spec_state(),
            final(self).spec_ring() == old(self).spec_ring(),
            final(self).spec_format() == old(self).spec_format(),
    {
        self.session.apply(e)
    }

    /// What the capture loop does on this tick.
    pub fn tick_action(&self) -> (r: TickAction)
        ensures
            r == action_for(self.spec_state()),
    {
        match self.session.state() {
            SessionState::Buffering => TickAction::Capture,
            SessionState::Saving => TickAction::Save,
            SessionState::Paused => TickAction::Idle,
            SessionState::Exiting => TickAction::Stop,
        }
    }

    /// Takes a polled frame: while buffering it is fitted to the frame size
    /// and written; in any other state the ring is left as it is.
    pub fn on_frame(&mut self, payload: &[u8]) -> (wrote: bool)
        requires
            old(self).wf(),
        ensures
            final(self).wf(),
            wrote == (old(self).spec_state() == SessionState::Buffering),
            wrote ==> final(self).spec_ring().history() == old(self).spec_ring().history().push(
                fit_to(payload@, old(self).spec_ring().spec_bytes_per_frame()),
            ),
            wrote ==> final(self).spec_ring().spec_capacity()
                == old(self).spec_ring().spec_capacity(),
            !wrote ==> final(self).spec_ring() == old(self).spec_ring(),
            final(self).spec_session() == old(self).spec_session(),
            final(self).spec_format() == old(self).spec_format(),
    {
        if self.session.state() == SessionState::Buffering {
            self.ring.write_fitted(payload);
            true
        } else {
            false
        }
    }

    /// The frame source is lost: a buffering session pauses.
    pub fn on_source_lost(&mut self) -> (r: SessionState)
        requires
            old(self).wf(),
        ensures
            final(self).wf(),
            (final(self).spec_state(), final(self).spec_session().spec_resume_to()) == next_state(
                old(self).spec_state(),
                old(self).spec_session().spec_resume_to(),
                ControlEvent::Pause,
            ),
            r == final(self).spec_state(),
            final(self).spec_ring() == old(self).spec_ring(),
            final(self).spec_format() == old(self).spec_format(),
    {
        self.session.apply(ControlEvent::Pause)
    }

    /// Checks the size of the raw file a save wrote: it must hold every slot.
    pub fn check_saved(&self, written: u64) -> (r: Result<(), IntegrityError>)
        requires
            self.wf(),
        ensures
            r is Ok <==> written == self.spec_ring().spec_capacity()
                * self.spec_ring().spec_bytes_per_frame(),
            r matches Err(e) ==> e.written == written && e.expected == self.spec_ring().spec_capacity()
                * self.spec_ring().spec_bytes_per_frame(),
    {
        check_raw_len(self.ring.total_bytes(), written)
    }

    /// Ends a save, whatever its outcome: back to the state it started from.
    pub fn finish_save(&mut self) -> (r: SessionState)
        requires
            old(self).wf(),
        ensures
            final(self).wf(),
            final(self).spec_state() == state_after_save(
                old(self).spec_state(),
                old(self).spec_session().spec_resume_to(),
            ),
            final(self).spec_session().spec_resume_to() == old(
                self,
            ).spec_session().spec_resume_to(),
            r == final(self).spec_state(),
            final(self).spec_ring() == old(self).spec_ring(),
            final(self).spec_format() == old(self).spec_format(),
    {
        self.session.finish_save()
    }
}

} // verus!
