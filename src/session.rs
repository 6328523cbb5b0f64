use vstd::prelude::*;

verus! {

/// What the recorder is doing; exactly one at any instant.
#[derive(Debug, Clone, Copy, PartialEq, Eq, Structural)]
pub enum SessionState {
    Buffering,
    Paused,
    Saving,
    Exiting,
}

/// A control signal from the tray menu or a hotkey.
#[derive(Debug, Clone, Copy, PartialEq, Eq, Structural)]
pub enum ControlEvent {
    Pause,
    Resume,
    Save,
    Quit,
}

/// A state from which a save may start, and to which it returns.
pub open spec fn is_active(s: SessionState) -> bool {
    s == SessionState::Buffering || s == SessionState::Paused
}

/// The state after `e`, given the current state and the state a save
/// returns to; every pair not named here leaves the state as it is.
pub open spec fn next_state(state: SessionState, resume_to: SessionState, e: ControlEvent) -> (
    SessionState,
    SessionState,
) {
    match e {
        ControlEvent::Quit => (SessionState::Exiting, resume_to),
        ControlEvent::Pause => if state == SessionState::Buffering {
            (SessionState::Paused, resume_to)
        } else {
            (state, resume_to)
        },
        ControlEvent::Resume => if state == SessionState::Paused {
            (SessionState::Buffering, resume_to)
        } else {
            (state, resume_to)
        },
        ControlEvent::Save => if is_active(state) {
            (SessionState::Saving, state)
        } else {
            (state, resume_to)
        },
    }
}

/// The state once a save is over: the one the save started from.
pub open spec fn state_after_save(state: SessionState, resume_to: SessionState) -> SessionState {
    if state == SessionState::Saving {
        resume_to
    } else {
        state
    }
}

/// The current state, and the state that a save in progress returns to.
pub struct Session {
    state: SessionState,
    resume_to: SessionState,
}

impl Session {
    pub closed spec fn spec_state(&self) -> SessionState {
        self.state
    }

    pub closed spec fn spec_resume_to(&self) -> SessionState {
        self.resume_to
    }

    pub open spec fn wf(&self) -> bool {
        is_active(self.spec_resume_to())
    }

    /// A session that starts out buffering.
    pub fn new() -> (r: Session)
        ensures
            r.wf(),
            r.spec_state() == SessionState::Buffering,
    {
        Session { state: SessionState::Buffering, resume_to: SessionState::Buffering }
    }

    pub fn state(&self) -> (r: SessionState)
        ensures
            r == self.spec_state(),
    {
        self.state
    }

    /// Applies one control event and returns the new state.
    pub fn apply(&mut self, e: ControlEvent) -> (r: SessionState)
        requires
            old(self).wf(),
        ensures
            final(self).wf(),
            (final(self).spec_state(), final(self).spec_resume_to()) == next_state(
                old(self).spec_state(),
                old(self).spec_resume_to(),
                e,
            ),
            r == final(self).spec_state(),
            old(self).spec_state() == SessionState::Saving && e == ControlEvent::Save ==> {
                &&& final(self).spec_state() == old(self).spec_state()
                &&& final(self).spec_resume_to() == old(self).spec_resume_to()
            },
            old(self).spec_state() == SessionState::Exiting ==> final(self).spec_state()
                == SessionState::Exiting,
    {
        match e {
            ControlEvent::Quit => {
                self.state = SessionState::Exiting;
            },
            ControlEvent::Pause => {
                if self.state == SessionState::Buffering {
                    self.state = SessionState::Paused;
                }
            },
            ControlEvent::Resume => {
                if self.state == SessionState::Paused {
                    self.state = SessionState::Buffering;
                }
            },
            ControlEvent::Save => {
                if self.state == SessionState::Buffering || self.state == SessionState::Paused {
                    self.resume_to = self.state;
                    self.state = SessionState::Saving;
                }
            },
        }
        self.state
    }

    /// Ends a save: back to the state the save started from. Outside a
    /// save, nothing changes.
    pub fn finish_save(&mut self) -> (r: SessionState)
        requires
            old(self).wf(),
        ensures
            final(self).wf(),
            final(self).spec_state() == state_after_save(
                old(self).spec_state(),
                old(self).spec_resume_to(),
            ),
            final(self).spec_resume_to() == old(self).spec_resume_to(),
            r == final(self).spec_state(),
    {
        if self.state == SessionState::Saving {
            self.state = self.resume_to;
        }
        self.state
    }
}

} // verus!
