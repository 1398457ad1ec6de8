//! The simulation's control state: whether it is playing, and what each
//! message from the driver asks the driver to do with the pendulum.

use vstd::prelude::*;

verus! {

/// Number of integration sub-steps that one tick is split into.
pub const TICK_SUB_STEPS: u64 = 5;

/// A message from the driver. `T` is the driver's time type; a tick carries
/// the elapsed time to integrate over.
#[derive(Debug, PartialEq)]
pub enum Msg<T> {
    TogglePause,
    Reset,
    Tick(T),
}

/// What the driver does to the pendulum after a message.
#[derive(Debug, PartialEq)]
pub enum Command<T> {
    /// Leave the pendulum as it is.
    Hold,
    /// Discard the pendulum and build a fresh one from the initial parameters.
    Restart,
    /// Advance the pendulum by `dt`, split into `sub_steps` equal sub-steps.
    Advance { dt: T, sub_steps: u64 },
}

/// Control state of a running simulation.
#[derive(Clone, Copy, Debug, PartialEq, Eq, Structural)]
pub struct Session {
    pub playing: bool,
}

/// The session of a simulation that has just been started.
pub open spec fn fresh_session() -> Session {
    Session { playing: true }
}

/// The session and command that `msg` leads to from `s`.
pub open spec fn transition<T>(s: Session, msg: Msg<T>) -> (Session, Command<T>) {
    match msg {
        Msg::TogglePause => (Session { playing: !s.playing }, Command::Hold),
        Msg::Reset => (fresh_session(), Command::Restart),
        Msg::Tick(dt) => (s, Command::Advance { dt, sub_steps: TICK_SUB_STEPS }),
    }
}

impl Session {
    /// Starts a simulation, playing.
    pub fn new() -> (r: Session)
        ensures
            r == fresh_session(),
    {
        Session { playing: true }
    }

    /// Handles one message: updates the control state and returns the command
    /// that the driver carries out on the pendulum.
    pub fn update<T>(&mut self, msg: Msg<T>) -> (c: Command<T>)
        ensures
            (*final(self), c) == transition(*old(self), msg),
    {
        match msg {
            Msg::TogglePause => {
                self.playing = !self.playing;
                Command::Hold
            },
            Msg::Reset => {
                *self = Session::new();
                Command::Restart
            },
            Msg::Tick(dt) => Command::Advance { dt, sub_steps: TICK_SUB_STEPS },
        }
    }
}

/// A reset forgets everything: whatever state a session was in, after a reset
/// it equals a freshly started one, and the pendulum is rebuilt from scratch.
pub proof fn lemma_reset_is_fresh<T>(s: Session)
    ensures
        transition(s, Msg::<T>::Reset) == (fresh_session(), Command::<T>::Restart),
{
}

} // verus!
