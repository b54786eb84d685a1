use vstd::prelude::*;

verus! {

/// Whether a drawing session is wanted. `Stop` is the idle state.
#[derive(Clone, Copy, Debug, PartialEq, Eq, Structural)]
pub enum State {
    Drawing,
    Stop,
}

/// The process-wide drawing state together with the flag that stays set until
/// the replay worker has fully wound down.
#[derive(Clone, Copy, Debug, PartialEq, Eq, Structural)]
pub struct DrawControl {
    pub state: State,
    pub active: bool,
}

/// A start succeeds only from the idle state with no worker still running; it
/// then claims both at once.
pub open spec fn start_spec(c: DrawControl) -> (DrawControl, bool) {
    if c.state == State::Stop && !c.active {
        (DrawControl { state: State::Drawing, active: true }, true)
    } else {
        (c, false)
    }
}

/// A stop request only flips the state; the worker clears `active` itself.
pub open spec fn stop_spec(c: DrawControl) -> DrawControl {
    DrawControl { state: State::Stop, active: c.active }
}

/// What the worker leaves behind when it exits, by completion or by abort.
pub open spec fn finish_spec(c: DrawControl) -> DrawControl {
    DrawControl { state: State::Stop, active: false }
}

impl DrawControl {
    pub open spec fn idle() -> DrawControl {
        DrawControl { state: State::Stop, active: false }
    }

    /// Idle, with no worker.
    pub fn new() -> (r: DrawControl)
        ensures
            r.state == State::Stop,
            !r.active,
    {
        DrawControl { state: State::Stop, active: false }
    }

    /// Asks to start a session; returns whether this call claimed it.
    pub fn try_start(&mut self) -> (r: bool)
        ensures
            (*final(self), r) == start_spec(*old(self)),
    {
        if self.state == State::Stop && !self.active {
            self.state = State::Drawing;
            self.active = true;
            true
        } else {
            false
        }
    }

    /// Requests that the running session stop at its next check.
    pub fn request_stop(&mut self)
        ensures
            *final(self) == stop_spec(*old(self)),
    {
        self.state = State::Stop;
    }

    /// Records that the worker has exited.
    pub fn finish(&mut self)
        ensures
            *final(self) == finish_spec(*old(self)),
    {
        self.state = State::Stop;
        self.active = false;
    }

    /// Whether the running session should stop.
    pub fn should_stop(&self) -> (r: bool)
        ensures
            r == (self.state == State::Stop),
    {
        self.state == State::Stop
    }
}

/// Two start requests in a row, with no exit of a worker between them, claim
/// at most one session, also where a stop request comes between them: the
/// second start is refused until the first worker has finished.
pub proof fn lemma_one_session(c: DrawControl, stop_between: bool)
    ensures
        ({
            let (c1, first) = start_spec(c);
            let mid = if stop_between { stop_spec(c1) } else { c1 };
            let (c2, second) = start_spec(mid);
            !(first && second)
        }),
{
}

/// Once the worker has finished, a new session can be started.
pub proof fn lemma_restart_after_finish(c: DrawControl)
    ensures
        start_spec(finish_spec(c)).1,
{
}

} // verus!
