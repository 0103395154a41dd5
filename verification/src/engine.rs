use vstd::prelude::*;

use crate::event::InputEvent;

verus! {

/// The engine's exclusive mode.  Recording and running are a single tagged
/// state, so a state that records and runs at once cannot even be written.
#[derive(Clone, Copy, Debug, PartialEq, Eq, Structural)]
pub enum Mode {
    Idle,
    Recording,
    Running,
}

/// The record/replay engine: the record buffer plus the shared control
/// surface that the capture dispatcher, the playback loop and the host's
/// front end all drive.
///
/// The host shares one `Engine` between its threads under a mutual-exclusion
/// lock; every method here is a single read-modify-write step, so each
/// transition is atomic as a unit once the host holds the lock around it.
pub struct Engine {
    pub mode: Mode,
    pub buffer: Vec<InputEvent>,
    pub infinite_loop: bool,
    pub loop_count: u32,
    pub natural_delay: bool,
    pub suspend_capture: bool,
}

impl Engine {
    /// The configuration invariant: a repetition count is always at least one.
    pub open spec fn wf(&self) -> bool {
        self.loop_count >= 1
    }

    /// The playback configuration, unchanged between two engine values.
    pub open spec fn config_unchanged(pre: &Engine, post: &Engine) -> bool {
        &&& post.infinite_loop == pre.infinite_loop
        &&& post.loop_count == pre.loop_count
        &&& post.natural_delay == pre.natural_delay
        &&& post.suspend_capture == pre.suspend_capture
    }

    /// A fresh engine: idle, empty buffer, one repetition, natural timing,
    /// capture live.
    pub fn new() -> (e: Engine)
        ensures
            e.mode is Idle,
            e.buffer@ == Seq::<InputEvent>::empty(),
            !e.infinite_loop,
            e.loop_count == 1,
            e.natural_delay,
            !e.suspend_capture,
            e.wf(),
    {
        Engine {
            mode: Mode::Idle,
            buffer: Vec::new(),
            infinite_loop: false,
            loop_count: 1,
            natural_delay: true,
            suspend_capture: false,
        }
    }

    pub fn current_mode(&self) -> (m: Mode)
        ensures
            m == self.mode,
    {
        self.mode
    }

    /// Arms recording: clears the buffer and enters `Recording`.
    ///
    /// Starting while already recording is a no-op that keeps the buffer:
    /// the engine never discards a take by re-arming.
    pub fn start_recording(&mut self) -> (started: bool)
        ensures
            old(self).mode is Recording ==> *final(self) == *old(self) && !started,
            !(old(self).mode is Recording) ==> {
                &&& final(self).mode is Recording
                &&& final(self).buffer@ == Seq::<InputEvent>::empty()
                &&& started
            },
            Engine::config_unchanged(old(self), final(self)),
            old(self).wf() ==> final(self).wf(),
    {
        if self.mode == Mode::Recording {
            false
        } else {
            self.mode = Mode::Recording;
            self.buffer.clear();
            true
        }
    }

    /// Disarms recording; the buffer keeps what was captured.
    /// A stop while not recording changes nothing.
    pub fn stop_recording(&mut self) -> (stopped: bool)
        ensures
            old(self).mode is Recording ==> final(self).mode is Idle && stopped,
            !(old(self).mode is Recording) ==> *final(self) == *old(self) && !stopped,
            final(self).buffer@ == old(self).buffer@,
            Engine::config_unchanged(old(self), final(self)),
            old(self).wf() ==> final(self).wf(),
    {
        if self.mode == Mode::Recording {
            self.mode = Mode::Idle;
            true
        } else {
            false
        }
    }

    /// Requests playback.  Only an idle engine starts running: a request
    /// while recording is rejected, so recording and running stay mutually
    /// exclusive, and a request while already running changes nothing.
    pub fn start_running(&mut self) -> (started: bool)
        ensures
            old(self).mode is Idle ==> final(self).mode is Running && started,
            !(old(self).mode is Idle) ==> *final(self) == *old(self) && !started,
            final(self).buffer@ == old(self).buffer@,
            Engine::config_unchanged(old(self), final(self)),
            old(self).wf() ==> final(self).wf(),
    {
        if self.mode == Mode::Idle {
            self.mode = Mode::Running;
            true
        } else {
            false
        }
    }

    /// Halts playback: a running engine drops back to `Idle`.  The playback
    /// loop observes the mode change at its next event boundary.
    pub fn stop_running(&mut self) -> (stopped: bool)
        ensures
            old(self).mode is Running ==> final(self).mode is Idle && stopped,
            !(old(self).mode is Running) ==> *final(self) == *old(self) && !stopped,
            final(self).buffer@ == old(self).buffer@,
            Engine::config_unchanged(old(self), final(self)),
            old(self).wf() ==> final(self).wf(),
    {
        if self.mode == Mode::Running {
            self.mode = Mode::Idle;
            true
        } else {
            false
        }
    }

    pub fn set_infinite_loop(&mut self, v: bool)
        ensures
            *final(self) == (Engine { infinite_loop: v, ..*old(self) }),
    {
        self.infinite_loop = v;
    }

    pub fn set_natural_delay(&mut self, v: bool)
        ensures
            *final(self) == (Engine { natural_delay: v, ..*old(self) }),
    {
        self.natural_delay = v;
    }

    /// Suspends or resumes capture.  While suspended the dispatcher drops
    /// every incoming event, shortcuts included; the host sets this around
    /// modal dialogs so background input cannot disturb the engine.
    pub fn set_suspend_capture(&mut self, v: bool)
        ensures
            *final(self) == (Engine { suspend_capture: v, ..*old(self) }),
    {
        self.suspend_capture = v;
    }

    /// Sets the repetition count.  A count below one is invalid: it is
    /// rejected at this boundary and the prior valid value is retained.
    pub fn set_loop_count(&mut self, n: i32) -> (accepted: bool)
        ensures
            n >= 1 ==> *final(self) == (Engine { loop_count: n as u32, ..*old(self) }) && accepted,
            n < 1 ==> *final(self) == *old(self) && !accepted,
            old(self).wf() ==> final(self).wf(),
    {
        if n >= 1 {
            self.loop_count = n as u32;
            true
        } else {
            false
        }
    }
}

} // verus!
