use vstd::prelude::*;

use crate::engine::{Engine, Mode};
use crate::event::{timestamps_monotone, Action, InputEvent, Key};

verus! {

// The capture dispatcher.  It consumes the raw event stream one event at a
// time, in arrival order, and turns a fixed three-shortcut protocol into
// mode transitions; every other event is recorded while the engine is
// recording and dropped otherwise.  The rules are evaluated first match
// wins, and a matched shortcut is terminal for its event: shortcuts are
// never themselves recorded.

/// The key release that arms recording.
pub open spec fn is_start_shortcut(e: InputEvent) -> bool {
    e.action == Action::KeyRelease(Key::Comma)
}

/// The key release that disarms recording.
pub open spec fn is_stop_shortcut(e: InputEvent) -> bool {
    e.action == Action::KeyRelease(Key::Dot)
}

/// The key release that toggles running.
pub open spec fn is_run_shortcut(e: InputEvent) -> bool {
    e.action == Action::KeyRelease(Key::Slash)
}

/// Any of the three mode-control shortcuts.
pub open spec fn is_shortcut(e: InputEvent) -> bool {
    is_start_shortcut(e) || is_stop_shortcut(e) || is_run_shortcut(e)
}

/// What the dispatcher did with one event.  The host logs a notification
/// for each mode transition; the dispatcher itself never blocks on that.
#[derive(Clone, Copy, Debug, PartialEq, Eq, Structural)]
pub enum DispatchOutcome {
    /// Capture is suspended: the event was discarded without interpretation.
    Suspended,
    /// The start shortcut armed recording and cleared the buffer.
    StartedRecording,
    /// The stop shortcut disarmed recording.
    StoppedRecording,
    /// The run shortcut started playback.
    StartedRunning,
    /// The run shortcut halted playback.
    StoppedRunning,
    /// A non-shortcut event was appended to the record buffer.
    Recorded,
    /// Nothing applied: the event was dropped.
    Ignored,
}

/// The part of the engine that capture touches: the mode, the suspend flag
/// and the contents of the record buffer.
pub struct CaptureState {
    pub mode: Mode,
    pub suspend: bool,
    pub buffer: Seq<InputEvent>,
}

impl Engine {
    /// The dispatcher's view of this engine.
    pub open spec fn capture_state(&self) -> CaptureState {
        CaptureState { mode: self.mode, suspend: self.suspend_capture, buffer: self.buffer@ }
    }
}

/// One dispatcher step: the state after an event is taken in.
pub open spec fn spec_dispatch(s: CaptureState, e: InputEvent) -> CaptureState {
    if s.suspend {
        s
    } else if is_start_shortcut(e) {
        if !(s.mode is Recording) {
            CaptureState { mode: Mode::Recording, buffer: Seq::empty(), ..s }
        } else {
            s
        }
    } else if is_stop_shortcut(e) {
        if s.mode is Recording {
            CaptureState { mode: Mode::Idle, ..s }
        } else {
            s
        }
    } else if is_run_shortcut(e) {
        if s.mode is Idle {
            CaptureState { mode: Mode::Running, ..s }
        } else if s.mode is Running {
            CaptureState { mode: Mode::Idle, ..s }
        } else {
            s
        }
    } else if s.mode is Recording {
        CaptureState { buffer: s.buffer.push(e), ..s }
    } else {
        s
    }
}

/// The outcome that one dispatcher step reports.
pub open spec fn spec_dispatch_outcome(s: CaptureState, e: InputEvent) -> DispatchOutcome {
    if s.suspend {
        DispatchOutcome::Suspended
    } else if is_start_shortcut(e) {
        if !(s.mode is Recording) {
            DispatchOutcome::StartedRecording
        } else {
            DispatchOutcome::Ignored
        }
    } else if is_stop_shortcut(e) {
        if s.mode is Recording {
            DispatchOutcome::StoppedRecording
        } else {
            DispatchOutcome::Ignored
        }
    } else if is_run_shortcut(e) {
        if s.mode is Idle {
            DispatchOutcome::StartedRunning
        } else if s.mode is Running {
            DispatchOutcome::StoppedRunning
        } else {
            DispatchOutcome::Ignored
        }
    } else if s.mode is Recording {
        DispatchOutcome::Recorded
    } else {
        DispatchOutcome::Ignored
    }
}

/// Dispatches one captured event against the engine, exactly as the
/// shortcut protocol prescribes.  The playback configuration is never
/// touched by capture.
pub fn dispatch(engine: &mut Engine, e: InputEvent) -> (outcome: DispatchOutcome)
    ensures
        final(engine).capture_state() == spec_dispatch(old(engine).capture_state(), e),
        outcome == spec_dispatch_outcome(old(engine).capture_state(), e),
        Engine::config_unchanged(old(engine), final(engine)),
        old(engine).wf() ==> final(engine).wf(),
{
    if engine.suspend_capture {
        return DispatchOutcome::Suspended;
    }
    if e.action == Action::KeyRelease(Key::Comma) {
        if engine.mode != Mode::Recording {
            engine.mode = Mode::Recording;
            engine.buffer.clear();
            return DispatchOutcome::StartedRecording;
        }
        return DispatchOutcome::Ignored;
    }
    if e.action == Action::KeyRelease(Key::Dot) {
        if engine.mode == Mode::Recording {
            engine.mode = Mode::Idle;
            return DispatchOutcome::StoppedRecording;
        }
        return DispatchOutcome::Ignored;
    }
    if e.action == Action::KeyRelease(Key::Slash) {
        if engine.mode == Mode::Idle {
            engine.mode = Mode::Running;
            return DispatchOutcome::StartedRunning;
        }
        if engine.mode == Mode::Running {
            engine.mode = Mode::Idle;
            return DispatchOutcome::StoppedRunning;
        }
        return DispatchOutcome::Ignored;
    }
    if engine.mode == Mode::Recording {
        engine.buffer.push(e);
        return DispatchOutcome::Recorded;
    }
    DispatchOutcome::Ignored
}

/// A whole stream dispatched in arrival order.
pub open spec fn spec_dispatch_stream(s: CaptureState, events: Seq<InputEvent>) -> CaptureState
    decreases events.len(),
{
    if events.len() == 0 {
        s
    } else {
        spec_dispatch_stream(spec_dispatch(s, events[0]), events.drop_first())
    }
}

/// No element of a buffer is a mode-control shortcut.
pub open spec fn no_shortcuts(buf: Seq<InputEvent>) -> bool {
    forall|i: int| 0 <= i < buf.len() ==> !is_shortcut(#[trigger] buf[i])
}

/// Idempotent start: the start shortcut while already recording changes
/// nothing — in particular it does not clear the buffer, and it is not
/// itself recorded.
pub proof fn lemma_idempotent_start(s: CaptureState, e: InputEvent)
    requires
        s.mode is Recording,
        is_start_shortcut(e),
        !s.suspend,
    ensures
        spec_dispatch(s, e) == s,
{
}

/// Mutual exclusion of modes: the mode is one tagged value, so no state
/// both records and runs, before or after any step; and the transition
/// that would have to combine them is rejected — the run shortcut leaves
/// a recording engine recording.
pub proof fn lemma_modes_exclusive(s: CaptureState, e: InputEvent)
    ensures
        !(s.mode is Recording && s.mode is Running),
        s.mode is Recording && !s.suspend && is_run_shortcut(e) ==> spec_dispatch(s, e).mode
            is Recording,
        !(spec_dispatch(s, e).mode is Recording && spec_dispatch(s, e).mode is Running),
{
}

/// One step never puts a shortcut into the buffer.
pub proof fn lemma_no_shortcut_recorded_step(s: CaptureState, e: InputEvent)
    requires
        no_shortcuts(s.buffer),
    ensures
        no_shortcuts(spec_dispatch(s, e).buffer),
{
    let post = spec_dispatch(s, e);
    if post.buffer =~= s.buffer.push(e) {
        assert(!is_shortcut(e));
        assert forall|i: int| 0 <= i < post.buffer.len() implies !is_shortcut(
            #[trigger] post.buffer[i],
        ) by {
            if i < s.buffer.len() {
                assert(post.buffer[i] == s.buffer[i]);
            }
        }
    }
}

/// Shortcut events are never recorded: for every captured stream, starting
/// from a buffer free of shortcuts, the buffer stays free of them.
pub proof fn lemma_no_shortcut_recorded(s: CaptureState, events: Seq<InputEvent>)
    requires
        no_shortcuts(s.buffer),
    ensures
        no_shortcuts(spec_dispatch_stream(s, events).buffer),
    decreases events.len(),
{
    if events.len() > 0 {
        lemma_no_shortcut_recorded_step(s, events[0]);
        lemma_no_shortcut_recorded(spec_dispatch(s, events[0]), events.drop_first());
    }
}

/// One step keeps capture order, assuming the buffer and the stream are
/// jointly in capture order.
proof fn lemma_capture_order_step(s: CaptureState, e: InputEvent, rest: Seq<InputEvent>)
    requires
        timestamps_monotone(s.buffer + seq![e] + rest),
    ensures
        timestamps_monotone(spec_dispatch(s, e).buffer + rest),
{
    let whole = s.buffer + seq![e] + rest;
    let post = spec_dispatch(s, e);
    if post.buffer =~= s.buffer.push(e) {
        assert forall|i: int, j: int|
            0 <= i <= j < (post.buffer + rest).len() implies (post.buffer + rest)[i].timestamp <= (
        post.buffer + rest)[j].timestamp by {
            assert((post.buffer + rest)[i] == whole[i]);
            assert((post.buffer + rest)[j] == whole[j]);
        }
    } else if post.buffer =~= s.buffer {
        assert forall|i: int, j: int|
            0 <= i <= j < (post.buffer + rest).len() implies (post.buffer + rest)[i].timestamp <= (
        post.buffer + rest)[j].timestamp by {
            let bl = s.buffer.len() as int;
            let i0: int = if i < bl {
                i
            } else {
                i + 1
            };
            let j0: int = if j < bl {
                j
            } else {
                j + 1
            };
            assert((post.buffer + rest)[i] == whole[i0]);
            assert((post.buffer + rest)[j] == whole[j0]);
        }
    } else {
        assert(post.buffer =~= Seq::<InputEvent>::empty());
        assert forall|i: int, j: int|
            0 <= i <= j < (post.buffer + rest).len() implies (post.buffer + rest)[i].timestamp <= (
        post.buffer + rest)[j].timestamp by {
            let bl = (s.buffer.len() + 1) as int;
            assert((post.buffer + rest)[i] == whole[i + bl]);
            assert((post.buffer + rest)[j] == whole[j + bl]);
        }
    }
}

/// The record buffer invariant: when buffer and incoming stream are
/// jointly in capture order — as they are when events arrive from a single
/// source in arrival order — the buffer's timestamps stay non-decreasing,
/// across appends, clears and mode changes alike.
pub proof fn lemma_capture_order_kept(s: CaptureState, events: Seq<InputEvent>)
    requires
        timestamps_monotone(s.buffer + events),
    ensures
        timestamps_monotone(spec_dispatch_stream(s, events).buffer),
    decreases events.len(),
{
    if events.len() == 0 {
        assert(spec_dispatch_stream(s, events).buffer + Seq::<InputEvent>::empty() =~= s.buffer);
        assert(s.buffer + events =~= s.buffer);
    } else {
        let e = events[0];
        let rest = events.drop_first();
        assert(s.buffer + seq![e] + rest =~= s.buffer + events);
        lemma_capture_order_step(s, e, rest);
        lemma_capture_order_kept(spec_dispatch(s, e), rest);
    }
}

} // verus!
