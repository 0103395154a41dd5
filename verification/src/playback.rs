use vstd::prelude::*;

use crate::engine::{Engine, Mode};
use crate::event::InputEvent;

verus! {

// The playback loop's decisions.  The host owns the clock, the sleeps and
// the injection of events; everything it must decide — which event comes
// next, how long to wait before it, when a pass ends, when playback is
// done, and when a halt takes effect — is computed and verified here.

/// The flat inter-event delay, in microseconds, used when natural timing
/// is switched off.
pub const FIXED_DELAY_MICROS: u64 = 50;

/// The sleep, in microseconds, before an event is injected.
///
/// With natural timing, the sleep closes the gap between the event's
/// recorded offset from the first event (`event_ts - anchor`) and the time
/// already elapsed since the pass started: each sleep aims at the fixed
/// anchor rather than the previous event, so scheduler jitter cannot
/// accumulate across a pass.  Without it, the delay is a flat
/// `FIXED_DELAY_MICROS` whatever the recorded gaps were.
pub open spec fn spec_delay(natural: bool, anchor: u64, event_ts: u64, elapsed: u64) -> u64 {
    if !natural {
        FIXED_DELAY_MICROS
    } else if event_ts > anchor && event_ts - anchor > elapsed {
        ((event_ts - anchor) - elapsed) as u64
    } else {
        0
    }
}

/// Computes the sleep before an event, as `spec_delay` states it.
pub fn delay_before(natural: bool, anchor: u64, event_ts: u64, elapsed: u64) -> (d: u64)
    ensures
        d == spec_delay(natural, anchor, event_ts, elapsed),
{
    if !natural {
        FIXED_DELAY_MICROS
    } else if event_ts > anchor && event_ts - anchor > elapsed {
        (event_ts - anchor) - elapsed
    } else {
        0
    }
}

/// Timing fidelity: with natural timing, the moment an event is injected —
/// the time already elapsed plus the planned sleep — is never earlier than
/// the event's recorded offset from the first event of the pass.
pub proof fn lemma_timing_fidelity(anchor: u64, event_ts: u64, elapsed: u64)
    requires
        anchor <= event_ts,
    ensures
        elapsed + spec_delay(true, anchor, event_ts, elapsed) >= event_ts - anchor,
{
}

/// Fast mode bound: without natural timing the planned delay is the fixed
/// constant, regardless of the recorded gaps.
pub proof fn lemma_fast_mode_bound(anchor: u64, event_ts: u64, elapsed: u64)
    ensures
        spec_delay(false, anchor, event_ts, elapsed) == FIXED_DELAY_MICROS,
{
}

/// What the playback loop must do next.
#[derive(Clone, Copy, Debug, PartialEq, Eq, Structural)]
pub enum Step {
    /// Sleep the planned delay, then inject this event.
    Inject(InputEvent),
    /// A full pass over the snapshot is complete: inject the stop-recording
    /// shortcut as a release action, so a dangling armed listener outside
    /// this process is released, then reset the pass clock.
    PassEnd,
    /// The halt signal was observed: stop without injecting anything more.
    Halted,
}

/// The playback state as the proofs see it.
pub struct SessionView {
    pub events: Seq<InputEvent>,
    pub idx: int,
    pub passes_done: int,
    pub infinite: bool,
    pub loop_count: int,
    pub natural: bool,
    pub finished: bool,
}

impl SessionView {
    pub open spec fn wf(self) -> bool {
        &&& 0 <= self.idx <= self.events.len()
        &&& self.loop_count >= 1
        &&& !self.infinite ==> 0 <= self.passes_done <= self.loop_count
        &&& !self.infinite && !self.finished ==> self.passes_done < self.loop_count
        &&& self.infinite ==> self.passes_done == 0
    }
}

/// One playback decision: given whether the engine is still in `Running`
/// mode, the next step and the state after it.
///
/// A halt is observed only between events, so at most the event already
/// handed out by the previous step is injected after the halt signal is
/// raised.  A finished pass counts toward the repetition total unless the
/// loop is infinite, in which case passes repeat until a halt.
pub open spec fn spec_step(v: SessionView, running: bool) -> (SessionView, Step) {
    if !running {
        (SessionView { finished: true, ..v }, Step::Halted)
    } else if v.idx < v.events.len() {
        (SessionView { idx: v.idx + 1, ..v }, Step::Inject(v.events[v.idx]))
    } else if v.infinite {
        (SessionView { idx: 0, ..v }, Step::PassEnd)
    } else {
        (
            SessionView {
                idx: 0,
                passes_done: v.passes_done + 1,
                finished: v.passes_done + 1 == v.loop_count,
                ..v
            },
            Step::PassEnd,
        )
    }
}

/// A playback session: a snapshot of the record buffer at invocation time,
/// with the playback configuration frozen alongside it, and the loop's
/// position within it.  Later changes to the live buffer do not affect a
/// session in progress.
pub struct PlaybackSession {
    pub events: Vec<InputEvent>,
    pub idx: usize,
    pub passes_done: u32,
    pub infinite: bool,
    pub loop_count: u32,
    pub natural: bool,
    pub finished: bool,
}

impl View for PlaybackSession {
    type V = SessionView;

    open spec fn view(&self) -> SessionView {
        SessionView {
            events: self.events@,
            idx: self.idx as int,
            passes_done: self.passes_done as int,
            infinite: self.infinite,
            loop_count: self.loop_count as int,
            natural: self.natural,
            finished: self.finished,
        }
    }
}

impl PlaybackSession {
    /// Takes the next playback decision, exactly as `spec_step` states it.
    pub fn next_step(&mut self, running: bool) -> (step: Step)
        requires
            old(self)@.wf(),
            !old(self)@.finished,
        ensures
            (final(self)@, step) == spec_step(old(self)@, running),
            final(self)@.wf(),
    {
        if !running {
            self.finished = true;
            Step::Halted
        } else if self.idx < self.events.len() {
            let e = self.events[self.idx];
            self.idx = self.idx + 1;
            Step::Inject(e)
        } else if self.infinite {
            self.idx = 0;
            Step::PassEnd
        } else {
            self.idx = 0;
            self.passes_done = self.passes_done + 1;
            self.finished = self.passes_done == self.loop_count;
            Step::PassEnd
        }
    }

    pub fn is_finished(&self) -> (r: bool)
        ensures
            r == self@.finished,
    {
        self.finished
    }

    /// The capture timestamp of the first event of the snapshot: the anchor
    /// that every natural-timing sleep in a pass is computed against.
    pub fn anchor_timestamp(&self) -> (t: u64)
        requires
            self@.events.len() > 0,
        ensures
            t == self@.events[0].timestamp,
    {
        self.events[0].timestamp
    }
}

impl Engine {
    /// Begins playback of a snapshot of the record buffer.
    ///
    /// An empty buffer means there is nothing to run: no session is
    /// produced, no event will be injected, and the engine immediately
    /// returns to `Idle`; the host logs the notification.  Otherwise the
    /// engine stays `Running` and the returned session replays the
    /// snapshot under the configuration frozen at this moment.
    pub fn begin_playback(&mut self) -> (s: Option<PlaybackSession>)
        requires
            old(self).mode is Running,
            old(self).wf(),
        ensures
            old(self).buffer@.len() == 0 ==> s is None && *final(self) == (Engine {
                mode: Mode::Idle,
                ..*old(self)
            }),
            old(self).buffer@.len() > 0 ==> *final(self) == *old(self) && (s matches Some(ss)
                && ss@ == (SessionView {
                events: old(self).buffer@,
                idx: 0,
                passes_done: 0,
                infinite: old(self).infinite_loop,
                loop_count: old(self).loop_count as int,
                natural: old(self).natural_delay,
                finished: false,
            }) && ss@.wf()),
    {
        if self.buffer.len() == 0 {
            self.mode = Mode::Idle;
            return None;
        }
        let mut snapshot: Vec<InputEvent> = Vec::new();
        let mut i: usize = 0;
        while i < self.buffer.len()
            invariant
                i <= self.buffer.len(),
                snapshot@ == self.buffer@.take(i as int),
            decreases self.buffer.len() - i,
        {
            snapshot.push(self.buffer[i]);
            assert(snapshot@ == self.buffer@.take(i as int + 1));
            i = i + 1;
        }
        assert(snapshot@ == self.buffer@);
        Some(
            PlaybackSession {
                events: snapshot,
                idx: 0,
                passes_done: 0,
                infinite: self.infinite_loop,
                loop_count: self.loop_count,
                natural: self.natural_delay,
                finished: false,
            },
        )
    }
}

/// Halt latency: a step taken after the halt signal injects nothing and
/// ends the session, so at most one event — the one handed out by the step
/// that preceded the halt — is injected after the signal is raised.
pub proof fn lemma_halt_latency(v: SessionView)
    ensures
        !(spec_step(v, false).1 is Inject),
        spec_step(v, false).0.finished,
{
}

/// An infinite loop never finishes on its own: only a halt ends it.
pub proof fn lemma_infinite_runs_until_halt(v: SessionView)
    requires
        v.infinite,
        !v.finished,
    ensures
        !spec_step(v, true).0.finished,
{
}

/// The number of injections still owed by a finite session: the remaining
/// whole passes, plus the tail of the current one.
pub open spec fn spec_injections_remaining(v: SessionView) -> int {
    if v.finished {
        0
    } else {
        (v.loop_count - v.passes_done) * v.events.len() - v.idx
    }
}

/// Loop count semantics, finite case: every inject step pays off exactly
/// one owed injection, a pass boundary pays off none, and the session
/// finishes exactly when the debt reaches zero.  A fresh session owes
/// `loop_count * events.len()` injections, so exactly `loop_count` full
/// passes over the snapshot are played when no halt intervenes.
pub proof fn lemma_loop_count_progress(v: SessionView)
    requires
        v.wf(),
        !v.infinite,
        !v.finished,
    ensures
        spec_injections_remaining(v) >= 0,
        spec_step(v, true).1 is Inject ==> spec_injections_remaining(spec_step(v, true).0)
            == spec_injections_remaining(v) - 1,
        spec_step(v, true).1 is PassEnd ==> spec_injections_remaining(spec_step(v, true).0)
            == spec_injections_remaining(v),
        spec_step(v, true).0.finished ==> spec_injections_remaining(spec_step(v, true).0) == 0,
        v.idx == 0 && v.passes_done == 0 ==> spec_injections_remaining(v) == v.loop_count
            * v.events.len(),
{
    let len = v.events.len() as int;
    let rem = v.loop_count - v.passes_done;
    assert(rem >= 1);
    assert(rem * len >= len) by (nonlinear_arith)
        requires
            rem >= 1,
            len >= 0,
    ;
    if v.idx >= len {
        assert((rem - 1) * len == rem * len - len) by (nonlinear_arith);
        if v.passes_done + 1 == v.loop_count {
            assert(rem * len == len) by (nonlinear_arith)
                requires
                    rem == 1,
            ;
        }
    }
}

/// How many injections a finite session still performs if it is driven to
/// completion with no halt.
pub open spec fn spec_injections_until_finish(v: SessionView) -> nat
    decreases
            (if v.finished {
                0int
            } else {
                v.loop_count - v.passes_done
            }),
            (if v.finished {
                0int
            } else {
                v.events.len() - v.idx + 1
            }),
    when v.wf() && !v.infinite
{
    if v.finished {
        0
    } else {
        let next = spec_step(v, true);
        (if next.1 is Inject {
            1nat
        } else {
            0nat
        }) + spec_injections_until_finish(next.0)
    }
}

/// Loop count semantics, finite case, end to end: driven to completion
/// with no halt, a session injects exactly its owed number of events, so a
/// fresh session plays exactly `loop_count` full passes over the snapshot.
pub proof fn lemma_loop_count_exact(v: SessionView)
    requires
        v.wf(),
        !v.infinite,
    ensures
        spec_injections_until_finish(v) == spec_injections_remaining(v),
    decreases
            (if v.finished {
                0int
            } else {
                v.loop_count - v.passes_done
            }),
            (if v.finished {
                0int
            } else {
                v.events.len() - v.idx + 1
            }),
{
    if !v.finished {
        let next = spec_step(v, true).0;
        lemma_loop_count_progress(v);
        lemma_loop_count_exact(next);
    }
}

/// The corollary on a fresh session: exactly `loop_count * events.len()`
/// injections are performed when no halt intervenes.
pub proof fn lemma_fresh_session_total_injections(v: SessionView)
    requires
        v.wf(),
        !v.infinite,
        !v.finished,
        v.idx == 0,
        v.passes_done == 0,
    ensures
        spec_injections_until_finish(v) == v.loop_count * v.events.len(),
{
    lemma_loop_count_exact(v);
}

} // verus!
