//! Playing a timeline forward: one session, one beat at a time, each beat
//! for exactly the time it declares.

use vstd::prelude::*;
use crate::narrative::{Frame, FrameView, Timeline, TimelineView};

verus! {

/// A one-shot timer counting up to a fixed duration, in nanoseconds.
#[derive(Debug, Clone, Copy, PartialEq, Eq, Structural)]
pub struct Countdown {
    /// The time after which the timer has run out.
    pub duration: u128,
    /// The time counted so far; it stops at `duration`.
    pub elapsed: u128,
}

impl Countdown {
    /// The time counted after a further `delta`: time adds up until the
    /// duration is reached and stays there.
    pub open spec fn elapsed_after(self, delta: nat) -> nat {
        if self.elapsed + delta >= self.duration {
            self.duration as nat
        } else {
            (self.elapsed + delta) as nat
        }
    }

    /// Whether the timer has run out.
    pub open spec fn is_finished(self) -> bool {
        self.elapsed >= self.duration
    }

    /// A timer for `duration` nanoseconds with nothing counted yet.
    pub fn from_nanos(duration: u128) -> (timer: Countdown)
        ensures
            timer.duration == duration,
            timer.elapsed == 0,
    {
        Countdown { duration, elapsed: 0 }
    }

    /// Counts a further `delta` nanoseconds.
    pub fn tick(&mut self, delta: u128)
        ensures
            final(self).duration == old(self).duration,
            final(self).elapsed == old(self).elapsed_after(delta as nat),
    {
        if self.elapsed >= self.duration || delta >= self.duration - self.elapsed {
            self.elapsed = self.duration;
        } else {
            self.elapsed = self.elapsed + delta;
        }
    }

    /// Whether the timer has run out.
    pub fn finished(&self) -> (done: bool)
        ensures
            done == self.is_finished(),
    {
        self.elapsed >= self.duration
    }
}

/// The logical state of a playback session.
pub struct SessionView {
    /// The timeline being played.
    pub timeline: TimelineView,
    /// Position of the beat on screen, counted from zero; the number of
    /// beats once the session is finished.
    pub current: nat,
    /// Nanoseconds the beat on screen has been shown.
    pub elapsed: nat,
    /// Whether the last beat has run out.
    pub finished: bool,
}

impl SessionView {
    /// The state in which playback of `timeline` starts: first beat on
    /// screen, nothing counted, not finished.
    pub open spec fn start(timeline: TimelineView) -> SessionView {
        SessionView { timeline, current: 0, elapsed: 0, finished: false }
    }

    /// How long the beat on screen stays, in nanoseconds.
    pub open spec fn dwell(self) -> nat {
        self.timeline.dwell_nanos(self.current as int)
    }

    /// What holds of every state reached from a start by ticks: there is a
    /// beat on screen that has not yet run out, or the session is finished
    /// and stands behind the last beat.
    pub open spec fn wf(self) -> bool {
        &&& self.timeline.frames.len() > 0
        &&& if self.finished {
            self.current == self.timeline.frames.len()
        } else {
            self.current < self.timeline.frames.len() && self.elapsed < self.dwell()
        }
    }

    /// Whether a tick of `delta` nanoseconds takes the beat on screen to
    /// the end of its dwell.
    pub open spec fn beat_runs_out(self, delta: nat) -> bool {
        !self.finished && self.elapsed + delta >= self.dwell()
    }

    /// The state after a tick of `delta` nanoseconds. A finished session
    /// stays as it is. Otherwise time is counted; when the beat on screen
    /// runs out the next beat comes up with nothing counted, or, after the
    /// last beat, the session is finished.
    pub open spec fn tick(self, delta: nat) -> SessionView {
        if self.finished {
            self
        } else if !self.beat_runs_out(delta) {
            SessionView { elapsed: self.elapsed + delta, ..self }
        } else if self.current + 1 < self.timeline.frames.len() {
            SessionView { current: self.current + 1, elapsed: 0, ..self }
        } else {
            SessionView {
                current: self.current + 1,
                elapsed: self.dwell(),
                finished: true,
                ..self
            }
        }
    }

    /// Whether a tick of `delta` nanoseconds brings up a next beat.
    pub open spec fn advanced(self, delta: nat) -> bool {
        self.beat_runs_out(delta) && self.current + 1 < self.timeline.frames.len()
    }

    /// Whether a tick of `delta` nanoseconds finishes the session.
    pub open spec fn finishes(self, delta: nat) -> bool {
        self.beat_runs_out(delta) && self.current + 1 >= self.timeline.frames.len()
    }

    /// The beat on screen; none once the session is finished.
    pub open spec fn current_frame(self) -> Option<FrameView> {
        if !self.finished && self.current < self.timeline.frames.len() {
            Some(self.timeline.frames[self.current as int])
        } else {
            None
        }
    }
}

/// A playback session: one timeline, the beat on screen, and the timer that
/// says how long that beat still stays.
#[derive(Debug)]
pub struct ActiveTimeline {
    timeline: Timeline,
    current: usize,
    timer: Countdown,
    finished: bool,
}

impl View for ActiveTimeline {
    type V = SessionView;

    closed spec fn view(&self) -> SessionView {
        SessionView {
            timeline: self.timeline@,
            current: self.current as nat,
            elapsed: self.timer.elapsed as nat,
            finished: self.finished,
        }
    }
}

impl ActiveTimeline {
    /// The session's invariant: its state is well formed and its timer is
    /// set to the dwell of the beat on screen.
    pub closed spec fn wf(&self) -> bool {
        &&& self@.wf()
        &&& !self.finished ==> self.timer.duration == self@.dwell()
    }

    /// A well-formed session is in a well-formed state.
    pub proof fn lemma_wf_view(&self)
        requires
            self.wf(),
        ensures
            self@.wf(),
    {
    }

    /// Starts playback of `t` at its first beat. There is no session for a
    /// timeline without beats.
    pub fn from_timeline(t: &Timeline) -> (session: Option<ActiveTimeline>)
        ensures
            session.is_some() <==> t@.frames.len() > 0,
            session matches Some(s) ==> s.wf() && s@ == SessionView::start(t@),
    {
        if t.frames.len() == 0 {
            return None;
        }
        let timeline = t.clone();
        let duration = timeline.frame_dwell_nanos(0);
        Some(
            ActiveTimeline {
                timeline,
                current: 0,
                timer: Countdown::from_nanos(duration),
                finished: false,
            },
        )
    }

    /// The beat on screen; none once the session is finished.
    pub fn current_frame(&self) -> (frame: Option<&Frame>)
        ensures
            match frame {
                Some(f) => self@.current_frame() == Some(f@),
                None => self@.current_frame().is_none(),
            },
    {
        if self.finished || self.current >= self.timeline.frames.len() {
            None
        } else {
            Some(&self.timeline.frames[self.current])
        }
    }

    /// Counts `delta_nanos` of elapsed time. Returns `true` exactly when
    /// this tick brings up a next beat; the tick that ends the last beat
    /// finishes the session and returns `false`, as does every tick after
    /// it.
    pub fn tick_and_maybe_advance(&mut self, delta_nanos: u128) -> (advanced: bool)
        requires
            old(self).wf(),
        ensures
            final(self).wf(),
            final(self)@ == old(self)@.tick(delta_nanos as nat),
            advanced == old(self)@.advanced(delta_nanos as nat),
    {
        if self.finished {
            return false;
        }
        assert(self.current < self.timeline.frames.len()) by {
            assert(self@.current < self@.timeline.frames.len());
        }
        self.timer.tick(delta_nanos);
        if self.timer.finished() {
            self.current = self.current + 1;
            if self.current < self.timeline.frames.len() {
                let duration = self.timeline.frame_dwell_nanos(self.current);
                self.timer = Countdown::from_nanos(duration);
                true
            } else {
                self.finished = true;
                false
            }
        } else {
            false
        }
    }

    /// Whether the last beat has run out.
    pub fn is_finished(&self) -> (finished: bool)
        ensures
            finished == self@.finished,
    {
        self.finished
    }

    /// Position of the beat on screen, counted from zero.
    pub fn current_index(&self) -> (current: usize)
        ensures
            current == self@.current,
    {
        self.current
    }

    /// The timeline being played.
    pub fn timeline(&self) -> (timeline: &Timeline)
        ensures
            timeline@ == self@.timeline,
    {
        &self.timeline
    }

    /// Nanoseconds the beat on screen has been shown.
    pub fn elapsed_nanos(&self) -> (elapsed: u128)
        ensures
            elapsed == self@.elapsed,
    {
        self.timer.elapsed
    }
}

} // verus!
