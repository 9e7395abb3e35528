//! What holds of a playback session over any sequence of ticks.

use vstd::prelude::*;
use crate::narrative::{TimelineView, NANOS_PER_SECOND};
use crate::playback::SessionView;

verus! {

impl SessionView {
    /// The state after ticks of `deltas` nanoseconds, one after the other.
    pub open spec fn run(self, deltas: Seq<nat>) -> SessionView
        decreases deltas.len(),
    {
        if deltas.len() == 0 {
            self
        } else {
            self.run(deltas.drop_last()).tick(deltas.last())
        }
    }

    /// How many of the ticks `deltas` bring up a next beat.
    pub open spec fn advance_count(self, deltas: Seq<nat>) -> nat
        decreases deltas.len(),
    {
        if deltas.len() == 0 {
            0
        } else {
            let here: nat = if self.run(deltas.drop_last()).advanced(deltas.last()) {
                1
            } else {
                0
            };
            self.advance_count(deltas.drop_last()) + here
        }
    }

    /// How many of the ticks `deltas` finish the session.
    pub open spec fn finish_count(self, deltas: Seq<nat>) -> nat
        decreases deltas.len(),
    {
        if deltas.len() == 0 {
            0
        } else {
            let here: nat = if self.run(deltas.drop_last()).finishes(deltas.last()) {
                1
            } else {
                0
            };
            self.finish_count(deltas.drop_last()) + here
        }
    }
}

/// `count` ticks of `delta` nanoseconds each.
pub open spec fn steady(delta: nat, count: nat) -> Seq<nat> {
    Seq::new(count, |i: int| delta)
}

/// A tick keeps a well-formed state well formed, never changes the
/// timeline, moves on by one beat at most, and never moves back.
pub proof fn lemma_tick_wf(s: SessionView, delta: nat)
    requires
        s.wf(),
    ensures
        s.tick(delta).wf(),
        s.tick(delta).timeline == s.timeline,
        s.current <= s.tick(delta).current <= s.current + 1,
        s.finished ==> s.tick(delta) == s,
        s.advanced(delta) <==> !s.tick(delta).finished && s.tick(delta).current == s.current + 1,
        s.finishes(delta) <==> !s.finished && s.tick(delta).finished,
{
}

/// A beat stays on screen for exactly its dwell: ticks that together stay
/// short of what is left of it leave it on screen, and the tick that
/// reaches it takes it off.
pub proof fn lemma_exact_dwell(s: SessionView, delta: nat)
    requires
        s.wf(),
        !s.finished,
    ensures
        s.elapsed + delta < s.dwell() ==> s.tick(delta).current_frame() == s.current_frame()
            && s.tick(delta).elapsed == s.elapsed + delta,
        s.elapsed + delta >= s.dwell() ==> s.tick(delta).current == s.current + 1,
        s.tick(delta).current_frame().is_none() <==> s.finishes(delta),
{
}

/// However time is cut into ticks, the beats come up in order and none is
/// passed over: from the start, as long as the session is not finished the
/// beat on screen is the one whose position equals the number of ticks that
/// brought up a next beat, and no tick has finished the session; once it is
/// finished, every beat but the first was brought up by one tick and one
/// tick finished the session.
pub proof fn lemma_transitions_in_order(t: TimelineView, deltas: Seq<nat>)
    requires
        t.frames.len() > 0,
    ensures
        ({
            let start = SessionView::start(t);
            let end = start.run(deltas);
            &&& end.wf()
            &&& end.timeline == t
            &&& !end.finished ==> start.advance_count(deltas) == end.current
                && start.finish_count(deltas) == 0
            &&& end.finished ==> start.advance_count(deltas) == t.frames.len() - 1
                && start.finish_count(deltas) == 1
        }),
    decreases deltas.len(),
{
    if deltas.len() > 0 {
        lemma_transitions_in_order(t, deltas.drop_last());
        lemma_tick_wf(SessionView::start(t).run(deltas.drop_last()), deltas.last());
    }
}

/// The first `count` dwells of a timeline, in beat order.
pub open spec fn dwells(t: TimelineView, count: nat) -> Seq<nat> {
    Seq::new(count, |i: int| t.dwell_nanos(i))
}

/// Ticked by each beat's dwell in turn, a timeline moves on by one beat
/// with every tick: after `k` such ticks, with beats left, beat `k` has
/// just come up, and the tick for the last beat finishes the session.
pub proof fn lemma_one_tick_per_beat(t: TimelineView, k: nat)
    requires
        t.frames.len() > 0,
        k <= t.frames.len(),
    ensures
        ({
            let start = SessionView::start(t);
            let end = start.run(dwells(t, k));
            &&& end.timeline == t
            &&& k < t.frames.len() ==> !end.finished && end.current == k && end.elapsed == 0
                && start.advance_count(dwells(t, k)) == k
            &&& k == t.frames.len() ==> end.finished && end.current_frame().is_none()
                && start.advance_count(dwells(t, k)) == k - 1 && start.finish_count(
                dwells(t, k),
            ) == 1
        }),
    decreases k,
{
    lemma_transitions_in_order(t, dwells(t, k));
    if k > 0 {
        let before = dwells(t, (k - 1) as nat);
        assert(dwells(t, k).drop_last() =~= before);
        assert(dwells(t, k).last() == t.dwell_nanos(k - 1));
        lemma_one_tick_per_beat(t, (k - 1) as nat);
    }
}

/// In a valid timeline the time taken by the beats before a position grows
/// with the position, by at least a second per beat.
pub proof fn lemma_seconds_before_grows(t: TimelineView, a: int, b: int)
    requires
        t.valid(),
        0 <= a <= b <= t.frames.len(),
    ensures
        t.seconds_before(a) + (b - a) <= t.seconds_before(b),
    decreases b - a,
{
    if a < b {
        lemma_seconds_before_grows(t, a, b - 1);
        assert(t.frames[b - 1].seconds() > 0);
    }
}

/// Played in ticks of one second, a valid timeline shows each beat for the
/// seconds it declares and is finished by the tick that completes their
/// sum. After `k` ticks, with `k` short of the sum, the beat on screen is
/// the one in whose span second `k` falls, the ticks so far brought up as
/// many beats as precede it, and none finished the session. After as many
/// ticks as the sum, every beat but the first has been brought up by one
/// tick, one tick has finished the session, and no beat is on screen.
pub proof fn lemma_one_second_ticks(t: TimelineView, k: nat)
    requires
        t.valid(),
        k <= t.total_seconds(),
    ensures
        ({
            let start = SessionView::start(t);
            let ticks = steady(NANOS_PER_SECOND as nat, k);
            let end = start.run(ticks);
            &&& end.wf()
            &&& end.timeline == t
            &&& k < t.total_seconds() ==> {
                &&& !end.finished
                &&& t.seconds_before(end.current as int) <= k < t.seconds_before(
                    end.current as int + 1,
                )
                &&& end.elapsed == (k - t.seconds_before(end.current as int)) * NANOS_PER_SECOND
                &&& start.advance_count(ticks) == end.current
                &&& start.finish_count(ticks) == 0
            }
            &&& k == t.total_seconds() ==> {
                &&& end.finished
                &&& end.current_frame().is_none()
                &&& start.advance_count(ticks) == t.frames.len() - 1
                &&& start.finish_count(ticks) == 1
            }
        }),
    decreases k,
{
    let start = SessionView::start(t);
    let second = NANOS_PER_SECOND as nat;
    let ticks = steady(second, k);
    lemma_transitions_in_order(t, ticks);
    lemma_seconds_before_grows(t, 0, t.frames.len() as int);
    if k == 0 {
        assert(t.frames[0].seconds() > 0);
        assert(t.seconds_before(1) == t.seconds_before(0) + t.frame_seconds(0));
    } else {
        let before = steady(second, (k - 1) as nat);
        assert(ticks.drop_last() =~= before);
        assert(ticks.last() == second);
        lemma_one_second_ticks(t, (k - 1) as nat);
        let prev = start.run(before);
        let c = prev.current as int;
        assert(t.frames[c].seconds() > 0);
        assert(t.seconds_before(c + 1) == t.seconds_before(c) + t.frame_seconds(c));
        assert(prev.dwell() == t.frames[c].seconds() * second);
        lemma_tick_wf(prev, second);
        if c + 1 < t.frames.len() {
            lemma_seconds_before_grows(t, c + 1, t.frames.len() as int);
            assert(t.frames[c + 1].seconds() > 0);
            assert(t.seconds_before(c + 2) == t.seconds_before(c + 1) + t.frame_seconds(c + 1));
        }
    }
}

} // verus!
