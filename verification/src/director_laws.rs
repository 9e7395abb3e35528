//! What holds of the director whatever signals reach it.

use vstd::prelude::*;
use crate::director::{DirectorView, FinishOutcome, PlaybackSignal};
use crate::endings::GameEnding;
use crate::narrative::{Timeline, TimelineError};
use crate::playback::SessionView;
use crate::playback_laws::lemma_tick_wf;
use crate::progression_laws::lemma_mark_consistent;
use crate::route_events::EndingCompleted;
use crate::route_mapping::lemma_table_covers_primary;

verus! {

/// Every step keeps a well-formed state well formed, and the initial state
/// is well formed.
pub proof fn lemma_steps_keep_wf(
    s: DirectorView,
    route_id: usize,
    loaded: Result<Timeline, TimelineError>,
    delta: nat,
    ending: GameEnding,
)
    requires
        s.wf(),
    ensures
        DirectorView::initial().wf(),
        s.install(route_id, loaded).wf(),
        s.run(delta).wf(),
        s.finish().wf(),
        s.register(ending).wf(),
{
    crate::progression_laws::lemma_empty_consistent();
    lemma_mark_consistent(s.progress, ending);
    if s.session.is_some() {
        lemma_tick_wf(s.session.unwrap(), delta);
    }
    if s.start_error(route_id, loaded).is_none() {
        crate::narrative::lemma_valid_iff_no_violation(loaded->Ok_0@);
        let t = loaded->Ok_0@;
        assert(t.frames[0].seconds() > 0);
    }
}

/// There is never more than one session: while one is in play a trigger is
/// dropped and a timeline handed over is turned away, and neither touches
/// the session in play.
pub proof fn lemma_one_session(
    s: DirectorView,
    route_id: usize,
    loaded: Result<Timeline, TimelineError>,
)
    requires
        s.session.is_some(),
    ensures
        s.decide(route_id) == (crate::director::RouteDecisionView::Busy { route_id }),
        s.start_error(route_id, loaded) == Some(crate::director::StartErrorView::Busy),
        s.install(route_id, loaded) == s,
{
}

/// A load that fails changes nothing: whatever keeps a session from
/// starting leaves session, route, and progress record as they were.
pub proof fn lemma_failed_load_changes_nothing(
    s: DirectorView,
    route_id: usize,
    loaded: Result<Timeline, TimelineError>,
)
    ensures
        s.start_error(route_id, loaded).is_some() ==> s.install(route_id, loaded) == s,
        loaded.is_err() ==> s.install(route_id, loaded) == s,
        !crate::route_mapping::is_known_route(route_id) ==> s.install(route_id, loaded) == s,
{
}

/// A session is not advanced in the frame in which it was started: the
/// first frame's time leaves it at the start of its first beat, and it is
/// ticked from the next frame on.
pub proof fn lemma_started_session_waits_a_frame(
    s: DirectorView,
    route_id: usize,
    loaded: Result<Timeline, TimelineError>,
    first: nat,
    second: nat,
)
    requires
        s.wf(),
        s.start_error(route_id, loaded).is_none(),
    ensures
        ({
            let started = s.install(route_id, loaded);
            let start = SessionView::start(loaded->Ok_0@);
            &&& started.run_signal(first) == PlaybackSignal::Started
            &&& started.run(first).session == Some(start)
            &&& started.run(first).run(second).session == Some(start.tick(second))
        }),
{
}

/// Only the registration of an ending touches the progress record, and it
/// never takes anything from it.
pub proof fn lemma_progress_never_regresses(
    s: DirectorView,
    route_id: usize,
    loaded: Result<Timeline, TimelineError>,
    delta: nat,
    ending: GameEnding,
)
    ensures
        s.install(route_id, loaded).progress == s.progress,
        s.run(delta).progress == s.progress,
        s.finish().progress == s.progress,
        s.progress.completed.subset_of(s.register(ending).progress.completed),
        s.progress.final_bell_unlocked ==> s.register(ending).progress.final_bell_unlocked,
{
}

/// A finished session reports its ending once: asking removes the session,
/// so asking again reports nothing. The ending is the primary ending of
/// the session's route; a well-formed state never lacks it.
pub proof fn lemma_ending_reported_once(s: DirectorView)
    requires
        s.wf(),
    ensures
        s.finish().session_over() == false,
        s.finish().finish_outcome() == FinishOutcome::NotFinished,
        s.session_over() ==> s.finish().session.is_none() && exists|ending: GameEnding|
            ending.is_primary_spec() && s.finish_outcome() == FinishOutcome::Completed(
                EndingCompleted { ending },
            ),
        !s.session_over() ==> s.finish() == s && s.finish_outcome() == FinishOutcome::NotFinished,
{
    lemma_table_covers_primary();
    if s.session_over() {
        let ending = crate::route_mapping::route_result_ending_spec(s.route_id).unwrap();
        assert(crate::route_mapping::is_known_route(s.route_id));
        assert(ending.is_primary_spec());
        assert(s.finish_outcome() == FinishOutcome::Completed(EndingCompleted { ending }));
    }
}

} // verus!
