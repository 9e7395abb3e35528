//! The decisions that tie a route trigger to a playback session and a
//! finished session to the progress record.
//!
//! The surrounding application does the work that cannot be done here: it
//! reads and decodes the timeline that a decision asks for, measures the
//! time between frames, and shows what the signals report. Once per frame
//! it hands over, in this order, the route triggers (`on_start_route`,
//! `install_timeline`), the elapsed time (`run_timeline`), the question
//! whether the session is over (`check_timeline_finished`) and the endings
//! that came out of it (`progression_monitor`).

use vstd::prelude::*;
use crate::endings::GameEnding;
use crate::narrative::{validate_timeline, Frame, Timeline, TimelineError, TimelineErrorView};
use crate::playback::{ActiveTimeline, SessionView};
use crate::progression::{GameProgress, ProgressView};
use crate::route_events::{EndingCompleted, FinalBellUnlocked, StartRoute};
use crate::route_mapping::{
    is_known_route,
    route_result_ending,
    route_result_ending_spec,
    route_timeline_path,
    route_timeline_path_spec,
};

verus! {

/// Where the application stands: in the menu, or inside a timeline.
#[derive(Debug, Clone, Copy, PartialEq, Eq, Structural)]
pub enum GamePhase {
    Menu,
    InTimeline,
}

/// What is to be done about a route trigger.
#[derive(Debug, Clone, Copy)]
pub enum RouteDecision {
    /// Read the timeline at `path` and hand it to `install_timeline`.
    Load { route_id: usize, path: &'static str },
    /// The route table has no such route: nothing is to be done.
    UnknownRoute { route_id: usize },
    /// A timeline is playing: the trigger is dropped.
    Busy { route_id: usize },
}

/// Why no session was started.
#[derive(Debug)]
pub enum StartError {
    /// A timeline is playing.
    Busy,
    /// The route table has no such route.
    UnknownRoute { route_id: usize },
    /// The timeline could not be read or decoded, or is not valid.
    Load(TimelineError),
}

/// What a frame's worth of time did to the session.
#[derive(Debug, Clone, Copy, PartialEq, Eq, Structural)]
pub enum PlaybackSignal {
    /// No timeline is playing.
    Idle,
    /// The session was started in this frame; it is advanced from the next
    /// frame on.
    Started,
    /// The beat on screen stays.
    Holding,
    /// A next beat has come up; `index` is the index it carries.
    Advanced { index: usize },
    /// The last beat has run out.
    Finished,
}

/// What became of the session when it was asked whether it is over.
#[derive(Debug, Clone, Copy, PartialEq, Eq, Structural)]
pub enum FinishOutcome {
    /// There is no session, or it is still playing.
    NotFinished,
    /// The session was over and has been removed; its ending is to be
    /// registered.
    Completed(EndingCompleted),
    /// The session was over and has been removed, but its route has no
    /// ending.
    MissingEnding { route_id: usize },
}

/// A route decision as plain values.
pub enum RouteDecisionView {
    Load { route_id: usize, path: Seq<char> },
    UnknownRoute { route_id: usize },
    Busy { route_id: usize },
}

/// A start error as plain values.
pub enum StartErrorView {
    Busy,
    UnknownRoute { route_id: usize },
    Load(TimelineErrorView),
}

impl View for RouteDecision {
    type V = RouteDecisionView;

    open spec fn view(&self) -> RouteDecisionView {
        match self {
            RouteDecision::Load { route_id, path } => RouteDecisionView::Load {
                route_id: *route_id,
                path: path@,
            },
            RouteDecision::UnknownRoute { route_id } => RouteDecisionView::UnknownRoute {
                route_id: *route_id,
            },
            RouteDecision::Busy { route_id } => RouteDecisionView::Busy { route_id: *route_id },
        }
    }
}

impl View for StartError {
    type V = StartErrorView;

    open spec fn view(&self) -> StartErrorView {
        match self {
            StartError::Busy => StartErrorView::Busy,
            StartError::UnknownRoute { route_id } => StartErrorView::UnknownRoute {
                route_id: *route_id,
            },
            StartError::Load(e) => StartErrorView::Load(e@),
        }
    }
}

/// The logical state of a director.
pub struct DirectorView {
    /// The session, if a timeline is playing or has just run out.
    pub session: Option<SessionView>,
    /// The route whose timeline the session plays.
    pub route_id: usize,
    /// Whether the session was started in the current frame.
    pub fresh: bool,
    /// The progress record.
    pub progress: ProgressView,
}

impl DirectorView {
    /// The state before anything has happened.
    pub open spec fn initial() -> DirectorView {
        DirectorView {
            session: None,
            route_id: 0,
            fresh: false,
            progress: ProgressView::empty(),
        }
    }

    /// What holds of every state a director reaches: a session plays a
    /// valid timeline of a known route and is well formed, a fresh session
    /// stands at its start, and the progress record is consistent.
    pub open spec fn wf(self) -> bool {
        &&& self.progress.consistent()
        &&& match self.session {
            Some(s) => {
                &&& s.wf()
                &&& s.timeline.valid()
                &&& is_known_route(self.route_id)
                &&& self.fresh ==> s == SessionView::start(s.timeline)
            },
            None => !self.fresh,
        }
    }

    /// The phase: inside a timeline exactly while there is a session.
    pub open spec fn phase(self) -> GamePhase {
        if self.session.is_some() {
            GamePhase::InTimeline
        } else {
            GamePhase::Menu
        }
    }

    /// What is to be done about a trigger for `route_id`.
    pub open spec fn decide(self, route_id: usize) -> RouteDecisionView {
        if self.session.is_some() {
            RouteDecisionView::Busy { route_id }
        } else {
            match route_timeline_path_spec(route_id) {
                Some(path) => RouteDecisionView::Load { route_id, path },
                None => RouteDecisionView::UnknownRoute { route_id },
            }
        }
    }

    /// Why a timeline handed over for `route_id` starts no session, if it
    /// does not. A session in play is judged first, then the route, then
    /// the timeline.
    pub open spec fn start_error(
        self,
        route_id: usize,
        loaded: Result<Timeline, TimelineError>,
    ) -> Option<StartErrorView> {
        if self.session.is_some() {
            Some(StartErrorView::Busy)
        } else if !is_known_route(route_id) {
            Some(StartErrorView::UnknownRoute { route_id })
        } else {
            match loaded {
                Err(e) => Some(StartErrorView::Load(e@)),
                Ok(t) => match t@.first_violation() {
                    Some(violation) => Some(StartErrorView::Load(violation)),
                    None => None,
                },
            }
        }
    }

    /// The state after a timeline was handed over for `route_id`: a fresh
    /// session at the timeline's start if nothing stands against it, and
    /// the state as it was otherwise.
    pub open spec fn install(
        self,
        route_id: usize,
        loaded: Result<Timeline, TimelineError>,
    ) -> DirectorView {
        if self.start_error(route_id, loaded).is_some() {
            self
        } else {
            DirectorView {
                session: Some(SessionView::start(loaded->Ok_0@)),
                route_id,
                fresh: true,
                ..self
            }
        }
    }

    /// The state after a frame's worth of time. A session started in this
    /// frame is left as it is and is no longer fresh; any other session is
    /// ticked.
    pub open spec fn run(self, delta: nat) -> DirectorView {
        match self.session {
            None => self,
            Some(s) => if self.fresh {
                DirectorView { fresh: false, ..self }
            } else {
                DirectorView { session: Some(s.tick(delta)), ..self }
            },
        }
    }

    /// What a frame's worth of time reports.
    pub open spec fn run_signal(self, delta: nat) -> PlaybackSignal {
        match self.session {
            None => PlaybackSignal::Idle,
            Some(s) => if self.fresh {
                PlaybackSignal::Started
            } else if s.tick(delta).finished {
                PlaybackSignal::Finished
            } else if s.advanced(delta) {
                PlaybackSignal::Advanced {
                    index: s.tick(delta).current_frame()->Some_0.index as usize,
                }
            } else {
                PlaybackSignal::Holding
            },
        }
    }

    /// Whether the session is over.
    pub open spec fn session_over(self) -> bool {
        self.session matches Some(s) && s.finished
    }

    /// The state after the session was asked whether it is over: a session
    /// that is over is removed, anything else stays.
    pub open spec fn finish(self) -> DirectorView {
        if self.session_over() {
            DirectorView { session: None, fresh: false, ..self }
        } else {
            self
        }
    }

    /// What asking reports: the ending of the session's route, if the
    /// session is over.
    pub open spec fn finish_outcome(self) -> FinishOutcome {
        if self.session_over() {
            match route_result_ending_spec(self.route_id) {
                Some(ending) => FinishOutcome::Completed(EndingCompleted { ending }),
                None => FinishOutcome::MissingEnding { route_id: self.route_id },
            }
        } else {
            FinishOutcome::NotFinished
        }
    }

    /// The state after an ending was registered.
    pub open spec fn register(self, ending: GameEnding) -> DirectorView {
        DirectorView { progress: self.progress.mark(ending), ..self }
    }
}

/// Owns the one playback session there can be and the progress record, and
/// decides what each inbound signal does to them.
#[derive(Debug)]
pub struct Director {
    session: Option<ActiveTimeline>,
    route_id: usize,
    fresh: bool,
    progress: GameProgress,
}

impl View for Director {
    type V = DirectorView;

    closed spec fn view(&self) -> DirectorView {
        DirectorView {
            session: match self.session {
                Some(s) => Some(s@),
                None => None,
            },
            route_id: self.route_id,
            fresh: self.fresh,
            progress: self.progress@,
        }
    }
}

impl Director {
    /// The director's invariant: its parts are well formed and so is its
    /// state.
    pub closed spec fn wf(&self) -> bool {
        &&& self@.wf()
        &&& self.progress.wf()
        &&& self.session matches Some(s) ==> s.wf()
    }

    /// A well-formed director is in a well-formed state.
    pub proof fn lemma_wf_view(&self)
        requires
            self.wf(),
        ensures
            self@.wf(),
    {
    }

    /// A director in the menu, with a fresh progress record.
    pub fn new() -> (director: Director)
        ensures
            director.wf(),
            director@ == DirectorView::initial(),
    {
        let progress = GameProgress::new();
        proof {
            progress.lemma_wf_consistent();
        }
        Director { session: None, route_id: 0, fresh: false, progress }
    }

    /// The phase: inside a timeline exactly while there is a session.
    pub fn phase(&self) -> (phase: GamePhase)
        ensures
            phase == self@.phase(),
    {
        if self.session.is_some() {
            GamePhase::InTimeline
        } else {
            GamePhase::Menu
        }
    }

    /// The beat on screen, if a timeline is playing.
    pub fn current_frame(&self) -> (frame: Option<&Frame>)
        ensures
            match frame {
                Some(f) => self@.session matches Some(s) && s.current_frame() == Some(f@),
                None => self@.session matches Some(s) ==> s.current_frame().is_none(),
            },
    {
        match &self.session {
            Some(s) => s.current_frame(),
            None => None,
        }
    }

    /// The progress record.
    pub fn progress(&self) -> (progress: &GameProgress)
        ensures
            progress@ == self@.progress,
            self.wf() ==> progress.wf(),
    {
        &self.progress
    }

    /// Decides what is to be done about a route trigger. Nothing changes:
    /// a session starts only once the timeline is handed to
    /// `install_timeline`.
    pub fn on_start_route(&self, trigger: StartRoute) -> (decision: RouteDecision)
        ensures
            decision@ == self@.decide(trigger.route_id),
    {
        let route_id = trigger.route_id;
        if self.session.is_some() {
            return RouteDecision::Busy { route_id };
        }
        match route_timeline_path(route_id) {
            Some(path) => RouteDecision::Load { route_id, path },
            None => RouteDecision::UnknownRoute { route_id },
        }
    }

    /// Takes the timeline that was read for `route_id`, or the reason why
    /// it could not be read. Starts a session at its first beat if no
    /// session is in play, the route is known, and the timeline is valid.
    /// In every other case the reason is returned and nothing changes.
    pub fn install_timeline(
        &mut self,
        route_id: usize,
        loaded: Result<Timeline, TimelineError>,
    ) -> (started: Result<(), StartError>)
        requires
            old(self).wf(),
        ensures
            final(self).wf(),
            final(self)@ == old(self)@.install(route_id, loaded),
            match started {
                Ok(_) => old(self)@.start_error(route_id, loaded).is_none(),
                Err(e) => old(self)@.start_error(route_id, loaded) == Some(e@),
            },
    {
        if self.session.is_some() {
            return Err(StartError::Busy);
        }
        if route_timeline_path(route_id).is_none() {
            return Err(StartError::UnknownRoute { route_id });
        }
        let timeline = match loaded {
            Err(e) => {
                return Err(StartError::Load(e));
            },
            Ok(t) => t,
        };
        match validate_timeline(&timeline) {
            Err(violation) => {
                return Err(StartError::Load(violation));
            },
            Ok(_) => {},
        }
        match ActiveTimeline::from_timeline(&timeline) {
            None => Err(StartError::Load(TimelineError::NoFrames)),
            Some(session) => {
                proof {
                    session.lemma_wf_view();
                }
                self.session = Some(session);
                self.route_id = route_id;
                self.fresh = true;
                Ok(())
            },
        }
    }

    /// Counts a frame's worth of time on the session, if there is one. A
    /// session started in this frame is not advanced before the next.
    pub fn run_timeline(&mut self, delta_nanos: u128) -> (signal: PlaybackSignal)
        requires
            old(self).wf(),
        ensures
            final(self).wf(),
            final(self)@ == old(self)@.run(delta_nanos as nat),
            signal == old(self)@.run_signal(delta_nanos as nat),
    {
        if self.fresh {
            self.fresh = false;
            return PlaybackSignal::Started;
        }
        match &mut self.session {
            None => PlaybackSignal::Idle,
            Some(session) => {
                let advanced = session.tick_and_maybe_advance(delta_nanos);
                proof {
                    session.lemma_wf_view();
                }
                if session.is_finished() {
                    PlaybackSignal::Finished
                } else if advanced {
                    match session.current_frame() {
                        Some(frame) => PlaybackSignal::Advanced { index: frame.index },
                        None => PlaybackSignal::Holding,
                    }
                } else {
                    PlaybackSignal::Holding
                }
            },
        }
    }

    /// Asks whether the session is over. If it is, the session is removed,
    /// the phase is the menu again, and the ending of its route is
    /// reported.
    pub fn check_timeline_finished(&mut self) -> (outcome: FinishOutcome)
        requires
            old(self).wf(),
        ensures
            final(self).wf(),
            final(self)@ == old(self)@.finish(),
            outcome == old(self)@.finish_outcome(),
    {
        let over = match &self.session {
            Some(session) => session.is_finished(),
            None => false,
        };
        if !over {
            return FinishOutcome::NotFinished;
        }
        self.session = None;
        self.fresh = false;
        match route_result_ending(self.route_id) {
            Some(ending) => FinishOutcome::Completed(EndingCompleted { ending }),
            None => FinishOutcome::MissingEnding { route_id: self.route_id },
        }
    }

    /// Registers a completed ending. Reports the unlock of the Final Bell
    /// on exactly the registration that brings it about.
    pub fn progression_monitor(&mut self, completed: EndingCompleted) -> (unlocked: Option<
        FinalBellUnlocked,
    >)
        requires
            old(self).wf(),
        ensures
            final(self).wf(),
            final(self)@ == old(self)@.register(completed.ending),
            unlocked.is_some() == old(self)@.progress.newly_unlocked(completed.ending),
    {
        let newly = self.progress.mark_completed(completed.ending);
        proof {
            self.progress.lemma_wf_consistent();
        }
        if newly {
            Some(FinalBellUnlocked)
        } else {
            None
        }
    }
}

} // verus!
