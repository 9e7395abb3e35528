use freshman_roll::director::{
    Director, FinishOutcome, GamePhase, PlaybackSignal, RouteDecision, StartError,
};
use freshman_roll::endings::GameEnding;
use freshman_roll::narrative::{Frame, Timeline, TimelineError};
use freshman_roll::route_events::{EndingCompleted, FinalBellUnlocked, StartRoute};

const SECOND: u128 = 1_000_000_000;

fn frame(index: usize, time: &str) -> Frame {
    Frame {
        index,
        time: time.to_string(),
        camera: String::new(),
        lighting: String::new(),
        notes: String::new(),
    }
}

fn two_beats() -> Timeline {
    Timeline {
        title: "X".to_string(),
        frames: vec![frame(1, "00:00-00:06"), frame(2, "00:06-00:10")],
    }
}

fn play_route(d: &mut Director, route_id: usize) -> (FinishOutcome, Option<FinalBellUnlocked>) {
    assert!(matches!(
        d.on_start_route(StartRoute { route_id }),
        RouteDecision::Load { .. }
    ));
    assert!(d.install_timeline(route_id, Ok(two_beats())).is_ok());
    assert_eq!(d.run_timeline(SECOND), PlaybackSignal::Started);
    assert_eq!(d.check_timeline_finished(), FinishOutcome::NotFinished);
    assert_eq!(d.run_timeline(6 * SECOND), PlaybackSignal::Advanced { index: 2 });
    assert_eq!(d.check_timeline_finished(), FinishOutcome::NotFinished);
    assert_eq!(d.run_timeline(4 * SECOND), PlaybackSignal::Finished);
    let outcome = d.check_timeline_finished();
    let unlocked = match outcome {
        FinishOutcome::Completed(ev) => d.progression_monitor(ev),
        _ => None,
    };
    (outcome, unlocked)
}

#[test]
fn director_starts_in_the_menu() {
    let mut d = Director::new();
    assert_eq!(d.phase(), GamePhase::Menu);
    assert!(d.current_frame().is_none());
    assert_eq!(d.progress().completed_len(), 0);
    assert!(!d.progress().final_bell_unlocked());
    assert_eq!(d.run_timeline(SECOND), PlaybackSignal::Idle);
    assert_eq!(d.check_timeline_finished(), FinishOutcome::NotFinished);
}

#[test]
fn known_route_asks_for_its_timeline() {
    let d = Director::new();
    match d.on_start_route(StartRoute { route_id: 3 }) {
        RouteDecision::Load { route_id, path } => {
            assert_eq!(route_id, 3);
            assert_eq!(path, "assets/narrative/path3_cycle_breaker.yaml");
        }
        other => panic!("unexpected: {:?}", other),
    }
    assert_eq!(d.phase(), GamePhase::Menu);
}

#[test]
fn unknown_route_starts_nothing() {
    let mut d = Director::new();
    assert!(matches!(
        d.on_start_route(StartRoute { route_id: 99 }),
        RouteDecision::UnknownRoute { route_id: 99 }
    ));
    assert!(matches!(
        d.install_timeline(99, Ok(two_beats())),
        Err(StartError::UnknownRoute { route_id: 99 })
    ));
    assert_eq!(d.phase(), GamePhase::Menu);
    assert!(d.current_frame().is_none());
    assert_eq!(d.run_timeline(SECOND), PlaybackSignal::Idle);
    assert_eq!(d.progress().completed_len(), 0);
}

#[test]
fn failed_load_starts_nothing() {
    let mut d = Director::new();
    let missing = TimelineError::Source { cause: "no such file".to_string() };
    match d.install_timeline(1, Err(missing)) {
        Err(StartError::Load(TimelineError::Source { cause })) => assert_eq!(cause, "no such file"),
        other => panic!("unexpected: {:?}", other),
    }
    let garbled = TimelineError::Decode { cause: "bad yaml".to_string() };
    assert!(matches!(
        d.install_timeline(1, Err(garbled)),
        Err(StartError::Load(TimelineError::Decode { .. }))
    ));
    assert_eq!(d.phase(), GamePhase::Menu);
    assert_eq!(d.run_timeline(SECOND), PlaybackSignal::Idle);
}

#[test]
fn invalid_timeline_starts_nothing() {
    let mut d = Director::new();
    let gap = Timeline {
        title: "Gap".to_string(),
        frames: vec![frame(1, "00:00-00:06"), frame(3, "00:06-00:10")],
    };
    assert!(matches!(
        d.install_timeline(1, Ok(gap)),
        Err(StartError::Load(TimelineError::IndexMismatch { position: 2, index: 3 }))
    ));
    let flat = Timeline { title: "Flat".to_string(), frames: vec![frame(1, "01:00-01:00")] };
    assert!(matches!(
        d.install_timeline(1, Ok(flat)),
        Err(StartError::Load(TimelineError::NonPositiveDuration { index: 1, .. }))
    ));
    let empty = Timeline { title: "Empty".to_string(), frames: vec![] };
    assert!(matches!(
        d.install_timeline(1, Ok(empty)),
        Err(StartError::Load(TimelineError::NoFrames))
    ));
    let untitled = Timeline { title: String::new(), frames: vec![frame(1, "00:00-00:06")] };
    assert!(matches!(
        d.install_timeline(1, Ok(untitled)),
        Err(StartError::Load(TimelineError::EmptyTitle))
    ));
    assert_eq!(d.phase(), GamePhase::Menu);
}

#[test]
fn only_one_session_at_a_time() {
    let mut d = Director::new();
    assert!(d.install_timeline(1, Ok(two_beats())).is_ok());
    assert_eq!(d.phase(), GamePhase::InTimeline);
    assert!(matches!(
        d.on_start_route(StartRoute { route_id: 2 }),
        RouteDecision::Busy { route_id: 2 }
    ));
    assert!(matches!(d.install_timeline(2, Ok(two_beats())), Err(StartError::Busy)));
    assert!(matches!(
        d.on_start_route(StartRoute { route_id: 99 }),
        RouteDecision::Busy { route_id: 99 }
    ));
    d.run_timeline(0);
    d.run_timeline(6 * SECOND);
    d.run_timeline(4 * SECOND);
    match d.check_timeline_finished() {
        FinishOutcome::Completed(ev) => assert_eq!(ev.ending, GameEnding::TrueWake),
        other => panic!("unexpected: {:?}", other),
    }
}

#[test]
fn session_is_not_advanced_in_the_frame_it_starts() {
    let mut d = Director::new();
    d.install_timeline(4, Ok(two_beats())).unwrap();
    assert_eq!(d.run_timeline(60 * SECOND), PlaybackSignal::Started);
    assert_eq!(d.current_frame().unwrap().index, 1);
    assert_eq!(d.run_timeline(SECOND), PlaybackSignal::Holding);
    assert_eq!(d.run_timeline(5 * SECOND), PlaybackSignal::Advanced { index: 2 });
    assert_eq!(d.current_frame().unwrap().index, 2);
}

#[test]
fn finished_session_reports_its_ending_once() {
    let mut d = Director::new();
    let (outcome, unlocked) = play_route(&mut d, 2);
    assert_eq!(
        outcome,
        FinishOutcome::Completed(EndingCompleted { ending: GameEnding::SunkLegend })
    );
    assert_eq!(unlocked, None);
    assert_eq!(d.phase(), GamePhase::Menu);
    assert_eq!(d.check_timeline_finished(), FinishOutcome::NotFinished);
    assert_eq!(d.run_timeline(SECOND), PlaybackSignal::Idle);
    assert!(d.progress().is_completed(GameEnding::SunkLegend));
    assert_eq!(d.progress().completed_len(), 1);
}

#[test]
fn finished_session_stays_until_it_is_asked_about() {
    let mut d = Director::new();
    d.install_timeline(6, Ok(two_beats())).unwrap();
    d.run_timeline(0);
    d.run_timeline(6 * SECOND);
    assert_eq!(d.run_timeline(4 * SECOND), PlaybackSignal::Finished);
    assert_eq!(d.run_timeline(SECOND), PlaybackSignal::Finished);
    assert_eq!(d.phase(), GamePhase::InTimeline);
    assert!(d.current_frame().is_none());
    assert_eq!(
        d.check_timeline_finished(),
        FinishOutcome::Completed(EndingCompleted { ending: GameEnding::Legend })
    );
    assert_eq!(d.phase(), GamePhase::Menu);
}

#[test]
fn each_route_registers_its_ending() {
    let expected = [
        GameEnding::TrueWake,
        GameEnding::SunkLegend,
        GameEnding::CycleBreaker,
        GameEnding::FragmentedMind,
        GameEnding::Puppetmaster,
        GameEnding::Legend,
    ];
    let mut d = Director::new();
    for (i, ending) in expected.iter().enumerate() {
        let (outcome, _) = play_route(&mut d, i + 1);
        assert_eq!(outcome, FinishOutcome::Completed(EndingCompleted { ending: *ending }));
        assert!(d.progress().is_completed(*ending));
        assert_eq!(d.progress().completed_len(), i + 1);
    }
}

#[test]
fn playing_all_six_routes_unlocks_the_final_bell_once() {
    for order in [[1usize, 2, 3, 4, 5, 6], [6, 5, 4, 3, 2, 1], [3, 1, 6, 2, 5, 4]] {
        let mut d = Director::new();
        let mut unlocks = 0;
        for (n, route_id) in order.iter().enumerate() {
            let (_, unlocked) = play_route(&mut d, *route_id);
            if unlocked.is_some() {
                unlocks += 1;
                assert_eq!(n, 5);
            }
        }
        assert_eq!(unlocks, 1);
        assert!(d.progress().final_bell_unlocked());
        for route_id in order {
            let (_, unlocked) = play_route(&mut d, route_id);
            assert_eq!(unlocked, None);
        }
        assert_eq!(
            d.progression_monitor(EndingCompleted { ending: GameEnding::FinalBell }),
            None
        );
        assert!(d.progress().final_bell_unlocked());
    }
}

#[test]
fn failed_load_leaves_a_running_session_and_the_record_alone() {
    let mut d = Director::new();
    play_route(&mut d, 1);
    d.install_timeline(2, Ok(two_beats())).unwrap();
    d.run_timeline(0);
    d.run_timeline(2 * SECOND);
    let broken = TimelineError::Decode { cause: "x".to_string() };
    assert!(matches!(d.install_timeline(3, Err(broken)), Err(StartError::Busy)));
    assert_eq!(d.phase(), GamePhase::InTimeline);
    assert_eq!(d.current_frame().unwrap().index, 1);
    assert_eq!(d.run_timeline(4 * SECOND), PlaybackSignal::Advanced { index: 2 });
    assert_eq!(d.progress().completed_len(), 1);
    assert!(d.progress().is_completed(GameEnding::TrueWake));
}
