use freshman_roll::endings::GameEnding;
use freshman_roll::progression::GameProgress;

const PRIMARY: [GameEnding; 6] = [
    GameEnding::TrueWake,
    GameEnding::CycleBreaker,
    GameEnding::Legend,
    GameEnding::Puppetmaster,
    GameEnding::FragmentedMind,
    GameEnding::SunkLegend,
];

fn unlocks_in_order(order: &[GameEnding]) -> Vec<bool> {
    let mut gp = GameProgress::new();
    order.iter().map(|e| gp.mark_completed(*e)).collect()
}

#[test]
fn fresh_record_is_empty_and_locked() {
    let gp = GameProgress::default();
    assert_eq!(gp.completed_len(), 0);
    assert!(!gp.final_bell_unlocked());
    assert!(!gp.all_primary_completed());
    assert!(!gp.is_completed(GameEnding::TrueWake));
}

#[test]
fn marking_twice_changes_nothing_the_second_time() {
    let mut gp = GameProgress::new();
    assert!(!gp.mark_completed(GameEnding::Legend));
    assert_eq!(gp.completed_len(), 1);
    assert!(gp.is_completed(GameEnding::Legend));
    assert!(!gp.mark_completed(GameEnding::Legend));
    assert_eq!(gp.completed_len(), 1);
    assert!(gp.is_completed(GameEnding::Legend));
    assert!(!gp.final_bell_unlocked());
}

#[test]
fn completed_count_never_drops() {
    let marks = [
        GameEnding::Legend,
        GameEnding::Legend,
        GameEnding::FinalBell,
        GameEnding::TrueWake,
        GameEnding::Legend,
        GameEnding::SunkLegend,
        GameEnding::TrueWake,
    ];
    let expected = [1usize, 1, 2, 3, 3, 4, 4];
    let mut gp = GameProgress::new();
    let mut last = 0;
    for (e, want) in marks.iter().zip(expected) {
        gp.mark_completed(*e);
        assert_eq!(gp.completed_len(), want);
        assert!(gp.completed_len() >= last);
        last = gp.completed_len();
    }
}

#[test]
fn unlock_fires_on_the_sixth_primary_ending_only() {
    let fired = unlocks_in_order(&PRIMARY);
    assert_eq!(fired, vec![false, false, false, false, false, true]);
}

#[test]
fn unlock_fires_once_in_any_order() {
    let orders: [[usize; 6]; 5] = [
        [0, 1, 2, 3, 4, 5],
        [5, 4, 3, 2, 1, 0],
        [2, 0, 5, 1, 4, 3],
        [3, 5, 0, 4, 1, 2],
        [1, 3, 5, 0, 2, 4],
    ];
    for order in orders {
        let endings: Vec<GameEnding> = order.iter().map(|i| PRIMARY[*i]).collect();
        let fired = unlocks_in_order(&endings);
        assert_eq!(fired.iter().filter(|f| **f).count(), 1);
        assert!(fired[5]);
    }
}

#[test]
fn repeats_do_not_count_towards_the_unlock() {
    let mut gp = GameProgress::new();
    for _ in 0..3 {
        for e in &PRIMARY[..5] {
            assert!(!gp.mark_completed(*e));
        }
    }
    assert_eq!(gp.completed_len(), 5);
    assert!(!gp.final_bell_unlocked());
    assert!(gp.mark_completed(GameEnding::SunkLegend));
    assert!(gp.final_bell_unlocked());
    assert!(gp.all_primary_completed());
}

#[test]
fn meta_ending_never_triggers_or_retriggers_the_unlock() {
    let mut gp = GameProgress::new();
    assert!(!gp.mark_completed(GameEnding::FinalBell));
    assert!(!gp.final_bell_unlocked());
    let mut fired = 0;
    for e in PRIMARY {
        if gp.mark_completed(e) {
            fired += 1;
        }
    }
    assert_eq!(fired, 1);
    assert!(gp.final_bell_unlocked());
    assert!(!gp.mark_completed(GameEnding::FinalBell));
    assert!(gp.final_bell_unlocked());
    assert_eq!(gp.completed_len(), 7);
}

#[test]
fn unlock_stays_and_is_not_reported_again() {
    let mut gp = GameProgress::new();
    for e in PRIMARY {
        gp.mark_completed(e);
    }
    for e in PRIMARY {
        assert!(!gp.mark_completed(e));
        assert!(gp.final_bell_unlocked());
    }
    assert_eq!(gp.completed_len(), 6);
}

#[test]
fn five_primary_endings_and_the_meta_ending_do_not_unlock() {
    let mut gp = GameProgress::new();
    for e in &PRIMARY[1..] {
        assert!(!gp.mark_completed(*e));
    }
    assert!(!gp.mark_completed(GameEnding::FinalBell));
    assert_eq!(gp.completed_len(), 6);
    assert!(!gp.all_primary_completed());
    assert!(!gp.final_bell_unlocked());
}
