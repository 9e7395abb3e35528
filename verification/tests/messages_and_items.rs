use freshman_roll::items::{item_registry, ItemCategory};
use freshman_roll::messages::decimal_text;
use freshman_roll::narrative::TimelineError;

#[test]
fn numbers_are_written_in_base_ten() {
    assert_eq!(decimal_text(0), "0");
    assert_eq!(decimal_text(7), "7");
    assert_eq!(decimal_text(10), "10");
    assert_eq!(decimal_text(1234567890), "1234567890");
    assert_eq!(decimal_text(usize::MAX), usize::MAX.to_string());
    for n in 0..2000usize {
        assert_eq!(decimal_text(n), n.to_string());
    }
}

#[test]
fn index_mismatch_names_position_and_index() {
    let e = TimelineError::IndexMismatch { position: 2, index: 3 };
    assert_eq!(e.message(), "Frame index mismatch at position 2: got 3");
    let e = TimelineError::IndexMismatch { position: 10, index: 0 };
    assert_eq!(e.message(), "Frame index mismatch at position 10: got 0");
}

#[test]
fn non_positive_duration_names_frame_and_text() {
    let e = TimelineError::NonPositiveDuration { index: 12, time: "01:00\u{2013}00:30".to_string() };
    assert_eq!(e.message(), "Non-positive duration at frame 12 time '01:00\u{2013}00:30'");
}

#[test]
fn decode_and_source_failures_name_their_cause() {
    let e = TimelineError::Decode { cause: "missing field `title`".to_string() };
    assert_eq!(e.message(), "Parsing YAML timeline: missing field `title`");
    let e = TimelineError::Source { cause: "a.yaml: not found".to_string() };
    assert_eq!(e.message(), "Reading timeline file: a.yaml: not found");
}

#[test]
fn missing_title_and_missing_frames_are_named() {
    assert_eq!(TimelineError::EmptyTitle.message(), "Timeline has no title");
    assert_eq!(TimelineError::NoFrames.message(), "Timeline has no frames");
}

#[test]
fn item_registry_lists_the_eight_items() {
    let items = item_registry();
    let ids: Vec<&str> = items.iter().map(|i| i.id).collect();
    assert_eq!(
        ids,
        vec![
            "food_burger",
            "food_apple",
            "tool_shovel",
            "tool_hoe",
            "tool_torch",
            "prank_stinkbomb",
            "prank_paperplane",
            "utility_dirt"
        ]
    );
    let stacks: Vec<u32> = items.iter().map(|i| i.stack_size).collect();
    assert_eq!(stacks, vec![8, 16, 1, 1, 1, 4, 16, 64]);
    assert_eq!(items[0].name, "Burger");
    assert_eq!(items[0].category, ItemCategory::Food);
    assert_eq!(items[4].category, ItemCategory::Tool);
    assert_eq!(items[5].description, "Create chaos briefly.");
    assert_eq!(items[7].category, ItemCategory::Utility);
    for (i, a) in items.iter().enumerate() {
        for b in items.iter().skip(i + 1) {
            assert_ne!(a.id, b.id);
        }
    }
}
