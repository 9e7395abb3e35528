use freshman_roll::timecode::{
    chars_of, char_in_class, char_is_space, find_in, parse_component, parse_mmss,
    parse_time_range, slice_of, trim_chars, CharClass,
};

fn chars(s: &str) -> Vec<char> {
    s.chars().collect()
}

#[test]
fn hyphen_and_en_dash_both_separate() {
    assert_eq!(parse_time_range("00:00-00:06"), (0, 6));
    assert_eq!(parse_time_range("00:00\u{2013}00:06"), (0, 6));
    assert_eq!(parse_time_range("00:06\u{2013}00:10"), (6, 10));
}

#[test]
fn minutes_count_sixty_seconds() {
    assert_eq!(parse_time_range("01:30-02:15"), (90, 135));
    assert_eq!(parse_time_range("10:00-12:05"), (600, 725));
    assert_eq!(parse_mmss(&chars("02:03")), 123);
    assert_eq!(parse_mmss(&chars("0:90")), 90);
}

#[test]
fn white_space_around_the_parts_is_dropped() {
    assert_eq!(parse_time_range("  00:05 - 00:07\t"), (5, 7));
    assert_eq!(parse_time_range("\u{a0}00:05\u{2003}\u{2013}\n00:07\u{3000}"), (5, 7));
}

#[test]
fn white_space_inside_a_component_makes_it_zero() {
    assert_eq!(parse_time_range("00: 05-00:07"), (0, 7));
    assert_eq!(parse_mmss(&chars("1 :30")), 30);
}

#[test]
fn components_that_are_not_numbers_count_as_zero() {
    assert_eq!(parse_time_range("abc-00:10"), (0, 10));
    assert_eq!(parse_time_range("1:xx-2:05"), (60, 125));
    assert_eq!(parse_time_range("xx:07-yy:09"), (7, 9));
    assert_eq!(parse_time_range("00:06.5-00:10"), (0, 10));
    assert_eq!(parse_time_range("+1:00-2:00"), (0, 120));
    assert_eq!(parse_component(&chars("")), 0);
    assert_eq!(parse_component(&chars("12a")), 0);
    assert_eq!(parse_component(&chars("\u{0663}")), 0);
}

#[test]
fn components_read_as_decimal_numbers() {
    assert_eq!(parse_component(&chars("0")), 0);
    assert_eq!(parse_component(&chars("007")), 7);
    assert_eq!(parse_component(&chars("4294967295")), u32::MAX);
    assert_eq!(parse_component(&chars("0000000004294967295")), u32::MAX);
}

#[test]
fn components_too_large_stay_large() {
    assert_eq!(parse_component(&chars("4294967296")), u32::MAX);
    assert_eq!(parse_component(&chars("4294967305")), u32::MAX);
    assert_eq!(parse_component(&chars("42949672950")), u32::MAX);
    assert_eq!(parse_component(&chars("99999999999999999999999")), u32::MAX);
    assert_eq!(parse_component(&chars("99999999999999999999999x")), 0);
    let max = u32::MAX as u64;
    assert_eq!(parse_time_range("99999999999:05-00:10"), (max * 60 + 5, 10));
    assert_eq!(parse_time_range("00:10-99999999999:99999999999"), (10, max * 61));
}

#[test]
fn largest_clock_reading_fits() {
    let max = u32::MAX as u64;
    assert_eq!(parse_mmss(&chars("4294967295:4294967295")), max * 60 + max);
}

#[test]
fn missing_parts_take_their_defaults() {
    assert_eq!(parse_time_range("00:10"), (10, 1));
    assert_eq!(parse_time_range("5"), (300, 1));
    assert_eq!(parse_time_range(""), (0, 1));
    assert_eq!(parse_time_range("   "), (0, 1));
    assert_eq!(parse_time_range("-"), (0, 0));
    assert_eq!(parse_time_range("00:10-"), (10, 0));
    assert_eq!(parse_time_range("-00:10"), (0, 10));
    assert_eq!(parse_mmss(&chars("7")), 420);
    assert_eq!(parse_mmss(&chars(":7")), 7);
    assert_eq!(parse_mmss(&chars("7:")), 420);
}

#[test]
fn what_follows_a_second_colon_is_not_read() {
    assert_eq!(parse_mmss(&chars("1:02:59")), 62);
    assert_eq!(parse_time_range("0:01:30-0:02:45"), (1, 2));
}

#[test]
fn the_range_is_split_at_its_first_separator() {
    assert_eq!(parse_time_range("00:00-00:06-00:10"), (0, 0));
    assert_eq!(parse_time_range("00:02\u{2013}1-5:09"), (2, 9));
}

#[test]
fn characters_are_classed() {
    for c in [' ', '\t', '\n', '\u{b}', '\u{c}', '\r', '\u{85}', '\u{a0}', '\u{1680}', '\u{2000}',
        '\u{200a}', '\u{2028}', '\u{2029}', '\u{202f}', '\u{205f}', '\u{3000}'] {
        assert!(char_is_space(c));
        assert_eq!(char_is_space(c), c.is_whitespace());
    }
    for c in ['a', '0', '-', '\u{200b}', '\u{2013}', '\u{8}', '\u{e}', '\u{feff}'] {
        assert!(!char_is_space(c));
        assert_eq!(char_is_space(c), c.is_whitespace());
    }
    assert!(char_in_class(CharClass::Separator, '-'));
    assert!(char_in_class(CharClass::Separator, '\u{2013}'));
    assert!(!char_in_class(CharClass::Separator, '\u{2014}'));
    assert!(char_in_class(CharClass::Colon, ':'));
    assert!(!char_in_class(CharClass::Colon, ';'));
    assert!(char_in_class(CharClass::Space, ' '));
}

#[test]
fn space_class_agrees_with_the_standard_library_everywhere() {
    for n in 0..=0x10FFFFu32 {
        if let Some(c) = char::from_u32(n) {
            assert_eq!(char_is_space(c), c.is_whitespace());
        }
    }
}

#[test]
fn text_helpers_cut_and_search() {
    let v = chars_of("  ab:cd  ");
    assert_eq!(v, chars("  ab:cd  "));
    assert_eq!(trim_chars(&v), chars("ab:cd"));
    assert_eq!(trim_chars(&chars("   ")), chars(""));
    assert_eq!(trim_chars(&chars("")), chars(""));
    assert_eq!(trim_chars(&chars("a b")), chars("a b"));
    assert_eq!(slice_of(&v, 2, 4), chars("ab"));
    assert_eq!(slice_of(&v, 3, 3), chars(""));
    assert_eq!(find_in(&v, 0, CharClass::Colon, true), 4);
    assert_eq!(find_in(&v, 5, CharClass::Colon, true), 9);
    assert_eq!(find_in(&v, 0, CharClass::Space, false), 2);
    assert_eq!(find_in(&v, 9, CharClass::Space, false), 9);
    assert_eq!(chars_of("\u{2013}\u{e9}x"), vec!['\u{2013}', '\u{e9}', 'x']);
}
