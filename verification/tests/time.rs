use taskroll::time::{due_label, format_remaining, parse_duration, u64_to_string, DueLabel, Timer};

fn parse_duration_str(s: &str) -> Option<i64> {
    let chars: Vec<char> = s.chars().collect();
    parse_duration(&chars)
}

#[test]
fn timer_new_sets_both_lengths() {
    let t = Timer::new(1000, 600);
    assert_eq!(t.started_at, 1000);
    assert_eq!(t.planned_length, 600);
    assert_eq!(t.original_length, 600);
}

#[test]
fn extend_three_times_is_additive() {
    // Three extensions of a ten-minute slot yield forty minutes of budget.
    let mut t = Timer::new(0, 600);
    t.extend();
    t.extend();
    t.extend();
    assert_eq!(t.planned_length, 2400);
    assert_eq!(t.original_length, 600);
    assert_eq!(t.started_at, 0);
}

#[test]
fn elapsed_and_remaining_track_now() {
    let t = Timer::new(100, 600);
    assert_eq!(t.elapsed(400), 300);
    assert_eq!(t.remaining(400), 300);
    assert_eq!(t.remaining(100), 600);
    // Overdue: remaining goes negative, nothing auto-transitions.
    assert_eq!(t.remaining(800), -100);
    assert!(t.is_overdue(800));
    assert!(!t.is_overdue(700));
}

#[test]
fn progress_clamps_to_display_range() {
    let t = Timer::new(100, 600);
    assert_eq!(t.progress_permille(100), 0);
    assert_eq!(t.progress_permille(400), 500);
    assert_eq!(t.progress_permille(700), 1000);
    assert_eq!(t.progress_permille(900), 1000);
    let zero = Timer::new(100, 0);
    assert_eq!(zero.progress_permille(100), 1000);
}

#[test]
fn decimal_rendering_is_exact() {
    assert_eq!(u64_to_string(0), "0");
    assert_eq!(u64_to_string(7), "7");
    assert_eq!(u64_to_string(1234567890), "1234567890");
}

#[test]
fn countdown_label_formats_minutes_and_seconds() {
    assert_eq!(format_remaining(600), "10:00");
    assert_eq!(format_remaining(5), "0:05");
    assert_eq!(format_remaining(65), "1:05");
    assert_eq!(format_remaining(0), "0:00");
    assert_eq!(format_remaining(-30), "-0:30");
    assert_eq!(format_remaining(-3601), "-60:01");
}

#[test]
fn duration_parsing_handles_units_and_rejects_junk() {
    assert_eq!(parse_duration_str("PT30M"), Some(1800));
    assert_eq!(parse_duration_str("PT1H30M"), Some(5400));
    assert_eq!(parse_duration_str("P2DT4H"), Some(187200));
    assert_eq!(parse_duration_str("PT15M"), Some(900));
    assert_eq!(parse_duration_str("PT90S"), Some(90));
    assert_eq!(parse_duration_str("P0D"), Some(0));
    assert_eq!(parse_duration_str(""), None);
    assert_eq!(parse_duration_str("30M"), None);
    // A number with no unit behind it is malformed.
    assert_eq!(parse_duration_str("PT5"), None);
    // Units that belong after the time marker are refused before it.
    assert_eq!(parse_duration_str("P1H"), None);
    assert_eq!(parse_duration_str("PT1D"), None);
    assert_eq!(parse_duration_str("PT1X"), None);
}

#[test]
fn due_label_picks_the_natural_unit() {
    assert_eq!(due_label(45), DueLabel::Seconds(45));
    assert_eq!(due_label(-59), DueLabel::Seconds(-59));
    assert_eq!(due_label(60), DueLabel::Minutes(1));
    assert_eq!(due_label(-150), DueLabel::Minutes(-2));
    assert_eq!(due_label(7200), DueLabel::Hours(2));
    assert_eq!(due_label(-7200), DueLabel::Hours(-2));
    assert_eq!(due_label(86400 * 3 + 5), DueLabel::Days(3));
    assert_eq!(due_label(-86400 * 13), DueLabel::Days(-13));
    assert_eq!(due_label(86400 * 14), DueLabel::Date);
    assert_eq!(due_label(-86400 * 30), DueLabel::Date);
}
