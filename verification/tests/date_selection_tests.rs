use lambda_log_viewer::date_selection::{
    quick_range_name, quick_span_millis, ActiveColumn, DateSelection, TimeRange, ValidationError, DAY_MILLIS, FIELDS,
    HOUR_MILLIS, LAST_DAY, LAST_HOUR, QUICK_RANGES,
};

const NOW: i64 = 1_700_000_000_000;

fn selection() -> DateSelection {
    DateSelection::new("dev".to_string(), "orders".to_string(), NOW)
}

fn fields(s: &DateSelection) -> Vec<i64> {
    (0..FIELDS).map(|i| s.field(i).unwrap()).collect()
}

#[test]
fn new_selection_starts_in_the_quick_column() {
    let s = selection();
    assert_eq!(s.profile_name(), "dev");
    assert_eq!(s.function_name(), "orders");
    assert_eq!(s.active_column(), ActiveColumn::QuickRanges);
    assert!(!s.custom_selection());
    assert_eq!(s.quick_range(), 0);
    assert_eq!(s.current_field(), 0);
    assert_eq!(fields(&s), vec![19675, 0, 19675, 22]);
    assert_eq!(s.field(4), None);
}

#[test]
fn new_selection_before_1970_starts_at_day_zero() {
    let s = DateSelection::new(String::new(), String::new(), -5);
    assert_eq!(fields(&s), vec![0, 0, 0, 0]);
    let late = DateSelection::new(String::new(), String::new(), i64::MAX);
    assert_eq!(late.field(0), Some(LAST_DAY));
    assert_eq!(late.field(2), Some(LAST_DAY));
}

#[test]
fn quick_spans_are_the_fixed_set() {
    let spans: Vec<i64> = (0..QUICK_RANGES).map(quick_span_millis).collect();
    assert_eq!(
        spans,
        vec![
            900_000,
            3_600_000,
            10_800_000,
            21_600_000,
            43_200_000,
            86_400_000,
            259_200_000,
            604_800_000
        ]
    );
}

#[test]
fn quick_range_ends_now() {
    let mut s = selection();
    assert_eq!(s.resolve(NOW), Ok(TimeRange { from: NOW - 900_000, to: NOW }));
    s.next_quick_range();
    assert_eq!(s.resolve(NOW), Ok(TimeRange { from: NOW - 3_600_000, to: NOW }));
    s.previous_quick_range();
    s.previous_quick_range();
    assert_eq!(s.quick_range(), 7);
    assert_eq!(s.resolve(NOW), Ok(TimeRange { from: NOW - 7 * DAY_MILLIS, to: NOW }));
}

#[test]
fn quick_range_near_the_first_instant_does_not_wrap() {
    let s = selection();
    assert_eq!(s.resolve(i64::MIN + 5), Ok(TimeRange { from: i64::MIN, to: i64::MIN + 5 }));
}

#[test]
fn up_and_down_cycle_through_the_quick_ranges() {
    let mut s = selection();
    s.up();
    assert_eq!(s.quick_range(), QUICK_RANGES - 1);
    s.down();
    assert_eq!(s.quick_range(), 0);
    for expected in 1..QUICK_RANGES {
        s.down();
        assert_eq!(s.quick_range(), expected);
    }
    s.down();
    assert_eq!(s.quick_range(), 0);
}

#[test]
fn left_and_right_stop_at_the_ends_of_the_quick_ranges() {
    let mut s = selection();
    s.left();
    assert_eq!(s.quick_range(), 0);
    for _ in 0..20 {
        s.right();
    }
    assert_eq!(s.quick_range(), QUICK_RANGES - 1);
    s.left();
    assert_eq!(s.quick_range(), QUICK_RANGES - 2);
}

#[test]
fn left_and_right_stop_at_the_ends_of_the_custom_fields() {
    let mut s = selection();
    s.select_column(ActiveColumn::CustomRange);
    s.left();
    assert_eq!(s.current_field(), 0);
    s.right();
    s.right();
    s.right();
    assert_eq!(s.current_field(), 3);
    s.right();
    assert_eq!(s.current_field(), 3);
    s.previous_field();
    assert_eq!(s.current_field(), 2);
    s.next_field();
    s.next_field();
    assert_eq!(s.current_field(), 3);
    assert_eq!(s.quick_range(), 0);
}

#[test]
fn editing_is_only_for_the_custom_column() {
    let mut s = selection();
    s.toggle_custom();
    assert!(!s.custom_selection());
    s.select_column(ActiveColumn::CustomRange);
    assert!(!s.custom_selection());
    s.toggle_custom();
    assert!(s.custom_selection());
    s.select_column(ActiveColumn::CustomRange);
    assert!(s.custom_selection());
    s.select_column(ActiveColumn::QuickRanges);
    assert!(!s.custom_selection());
    s.select_column(ActiveColumn::CustomRange);
    assert!(!s.custom_selection());
    s.toggle_custom();
    s.toggle_custom();
    assert!(!s.custom_selection());
}

#[test]
fn up_and_down_adjust_the_focused_field_while_editing() {
    let mut s = selection();
    s.select_column(ActiveColumn::CustomRange);
    s.up();
    assert_eq!(s.quick_range(), QUICK_RANGES - 1);
    assert_eq!(fields(&s), vec![19675, 0, 19675, 22]);
    s.toggle_custom();
    s.up();
    assert_eq!(fields(&s), vec![19676, 0, 19675, 22]);
    s.down();
    s.down();
    assert_eq!(fields(&s), vec![19674, 0, 19675, 22]);
    s.right();
    s.up();
    assert_eq!(fields(&s), vec![19674, 1, 19675, 22]);
    assert_eq!(s.quick_range(), QUICK_RANGES - 1);
}

#[test]
fn fields_stay_in_their_domain_and_do_not_carry() {
    let mut s = selection();
    s.select_column(ActiveColumn::CustomRange);
    s.toggle_custom();
    s.right();
    s.down();
    assert_eq!(fields(&s), vec![19675, 0, 19675, 22]);
    s.right();
    s.right();
    s.up();
    assert_eq!(fields(&s), vec![19675, 0, 19675, 23]);
    s.up();
    s.up();
    assert_eq!(fields(&s), vec![19675, 0, 19675, LAST_HOUR]);
    let mut early = DateSelection::new(String::new(), String::new(), 0);
    early.select_column(ActiveColumn::CustomRange);
    early.adjust_current_field(false);
    assert_eq!(fields(&early), vec![0, 0, 0, 0]);
    let mut late = DateSelection::new(String::new(), String::new(), i64::MAX);
    late.adjust_current_field(true);
    assert_eq!(late.field(0), Some(LAST_DAY));
}

#[test]
fn custom_range_is_assembled_from_its_fields() {
    let mut s = selection();
    s.select_column(ActiveColumn::CustomRange);
    assert_eq!(
        s.resolve(NOW),
        Ok(TimeRange { from: 19675 * DAY_MILLIS, to: 19675 * DAY_MILLIS + 22 * HOUR_MILLIS })
    );
    assert_eq!(s.resolve(0), s.resolve(NOW));
    s.adjust_current_field(false);
    s.next_field();
    s.adjust_current_field(true);
    assert_eq!(
        s.resolve(NOW),
        Ok(TimeRange {
            from: 19674 * DAY_MILLIS + HOUR_MILLIS,
            to: 19675 * DAY_MILLIS + 22 * HOUR_MILLIS
        })
    );
}

#[test]
fn custom_range_that_starts_after_its_end_is_refused() {
    let mut s = selection();
    s.select_column(ActiveColumn::CustomRange);
    s.adjust_current_field(true);
    assert_eq!(fields(&s), vec![19676, 0, 19675, 22]);
    assert_eq!(s.resolve(NOW), Err(ValidationError::FromAfterTo));
    s.select_column(ActiveColumn::QuickRanges);
    assert_eq!(s.resolve(NOW), Ok(TimeRange { from: NOW - 900_000, to: NOW }));
}

#[test]
fn custom_range_of_no_length_is_accepted() {
    let mut s = DateSelection::new(String::new(), String::new(), 3 * DAY_MILLIS);
    s.select_column(ActiveColumn::CustomRange);
    assert_eq!(s.resolve(0), Ok(TimeRange { from: 3 * DAY_MILLIS, to: 3 * DAY_MILLIS }));
}

#[test]
fn quick_ranges_have_names() {
    let names: Vec<&str> = (0..QUICK_RANGES).map(quick_range_name).collect();
    assert_eq!(
        names,
        vec![
            "Last 15 minutes",
            "Last hour",
            "Last 3 hours",
            "Last 6 hours",
            "Last 12 hours",
            "Last 24 hours",
            "Last 3 days",
            "Last 7 days"
        ]
    );
}

#[test]
fn refused_range_says_why() {
    assert_eq!(ValidationError::FromAfterTo.message(), "The range starts after its end");
}
