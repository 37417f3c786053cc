use beat_hopper::clock::{
    advance, count_down, crossing, sub_beat_at, MICROS_PER_MINUTE, MICROS_PER_SECOND,
};

#[test]
fn a_minute_has_sixty_seconds() {
    assert_eq!(MICROS_PER_SECOND, 1_000_000);
    assert_eq!(MICROS_PER_MINUTE, 60 * MICROS_PER_SECOND);
}

#[test]
fn sub_beat_counts_four_to_the_beat() {
    // at 120 beats per minute a sub-beat lasts 125 ms
    assert_eq!(sub_beat_at(0, 120), 0);
    assert_eq!(sub_beat_at(124_999, 120), 0);
    assert_eq!(sub_beat_at(125_000, 120), 1);
    assert_eq!(sub_beat_at(1_000_000, 120), 8);
    assert_eq!(sub_beat_at(60_000_000, 120), 480);
    // at 48 beats per minute it lasts 312.5 ms
    assert_eq!(sub_beat_at(312_499, 48), 0);
    assert_eq!(sub_beat_at(312_500, 48), 1);
    assert_eq!(sub_beat_at(1_875_000, 48), 6);
}

#[test]
fn sub_beat_rounds_down_before_the_start() {
    assert_eq!(sub_beat_at(-1, 120), -1);
    assert_eq!(sub_beat_at(-125_000, 120), -1);
    assert_eq!(sub_beat_at(-125_001, 120), -2);
    assert_eq!(sub_beat_at(-4_000_000, 120), -32);
    assert_eq!(sub_beat_at(-4_000_000, 48), -13);
    assert_eq!(sub_beat_at(-500_000, 300), -10);
}

#[test]
fn sub_beat_stops_at_the_ends_of_the_counter() {
    assert_eq!(sub_beat_at(i64::MAX, i32::MAX), i32::MAX);
    assert_eq!(sub_beat_at(i64::MIN, i32::MAX), i32::MIN);
    assert_eq!(sub_beat_at(i64::MAX, i32::MIN), i32::MIN);
    assert_eq!(sub_beat_at(i64::MAX, 0), 0);
    assert_eq!(sub_beat_at(i64::MAX, 1), i32::MAX);
}

#[test]
fn clock_fires_on_a_new_sub_beat_of_the_started_song() {
    assert_eq!(crossing(0, 1), Some(1));
    assert_eq!(crossing(-1, 0), Some(0));
    assert_eq!(crossing(0, 0), None);
    assert_eq!(crossing(7, 7), None);
    assert_eq!(crossing(5, 3), None);
}

#[test]
fn clock_keeps_still_during_the_countdown() {
    assert_eq!(crossing(-13, -12), None);
    assert_eq!(crossing(-3, -1), None);
    assert_eq!(crossing(i32::MIN, -1), None);
}

#[test]
fn clock_fires_once_for_a_step_over_several_sub_beats() {
    assert_eq!(crossing(0, 5), Some(5));
    assert_eq!(crossing(-4, 9), Some(9));
    assert_eq!(crossing(i32::MIN, i32::MAX), Some(i32::MAX));
}

#[test]
fn time_moves_on_and_stops_at_its_end() {
    assert_eq!(advance(-4_000_000, 16_667), -3_983_333);
    assert_eq!(advance(0, 0), 0);
    assert_eq!(advance(i64::MAX - 5, 5), i64::MAX);
    assert_eq!(advance(i64::MAX - 5, 6), i64::MAX);
    assert_eq!(advance(i64::MAX, u32::MAX), i64::MAX);
    assert_eq!(advance(i64::MIN, u32::MAX), i64::MIN + u32::MAX as i64);
}

#[test]
fn countdown_runs_below_zero() {
    assert_eq!(count_down(100_000, 16_000), 84_000);
    assert_eq!(count_down(10_000, 16_000), -6_000);
    assert_eq!(count_down(i64::MIN + 3, 3), i64::MIN);
    assert_eq!(count_down(i64::MIN + 3, 4), i64::MIN);
    assert_eq!(count_down(i64::MAX, u32::MAX), i64::MAX - u32::MAX as i64);
}
