use orbit_camera::angle::{wrap, FULL_TURN, HALF_TURN, QUARTER_TURN};
use orbit_camera::scale::{ANGLE_SCALE, INPUT_SCALE, POSITION_SCALE};
use orbit_camera::settings::{CameraSettings, PitchRange, DEFAULT_PITCH_LIMIT};

#[test]
fn default_settings_have_the_documented_values() {
    let settings = CameraSettings::default();
    assert_eq!(settings.orbit_distance, 20_000_000);
    assert_eq!(settings.pitch_speed, 3_000);
    assert_eq!(settings.yaw_speed, 4_000);
    assert_eq!(settings.roll_speed, 1_000_000);
    assert_eq!(settings.pitch_range.lower(), -1_560_796_326_795);
    assert_eq!(settings.pitch_range.upper(), 1_560_796_326_795);
}

#[test]
fn default_pitch_limit_is_a_hundredth_radian_short_of_the_pole() {
    assert_eq!(DEFAULT_PITCH_LIMIT, QUARTER_TURN - ANGLE_SCALE / 100);
}

#[test]
fn scales_are_powers_of_a_million() {
    assert_eq!(INPUT_SCALE, 1_000_000);
    assert_eq!(ANGLE_SCALE, INPUT_SCALE * INPUT_SCALE);
    assert_eq!(POSITION_SCALE, (ANGLE_SCALE as i128) * (INPUT_SCALE as i128));
}

#[test]
fn turns_are_multiples_of_the_quarter_turn() {
    assert_eq!(QUARTER_TURN, 1_570_796_326_795);
    assert_eq!(HALF_TURN, 2 * QUARTER_TURN);
    assert_eq!(FULL_TURN, 4 * QUARTER_TURN);
}

#[test]
fn pitch_range_accepts_legal_bounds() {
    let range = PitchRange::new(-500_000_000_000, 750_000_000_000).unwrap();
    assert_eq!(range.lower(), -500_000_000_000);
    assert_eq!(range.upper(), 750_000_000_000);
}

#[test]
fn pitch_range_accepts_bounds_next_to_the_poles() {
    let range = PitchRange::new(-QUARTER_TURN + 1, QUARTER_TURN - 1).unwrap();
    assert_eq!(range.lower(), -1_570_796_326_794);
    assert_eq!(range.upper(), 1_570_796_326_794);
}

#[test]
fn pitch_range_rejects_an_empty_interval() {
    assert_eq!(PitchRange::new(100, 100), None);
}

#[test]
fn pitch_range_rejects_inverted_bounds() {
    assert_eq!(PitchRange::new(200, 100), None);
}

#[test]
fn pitch_range_rejects_a_bound_at_a_pole() {
    assert_eq!(PitchRange::new(0, QUARTER_TURN), None);
    assert_eq!(PitchRange::new(-QUARTER_TURN, 0), None);
}

#[test]
fn pitch_range_rejects_bounds_beyond_the_poles() {
    assert_eq!(PitchRange::new(0, i64::MAX), None);
    assert_eq!(PitchRange::new(i64::MIN, 0), None);
    assert_eq!(PitchRange::new(i64::MIN, i64::MAX), None);
}

#[test]
fn pitch_range_contains_its_bounds() {
    let range = PitchRange::new(-10, 20).unwrap();
    assert!(range.contains(-10));
    assert!(range.contains(0));
    assert!(range.contains(20));
    assert!(!range.contains(-11));
    assert!(!range.contains(21));
}

#[test]
fn clamp_leaves_a_pitch_inside_the_range() {
    let range = PitchRange::new(-10, 20).unwrap();
    assert_eq!(range.clamp(-10), -10);
    assert_eq!(range.clamp(7), 7);
    assert_eq!(range.clamp(20), 20);
}

#[test]
fn clamp_stops_at_the_nearer_bound() {
    let range = PitchRange::new(-10, 20).unwrap();
    assert_eq!(range.clamp(-11), -10);
    assert_eq!(range.clamp(21), 20);
    assert_eq!(range.clamp(i128::MIN), -10);
    assert_eq!(range.clamp(i128::MAX), 20);
}

#[test]
fn wrap_leaves_an_angle_within_half_a_turn() {
    assert_eq!(wrap(0), 0);
    assert_eq!(wrap(1), 1);
    assert_eq!(wrap(-1), -1);
    assert_eq!(wrap(HALF_TURN as i128 - 1), HALF_TURN - 1);
    assert_eq!(wrap(-(HALF_TURN as i128)), -HALF_TURN);
}

#[test]
fn wrap_takes_half_a_turn_to_its_negative() {
    assert_eq!(wrap(HALF_TURN as i128), -HALF_TURN);
}

#[test]
fn wrap_removes_whole_turns() {
    assert_eq!(wrap(FULL_TURN as i128), 0);
    assert_eq!(wrap(-(FULL_TURN as i128)), 0);
    assert_eq!(wrap(3 * FULL_TURN as i128 + 17), 17);
    assert_eq!(wrap(-5 * FULL_TURN as i128 - 17), -17);
    assert_eq!(wrap(3_400_000_000_000), -2_883_185_307_180);
}

#[test]
fn wrap_takes_the_largest_and_the_smallest_angle() {
    assert_eq!(wrap(i128::MAX), 215_962_961_967);
    assert_eq!(wrap(i128::MIN), -215_962_961_968);
}
