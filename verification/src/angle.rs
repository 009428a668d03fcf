//! The turn that angles wrap around. An angle is a whole number of angle
//! units, of which a radian has `ANGLE_SCALE`.

use vstd::prelude::*;

verus! {

/// A quarter of a turn, the angle between the horizon and the pole: half of
/// pi radians, to the nearest angle unit.
pub const QUARTER_TURN: i64 = 1_570_796_326_795;

/// Half a turn.
pub const HALF_TURN: i64 = 3_141_592_653_590;

/// One full turn.
pub const FULL_TURN: i64 = 6_283_185_307_180;

/// The angle in `[-HALF_TURN, HALF_TURN)` that differs from `angle` by a
/// whole number of turns.
pub open spec fn wrap_angle(angle: int) -> int {
    (angle + HALF_TURN) % (FULL_TURN as int) - HALF_TURN
}

/// Whether two angles denote the same direction.
pub open spec fn same_direction(a: int, b: int) -> bool {
    (a - b) % (FULL_TURN as int) == 0
}

/// Reduces an angle to the half-open turn around zero.
pub fn wrap(angle: i128) -> (wrapped: i64)
    ensures
        wrapped == wrap_angle(angle as int),
        -HALF_TURN <= wrapped < HALF_TURN,
        same_direction(wrapped as int, angle as int),
{
    let full: i128 = FULL_TURN as i128;
    let half: i128 = HALF_TURN as i128;
    let within: i128 = match angle.checked_rem_euclid(full) {
        Some(r) => r,
        None => 0,
    };
    let shifted: i128 = if within >= half {
        within - half
    } else {
        within + half
    };
    (shifted - half) as i64
}

} // verus!
