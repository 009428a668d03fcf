//! The resolutions in which the controller counts.
//!
//! What enters the controller is counted in millionths. An angle is the
//! product of a pointer movement and a sensitivity, so it is counted in
//! millionths of millionths of a radian. A way travelled is the product of a
//! view direction, a scroll amount and the zoom speed, so a position is
//! counted in millionths of millionths of millionths of a length unit.

use vstd::prelude::*;

verus! {

/// The number of input units in one: a pointer movement of one unit, a scroll
/// of one unit, a speed of one, a direction component of one.
pub const INPUT_SCALE: i64 = 1_000_000;

/// The number of angle units in one radian: the square of `INPUT_SCALE`.
pub const ANGLE_SCALE: i64 = 1_000_000_000_000;

/// The number of position units in one length unit: the cube of
/// `INPUT_SCALE`.
pub const POSITION_SCALE: i128 = 1_000_000_000_000_000_000;

} // verus!
