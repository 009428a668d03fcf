//! The camera's orientation and position, and the direction it looks in.

use vstd::prelude::*;
use crate::angle::{same_direction, HALF_TURN};

verus! {

/// An orientation as three angles: yaw around the world's up axis, then pitch
/// around the camera's right axis, then roll around its forward axis.
#[derive(Clone, Copy, Debug, PartialEq, Eq)]
pub struct Orientation {
    pub yaw: i64,
    pub pitch: i64,
    pub roll: i64,
}

impl Orientation {
    /// Whether the yaw is the one of its direction that lies in
    /// `[-HALF_TURN, HALF_TURN)`.
    pub open spec fn yaw_is_wrapped(self) -> bool {
        -HALF_TURN <= self.yaw < HALF_TURN
    }

    /// Whether `self` and `other` are the same rotation: the same pitch and
    /// roll, and yaws that differ by whole turns.
    pub open spec fn same_rotation(self, other: Orientation) -> bool {
        &&& same_direction(self.yaw as int, other.yaw as int)
        &&& self.pitch == other.pitch
        &&& self.roll == other.roll
    }
}

/// The direction in which the camera looks: the components of a unit vector,
/// each in input units.
#[derive(Clone, Copy, Debug, PartialEq, Eq)]
pub struct Direction {
    pub x: i32,
    pub y: i32,
    pub z: i32,
}

impl Direction {
    /// The square of the vector's length.
    pub open spec fn length_squared(self) -> int {
        self.x * self.x + self.y * self.y + self.z * self.z
    }
}

/// A position in space, in position units, of which a length unit has
/// `POSITION_SCALE`.
#[derive(Clone, Copy, Debug, PartialEq, Eq)]
pub struct Position {
    pub x: i128,
    pub y: i128,
    pub z: i128,
}

/// The way from one position to another, in position units.
pub struct Offset {
    pub x: int,
    pub y: int,
    pub z: int,
}

impl Offset {
    /// Whether the offset points along `direction` or against it: the cross
    /// product of the two is zero.
    pub open spec fn is_along(self, direction: Direction) -> bool {
        &&& self.y * direction.z == self.z * direction.y
        &&& self.z * direction.x == self.x * direction.z
        &&& self.x * direction.y == self.y * direction.x
    }

    /// The square of the offset's length.
    pub open spec fn length_squared(self) -> int {
        self.x * self.x + self.y * self.y + self.z * self.z
    }
}

impl Position {
    /// The way from `origin` to this position.
    pub open spec fn offset_from(self, origin: Position) -> Offset {
        Offset { x: self.x - origin.x, y: self.y - origin.y, z: self.z - origin.z }
    }
}

/// The coordinate nearest to `exact` that a position can hold.
pub open spec fn saturated(exact: int) -> int {
    if exact < i128::MIN {
        i128::MIN as int
    } else if exact > i128::MAX {
        i128::MAX as int
    } else {
        exact
    }
}

/// Moves a coordinate by `offset` and stops at the ends of what a position
/// can hold.
pub fn shift(coordinate: i128, offset: i128) -> (moved: i128)
    ensures
        moved == saturated(coordinate + offset),
{
    match coordinate.checked_add(offset) {
        Some(sum) => sum,
        None => if offset < 0 {
            i128::MIN
        } else {
            i128::MAX
        },
    }
}

/// What the controller reads and writes of a camera.
#[derive(Clone, Copy, Debug, PartialEq, Eq)]
pub struct CameraTransform {
    pub rotation: Orientation,
    pub translation: Position,
}

} // verus!
