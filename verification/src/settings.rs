//! The configuration of the controller and the pitch range it keeps.

use vstd::prelude::*;
use crate::angle::QUARTER_TURN;
use crate::scale::ANGLE_SCALE;

verus! {

/// The pitch limit that the default range puts on either side of the horizon:
/// a quarter turn less a hundredth of a radian.
pub const DEFAULT_PITCH_LIMIT: i64 = 1_560_796_326_795;

/// The closed interval of pitch angles that the camera may take.
///
/// A range exists only with `lower < upper` and both bounds strictly between
/// the poles, so that the yaw of an orientation inside it is always defined.
#[derive(Clone, Copy, Debug, PartialEq, Eq)]
pub struct PitchRange {
    lower: i64,
    upper: i64,
}

impl PitchRange {
    #[verifier::type_invariant]
    spec fn bounds_are_legal(self) -> bool {
        Self::legal(self.lower as int, self.upper as int)
    }

    /// Whether `lower` and `upper` may bound a range.
    pub open spec fn legal(lower: int, upper: int) -> bool {
        -QUARTER_TURN < lower < upper < QUARTER_TURN
    }

    /// The lowest pitch of the range.
    pub closed spec fn spec_lower(&self) -> i64 {
        self.lower
    }

    /// The highest pitch of the range.
    pub closed spec fn spec_upper(&self) -> i64 {
        self.upper
    }

    /// What the type guarantees of every range that executable code holds.
    pub open spec fn well_formed(self) -> bool {
        Self::legal(self.lower() as int, self.upper() as int)
    }

    /// Whether `pitch` lies within the range, bounds included.
    pub open spec fn holds(self, pitch: int) -> bool {
        self.lower() <= pitch <= self.upper()
    }

    /// The angle of the range that is nearest to `pitch`.
    pub open spec fn clamped(self, pitch: int) -> int {
        if pitch < self.lower() {
            self.lower() as int
        } else if pitch > self.upper() {
            self.upper() as int
        } else {
            pitch
        }
    }

    /// The range from `lower` to `upper`, or nothing if the two are not legal
    /// bounds.
    pub fn new(lower: i64, upper: i64) -> (range: Option<PitchRange>)
        ensures
            range.is_some() <==> Self::legal(lower as int, upper as int),
            range matches Some(r) ==> r.lower() == lower && r.upper() == upper && r.well_formed(),
    {
        if -QUARTER_TURN < lower && lower < upper && upper < QUARTER_TURN {
            Some(PitchRange { lower, upper })
        } else {
            None
        }
    }

    /// The lowest pitch of the range.
    #[verifier::when_used_as_spec(spec_lower)]
    pub fn lower(&self) -> (bound: i64)
        ensures
            bound == self.lower(),
            self.well_formed(),
    {
        proof {
            use_type_invariant(self);
        }
        self.lower
    }

    /// The highest pitch of the range.
    #[verifier::when_used_as_spec(spec_upper)]
    pub fn upper(&self) -> (bound: i64)
        ensures
            bound == self.upper(),
            self.well_formed(),
    {
        proof {
            use_type_invariant(self);
        }
        self.upper
    }

    /// Whether `pitch` lies within the range, bounds included.
    pub fn contains(&self, pitch: i64) -> (inside: bool)
        ensures
            inside == self.holds(pitch as int),
    {
        self.lower <= pitch && pitch <= self.upper
    }

    /// Brings a pitch of any size into the range.
    pub fn clamp(&self, pitch: i128) -> (kept: i64)
        ensures
            kept == self.clamped(pitch as int),
            self.holds(kept as int),
            self.holds(pitch as int) ==> kept == pitch,
    {
        proof {
            use_type_invariant(self);
        }
        if pitch < self.lower as i128 {
            self.lower
        } else if pitch > self.upper as i128 {
            self.upper
        } else {
            pitch as i64
        }
    }
}

/// The sensitivities of the controller and the pitch range it keeps.
///
/// The distance and the three speeds are in input units: a speed of
/// `INPUT_SCALE` turns the camera by one radian for each unit of pointer
/// movement.
#[derive(Clone, Copy, Debug, PartialEq, Eq)]
pub struct CameraSettings {
    pub orbit_distance: i64,
    pub pitch_speed: i64,
    pub pitch_range: PitchRange,
    pub roll_speed: i64,
    pub yaw_speed: i64,
}

impl Default for CameraSettings {
    /// A distance of twenty, three and four thousandths of a radian of pitch
    /// and yaw for each unit of pointer movement, a roll speed of one, and
    /// the pitch kept within the default limit on either side.
    fn default() -> (settings: CameraSettings)
        ensures
            settings.orbit_distance == 20_000_000,
            settings.pitch_speed == 3_000,
            settings.yaw_speed == 4_000,
            settings.roll_speed == 1_000_000,
            settings.pitch_range.lower() == -DEFAULT_PITCH_LIMIT,
            settings.pitch_range.upper() == DEFAULT_PITCH_LIMIT,
            settings.pitch_range.upper() == QUARTER_TURN - ANGLE_SCALE / 100,
            settings.pitch_range.well_formed(),
    {
        CameraSettings {
            orbit_distance: 20_000_000,
            pitch_speed: 3_000,
            pitch_range: PitchRange { lower: -DEFAULT_PITCH_LIMIT, upper: DEFAULT_PITCH_LIMIT },
            roll_speed: 1_000_000,
            yaw_speed: 4_000,
        }
    }
}

} // verus!
