//! The controller: a drag turns the camera, a scroll moves it along its view.

use vstd::prelude::*;
use crate::angle::{wrap, wrap_angle};
use crate::input::{FrameInput, PointerDelta};
use crate::settings::CameraSettings;
use crate::transform::{saturated, shift, CameraTransform, Direction, Orientation, Position};

verus! {

/// The distance that the camera travels for one unit of scroll, in input
/// units: one half.
pub const ZOOM_SPEED: i64 = 500_000;

/// The change of yaw that a pointer movement asks for. Dragging to the right
/// turns the view to the left.
pub open spec fn yaw_step(settings: CameraSettings, delta: PointerDelta) -> int {
    -(delta.dx * settings.yaw_speed)
}

/// The change of pitch that a pointer movement asks for. Dragging down tilts
/// the view up.
pub open spec fn pitch_step(settings: CameraSettings, delta: PointerDelta) -> int {
    -(delta.dy * settings.pitch_speed)
}

/// The orientation after a drag: the yaw takes its step and wraps, the pitch
/// takes its step and stops at the ends of the range, and the roll stays.
pub open spec fn turned_by(rotation: Orientation, settings: CameraSettings, delta: PointerDelta)
    -> Orientation {
    Orientation {
        yaw: wrap_angle(rotation.yaw + yaw_step(settings, delta)) as i64,
        pitch: settings.pitch_range.clamped(rotation.pitch + pitch_step(settings, delta)) as i64,
        roll: rotation.roll,
    }
}

/// The orientation after a frame: turned by the frame's drag if it has one,
/// and the orientation before if it has none.
pub open spec fn orbited(rotation: Orientation, settings: CameraSettings, input: FrameInput)
    -> Orientation {
    match input.drag() {
        Some(delta) => turned_by(rotation, settings, delta),
        None => rotation,
    }
}

/// The product of a pointer movement along one axis and a sensitivity,
/// negated.
fn step(moved: i64, speed: i64) -> (angle: i128)
    ensures
        angle == -(moved * speed),
        -0x4000_0000_0000_0000_0000_0000_0000_0000 <= angle <= 0x4000_0000_0000_0000_0000_0000_0000_0000,
{
    assert(-0x4000_0000_0000_0000_0000_0000_0000_0000 <= moved * speed
        <= 0x4000_0000_0000_0000_0000_0000_0000_0000) by (nonlinear_arith)
        requires
            -0x8000_0000_0000_0000 <= moved <= 0x7fff_ffff_ffff_ffff,
            -0x8000_0000_0000_0000 <= speed <= 0x7fff_ffff_ffff_ffff,
    ;
    -((moved as i128) * (speed as i128))
}

/// Turns the camera by the drag of one frame.
///
/// A frame drags if the pointer moved in it while the primary button was
/// held. Any other frame leaves the orientation exactly as it was. `rotation`
/// holds the angles that the camera's rotation comes apart into, and the
/// result those that it is put together from again.
pub fn orbit(rotation: Orientation, settings: &CameraSettings, input: &FrameInput) -> (turned:
    Orientation)
    ensures
        turned == orbited(rotation, *settings, *input),
        input.drag() matches Some(delta) ==> {
            &&& turned.yaw == wrap_angle(rotation.yaw + yaw_step(*settings, delta))
            &&& turned.pitch == settings.pitch_range.clamped(
                rotation.pitch + pitch_step(*settings, delta),
            )
            &&& turned.roll == rotation.roll
            &&& turned.yaw_is_wrapped()
            &&& settings.pitch_range.holds(turned.pitch as int)
        },
        input.drag() is None ==> turned == rotation,
        !input.primary_held ==> turned == rotation,
        input.motion is None ==> turned == rotation,
{
    match input.drag_delta() {
        Some(delta) => {
            let yaw: i128 = rotation.yaw as i128 + step(delta.dx, settings.yaw_speed);
            let pitch: i128 = rotation.pitch as i128 + step(delta.dy, settings.pitch_speed);
            Orientation {
                yaw: wrap(yaw),
                pitch: settings.pitch_range.clamp(pitch),
                roll: rotation.roll,
            }
        },
        None => rotation,
    }
}

/// The distance that one scroll event asks for: the scroll amount times the
/// zoom speed. A length unit has `INPUT_SCALE * INPUT_SCALE` of the units it
/// is counted in.
pub open spec fn zoom_amount(scroll: i64) -> int {
    scroll * ZOOM_SPEED
}

/// The position after one scroll event: `translation` moved along `forward`
/// by the event's zoom amount.
pub open spec fn advanced(translation: Position, forward: Direction, scroll: i64) -> Position {
    Position {
        x: saturated(translation.x + forward.x * scroll * ZOOM_SPEED) as i128,
        y: saturated(translation.y + forward.y * scroll * ZOOM_SPEED) as i128,
        z: saturated(translation.z + forward.z * scroll * ZOOM_SPEED) as i128,
    }
}

/// The position after the scroll events of a frame, each applied to the
/// position that the one before it left.
pub open spec fn zoomed(translation: Position, forward: Direction, scrolls: Seq<i64>) -> Position
    decreases scrolls.len(),
{
    if scrolls.len() == 0 {
        translation
    } else {
        advanced(zoomed(translation, forward, scrolls.drop_last()), forward, scrolls.last())
    }
}

/// How far one component of the view direction carries one scroll event.
fn reach(component: i32, scroll: i64) -> (offset: i128)
    ensures
        offset == component * scroll * ZOOM_SPEED,
        offset == component * zoom_amount(scroll),
{
    assert(-0x4_0000_0000_0000_0000_0000 <= scroll * ZOOM_SPEED <= 0x4_0000_0000_0000_0000_0000)
        by (nonlinear_arith)
        requires
            -0x8000_0000_0000_0000 <= scroll <= 0x8000_0000_0000_0000,
            ZOOM_SPEED == 500_000,
    ;
    let amount: i128 = (scroll as i128) * (ZOOM_SPEED as i128);
    assert(-0x2_0000_0000_0000_0000_0000_0000_0000 <= component * amount
        <= 0x2_0000_0000_0000_0000_0000_0000_0000 && component * amount == component * scroll
        * ZOOM_SPEED) by (nonlinear_arith)
        requires
            -0x8000_0000 <= component <= 0x8000_0000,
            -0x4_0000_0000_0000_0000_0000 <= amount <= 0x4_0000_0000_0000_0000_0000,
            amount == scroll * ZOOM_SPEED,
    ;
    (component as i128) * amount
}

/// Moves the camera along its view direction by one scroll event.
pub fn zoom_step(translation: Position, forward: Direction, scroll: i64) -> (moved: Position)
    ensures
        moved == advanced(translation, forward, scroll),
        moved.x == saturated(translation.x + forward.x * scroll * ZOOM_SPEED),
        moved.y == saturated(translation.y + forward.y * scroll * ZOOM_SPEED),
        moved.z == saturated(translation.z + forward.z * scroll * ZOOM_SPEED),
{
    Position {
        x: shift(translation.x, reach(forward.x, scroll)),
        y: shift(translation.y, reach(forward.y, scroll)),
        z: shift(translation.z, reach(forward.z, scroll)),
    }
}

/// Moves the camera along its view direction by the scroll events of one
/// frame, one after the other. `forward` is the view direction of the
/// camera's rotation at the time of the call.
pub fn zoom(translation: Position, forward: Direction, scrolls: &[i64]) -> (moved: Position)
    ensures
        moved == zoomed(translation, forward, scrolls@),
        scrolls@.len() == 0 ==> moved == translation,
{
    let mut moved = translation;
    let mut done: usize = 0;
    while done < scrolls.len()
        invariant
            done <= scrolls.len(),
            moved == zoomed(translation, forward, scrolls@.take(done as int)),
        decreases scrolls.len() - done,
    {
        proof {
            let next = scrolls@.take(done + 1);
            assert(next.drop_last() == scrolls@.take(done as int));
            assert(next.last() == scrolls@[done as int]);
        }
        moved = zoom_step(moved, forward, scrolls[done]);
        done = done + 1;
    }
    proof {
        assert(scrolls@.take(done as int) == scrolls@);
    }
    moved
}

impl CameraTransform {
    /// Turns the camera by the drag of one frame and leaves it where it is.
    pub fn orbit(&mut self, settings: &CameraSettings, input: &FrameInput)
        ensures
            final(self).rotation == orbited(old(self).rotation, *settings, *input),
            final(self).translation == old(self).translation,
            input.drag() is Some ==> settings.pitch_range.holds(final(self).rotation.pitch as int)
                && final(self).rotation.yaw_is_wrapped(),
            input.drag() is None ==> *final(self) == *old(self),
    {
        self.rotation = orbit(self.rotation, settings, input);
    }

    /// Moves the camera along its view direction by the scroll events of one
    /// frame and leaves its rotation alone. `forward` is the view direction
    /// of the camera's rotation at the time of the call.
    pub fn zoom(&mut self, forward: Direction, input: &FrameInput)
        ensures
            final(self).translation == zoomed(old(self).translation, forward, input.scrolls@),
            final(self).rotation == old(self).rotation,
            input.scrolls@.len() == 0 ==> *final(self) == *old(self),
    {
        self.translation = zoom(self.translation, forward, input.scrolls.as_slice());
    }
}

} // verus!
