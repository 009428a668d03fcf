//! What holds of the controller on every input.

use vstd::arithmetic::mul::{
    lemma_mul_is_associative, lemma_mul_is_commutative, lemma_mul_is_distributive_add,
};
use vstd::prelude::*;
use crate::angle::wrap_angle;
use crate::controller::{
    advanced, orbited, pitch_step, turned_by, yaw_step, zoom_amount, zoomed, ZOOM_SPEED,
};
use crate::input::{FrameInput, PointerDelta};
use crate::scale::INPUT_SCALE;
use crate::settings::CameraSettings;
use crate::transform::{Direction, Orientation, Position};

verus! {

/// Wrapping an angle before adding to it changes nothing once the sum is
/// wrapped.
pub proof fn lemma_wrap_absorbs_wrap(angle: int, step: int)
    ensures
        wrap_angle(wrap_angle(angle) + step) == wrap_angle(angle + step),
{
}

/// A frame in which the primary button is not held leaves the orientation
/// exactly as it was, whatever the pointer did.
pub proof fn theorem_released_button_keeps_orientation(
    rotation: Orientation,
    settings: CameraSettings,
    input: FrameInput,
)
    requires
        !input.primary_held,
    ensures
        orbited(rotation, settings, input) == rotation,
{
}

/// After a drag the pitch lies within the range, however far the pointer
/// moved, and the yaw is wrapped.
pub proof fn theorem_drag_keeps_pitch_in_range(
    rotation: Orientation,
    settings: CameraSettings,
    delta: PointerDelta,
)
    requires
        settings.pitch_range.well_formed(),
    ensures
        settings.pitch_range.holds(turned_by(rotation, settings, delta).pitch as int),
        turned_by(rotation, settings, delta).yaw_is_wrapped(),
        turned_by(rotation, settings, delta).roll == rotation.roll,
{
}

/// A pitch at an end of the range stays there under a drag that pushes
/// further out.
pub proof fn theorem_pitch_stops_at_limits(
    rotation: Orientation,
    settings: CameraSettings,
    delta: PointerDelta,
)
    requires
        settings.pitch_range.well_formed(),
    ensures
        rotation.pitch == settings.pitch_range.upper() && pitch_step(settings, delta) >= 0
            ==> turned_by(rotation, settings, delta).pitch == settings.pitch_range.upper(),
        rotation.pitch == settings.pitch_range.lower() && pitch_step(settings, delta) <= 0
            ==> turned_by(rotation, settings, delta).pitch == settings.pitch_range.lower(),
{
}

/// A frame without pointer movement, or with a movement of zero, leaves an
/// orientation whose pitch is within the range as the same rotation: pitch
/// and roll are untouched and the yaw keeps its direction. An orientation
/// whose yaw is wrapped is left exactly as it was.
pub proof fn theorem_still_frame_keeps_orientation(
    rotation: Orientation,
    settings: CameraSettings,
    input: FrameInput,
)
    requires
        settings.pitch_range.holds(rotation.pitch as int),
        input.motion is None || input.motion == Some(PointerDelta { dx: 0, dy: 0 }),
    ensures
        orbited(rotation, settings, input).same_rotation(rotation),
        rotation.yaw_is_wrapped() ==> orbited(rotation, settings, input) == rotation,
{
    if input.drag() is Some {
        let still = PointerDelta { dx: 0, dy: 0 };
        assert(yaw_step(settings, still) == 0);
        assert(pitch_step(settings, still) == 0);
    }
}

/// The orientation after `times` frames that all bring the same drag.
pub open spec fn turned_times(
    rotation: Orientation,
    settings: CameraSettings,
    delta: PointerDelta,
    times: nat,
) -> Orientation
    decreases times,
{
    if times == 0 {
        rotation
    } else {
        turned_by(turned_times(rotation, settings, delta, (times - 1) as nat), settings, delta)
    }
}

/// Drags accumulate: a number of frames with the same drag leave the
/// orientation that one frame with the sum of the drags leaves. The yaw wraps
/// the same way on both roads. For a drag that moves the pitch, the pitch
/// must start within the range.
pub proof fn theorem_drags_accumulate(
    rotation: Orientation,
    settings: CameraSettings,
    delta: PointerDelta,
    total: PointerDelta,
    times: nat,
)
    requires
        settings.pitch_range.well_formed(),
        times >= 1,
        total.dx == times * delta.dx,
        total.dy == times * delta.dy,
        delta.dy == 0 || settings.pitch_range.holds(rotation.pitch as int),
    ensures
        turned_times(rotation, settings, delta, times) == turned_by(rotation, settings, total),
    decreases times,
{
    if times == 1 {
        assert(times * delta.dx == delta.dx && times * delta.dy == delta.dy) by (nonlinear_arith)
            requires
                times == 1,
        ;
        assert(total == delta);
        assert(turned_times(rotation, settings, delta, 0) == rotation);
    } else {
        let before = (times - 1) as nat;
        assert(before * delta.dx + delta.dx == times * delta.dx
            && before * delta.dy + delta.dy == times * delta.dy) by (nonlinear_arith)
            requires
                before + 1 == times,
        ;
        assert(i64::MIN <= before * delta.dx <= i64::MAX) by (nonlinear_arith)
            requires
                before >= 1,
                i64::MIN <= (before + 1) * delta.dx <= i64::MAX,
                i64::MIN <= delta.dx <= i64::MAX,
        ;
        assert(i64::MIN <= before * delta.dy <= i64::MAX) by (nonlinear_arith)
            requires
                before >= 1,
                i64::MIN <= (before + 1) * delta.dy <= i64::MAX,
                i64::MIN <= delta.dy <= i64::MAX,
        ;
        let partial = PointerDelta {
            dx: (before * delta.dx) as i64,
            dy: (before * delta.dy) as i64,
        };
        theorem_drags_accumulate(rotation, settings, delta, partial, before);
        let midway = turned_by(rotation, settings, partial);
        assert(turned_times(rotation, settings, delta, times) == turned_by(
            midway,
            settings,
            delta,
        ));

        let yaw_speed = settings.yaw_speed as int;
        let pitch_speed = settings.pitch_speed as int;
        assert(yaw_step(settings, partial) + yaw_step(settings, delta) == yaw_step(settings, total))
            by (nonlinear_arith)
            requires
                yaw_step(settings, partial) == -((before * delta.dx) * yaw_speed),
                yaw_step(settings, delta) == -(delta.dx * yaw_speed),
                yaw_step(settings, total) == -((times * delta.dx) * yaw_speed),
                before + 1 == times,
        ;
        lemma_wrap_absorbs_wrap(
            rotation.yaw + yaw_step(settings, partial),
            yaw_step(settings, delta),
        );

        let once = pitch_step(settings, delta);
        assert(pitch_step(settings, partial) == before * once && pitch_step(settings, total)
            == before * once + once) by (nonlinear_arith)
            requires
                pitch_step(settings, partial) == -((before * delta.dy) * pitch_speed),
                once == -(delta.dy * pitch_speed),
                pitch_step(settings, total) == -((times * delta.dy) * pitch_speed),
                before + 1 == times,
        ;
        assert((once >= 0 ==> before * once >= 0) && (once <= 0 ==> before * once <= 0))
            by (nonlinear_arith)
            requires
                before >= 1,
        ;
        if delta.dy == 0 {
            assert(once == 0);
        }
        assert(midway.pitch == settings.pitch_range.clamped(
            rotation.pitch + pitch_step(settings, partial),
        ));
    }
}

/// One scroll event moves the camera along its view direction and nowhere
/// else: the way it went is the view direction times the zoom amount. So the
/// way is parallel to the view direction, and its length is the zoom amount
/// times the length of the view direction, which for a view direction of
/// length one is the zoom amount itself. This holds wherever the camera stays
/// within what a position can hold.
pub proof fn theorem_zoom_moves_along_forward(
    translation: Position,
    forward: Direction,
    scroll: i64,
)
    requires
        i128::MIN <= translation.x + forward.x * zoom_amount(scroll) <= i128::MAX,
        i128::MIN <= translation.y + forward.y * zoom_amount(scroll) <= i128::MAX,
        i128::MIN <= translation.z + forward.z * zoom_amount(scroll) <= i128::MAX,
    ensures
        ({
            let way = advanced(translation, forward, scroll).offset_from(translation);
            &&& way.x == forward.x * zoom_amount(scroll)
            &&& way.y == forward.y * zoom_amount(scroll)
            &&& way.z == forward.z * zoom_amount(scroll)
            &&& way.is_along(forward)
            &&& way.length_squared() == zoom_amount(scroll) * zoom_amount(scroll)
                * forward.length_squared()
            &&& forward.length_squared() == INPUT_SCALE * INPUT_SCALE ==> way.length_squared() == (
            zoom_amount(scroll) * INPUT_SCALE) * (zoom_amount(scroll) * INPUT_SCALE)
        }),
{
    let amount = zoom_amount(scroll);
    let (fx, fy, fz) = (forward.x as int, forward.y as int, forward.z as int);
    let way = advanced(translation, forward, scroll).offset_from(translation);
    assert(way.x == fx * amount && way.y == fy * amount && way.z == fz * amount) by {
        lemma_mul_is_associative(fx, scroll as int, ZOOM_SPEED as int);
        lemma_mul_is_associative(fy, scroll as int, ZOOM_SPEED as int);
        lemma_mul_is_associative(fz, scroll as int, ZOOM_SPEED as int);
    }
    assert(way.is_along(forward)) by {
        lemma_scaled_cross(fy, fz, amount);
        lemma_scaled_cross(fz, fx, amount);
        lemma_scaled_cross(fx, fy, amount);
    }
    let square = amount * amount;
    assert(way.length_squared() == square * forward.length_squared()) by {
        lemma_scaled_square(fx, amount);
        lemma_scaled_square(fy, amount);
        lemma_scaled_square(fz, amount);
        lemma_mul_is_distributive_add(square, fx * fx + fy * fy, fz * fz);
        lemma_mul_is_distributive_add(square, fx * fx, fy * fy);
    }
    assert(square * (INPUT_SCALE * INPUT_SCALE) == (amount * INPUT_SCALE) * (amount * INPUT_SCALE))
        by {
        lemma_scaled_square(amount, INPUT_SCALE as int);
        lemma_mul_is_commutative(square, INPUT_SCALE * INPUT_SCALE);
    }
}

/// The square of a scaled number is the square of the scale times the square
/// of the number.
proof fn lemma_scaled_square(number: int, scale: int)
    by (nonlinear_arith)
    ensures
        (number * scale) * (number * scale) == (scale * scale) * (number * number),
{
}

/// Two numbers scaled alike stand in the ratio of the numbers.
proof fn lemma_scaled_cross(first: int, second: int, scale: int)
    by (nonlinear_arith)
    ensures
        (first * scale) * second == (second * scale) * first,
{
}

/// The scroll events of a frame apply one after the other: the events of
/// `first` and then those of `rest` leave the position that `rest` leaves
/// when it starts where `first` ended.
pub proof fn theorem_scrolls_apply_in_turn(
    translation: Position,
    forward: Direction,
    first: Seq<i64>,
    rest: Seq<i64>,
)
    ensures
        zoomed(translation, forward, first + rest) == zoomed(
            zoomed(translation, forward, first),
            forward,
            rest,
        ),
    decreases rest.len(),
{
    if rest.len() == 0 {
        assert(first + rest == first);
    } else {
        theorem_scrolls_apply_in_turn(translation, forward, first, rest.drop_last());
        assert((first + rest).drop_last() == first + rest.drop_last());
        assert((first + rest).last() == rest.last());
    }
}

/// Two scroll events in one frame: the second starts from the position that
/// the first one left.
pub proof fn theorem_second_scroll_follows_first(
    translation: Position,
    forward: Direction,
    first: i64,
    second: i64,
)
    ensures
        zoomed(translation, forward, seq![first, second]) == advanced(
            advanced(translation, forward, first),
            forward,
            second,
        ),
{
    let both = seq![first, second];
    assert(both.drop_last() == seq![first]);
    assert(both.drop_last().drop_last() == Seq::<i64>::empty());
    assert(zoomed(translation, forward, Seq::<i64>::empty()) == translation);
    assert(zoomed(translation, forward, seq![first]) == advanced(translation, forward, first));
}

} // verus!
