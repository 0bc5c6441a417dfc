//! The event translator: a pure function from one native event and the
//! logical window extents to zero, one, or two canonical events.
//!
//! The whole translation is stated once, as the spec function
//! [`spec_convert_event`]; [`convert_event`] is proved to return exactly
//! that value, so every call is determined by its arguments alone.

use crate::events::{
    Button, ControllerAxisArgs, Input, Key, Motion, MouseButton, MouseCursor, Touch, TouchPhase,
};
use crate::native::{NativeEvent, NativeMouseButton, SystemCursor};
use crate::scalar::{Scalar, EXTENT_DEN_MAX};
use vstd::prelude::*;

verus! {

/// Scroll-wheel ticks are scaled to points by this factor.
pub const SCROLL_POINTS_PER_LINE: i64 = 10;

/// The positive maximum of a raw controller-axis value; raw values are
/// normalized by dividing by it.
pub const AXIS_MAX: i64 = 32767;

/// The horizontal centering transform: pixel coordinate `p` against window
/// extent `e` becomes `p - e/2`, exactly.
pub open spec fn spec_tx(p: i32, e: Scalar) -> Scalar {
    Scalar { num: (2 * p * e.den - e.num) as i64, den: (2 * e.den) as i64 }
}

/// The vertical centering transform: pixel coordinate `p` against window
/// extent `e` becomes `-(p - e/2)`, exactly, flipping the axis so that up
/// is positive.
pub open spec fn spec_ty(p: i32, e: Scalar) -> Scalar {
    Scalar { num: (e.num - 2 * p * e.den) as i64, den: (2 * e.den) as i64 }
}

/// One scroll component: `ticks` wheel ticks scaled to points.
pub open spec fn spec_scroll(ticks: int) -> Scalar {
    Scalar { num: (SCROLL_POINTS_PER_LINE * ticks) as i64, den: 1 }
}

/// A raw controller-axis value normalized by the positive axis maximum:
/// the exact rational `value / 32767`.
pub open spec fn spec_axis(value: i16) -> Scalar {
    Scalar { num: value as i64, den: AXIS_MAX }
}

/// The key mapping: the backend's key code reinterpreted as the logical
/// key's ordinal.
pub open spec fn spec_map_key(keycode: i32) -> Key {
    Key(keycode as u32)
}

/// The mouse-button mapping: the five named buttons map to themselves,
/// everything else to `Unknown`.
pub open spec fn spec_map_mouse(button: NativeMouseButton) -> MouseButton {
    match button {
        NativeMouseButton::Left => MouseButton::Left,
        NativeMouseButton::Right => MouseButton::Right,
        NativeMouseButton::Middle => MouseButton::Middle,
        NativeMouseButton::X1 => MouseButton::X1,
        NativeMouseButton::X2 => MouseButton::X2,
        _ => MouseButton::Unknown,
    }
}

/// The cursor mapping: each logical shape's platform cursor, with `Arrow`
/// as the fallback for every shape without a closer match.
pub open spec fn spec_convert_mouse_cursor(cursor: MouseCursor) -> SystemCursor {
    match cursor {
        MouseCursor::Text => SystemCursor::IBeam,
        MouseCursor::VerticalText => SystemCursor::IBeam,
        MouseCursor::Hand => SystemCursor::Hand,
        MouseCursor::Grab => SystemCursor::SizeAll,
        MouseCursor::Grabbing => SystemCursor::SizeAll,
        MouseCursor::ResizeVertical => SystemCursor::SizeNS,
        MouseCursor::ResizeHorizontal => SystemCursor::SizeWE,
        MouseCursor::ResizeTopLeftBottomRight => SystemCursor::SizeNWSE,
        MouseCursor::ResizeTopRightBottomLeft => SystemCursor::SizeNESW,
        _ => SystemCursor::Arrow,
    }
}

/// The whole translation, one native event to at most two canonical events.
///
/// Mouse motion is the one native event that decomposes into two canonical
/// events — the absolute cursor position first, the relative movement
/// second; every other native event fills at most the first slot. Events
/// the canonical model has no place for yield `(None, None)`: the
/// translation is total and never fails.
pub open spec fn spec_convert_event(e: NativeEvent, win_w: Scalar, win_h: Scalar) -> (
    Option<Input>,
    Option<Input>,
) {
    match e {
        NativeEvent::Resized { width, height } => (
            Some(Input::Resize(width as u32, height as u32)),
            None,
        ),
        NativeEvent::FocusGained => (Some(Input::Focus(true)), None),
        NativeEvent::FocusLost => (Some(Input::Focus(false)), None),
        NativeEvent::OtherWindow => (None, None),
        NativeEvent::TextInput { text } => (Some(Input::Text(text)), None),
        NativeEvent::KeyDown { keycode } => match keycode {
            Some(key) => (Some(Input::Press(Button::Keyboard(spec_map_key(key)))), None),
            None => (None, None),
        },
        NativeEvent::KeyUp { keycode } => match keycode {
            Some(key) => (Some(Input::Release(Button::Keyboard(spec_map_key(key)))), None),
            None => (None, None),
        },
        NativeEvent::FingerDown { touch_id, x, y } => (
            Some(Input::Touch(Touch { phase: TouchPhase::Start, id: touch_id as u64, x, y })),
            None,
        ),
        NativeEvent::FingerMotion { touch_id, x, y } => (
            Some(Input::Touch(Touch { phase: TouchPhase::Move, id: touch_id as u64, x, y })),
            None,
        ),
        NativeEvent::FingerUp { touch_id, x, y } => (
            Some(Input::Touch(Touch { phase: TouchPhase::End, id: touch_id as u64, x, y })),
            None,
        ),
        NativeEvent::MouseMotion { x, y, xrel, yrel } => (
            Some(Input::Motion(Motion::MouseCursor { x: spec_tx(x, win_w), y: spec_ty(y, win_h) })),
            Some(
                Input::Motion(
                    Motion::MouseRelative { x: spec_tx(xrel, win_w), y: spec_ty(yrel, win_h) },
                ),
            ),
        ),
        NativeEvent::MouseWheel { x, y } => (
            Some(Input::Motion(Motion::Scroll { x: spec_scroll(x as int), y: spec_scroll(-y as int) })),
            None,
        ),
        NativeEvent::MouseButtonDown { button } => (
            Some(Input::Press(Button::Mouse(spec_map_mouse(button)))),
            None,
        ),
        NativeEvent::MouseButtonUp { button } => (
            Some(Input::Release(Button::Mouse(spec_map_mouse(button)))),
            None,
        ),
        NativeEvent::ControllerAxisMotion { which, axis_idx, value } => (
            Some(
                Input::Motion(
                    Motion::ControllerAxis(
                        ControllerAxisArgs { id: which, axis: axis_idx, position: spec_axis(value) },
                    ),
                ),
            ),
            None,
        ),
        NativeEvent::Other => (None, None),
    }
}

/// The horizontal centering transform, computed exactly.
fn tx(p: i32, e: Scalar) -> (r: Scalar)
    requires
        e.wf_extent(),
    ensures
        r == spec_tx(p, e),
{
    let d2: i64 = 2 * e.den;
    proof {
        assert((p as int) * (d2 as int) == 2 * (p as int) * (e.den as int)
            && -0x4000_0000_0000_0000 <= (p as int) * (d2 as int) <= 0x4000_0000_0000_0000)
            by (nonlinear_arith)
            requires
                1 <= e.den <= EXTENT_DEN_MAX,
                d2 == 2 * e.den,
        ;
    }
    let n: i64 = (p as i64) * d2 - e.num;
    Scalar { num: n, den: d2 }
}

/// The vertical centering transform, computed exactly.
fn ty(p: i32, e: Scalar) -> (r: Scalar)
    requires
        e.wf_extent(),
    ensures
        r == spec_ty(p, e),
{
    let d2: i64 = 2 * e.den;
    proof {
        assert((p as int) * (d2 as int) == 2 * (p as int) * (e.den as int)
            && -0x4000_0000_0000_0000 <= (p as int) * (d2 as int) <= 0x4000_0000_0000_0000)
            by (nonlinear_arith)
            requires
                1 <= e.den <= EXTENT_DEN_MAX,
                d2 == 2 * e.den,
        ;
    }
    let n: i64 = e.num - (p as i64) * d2;
    Scalar { num: n, den: d2 }
}

/// Translates one native event into canonical events, against the logical
/// (DPI-independent) window extents `win_w` and `win_h`.
///
/// Returns a pair because mouse motion decomposes into an absolute cursor
/// event and a relative movement event, delivered in that order; every
/// other native event fills at most the first slot. Native events the
/// canonical model has no place for yield `(None, None)`: the function is
/// total and never fails, so the host's event loop cannot be interrupted
/// by an unmapped device event.
pub fn convert_event(e: NativeEvent, win_w: Scalar, win_h: Scalar) -> (r: (
    Option<Input>,
    Option<Input>,
))
    requires
        win_w.wf_extent(),
        win_h.wf_extent(),
    ensures
        r == spec_convert_event(e, win_w, win_h),
{
    match e {
        NativeEvent::Resized { width, height } => (
            Some(Input::Resize(width as u32, height as u32)),
            None,
        ),
        NativeEvent::FocusGained => (Some(Input::Focus(true)), None),
        NativeEvent::FocusLost => (Some(Input::Focus(false)), None),
        NativeEvent::OtherWindow => (None, None),
        NativeEvent::TextInput { text } => (Some(Input::Text(text)), None),
        NativeEvent::KeyDown { keycode } => match keycode {
            Some(key) => (Some(Input::Press(Button::Keyboard(map_key(key)))), None),
            None => (None, None),
        },
        NativeEvent::KeyUp { keycode } => match keycode {
            Some(key) => (Some(Input::Release(Button::Keyboard(map_key(key)))), None),
            None => (None, None),
        },
        NativeEvent::FingerDown { touch_id, x, y } => {
            let touch = Touch { phase: TouchPhase::Start, id: touch_id as u64, x, y };
            (Some(Input::Touch(touch)), None)
        },
        NativeEvent::FingerMotion { touch_id, x, y } => {
            let touch = Touch { phase: TouchPhase::Move, id: touch_id as u64, x, y };
            (Some(Input::Touch(touch)), None)
        },
        NativeEvent::FingerUp { touch_id, x, y } => {
            let touch = Touch { phase: TouchPhase::End, id: touch_id as u64, x, y };
            (Some(Input::Touch(touch)), None)
        },
        NativeEvent::MouseMotion { x, y, xrel, yrel } => {
            let cursor = Motion::MouseCursor { x: tx(x, win_w), y: ty(y, win_h) };
            let relative = Motion::MouseRelative { x: tx(xrel, win_w), y: ty(yrel, win_h) };
            (Some(Input::Motion(cursor)), Some(Input::Motion(relative)))
        },
        NativeEvent::MouseWheel { x, y } => {
            let sx: i64 = SCROLL_POINTS_PER_LINE * (x as i64);
            let sy: i64 = SCROLL_POINTS_PER_LINE * (-(y as i64));
            let motion = Motion::Scroll {
                x: Scalar { num: sx, den: 1 },
                y: Scalar { num: sy, den: 1 },
            };
            (Some(Input::Motion(motion)), None)
        },
        NativeEvent::MouseButtonDown { button } => (
            Some(Input::Press(Button::Mouse(map_mouse(button)))),
            None,
        ),
        NativeEvent::MouseButtonUp { button } => (
            Some(Input::Release(Button::Mouse(map_mouse(button)))),
            None,
        ),
        NativeEvent::ControllerAxisMotion { which, axis_idx, value } => {
            let position = Scalar { num: value as i64, den: AXIS_MAX };
            let args = ControllerAxisArgs { id: which, axis: axis_idx, position };
            (Some(Input::Motion(Motion::ControllerAxis(args))), None)
        },
        NativeEvent::Other => (None, None),
    }
}

/// Maps a native key code to the logical key with the same ordinal.
pub fn map_key(keycode: i32) -> (r: Key)
    ensures
        r == spec_map_key(keycode),
{
    Key(keycode as u32)
}

/// Maps a native mouse button to the logical mouse button: the five named
/// buttons to themselves, everything else to `Unknown`.
pub fn map_mouse(mouse_button: NativeMouseButton) -> (r: MouseButton)
    ensures
        r == spec_map_mouse(mouse_button),
{
    match mouse_button {
        NativeMouseButton::Left => MouseButton::Left,
        NativeMouseButton::Right => MouseButton::Right,
        NativeMouseButton::Middle => MouseButton::Middle,
        NativeMouseButton::X1 => MouseButton::X1,
        NativeMouseButton::X2 => MouseButton::X2,
        _ => MouseButton::Unknown,
    }
}

/// Converts a logical cursor shape into the platform cursor to display,
/// falling back to `Arrow` for any shape without a closer match.
pub fn convert_mouse_cursor(cursor: MouseCursor) -> (r: SystemCursor)
    ensures
        r == spec_convert_mouse_cursor(cursor),
{
    match cursor {
        MouseCursor::Text => SystemCursor::IBeam,
        MouseCursor::VerticalText => SystemCursor::IBeam,
        MouseCursor::Hand => SystemCursor::Hand,
        MouseCursor::Grab => SystemCursor::SizeAll,
        MouseCursor::Grabbing => SystemCursor::SizeAll,
        MouseCursor::ResizeVertical => SystemCursor::SizeNS,
        MouseCursor::ResizeHorizontal => SystemCursor::SizeWE,
        MouseCursor::ResizeTopLeftBottomRight => SystemCursor::SizeNWSE,
        MouseCursor::ResizeTopRightBottomLeft => SystemCursor::SizeNESW,
        _ => SystemCursor::Arrow,
    }
}

} // verus!
