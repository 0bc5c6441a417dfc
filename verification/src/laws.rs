//! The laws of the translation, stated over the spec functions that
//! [`crate::convert::convert_event`] is proved to compute.
//!
//! Each lemma pins down one row of the translation table, or one value
//! property of the scalars the translator produces, for every input the
//! row admits.

use crate::convert::{
    spec_axis, spec_convert_event, spec_convert_mouse_cursor, spec_map_key, spec_map_mouse,
    spec_scroll, spec_tx, spec_ty, AXIS_MAX, SCROLL_POINTS_PER_LINE,
};
use crate::events::{
    Button, ControllerAxisArgs, Input, Motion, MouseButton, MouseCursor, Touch, TouchPhase,
};
use crate::native::{NativeEvent, NativeMouseButton, SystemCursor};
use crate::scalar::{Scalar, EXTENT_DEN_MAX};
use vstd::prelude::*;

verus! {

/// The horizontal centering transform denotes exactly `p - e/2`: the
/// window centre becomes the origin.
pub proof fn lemma_tx_centered(p: i32, e: Scalar)
    requires
        e.wf_extent(),
    ensures
        spec_tx(p, e).is_centered(p as int, e),
{
    let m: int = 2 * p * e.den - e.num;
    assert(-0x4000_0000_0000_0000 <= 2 * p * e.den <= 0x4000_0000_0000_0000) by (nonlinear_arith)
        requires
            1 <= e.den <= EXTENT_DEN_MAX,
    ;
    assert(spec_tx(p, e).num == m);
    assert(2 * m * e.den == m * (2 * e.den)) by (nonlinear_arith);
}

/// The vertical centering transform denotes exactly `-(p - e/2)`: the
/// window centre becomes the origin and the axis flips, so up is positive.
pub proof fn lemma_ty_centered(p: i32, e: Scalar)
    requires
        e.wf_extent(),
    ensures
        spec_ty(p, e).is_centered_flipped(p as int, e),
{
    let m: int = e.num - 2 * p * e.den;
    assert(-0x4000_0000_0000_0000 <= 2 * p * e.den <= 0x4000_0000_0000_0000) by (nonlinear_arith)
        requires
            1 <= e.den <= EXTENT_DEN_MAX,
    ;
    assert(spec_ty(p, e).num == m);
    assert(2 * m * e.den == m * (2 * e.den)) by (nonlinear_arith);
}

/// A resize event passes its dimensions through unchanged, as unsigned
/// integers, whatever the window extents are.
pub proof fn lemma_resize(width: i32, height: i32, win_w: Scalar, win_h: Scalar)
    ensures
        ({
            let r = spec_convert_event((NativeEvent::Resized { width, height }), win_w, win_h);
            r.0 == Some(Input::Resize(width as u32, height as u32)) && r.1 is None
        }),
{
}

/// Gaining focus reports `Focus(true)`; losing it reports `Focus(false)`.
pub proof fn lemma_focus(win_w: Scalar, win_h: Scalar)
    ensures
        spec_convert_event(NativeEvent::FocusGained, win_w, win_h).0 == Some(Input::Focus(true)),
        spec_convert_event(NativeEvent::FocusGained, win_w, win_h).1 is None,
        spec_convert_event(NativeEvent::FocusLost, win_w, win_h).0 == Some(Input::Focus(false)),
        spec_convert_event(NativeEvent::FocusLost, win_w, win_h).1 is None,
{
}

/// Entered text passes through verbatim.
pub proof fn lemma_text_input(text: String, win_w: Scalar, win_h: Scalar)
    ensures
        ({
            let r = spec_convert_event((NativeEvent::TextInput { text }), win_w, win_h);
            r.0 == Some(Input::Text(text)) && r.1 is None
        }),
{
}

/// A key-down event with a key code presses the mapped logical key; the
/// window extents are irrelevant.
pub proof fn lemma_key_down(keycode: i32, win_w: Scalar, win_h: Scalar)
    ensures
        ({
            let r = spec_convert_event(
                (NativeEvent::KeyDown { keycode: Some(keycode) }),
                win_w,
                win_h,
            );
            r.0 == Some(Input::Press(Button::Keyboard(spec_map_key(keycode)))) && r.1 is None
        }),
{
}

/// A key-up event with a key code releases the mapped logical key.
pub proof fn lemma_key_up(keycode: i32, win_w: Scalar, win_h: Scalar)
    ensures
        ({
            let r = spec_convert_event(
                (NativeEvent::KeyUp { keycode: Some(keycode) }),
                win_w,
                win_h,
            );
            r.0 == Some(Input::Release(Button::Keyboard(spec_map_key(keycode)))) && r.1 is None
        }),
{
}

/// A finger coming down starts a touch: same identifier (cast to unsigned)
/// and the position passed through unchanged.
pub proof fn lemma_finger_down(touch_id: i64, x: Scalar, y: Scalar, win_w: Scalar, win_h: Scalar)
    ensures
        ({
            let r = spec_convert_event((NativeEvent::FingerDown { touch_id, x, y }), win_w, win_h);
            &&& r.0 == Some(
                Input::Touch((Touch { phase: TouchPhase::Start, id: touch_id as u64, x, y })),
            )
            &&& r.1 is None
        }),
{
}

/// A finger moving while down continues its touch.
pub proof fn lemma_finger_motion(touch_id: i64, x: Scalar, y: Scalar, win_w: Scalar, win_h: Scalar)
    ensures
        ({
            let r = spec_convert_event(
                (NativeEvent::FingerMotion { touch_id, x, y }),
                win_w,
                win_h,
            );
            &&& r.0 == Some(
                Input::Touch((Touch { phase: TouchPhase::Move, id: touch_id as u64, x, y })),
            )
            &&& r.1 is None
        }),
{
}

/// A finger lifting off ends its touch.
pub proof fn lemma_finger_up(touch_id: i64, x: Scalar, y: Scalar, win_w: Scalar, win_h: Scalar)
    ensures
        ({
            let r = spec_convert_event((NativeEvent::FingerUp { touch_id, x, y }), win_w, win_h);
            &&& r.0 == Some(
                Input::Touch((Touch { phase: TouchPhase::End, id: touch_id as u64, x, y })),
            )
            &&& r.1 is None
        }),
{
}

/// Mouse motion is the one event that fills both slots: the absolute
/// cursor position first, the relative movement second, both put through
/// the same centering transform — the cursor position denotes exactly
/// `(x - W/2, -(y - H/2))`, and the delta, transformed identically,
/// denotes exactly `(dx - W/2, -(dy - H/2))`.
pub proof fn lemma_mouse_motion(
    x: i32,
    y: i32,
    xrel: i32,
    yrel: i32,
    win_w: Scalar,
    win_h: Scalar,
)
    requires
        win_w.wf_extent(),
        win_h.wf_extent(),
    ensures
        ({
            let r = spec_convert_event((NativeEvent::MouseMotion { x, y, xrel, yrel }), win_w, win_h);
            &&& r.0 == Some(
                Input::Motion((Motion::MouseCursor { x: spec_tx(x, win_w), y: spec_ty(y, win_h) })),
            )
            &&& r.1 == Some(
                Input::Motion(
                    (Motion::MouseRelative { x: spec_tx(xrel, win_w), y: spec_ty(yrel, win_h) }),
                ),
            )
            &&& spec_tx(x, win_w).is_centered(x as int, win_w)
            &&& spec_ty(y, win_h).is_centered_flipped(y as int, win_h)
            &&& spec_tx(xrel, win_w).is_centered(xrel as int, win_w)
            &&& spec_ty(yrel, win_h).is_centered_flipped(yrel as int, win_h)
        }),
{
    lemma_tx_centered(x, win_w);
    lemma_ty_centered(y, win_h);
    lemma_tx_centered(xrel, win_w);
    lemma_ty_centered(yrel, win_h);
}

/// A wheel event scrolls by exactly ten points per tick, with the vertical
/// sign inverted so that up is positive in the canonical frame.
pub proof fn lemma_mouse_wheel(x: i32, y: i32, win_w: Scalar, win_h: Scalar)
    ensures
        ({
            let r = spec_convert_event((NativeEvent::MouseWheel { x, y }), win_w, win_h);
            &&& r.0 == Some(
                Input::Motion(
                    (Motion::Scroll { x: spec_scroll(x as int), y: spec_scroll(-y as int) }),
                ),
            )
            &&& r.1 is None
            &&& spec_scroll(x as int).is_integer(SCROLL_POINTS_PER_LINE * x)
            &&& spec_scroll(-y as int).is_integer(-SCROLL_POINTS_PER_LINE * y)
        }),
{
}

/// A mouse-button event presses or releases the mapped logical button.
pub proof fn lemma_mouse_button(button: NativeMouseButton, win_w: Scalar, win_h: Scalar)
    ensures
        ({
            let r = spec_convert_event((NativeEvent::MouseButtonDown { button }), win_w, win_h);
            r.0 == Some(Input::Press(Button::Mouse(spec_map_mouse(button)))) && r.1 is None
        }),
        ({
            let r = spec_convert_event((NativeEvent::MouseButtonUp { button }), win_w, win_h);
            r.0 == Some(Input::Release(Button::Mouse(spec_map_mouse(button)))) && r.1 is None
        }),
{
}

/// A controller-axis event reports the same device and axis, with the raw
/// value normalized to exactly `value / 32767`: exactly `1` at the
/// positive maximum `32767` and exactly `-1` at `-32767`.
pub proof fn lemma_controller_axis(
    which: u32,
    axis_idx: u8,
    value: i16,
    win_w: Scalar,
    win_h: Scalar,
)
    ensures
        ({
            let r = spec_convert_event(
                (NativeEvent::ControllerAxisMotion { which, axis_idx, value }),
                win_w,
                win_h,
            );
            &&& r.0 == Some(
                Input::Motion(
                    Motion::ControllerAxis(
                        (ControllerAxisArgs { id: which, axis: axis_idx, position: spec_axis(value) }),
                    ),
                ),
            )
            &&& r.1 is None
            &&& spec_axis(value).is_ratio(value as int, AXIS_MAX as int)
            &&& value == 32767 ==> spec_axis(value).is_integer(1)
            &&& value == -32767 ==> spec_axis(value).is_integer(-1)
        }),
{
}

/// The mouse-button mapping is total: the five named buttons map to
/// themselves, and every other input maps to `Unknown`.
pub proof fn lemma_map_mouse_total(button: NativeMouseButton)
    ensures
        button == NativeMouseButton::Left ==> spec_map_mouse(button) == MouseButton::Left,
        button == NativeMouseButton::Right ==> spec_map_mouse(button) == MouseButton::Right,
        button == NativeMouseButton::Middle ==> spec_map_mouse(button) == MouseButton::Middle,
        button == NativeMouseButton::X1 ==> spec_map_mouse(button) == MouseButton::X1,
        button == NativeMouseButton::X2 ==> spec_map_mouse(button) == MouseButton::X2,
        (button != NativeMouseButton::Left && button != NativeMouseButton::Right && button
            != NativeMouseButton::Middle && button != NativeMouseButton::X1 && button
            != NativeMouseButton::X2) ==> spec_map_mouse(button) == MouseButton::Unknown,
{
}

/// The cursor mapping is total over all defined logical shapes, and every
/// shape not listed in the table falls back to `Arrow`.
pub proof fn lemma_convert_mouse_cursor_total(cursor: MouseCursor)
    ensures
        spec_convert_mouse_cursor(MouseCursor::Text) == SystemCursor::IBeam,
        spec_convert_mouse_cursor(MouseCursor::VerticalText) == SystemCursor::IBeam,
        spec_convert_mouse_cursor(MouseCursor::Hand) == SystemCursor::Hand,
        spec_convert_mouse_cursor(MouseCursor::Grab) == SystemCursor::SizeAll,
        spec_convert_mouse_cursor(MouseCursor::Grabbing) == SystemCursor::SizeAll,
        spec_convert_mouse_cursor(MouseCursor::ResizeVertical) == SystemCursor::SizeNS,
        spec_convert_mouse_cursor(MouseCursor::ResizeHorizontal) == SystemCursor::SizeWE,
        spec_convert_mouse_cursor(MouseCursor::ResizeTopLeftBottomRight) == SystemCursor::SizeNWSE,
        spec_convert_mouse_cursor(MouseCursor::ResizeTopRightBottomLeft) == SystemCursor::SizeNESW,
        (cursor != MouseCursor::Text && cursor != MouseCursor::VerticalText && cursor
            != MouseCursor::Hand && cursor != MouseCursor::Grab && cursor != MouseCursor::Grabbing
            && cursor != MouseCursor::ResizeVertical && cursor != MouseCursor::ResizeHorizontal
            && cursor != MouseCursor::ResizeTopLeftBottomRight && cursor
            != MouseCursor::ResizeTopRightBottomLeft) ==> spec_convert_mouse_cursor(cursor)
            == SystemCursor::Arrow,
{
}

/// Events the canonical model has no place for — other window sub-events,
/// key events without a key code, and anything unrecognized — yield
/// nothing at all, rather than failing.
pub proof fn lemma_unmapped_events_yield_nothing(win_w: Scalar, win_h: Scalar)
    ensures
        spec_convert_event(NativeEvent::OtherWindow, win_w, win_h).0 is None,
        spec_convert_event(NativeEvent::OtherWindow, win_w, win_h).1 is None,
        spec_convert_event(NativeEvent::Other, win_w, win_h).0 is None,
        spec_convert_event(NativeEvent::Other, win_w, win_h).1 is None,
        spec_convert_event((NativeEvent::KeyDown { keycode: None }), win_w, win_h).0 is None,
        spec_convert_event((NativeEvent::KeyDown { keycode: None }), win_w, win_h).1 is None,
        spec_convert_event((NativeEvent::KeyUp { keycode: None }), win_w, win_h).0 is None,
        spec_convert_event((NativeEvent::KeyUp { keycode: None }), win_w, win_h).1 is None,
{
}

/// The translation is a pure function of the native event and the window
/// extents alone — `convert_event` returns `spec_convert_event` of its
/// arguments, so two calls on identical inputs yield identical outputs.
pub proof fn lemma_convert_deterministic(
    e1: NativeEvent,
    e2: NativeEvent,
    w1: Scalar,
    w2: Scalar,
    h1: Scalar,
    h2: Scalar,
)
    requires
        e1 == e2,
        w1 == w2,
        h1 == h2,
    ensures
        spec_convert_event(e1, w1, h1) == spec_convert_event(e2, w2, h2),
{
}

} // verus!
