use event_translate::convert::convert_event;
use event_translate::events::{
    Button, ControllerAxisArgs, Input, Key, Motion, MouseButton, Touch, TouchPhase,
};
use event_translate::native::{NativeEvent, NativeMouseButton};
use event_translate::scalar::Scalar;

fn win_w() -> Scalar {
    Scalar { num: 800, den: 1 }
}

fn win_h() -> Scalar {
    Scalar { num: 600, den: 1 }
}

#[test]
fn resize_passes_dimensions_through() {
    let r = convert_event(NativeEvent::Resized { width: 640, height: 480 }, win_w(), win_h());
    assert_eq!(r, (Some(Input::Resize(640, 480)), None));
}

#[test]
fn resize_wraps_negative_dimensions() {
    let r = convert_event(NativeEvent::Resized { width: -1, height: 480 }, win_w(), win_h());
    assert_eq!(r, (Some(Input::Resize(4294967295, 480)), None));
}

#[test]
fn focus_gained_reports_true() {
    let r = convert_event(NativeEvent::FocusGained, win_w(), win_h());
    assert_eq!(r, (Some(Input::Focus(true)), None));
}

#[test]
fn focus_lost_reports_false() {
    let r = convert_event(NativeEvent::FocusLost, win_w(), win_h());
    assert_eq!(r, (Some(Input::Focus(false)), None));
}

#[test]
fn text_passes_through_verbatim() {
    let e = NativeEvent::TextInput { text: String::from("hello") };
    let r = convert_event(e, win_w(), win_h());
    assert_eq!(r, (Some(Input::Text(String::from("hello"))), None));
}

#[test]
fn key_down_presses_mapped_key() {
    let r = convert_event(NativeEvent::KeyDown { keycode: Some(42) }, win_w(), win_h());
    assert_eq!(r, (Some(Input::Press(Button::Keyboard(Key(42)))), None));
}

#[test]
fn key_up_releases_mapped_key() {
    let r = convert_event(NativeEvent::KeyUp { keycode: Some(42) }, win_w(), win_h());
    assert_eq!(r, (Some(Input::Release(Button::Keyboard(Key(42)))), None));
}

#[test]
fn key_event_without_keycode_is_ignored() {
    let down = convert_event(NativeEvent::KeyDown { keycode: None }, win_w(), win_h());
    assert_eq!(down, (None, None));
    let up = convert_event(NativeEvent::KeyUp { keycode: None }, win_w(), win_h());
    assert_eq!(up, (None, None));
}

#[test]
fn finger_down_starts_touch() {
    let e = NativeEvent::FingerDown {
        touch_id: 3,
        x: Scalar { num: 1, den: 4 },
        y: Scalar { num: 3, den: 4 },
    };
    let r = convert_event(e, win_w(), win_h());
    let touch = Touch {
        phase: TouchPhase::Start,
        id: 3,
        x: Scalar { num: 1, den: 4 },
        y: Scalar { num: 3, den: 4 },
    };
    assert_eq!(r, (Some(Input::Touch(touch)), None));
}

#[test]
fn finger_motion_moves_touch() {
    let e = NativeEvent::FingerMotion {
        touch_id: 3,
        x: Scalar { num: 1, den: 4 },
        y: Scalar { num: 3, den: 4 },
    };
    let r = convert_event(e, win_w(), win_h());
    let touch = Touch {
        phase: TouchPhase::Move,
        id: 3,
        x: Scalar { num: 1, den: 4 },
        y: Scalar { num: 3, den: 4 },
    };
    assert_eq!(r, (Some(Input::Touch(touch)), None));
}

#[test]
fn finger_up_ends_touch_at_position() {
    // Touch id 7, position (0.5, 0.5).
    let e = NativeEvent::FingerUp {
        touch_id: 7,
        x: Scalar { num: 1, den: 2 },
        y: Scalar { num: 1, den: 2 },
    };
    let r = convert_event(e, win_w(), win_h());
    let touch = Touch {
        phase: TouchPhase::End,
        id: 7,
        x: Scalar { num: 1, den: 2 },
        y: Scalar { num: 1, den: 2 },
    };
    assert_eq!(r, (Some(Input::Touch(touch)), None));
}

#[test]
fn finger_id_casts_to_unsigned() {
    let e = NativeEvent::FingerUp {
        touch_id: -1,
        x: Scalar { num: 0, den: 1 },
        y: Scalar { num: 0, den: 1 },
    };
    let r = convert_event(e, win_w(), win_h());
    let touch = Touch {
        phase: TouchPhase::End,
        id: u64::MAX,
        x: Scalar { num: 0, den: 1 },
        y: Scalar { num: 0, den: 1 },
    };
    assert_eq!(r, (Some(Input::Touch(touch)), None));
}

#[test]
fn mouse_motion_emits_cursor_then_relative() {
    // In an 800 x 600 window, pixel (400, 300) is the centre: (0, 0) in the
    // canonical frame. The delta (10, -5) goes through the same transform.
    let e = NativeEvent::MouseMotion { x: 400, y: 300, xrel: 10, yrel: -5 };
    let r = convert_event(e, win_w(), win_h());
    let cursor = Motion::MouseCursor {
        x: Scalar { num: 0, den: 2 },
        y: Scalar { num: 0, den: 2 },
    };
    // 10 - 800/2 = -390 and -(-5 - 600/2) = 305, in halves.
    let relative = Motion::MouseRelative {
        x: Scalar { num: -780, den: 2 },
        y: Scalar { num: 610, den: 2 },
    };
    assert_eq!(r, (Some(Input::Motion(cursor)), Some(Input::Motion(relative))));
}

#[test]
fn mouse_motion_with_fractional_extent() {
    // A logical width of 800.5 = 1601/2: pixel 400 lies a quarter unit left
    // of centre, so the canonical x is -1/4.
    let w = Scalar { num: 1601, den: 2 };
    let e = NativeEvent::MouseMotion { x: 400, y: 300, xrel: 0, yrel: 0 };
    let r = convert_event(e, w, win_h());
    match r.0 {
        Some(Input::Motion(Motion::MouseCursor { x, y })) => {
            assert_eq!(x, Scalar { num: -1, den: 4 });
            assert_eq!(y, Scalar { num: 0, den: 2 });
        }
        other => panic!("expected a cursor event, got {:?}", other),
    }
}

#[test]
fn wheel_scales_and_flips() {
    let r = convert_event(NativeEvent::MouseWheel { x: 3, y: 2 }, win_w(), win_h());
    let motion = Motion::Scroll {
        x: Scalar { num: 30, den: 1 },
        y: Scalar { num: -20, den: 1 },
    };
    assert_eq!(r, (Some(Input::Motion(motion)), None));
}

#[test]
fn wheel_handles_extreme_ticks() {
    let e = NativeEvent::MouseWheel { x: i32::MIN, y: i32::MIN };
    let r = convert_event(e, win_w(), win_h());
    let motion = Motion::Scroll {
        x: Scalar { num: -21474836480, den: 1 },
        y: Scalar { num: 21474836480, den: 1 },
    };
    assert_eq!(r, (Some(Input::Motion(motion)), None));
}

#[test]
fn mouse_button_down_presses_mapped_button() {
    let e = NativeEvent::MouseButtonDown { button: NativeMouseButton::Left };
    let r = convert_event(e, win_w(), win_h());
    assert_eq!(r, (Some(Input::Press(Button::Mouse(MouseButton::Left))), None));
}

#[test]
fn mouse_button_up_releases_mapped_button() {
    let e = NativeEvent::MouseButtonUp { button: NativeMouseButton::X2 };
    let r = convert_event(e, win_w(), win_h());
    assert_eq!(r, (Some(Input::Release(Button::Mouse(MouseButton::X2))), None));
}

#[test]
fn controller_axis_normalizes_by_positive_max() {
    let e = NativeEvent::ControllerAxisMotion { which: 2, axis_idx: 1, value: 16384 };
    let r = convert_event(e, win_w(), win_h());
    let args = ControllerAxisArgs { id: 2, axis: 1, position: Scalar { num: 16384, den: 32767 } };
    assert_eq!(r, (Some(Input::Motion(Motion::ControllerAxis(args))), None));
}

#[test]
fn controller_axis_full_positive_is_exactly_one() {
    let e = NativeEvent::ControllerAxisMotion { which: 0, axis_idx: 0, value: 32767 };
    let r = convert_event(e, win_w(), win_h());
    match r.0 {
        Some(Input::Motion(Motion::ControllerAxis(args))) => {
            // 32767/32767 is exactly 1.
            assert_eq!(args.position.num, args.position.den);
        }
        other => panic!("expected an axis event, got {:?}", other),
    }
}

#[test]
fn controller_axis_full_negative_is_exactly_minus_one() {
    let e = NativeEvent::ControllerAxisMotion { which: 0, axis_idx: 0, value: -32767 };
    let r = convert_event(e, win_w(), win_h());
    match r.0 {
        Some(Input::Motion(Motion::ControllerAxis(args))) => {
            // -32767/32767 is exactly -1.
            assert_eq!(args.position.num, -args.position.den);
        }
        other => panic!("expected an axis event, got {:?}", other),
    }
}

#[test]
fn controller_axis_minimum_overshoots_minus_one() {
    let e = NativeEvent::ControllerAxisMotion { which: 0, axis_idx: 0, value: -32768 };
    let r = convert_event(e, win_w(), win_h());
    let args = ControllerAxisArgs { id: 0, axis: 0, position: Scalar { num: -32768, den: 32767 } };
    assert_eq!(r, (Some(Input::Motion(Motion::ControllerAxis(args))), None));
}

#[test]
fn unmapped_events_yield_nothing() {
    assert_eq!(convert_event(NativeEvent::OtherWindow, win_w(), win_h()), (None, None));
    assert_eq!(convert_event(NativeEvent::Other, win_w(), win_h()), (None, None));
}

#[test]
fn identical_inputs_yield_identical_outputs() {
    let e = NativeEvent::MouseMotion { x: 12, y: 34, xrel: -5, yrel: 6 };
    let first = convert_event(e.clone(), win_w(), win_h());
    let second = convert_event(e, win_w(), win_h());
    assert_eq!(first, second);
}
