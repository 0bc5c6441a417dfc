//! The native event model: what the windowing backend reports, with each
//! payload held as the plain value the translator reads.
//!
//! Pixel coordinates and wheel ticks are the backend's 32-bit integers;
//! finger positions, which the translator passes through untouched, are
//! already scalars; a raw controller-axis value is the backend's signed
//! 16-bit integer.

use crate::scalar::Scalar;
use vstd::prelude::*;

verus! {

/// A physical mouse button as the backend reports it.
#[derive(Clone, Copy, PartialEq, Eq, Structural, Debug)]
pub enum NativeMouseButton {
    /// A button the backend could not identify.
    Unknown,
    /// Left mouse button.
    Left,
    /// Middle mouse button.
    Middle,
    /// Right mouse button.
    Right,
    /// First extra mouse button.
    X1,
    /// Second extra mouse button.
    X2,
}

/// A native input event, in the backend's top-left-origin, y-down frame.
#[derive(Clone, PartialEq, Eq, Debug)]
pub enum NativeEvent {
    /// The window was resized to the given pixel dimensions.
    Resized {
        /// New width.
        width: i32,
        /// New height.
        height: i32,
    },
    /// The window gained keyboard focus.
    FocusGained,
    /// The window lost keyboard focus.
    FocusLost,
    /// Any other window sub-event; the translator ignores it.
    OtherWindow,
    /// Text was entered.
    TextInput {
        /// The entered text.
        text: String,
    },
    /// A key went down.
    KeyDown {
        /// The key code, when the backend could name one.
        keycode: Option<i32>,
    },
    /// A key came up.
    KeyUp {
        /// The key code, when the backend could name one.
        keycode: Option<i32>,
    },
    /// A finger came down on a touch surface.
    FingerDown {
        /// The backend's identifier for the finger.
        touch_id: i64,
        /// Horizontal position.
        x: Scalar,
        /// Vertical position.
        y: Scalar,
    },
    /// A finger moved while down.
    FingerMotion {
        /// The backend's identifier for the finger.
        touch_id: i64,
        /// Horizontal position.
        x: Scalar,
        /// Vertical position.
        y: Scalar,
    },
    /// A finger lifted off.
    FingerUp {
        /// The backend's identifier for the finger.
        touch_id: i64,
        /// Horizontal position.
        x: Scalar,
        /// Vertical position.
        y: Scalar,
    },
    /// The mouse moved to pixel position `(x, y)`, by `(xrel, yrel)`.
    MouseMotion {
        /// Absolute horizontal pixel position.
        x: i32,
        /// Absolute vertical pixel position.
        y: i32,
        /// Horizontal movement since the last report.
        xrel: i32,
        /// Vertical movement since the last report.
        yrel: i32,
    },
    /// The scroll wheel moved by the given number of ticks.
    MouseWheel {
        /// Horizontal ticks.
        x: i32,
        /// Vertical ticks, positive towards the user in the native frame.
        y: i32,
    },
    /// A mouse button went down.
    MouseButtonDown {
        /// Which button.
        button: NativeMouseButton,
    },
    /// A mouse button came up.
    MouseButtonUp {
        /// Which button.
        button: NativeMouseButton,
    },
    /// A controller axis moved.
    ControllerAxisMotion {
        /// The backend's identifier for the controller.
        which: u32,
        /// Which axis of that controller moved.
        axis_idx: u8,
        /// Raw axis value, in `[-32768, 32767]`.
        value: i16,
    },
    /// Any other native event; the translator ignores it.
    Other,
}

/// A platform cursor identifier that the host can ask the backend to show.
#[derive(Clone, Copy, PartialEq, Eq, Structural, Debug)]
pub enum SystemCursor {
    /// The ordinary arrow pointer.
    Arrow,
    /// Text caret.
    IBeam,
    /// Busy indicator.
    Wait,
    /// Crosshair.
    Crosshair,
    /// Arrow with a small busy indicator.
    WaitArrow,
    /// Diagonal resize from top-left to bottom-right.
    SizeNWSE,
    /// Diagonal resize from top-right to bottom-left.
    SizeNESW,
    /// Horizontal resize.
    SizeWE,
    /// Vertical resize.
    SizeNS,
    /// Move in all directions.
    SizeAll,
    /// Action not possible.
    No,
    /// Pointing hand.
    Hand,
}

} // verus!
