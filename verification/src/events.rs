//! The canonical input event model: the backend-independent representation
//! that the GUI core consumes.

use crate::scalar::Scalar;
use vstd::prelude::*;

verus! {

/// A logical keyboard key, identified by its ordinal. The backend's key-code
/// space is reinterpreted directly as this ordinal space.
#[derive(Clone, Copy, PartialEq, Eq, Structural, Debug)]
pub struct Key(pub u32);

/// A logical mouse button.
#[derive(Clone, Copy, PartialEq, Eq, Structural, Debug)]
pub enum MouseButton {
    /// A button the backend could not identify.
    Unknown,
    /// Left mouse button.
    Left,
    /// Right mouse button.
    Right,
    /// Middle mouse button.
    Middle,
    /// First extra mouse button.
    X1,
    /// Second extra mouse button.
    X2,
}

/// Something that can be pressed or released.
#[derive(Clone, Copy, PartialEq, Eq, Structural, Debug)]
pub enum Button {
    /// A keyboard key.
    Keyboard(Key),
    /// A mouse button.
    Mouse(MouseButton),
}

/// The phase of a touch interaction.
#[derive(Clone, Copy, PartialEq, Eq, Structural, Debug)]
pub enum TouchPhase {
    /// A finger came down.
    Start,
    /// A finger moved while down.
    Move,
    /// A finger lifted off.
    End,
}

/// One touch interaction record.
#[derive(Clone, Copy, PartialEq, Eq, Structural, Debug)]
pub struct Touch {
    /// Which phase of the interaction this record reports.
    pub phase: TouchPhase,
    /// The backend's identifier for the touching finger.
    pub id: u64,
    /// Horizontal position, passed through from the backend unchanged.
    pub x: Scalar,
    /// Vertical position, passed through from the backend unchanged.
    pub y: Scalar,
}

/// One controller-axis movement, with the raw axis value normalized.
#[derive(Clone, Copy, PartialEq, Eq, Structural, Debug)]
pub struct ControllerAxisArgs {
    /// The backend's identifier for the controller.
    pub id: u32,
    /// Which axis of that controller moved.
    pub axis: u8,
    /// The axis value, normalized by the positive axis maximum.
    pub position: Scalar,
}

/// Some motion of a pointing device.
#[derive(Clone, Copy, PartialEq, Eq, Structural, Debug)]
pub enum Motion {
    /// Absolute cursor position, in the centre-origin, y-up canonical frame.
    MouseCursor {
        /// Horizontal position.
        x: Scalar,
        /// Vertical position.
        y: Scalar,
    },
    /// Relative cursor movement, put through the same transform as the
    /// absolute position.
    MouseRelative {
        /// Horizontal component.
        x: Scalar,
        /// Vertical component.
        y: Scalar,
    },
    /// Scroll wheel movement, in points, y-up.
    Scroll {
        /// Horizontal component.
        x: Scalar,
        /// Vertical component.
        y: Scalar,
    },
    /// Controller-axis movement.
    ControllerAxis(ControllerAxisArgs),
}

/// A canonical input event.
#[derive(Clone, PartialEq, Eq, Debug)]
pub enum Input {
    /// The window was resized to the given width and height.
    Resize(u32, u32),
    /// The window gained (`true`) or lost (`false`) keyboard focus.
    Focus(bool),
    /// Text was entered, passed through verbatim.
    Text(String),
    /// A button was pressed.
    Press(Button),
    /// A button was released.
    Release(Button),
    /// A touch interaction happened.
    Touch(Touch),
    /// A pointing device moved.
    Motion(Motion),
}

/// A logical cursor shape that the GUI core may ask the host to display.
#[derive(Clone, Copy, PartialEq, Eq, Structural, Debug)]
pub enum MouseCursor {
    /// The ordinary arrow pointer; also the fallback shape.
    Arrow,
    /// Text caret.
    Text,
    /// Caret for vertical text.
    VerticalText,
    /// Pointing hand.
    Hand,
    /// Open hand, ready to grab.
    Grab,
    /// Closed hand, grabbing.
    Grabbing,
    /// Vertical resize.
    ResizeVertical,
    /// Horizontal resize.
    ResizeHorizontal,
    /// Diagonal resize from top-left to bottom-right.
    ResizeTopLeftBottomRight,
    /// Diagonal resize from top-right to bottom-left.
    ResizeTopRightBottomLeft,
}

} // verus!
