//! Interfaces for touch panels.

use crate::returncode::ReturnCode;
use vstd::prelude::*;

verus! {

/// Whether a touch point is pressed.
#[derive(Clone, Copy, PartialEq, Eq, Structural, Debug)]
pub enum TouchStatus {
    Pressed,
    Released,
}

/// A gesture on the panel.
#[derive(Clone, Copy, PartialEq, Eq, Structural, Debug)]
pub enum GestureEvent {
    SwipeUp,
    SwipeDown,
    SwipeLeft,
    SwipeRight,
    ZoomIn,
    ZoomOut,
}

/// A touch point.
#[derive(Clone, Copy, PartialEq, Eq, Structural, Debug)]
pub struct TouchEvent {
    pub status: TouchStatus,
    /// Horizontal position in pixels.
    pub x: usize,
    /// Vertical position in pixels.
    pub y: usize,
    /// The identifier of the touch.
    pub id: usize,
    /// The area of the touch, if known.
    pub area: Option<usize>,
    /// The pressure of the touch, if known.
    pub weight: Option<usize>,
}

/// A panel of one touch point.
pub trait Touch {
    /// Enables the panel.
    fn enable(&self) -> ReturnCode;

    /// Disables the panel.
    fn disable(&self) -> ReturnCode;

    /// Sets the client of touches.
    fn set_client(&self, touch_client: &'static dyn TouchClient);
}

/// A panel of several touch points.
pub trait MultiTouch {
    /// Enables the panel.
    fn enable(&self) -> ReturnCode;

    /// Disables the panel.
    fn disable(&self) -> ReturnCode;

    /// The number of touch points.
    fn get_num_touches(&self) -> usize;

    /// The touch point of an index, if any.
    fn get_touch(&self, index: usize) -> Option<TouchEvent>;

    /// Sets the client of touches.
    fn set_client(&self, multi_touch_client: &'static dyn MultiTouchClient);
}

/// Handles touches.
pub trait TouchClient {
    /// A touch happened.
    fn touch_event(&self, touch_event: TouchEvent);
}

/// Handles several touches.
pub trait MultiTouchClient {
    /// `len` touches happened.
    fn touch_events(&self, touch_events: &[TouchEvent], len: usize);
}

/// A panel that recognizes gestures.
pub trait Gesture {
    /// Sets the client of gestures.
    fn set_client(&self, gesture_client: &'static dyn GestureClient);
}

/// Handles gestures.
pub trait GestureClient {
    /// A gesture happened.
    fn gesture_event(&self, gesture_event: GestureEvent);
}

} // verus!
