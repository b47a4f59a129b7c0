//! Classification of raw pointer and key events into semantic intents.

use vstd::prelude::*;
use crate::geometry::Point;

verus! {

/// A semantic intent derived from raw input, consumed by the stroke
/// accumulator.
#[derive(Clone, Copy, PartialEq, Eq, Structural, Debug)]
pub enum Intent {
    /// Begin a stroke at the given point.
    Start(Point),
    /// Continue the active stroke to the given point.
    Extend(Point),
    /// Finish the active stroke.
    End,
    /// Forget the recorded stroke.
    Clear,
    /// Terminate the application.
    Quit,
}

/// A pointer button, as far as the classifier tells them apart.
#[derive(Clone, Copy, PartialEq, Eq, Structural, Debug)]
pub enum Button {
    Left,
    Other,
}

/// A key, as far as the classifier tells them apart.
#[derive(Clone, Copy, PartialEq, Eq, Structural, Debug)]
pub enum Key {
    Escape,
    R,
    Other,
}

/// A raw input event as the host delivers it. A button press carries
/// the cursor position only while the cursor is inside the window.
#[derive(Clone, Copy, PartialEq, Eq, Debug)]
pub enum InputEvent {
    ButtonPressed { button: Button, position: Option<Point> },
    CursorMoved { position: Point },
    ButtonReleased { button: Button },
    KeyPressed { key: Key },
    Other,
}

/// Whether the classifier consumed an event or left it for the host to
/// hand elsewhere.
#[derive(Clone, Copy, PartialEq, Eq, Structural, Debug)]
pub enum EventStatus {
    Captured,
    Ignored,
}

/// What the classifier makes of one raw event: a left press starts a
/// stroke at the cursor, a cursor move extends it, a left release ends
/// it, the clear key forgets the stroke, the quit key terminates, and
/// everything else is ignored and not consumed.
pub open spec fn classification_of(event: InputEvent) -> (EventStatus, Option<Intent>) {
    match event {
        InputEvent::ButtonPressed { button: Button::Left, position: Some(p) } => (
            EventStatus::Captured,
            Some(Intent::Start(p)),
        ),
        InputEvent::ButtonPressed { button: Button::Left, position: None } => (
            EventStatus::Ignored,
            None,
        ),
        InputEvent::ButtonPressed { button: Button::Other, .. } => (EventStatus::Ignored, None),
        InputEvent::CursorMoved { position } => (
            EventStatus::Captured,
            Some(Intent::Extend(position)),
        ),
        InputEvent::ButtonReleased { button: Button::Left } => (
            EventStatus::Captured,
            Some(Intent::End),
        ),
        InputEvent::ButtonReleased { button: Button::Other } => (EventStatus::Ignored, None),
        InputEvent::KeyPressed { key: Key::Escape } => (EventStatus::Captured, Some(Intent::Quit)),
        InputEvent::KeyPressed { key: Key::R } => (EventStatus::Captured, Some(Intent::Clear)),
        InputEvent::KeyPressed { key: Key::Other } => (EventStatus::Ignored, None),
        InputEvent::Other => (EventStatus::Ignored, None),
    }
}

/// Map one raw event to its classification. The host guarantees that a
/// left press always comes with a cursor position; an event without one
/// is outside the contract.
pub fn classify(event: InputEvent) -> (r: (EventStatus, Option<Intent>))
    requires
        event matches InputEvent::ButtonPressed { button: Button::Left, position } ==> position
            is Some,
    ensures
        r == classification_of(event),
{
    match event {
        InputEvent::ButtonPressed { button: Button::Left, position: Some(p) } => (
            EventStatus::Captured,
            Some(Intent::Start(p)),
        ),
        InputEvent::ButtonPressed { button: Button::Left, position: None } => (
            EventStatus::Ignored,
            None,
        ),
        InputEvent::ButtonPressed { button: Button::Other, .. } => (EventStatus::Ignored, None),
        InputEvent::CursorMoved { position } => (
            EventStatus::Captured,
            Some(Intent::Extend(position)),
        ),
        InputEvent::ButtonReleased { button: Button::Left } => (
            EventStatus::Captured,
            Some(Intent::End),
        ),
        InputEvent::ButtonReleased { button: Button::Other } => (EventStatus::Ignored, None),
        InputEvent::KeyPressed { key: Key::Escape } => (EventStatus::Captured, Some(Intent::Quit)),
        InputEvent::KeyPressed { key: Key::R } => (EventStatus::Captured, Some(Intent::Clear)),
        InputEvent::KeyPressed { key: Key::Other } => (EventStatus::Ignored, None),
        InputEvent::Other => (EventStatus::Ignored, None),
    }
}

} // verus!
