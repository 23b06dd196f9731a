use vstd::prelude::*;

use crate::bucket::Bucket;

verus! {

/// A pointer button, as the input listener reports it.
#[derive(Clone, Copy, Debug, PartialEq, Eq, Structural)]
pub enum MouseButton {
    Left,
    Right,
    Middle,
    Unknown(u8),
}

/// A raw input event, reduced to what classification reads: which kind of
/// event it is and, for button events, which button. Key identities and
/// pointer coordinates play no part in the counts and are not kept.
#[derive(Clone, Copy, Debug, PartialEq, Eq, Structural)]
pub enum InputEvent {
    KeyPress,
    KeyRelease,
    ButtonPress(MouseButton),
    ButtonRelease(MouseButton),
    MouseMove,
    Wheel { delta_x: i64, delta_y: i64 },
}

/// The bucket of a raw event: presses of the left, right and middle buttons,
/// key presses and pointer motion are counted; every other event is ignored.
pub open spec fn bucket_of(e: InputEvent) -> Bucket {
    match e {
        InputEvent::ButtonPress(MouseButton::Left) => Bucket::LeftClick,
        InputEvent::ButtonPress(MouseButton::Right) => Bucket::RightClick,
        InputEvent::ButtonPress(MouseButton::Middle) => Bucket::MiddleClick,
        InputEvent::KeyPress => Bucket::Keystroke,
        InputEvent::MouseMove => Bucket::MouseMove,
        _ => Bucket::Ignored,
    }
}

/// Classifies a raw event into its counter bucket; total and without effects.
pub fn classify(event: &InputEvent) -> (r: Bucket)
    ensures
        r == bucket_of(*event),
{
    match event {
        InputEvent::ButtonPress(button) => match button {
            MouseButton::Left => Bucket::LeftClick,
            MouseButton::Right => Bucket::RightClick,
            MouseButton::Middle => Bucket::MiddleClick,
            MouseButton::Unknown(_) => Bucket::Ignored,
        },
        InputEvent::KeyPress => Bucket::Keystroke,
        InputEvent::MouseMove => Bucket::MouseMove,
        InputEvent::KeyRelease => Bucket::Ignored,
        InputEvent::ButtonRelease(_) => Bucket::Ignored,
        InputEvent::Wheel { .. } => Bucket::Ignored,
    }
}

} // verus!
