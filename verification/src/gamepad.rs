//! The direction-pad vocabulary shared by every input device that can
//! steer the robot, and the shape of a device that sends or receives it.

use vstd::prelude::*;

verus! {

/// An input device that publishes steering messages.
pub trait GamepadSender {
    fn send_message(&self);
}

/// An input device that receives raw key presses and turns them into
/// buttons.
pub trait GamepadReciever {
    fn get_message(&self);

    fn translate(&self, keypress: &char) -> Button;

    fn has_message(&self);
}

/// One steering input.
#[allow(non_camel_case_types)]
#[derive(Clone, Copy, PartialEq, Eq, Structural, Debug)]
pub enum Button {
    FORWARD,
    BACKWARD,
    LEFT,
    RIGHT,
    CCW,
    CW,
    MODE_SHIFT,
    UNDEFINED,
}

} // verus!
