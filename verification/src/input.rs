//! Physical inputs, transitions, and the logical controller effects they
//! can be bound to.

use vstd::prelude::*;

verus! {

/// Transition of a key or mouse button.
#[derive(Clone, Copy, Debug, PartialEq, Eq, Structural)]
pub enum KeyState {
    Up,
    Down,
}

/// A physical mouse button.
#[derive(Clone, Copy, Debug, PartialEq, Eq, Structural)]
pub enum MouseButton {
    Left,
    Right,
    Middle,
    Button4,
    Button5,
}

/// A physical input: a keyboard scan code or a mouse button. Identity is
/// value-equal; one controller effect is statically associated with each
/// bind by configuration.
#[derive(Clone, Copy, Debug, PartialEq, Eq, Structural)]
pub enum Bind {
    Keyboard(u16),
    Mouse(MouseButton),
}

/// A directional dodge gesture; each is optionally bound to one `Bind`.
#[derive(Clone, Copy, Debug, PartialEq, Eq, Structural)]
pub enum DodgeAction {
    Jump,
    Forwards,
    Backwards,
    Left,
    Right,
}

/// A control over the soft radius limit, bindable independently of the
/// controller-effect table.
#[derive(Clone, Copy, Debug, PartialEq, Eq, Structural)]
pub enum LimitAction {
    Reset,
    Toggle,
    Increment,
    Decrement,
}

/// A digital button or trigger of the virtual controller.
#[derive(Clone, Copy, Debug, PartialEq, Eq, Structural)]
pub enum ControllerButton {
    DpadUp,
    DpadDown,
    DpadLeft,
    DpadRight,
    Start,
    Back,
    LeftThumb,
    RightThumb,
    LeftShoulder,
    RightShoulder,
    Guide,
    A,
    B,
    X,
    Y,
    LeftTrigger,
    RightTrigger,
}

/// The logical effect of a bind: toggle a digital button, or force the
/// analog stick onto a fixed vector (fixed-point micro-units) while held.
#[derive(Clone, Copy, Debug, PartialEq, Eq, Structural)]
pub enum ControllerAction {
    Button(ControllerButton),
    Analog(i64, i64),
}

/// A discrete input event delivered by the capture subsystem.
#[derive(Clone, Copy, Debug, PartialEq, Eq, Structural)]
pub enum Event {
    MouseMove(i32, i32),
    MouseButton(MouseButton, KeyState),
    Keyboard(u16, KeyState),
    Reset,
}

/// Bit of a bitmask-mapped button in the report's button word; zero for the
/// two triggers, which have magnitude fields of their own.
pub open spec fn button_bit_spec(b: ControllerButton) -> u16 {
    match b {
        ControllerButton::DpadUp => 0x0001,
        ControllerButton::DpadDown => 0x0002,
        ControllerButton::DpadLeft => 0x0004,
        ControllerButton::DpadRight => 0x0008,
        ControllerButton::Start => 0x0010,
        ControllerButton::Back => 0x0020,
        ControllerButton::LeftThumb => 0x0040,
        ControllerButton::RightThumb => 0x0080,
        ControllerButton::LeftShoulder => 0x0100,
        ControllerButton::RightShoulder => 0x0200,
        ControllerButton::Guide => 0x0400,
        ControllerButton::A => 0x1000,
        ControllerButton::B => 0x2000,
        ControllerButton::X => 0x4000,
        ControllerButton::Y => 0x8000,
        ControllerButton::LeftTrigger => 0,
        ControllerButton::RightTrigger => 0,
    }
}

/// Executable twin of [`button_bit_spec`].
pub fn button_bit(b: ControllerButton) -> (r: u16)
    ensures
        r == button_bit_spec(b),
{
    match b {
        ControllerButton::DpadUp => 0x0001,
        ControllerButton::DpadDown => 0x0002,
        ControllerButton::DpadLeft => 0x0004,
        ControllerButton::DpadRight => 0x0008,
        ControllerButton::Start => 0x0010,
        ControllerButton::Back => 0x0020,
        ControllerButton::LeftThumb => 0x0040,
        ControllerButton::RightThumb => 0x0080,
        ControllerButton::LeftShoulder => 0x0100,
        ControllerButton::RightShoulder => 0x0200,
        ControllerButton::Guide => 0x0400,
        ControllerButton::A => 0x1000,
        ControllerButton::B => 0x2000,
        ControllerButton::X => 0x4000,
        ControllerButton::Y => 0x8000,
        ControllerButton::LeftTrigger => 0,
        ControllerButton::RightTrigger => 0,
    }
}

} // verus!
