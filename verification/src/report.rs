//! The virtual-controller report: two analog sticks, two triggers and a
//! digital-button bitmask, together with the digital press/release
//! transition and its round-trip laws.

use vstd::prelude::*;
use crate::input::{ControllerButton, KeyState, button_bit, button_bit_spec};

verus! {

/// One full snapshot of the virtual controller, pushed to the sink every
/// tick.
#[derive(Clone, Copy, Debug, PartialEq, Eq, Structural)]
pub struct ControllerReport {
    /// Digital-button bitmask.
    pub buttons: u16,
    /// Left trigger magnitude.
    pub left_trigger: u8,
    /// Right trigger magnitude.
    pub right_trigger: u8,
    /// Left stick, horizontal axis.
    pub thumb_lx: i16,
    /// Left stick, vertical axis.
    pub thumb_ly: i16,
    /// Right stick, horizontal axis.
    pub thumb_rx: i16,
    /// Right stick, vertical axis.
    pub thumb_ry: i16,
}

/// The all-zero report: no buttons, no triggers, both sticks centered.
pub open spec fn default_report() -> ControllerReport {
    ControllerReport {
        buttons: 0,
        left_trigger: 0,
        right_trigger: 0,
        thumb_lx: 0,
        thumb_ly: 0,
        thumb_rx: 0,
        thumb_ry: 0,
    }
}

impl Default for ControllerReport {
    /// Returns the all-zero report.
    fn default() -> (r: Self)
        ensures
            r == default_report(),
    {
        ControllerReport {
            buttons: 0,
            left_trigger: 0,
            right_trigger: 0,
            thumb_lx: 0,
            thumb_ly: 0,
            thumb_rx: 0,
            thumb_ry: 0,
        }
    }
}

/// Effect of one digital press or release on the report: a trigger is set
/// to its maximum or to zero, a bitmask button has its bit set or cleared.
pub open spec fn apply_digital_spec(r: ControllerReport, b: ControllerButton, st: KeyState) -> ControllerReport {
    match b {
        ControllerButton::LeftTrigger => (ControllerReport {
            left_trigger: if st is Down { 255u8 } else { 0u8 },
            ..r
        }),
        ControllerButton::RightTrigger => (ControllerReport {
            right_trigger: if st is Down { 255u8 } else { 0u8 },
            ..r
        }),
        _ => (ControllerReport {
            buttons: if st is Down {
                r.buttons | button_bit_spec(b)
            } else {
                r.buttons & !button_bit_spec(b)
            },
            ..r
        }),
    }
}

/// Whether the digital effect of `b` is currently active in `r`: a trigger
/// is active when its magnitude is positive, a bitmask button when its bit
/// is set.
pub open spec fn button_active_spec(r: ControllerReport, b: ControllerButton) -> bool {
    match b {
        ControllerButton::LeftTrigger => r.left_trigger > 0,
        ControllerButton::RightTrigger => r.right_trigger > 0,
        _ => r.buttons & button_bit_spec(b) != 0,
    }
}

impl ControllerReport {
    /// Applies one digital press or release for button `b`.
    pub fn apply_digital(&mut self, b: ControllerButton, st: KeyState)
        ensures
            *final(self) == apply_digital_spec(*old(self), b, st),
    {
        match b {
            ControllerButton::LeftTrigger => {
                self.left_trigger = if st == KeyState::Down { 255 } else { 0 };
            }
            ControllerButton::RightTrigger => {
                self.right_trigger = if st == KeyState::Down { 255 } else { 0 };
            }
            _ => {
                let bit = button_bit(b);
                if st == KeyState::Down {
                    self.buttons = self.buttons | bit;
                } else {
                    self.buttons = self.buttons & !bit;
                }
            }
        }
    }

    /// Whether the digital effect of `b` is currently active.
    pub fn button_active(&self, b: ControllerButton) -> (r: bool)
        ensures
            r == button_active_spec(*self, b),
    {
        match b {
            ControllerButton::LeftTrigger => self.left_trigger > 0,
            ControllerButton::RightTrigger => self.right_trigger > 0,
            _ => self.buttons & button_bit(b) != 0,
        }
    }
}

/// Press then release leaves the button/trigger state as a bare release
/// would; from a state where the effect is inactive, the pre-press state is
/// restored exactly; and a double press without an intervening release
/// equals a single press.
pub proof fn lemma_press_release_roundtrip(r: ControllerReport, b: ControllerButton)
    ensures
        apply_digital_spec(apply_digital_spec(r, b, KeyState::Down), b, KeyState::Up)
            == apply_digital_spec(r, b, KeyState::Up),
        !button_active_spec(r, b) ==> apply_digital_spec(
            apply_digital_spec(r, b, KeyState::Down),
            b,
            KeyState::Up,
        ) == r,
        apply_digital_spec(apply_digital_spec(r, b, KeyState::Down), b, KeyState::Down)
            == apply_digital_spec(r, b, KeyState::Down),
{
    let bit = button_bit_spec(b);
    let w = r.buttons;
    assert((w | bit) & !bit == w & !bit) by (bit_vector);
    assert(w & bit == 0 ==> (w | bit) & !bit == w) by (bit_vector);
    assert((w | bit) | bit == w | bit) by (bit_vector);
}

/// Two presses of distinct digital effects commute: the button/trigger
/// state after both does not depend on their order.
pub proof fn lemma_digital_press_commutes(r: ControllerReport, b1: ControllerButton, b2: ControllerButton)
    ensures
        apply_digital_spec(apply_digital_spec(r, b1, KeyState::Down), b2, KeyState::Down)
            == apply_digital_spec(apply_digital_spec(r, b2, KeyState::Down), b1, KeyState::Down),
{
    let m1 = button_bit_spec(b1);
    let m2 = button_bit_spec(b2);
    let w = r.buttons;
    assert((w | m1) | m2 == (w | m2) | m1) by (bit_vector);
}

} // verus!
