use gamepad_remap::config::Config;
use gamepad_remap::engine::{ConfigError, EventHandler, LockState};
use gamepad_remap::input::{Bind, ControllerAction, ControllerButton, DodgeAction, Event, KeyState, LimitAction, MouseButton};

fn engine(config: Config) -> EventHandler {
    EventHandler::new(config).expect("configuration in range")
}

#[test]
fn default_config_is_accepted() {
    let c = Config::default();
    assert!(c.validate());
    assert!(EventHandler::new(c).is_ok());
}

#[test]
fn out_of_range_sensitivity_is_rejected_at_startup() {
    let mut c = Config::default();
    c.sensitivity_micro = 2_000_000_000;
    assert!(!c.validate());
    assert_eq!(EventHandler::new(c).err(), Some(ConfigError::TunableOutOfRange));
}

#[test]
fn out_of_range_window_is_rejected_at_startup() {
    let mut c = Config::default();
    c.sample_window_us = 10; // below one millisecond
    assert!(matches!(EventHandler::new(c), Err(ConfigError::TunableOutOfRange)));
}

#[test]
fn unbound_input_is_silently_ignored() {
    let mut e = engine(Config::default());
    let before = e.step(None, 1_000);
    let after = e.step(Some(Event::Keyboard(99, KeyState::Down)), 2_000);
    assert_eq!(before, after);
}

#[test]
fn digital_press_release_round_trip() {
    let mut c = Config::default();
    c.binds.push((Bind::Keyboard(17), ControllerAction::Button(ControllerButton::A)));
    let mut e = engine(c);
    let r1 = e.step(Some(Event::Keyboard(17, KeyState::Down)), 1_000);
    assert_eq!(r1.buttons, 0x1000);
    // A second press without a release changes nothing.
    let r2 = e.step(Some(Event::Keyboard(17, KeyState::Down)), 2_000);
    assert_eq!(r2.buttons, 0x1000);
    // The release restores the pre-press state exactly.
    let r3 = e.step(Some(Event::Keyboard(17, KeyState::Up)), 3_000);
    assert_eq!(r3.buttons, 0);
}

#[test]
fn trigger_bind_sets_full_magnitude() {
    let mut c = Config::default();
    c.binds.push((Bind::Keyboard(30), ControllerAction::Button(ControllerButton::LeftTrigger)));
    let mut e = engine(c);
    let r1 = e.step(Some(Event::Keyboard(30, KeyState::Down)), 1_000);
    assert_eq!(r1.left_trigger, 255);
    let r2 = e.step(Some(Event::Keyboard(30, KeyState::Up)), 2_000);
    assert_eq!(r2.left_trigger, 0);
}

#[test]
fn single_sample_circularized_output() {
    // sensitivity 1.0, 20 ms window, one MouseMove(100, 0): the velocity is
    // 0.5 of full deflection, angle zero, so stick-x is half of AXIS_MAX.
    let mut e = engine(Config::default());
    let r = e.step(Some(Event::MouseMove(100, 0)), 1_000);
    assert_eq!(r.thumb_lx, 16384);
    assert_eq!(r.thumb_ly, 0);
    assert!(!e.alert_active);
}

#[test]
fn single_sample_linear_output_matches_direct_scale() {
    let mut c = Config::default();
    c.analog_circularize = false;
    let mut e = engine(c);
    let r = e.step(Some(Event::MouseMove(100, 0)), 1_000);
    assert_eq!(r.thumb_lx, 16384);
    assert_eq!(r.thumb_ly, 0);
}

#[test]
fn vertical_motion_is_inverted() {
    let mut e = engine(Config::default());
    let r = e.step(Some(Event::MouseMove(0, 100)), 1_000);
    assert_eq!(r.thumb_lx, 0);
    assert_eq!(r.thumb_ly, -16384);
}

#[test]
fn samples_expire_after_the_window() {
    let mut e = engine(Config::default());
    let r = e.step(Some(Event::MouseMove(100, 0)), 1_000);
    assert_eq!(r.thumb_lx, 16384);
    // 21 ms later the sample is older than the 20 ms window.
    let r2 = e.step(None, 22_000);
    assert_eq!(r2.thumb_lx, 0);
    assert_eq!(r2.thumb_ly, 0);
}

#[test]
fn axis_masks_zero_the_masked_component() {
    let mut c = Config::default();
    c.analog_mask_x = false;
    let mut e = engine(c);
    let r = e.step(Some(Event::MouseMove(100, 50)), 1_000);
    assert_eq!(r.thumb_lx, 0);
    assert_eq!(r.thumb_ly, -8192);
}

#[test]
fn dodge_forward_locks_straight_ahead_until_expiry() {
    // Jump on J (scan 36), Forwards on W (scan 17): W held, then J pressed,
    // locks (0, 1) for the dodge-lock duration; after expiry with no mouse
    // input the output reverts to rest.
    let mut c = Config::default();
    c.binds.push((Bind::Keyboard(36), ControllerAction::Button(ControllerButton::A)));
    c.binds.push((Bind::Keyboard(17), ControllerAction::Button(ControllerButton::X)));
    c.dodge_binds.push((DodgeAction::Jump, Bind::Keyboard(36)));
    c.dodge_binds.push((DodgeAction::Forwards, Bind::Keyboard(17)));
    let mut e = engine(c);
    e.step(Some(Event::Keyboard(17, KeyState::Down)), 1_000);
    let r = e.step(Some(Event::Keyboard(36, KeyState::Down)), 2_000);
    assert_eq!(r.thumb_lx, 0);
    assert_eq!(r.thumb_ly, 32767);
    assert!(matches!(e.lock, LockState::Timed { expires_at_us: 52_000, .. }));
    // At the expiry instant the lock still holds.
    let r2 = e.step(None, 52_000);
    assert_eq!(r2.thumb_ly, 32767);
    // One microsecond past it, the output reverts to the live estimate.
    let r3 = e.step(None, 52_001);
    assert_eq!(r3.thumb_lx, 0);
    assert_eq!(r3.thumb_ly, 0);
    assert!(matches!(e.lock, LockState::Free));
}

#[test]
fn dodge_is_order_independent_and_cancels_opposites() {
    let mut c = Config::default();
    c.binds.push((Bind::Keyboard(36), ControllerAction::Button(ControllerButton::A)));
    c.binds.push((Bind::Keyboard(17), ControllerAction::Button(ControllerButton::X)));
    c.binds.push((Bind::Keyboard(30), ControllerAction::Button(ControllerButton::Y)));
    c.dodge_binds.push((DodgeAction::Jump, Bind::Keyboard(36)));
    c.dodge_binds.push((DodgeAction::Forwards, Bind::Keyboard(17)));
    c.dodge_binds.push((DodgeAction::Left, Bind::Keyboard(30)));

    // Forward then Left.
    let mut e1 = engine(c);
    e1.step(Some(Event::Keyboard(17, KeyState::Down)), 1_000);
    e1.step(Some(Event::Keyboard(30, KeyState::Down)), 2_000);
    let r1 = e1.step(Some(Event::Keyboard(36, KeyState::Down)), 3_000);

    // Left then Forward.
    let mut c = Config::default();
    c.binds.push((Bind::Keyboard(36), ControllerAction::Button(ControllerButton::A)));
    c.binds.push((Bind::Keyboard(17), ControllerAction::Button(ControllerButton::X)));
    c.binds.push((Bind::Keyboard(30), ControllerAction::Button(ControllerButton::Y)));
    c.dodge_binds.push((DodgeAction::Jump, Bind::Keyboard(36)));
    c.dodge_binds.push((DodgeAction::Forwards, Bind::Keyboard(17)));
    c.dodge_binds.push((DodgeAction::Left, Bind::Keyboard(30)));
    let mut e2 = engine(c);
    e2.step(Some(Event::Keyboard(30, KeyState::Down)), 1_000);
    e2.step(Some(Event::Keyboard(17, KeyState::Down)), 2_000);
    let r2 = e2.step(Some(Event::Keyboard(36, KeyState::Down)), 3_000);

    assert_eq!(r1.thumb_lx, r2.thumb_lx);
    assert_eq!(r1.thumb_ly, r2.thumb_ly);
    // (-1, 1) circularized: both axes at AXIS_MAX / sqrt(2).
    assert_eq!(r1.thumb_lx, -23170);
    assert_eq!(r1.thumb_ly, 23170);

    // Forwards and Backwards together cancel on the vertical axis.
    let mut c2 = Config::default();
    c2.binds.push((Bind::Keyboard(36), ControllerAction::Button(ControllerButton::A)));
    c2.binds.push((Bind::Keyboard(17), ControllerAction::Button(ControllerButton::X)));
    c2.binds.push((Bind::Keyboard(31), ControllerAction::Button(ControllerButton::B)));
    c2.dodge_binds.push((DodgeAction::Jump, Bind::Keyboard(36)));
    c2.dodge_binds.push((DodgeAction::Forwards, Bind::Keyboard(17)));
    c2.dodge_binds.push((DodgeAction::Backwards, Bind::Keyboard(31)));
    let mut e3 = engine(c2);
    e3.step(Some(Event::Keyboard(17, KeyState::Down)), 1_000);
    e3.step(Some(Event::Keyboard(31, KeyState::Down)), 2_000);
    let r3 = e3.step(Some(Event::Keyboard(36, KeyState::Down)), 3_000);
    assert_eq!(r3.thumb_lx, 0);
    assert_eq!(r3.thumb_ly, 0);
}

#[test]
fn analog_bind_locks_until_release_and_ignores_mouse() {
    let mut c = Config::default();
    c.binds.push((Bind::Mouse(MouseButton::Left), ControllerAction::Analog(500_000, 250_000)));
    let mut e = engine(c);
    let r = e.step(Some(Event::MouseButton(MouseButton::Left, KeyState::Down)), 1_000);
    assert_eq!(r.thumb_lx, 16384);
    assert_eq!(r.thumb_ly, 8192);
    assert!(matches!(e.lock, LockState::Held { .. }));
    // Motion accumulates but is not consulted while locked.
    let r2 = e.step(Some(Event::MouseMove(1000, 0)), 1_001);
    assert_eq!(r2.thumb_lx, 16384);
    assert_eq!(r2.thumb_ly, 8192);
    // Release frees the lock immediately; the live estimate takes over.
    let r3 = e.step(Some(Event::MouseButton(MouseButton::Left, KeyState::Up)), 1_002);
    assert!(matches!(e.lock, LockState::Free));
    assert_eq!(r3.thumb_lx, 32767);
    assert_eq!(r3.thumb_ly, 0);
}

#[test]
fn oversteer_alert_follows_the_threshold() {
    let mut c = Config::default();
    c.oversteer_alert_enabled = true;
    c.binds.push((Bind::Keyboard(40), ControllerAction::Analog(2_000_000, 0)));
    let mut e = engine(c);
    e.step(Some(Event::Keyboard(40, KeyState::Down)), 1_000);
    assert!(e.alert_active); // 2.0 >= 1.5
    e.step(Some(Event::Keyboard(40, KeyState::Up)), 2_000);
    assert!(!e.alert_active); // back to rest
}

#[test]
fn reset_clears_everything_regardless_of_prior_state() {
    let mut c = Config::default();
    c.binds.push((Bind::Keyboard(36), ControllerAction::Button(ControllerButton::A)));
    c.binds.push((Bind::Keyboard(30), ControllerAction::Button(ControllerButton::LeftTrigger)));
    c.dodge_binds.push((DodgeAction::Jump, Bind::Keyboard(36)));
    let mut e = engine(c);
    e.step(Some(Event::MouseMove(500, 500)), 1_000);
    e.step(Some(Event::Keyboard(30, KeyState::Down)), 1_100);
    e.step(Some(Event::Keyboard(36, KeyState::Down)), 1_200); // dodge lock active
    let r = e.step(Some(Event::Reset), 1_300);
    assert_eq!(r.buttons, 0);
    assert_eq!(r.left_trigger, 0);
    assert_eq!(r.right_trigger, 0);
    assert_eq!(r.thumb_lx, 0);
    assert_eq!(r.thumb_ly, 0);
    assert_eq!(r.thumb_rx, 0);
    assert_eq!(r.thumb_ry, 0);
    assert!(matches!(e.lock, LockState::Free));
    // The next tick stays at rest: no lock or sample leaked through.
    let r2 = e.step(None, 1_400);
    assert_eq!(r2.thumb_lx, 0);
    assert_eq!(r2.thumb_ly, 0);
}

#[test]
fn limit_controls_step_the_circular_radius_cap() {
    let mut c = Config::default();
    c.binds.push((Bind::Keyboard(40), ControllerAction::Analog(2_000_000, 0)));
    c.limit_binds.push((Bind::Keyboard(41), LimitAction::Toggle));
    c.limit_binds.push((Bind::Keyboard(42), LimitAction::Decrement));
    c.limit_binds.push((Bind::Keyboard(43), LimitAction::Reset));
    let mut e = engine(c);
    // Held analog vector of magnitude 2.0, cap disabled: projected to the
    // full circle.
    let r = e.step(Some(Event::Keyboard(40, KeyState::Down)), 1_000);
    assert_eq!(r.thumb_lx, 32767);
    // Enable the cap (still 1.0) and step it down twice to 0.8.
    e.step(Some(Event::Keyboard(41, KeyState::Down)), 2_000);
    e.step(Some(Event::Keyboard(42, KeyState::Down)), 3_000);
    let r2 = e.step(Some(Event::Keyboard(42, KeyState::Down)), 4_000);
    assert_eq!(e.limit.radius_micro, 800_000);
    assert_eq!(r2.thumb_lx, 26214);
    // Reset restores the full radius.
    let r3 = e.step(Some(Event::Keyboard(43, KeyState::Down)), 5_000);
    assert_eq!(e.limit.radius_micro, 1_000_000);
    assert_eq!(r3.thumb_lx, 32767);
    // Releases never move the limit state.
    e.step(Some(Event::Keyboard(42, KeyState::Up)), 6_000);
    assert_eq!(e.limit.radius_micro, 1_000_000);
}

#[test]
fn limit_steps_saturate_at_the_ends() {
    let mut c = Config::default();
    c.limit_binds.push((Bind::Keyboard(42), LimitAction::Decrement));
    c.limit_binds.push((Bind::Keyboard(44), LimitAction::Increment));
    let mut e = engine(c);
    for t in 0..15u64 {
        e.step(Some(Event::Keyboard(42, KeyState::Down)), 1_000 + t);
        e.step(Some(Event::Keyboard(42, KeyState::Up)), 1_016 + t);
    }
    assert_eq!(e.limit.radius_micro, 0);
    for t in 0..15u64 {
        e.step(Some(Event::Keyboard(44, KeyState::Down)), 2_000 + t);
        e.step(Some(Event::Keyboard(44, KeyState::Up)), 2_016 + t);
    }
    assert_eq!(e.limit.radius_micro, 1_000_000);
}

#[test]
fn first_matching_bind_wins_on_duplicates() {
    let mut c = Config::default();
    c.binds.push((Bind::Keyboard(17), ControllerAction::Button(ControllerButton::A)));
    c.binds.push((Bind::Keyboard(17), ControllerAction::Button(ControllerButton::B)));
    let mut e = engine(c);
    let r = e.step(Some(Event::Keyboard(17, KeyState::Down)), 1_000);
    assert_eq!(r.buttons, 0x1000); // A, not B
}

#[test]
fn trigger_mapped_gesture_counts_as_active() {
    // A gesture bound to a trigger effect is active whenever the trigger
    // magnitude is positive.
    let mut c = Config::default();
    c.binds.push((Bind::Keyboard(36), ControllerAction::Button(ControllerButton::A)));
    c.binds.push((Bind::Keyboard(17), ControllerAction::Button(ControllerButton::LeftTrigger)));
    c.dodge_binds.push((DodgeAction::Jump, Bind::Keyboard(36)));
    c.dodge_binds.push((DodgeAction::Forwards, Bind::Keyboard(17)));
    let mut e = engine(c);
    e.step(Some(Event::Keyboard(17, KeyState::Down)), 1_000);
    assert!(e.dodge_action_pressed(DodgeAction::Forwards));
    let r = e.step(Some(Event::Keyboard(36, KeyState::Down)), 2_000);
    assert_eq!(r.thumb_ly, 32767);
}

#[test]
fn analog_bound_jump_bind_does_not_trigger_a_dodge() {
    // Dodge resolution follows only a digital press of the jump bind; an
    // analog-override bind locks the stick instead.
    let mut c = Config::default();
    c.binds.push((Bind::Keyboard(36), ControllerAction::Analog(250_000, 0)));
    c.dodge_binds.push((DodgeAction::Jump, Bind::Keyboard(36)));
    let mut e = engine(c);
    let r = e.step(Some(Event::Keyboard(36, KeyState::Down)), 1_000);
    assert!(matches!(e.lock, LockState::Held { .. }));
    assert_eq!(r.thumb_lx, 8192);
}

#[test]
fn mouse_button_fix_represses_held_button() {
    let mut c = Config::default();
    c.mouse_button_fix = true;
    c.binds.push((Bind::Mouse(MouseButton::Left), ControllerAction::Button(ControllerButton::A)));
    c.binds.push((Bind::Mouse(MouseButton::Right), ControllerAction::Button(ControllerButton::B)));
    let mut e = engine(c);
    e.step(Some(Event::MouseButton(MouseButton::Left, KeyState::Down)), 1_000);
    e.step(Some(Event::MouseButton(MouseButton::Right, KeyState::Down)), 2_000);
    // Releasing the right button clears B; the still-held left button is
    // re-pressed, so A stays set.
    let r = e.step(Some(Event::MouseButton(MouseButton::Right, KeyState::Up)), 3_000);
    assert_eq!(r.buttons, 0x1000);
}
