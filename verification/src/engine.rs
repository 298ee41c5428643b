//! The event-to-report translation engine: bind resolution, dodge
//! gestures, the analog-lock state machine and the per-tick recomputation
//! of the analog output.
//!
//! Every mutating operation is specified against an abstract model
//! ([`EngineModel`]) by a total transition function, so a caller knows the
//! exact state after each call.

use vstd::prelude::*;
use crate::config::{Config, analog_coords_ok, lookup_pair};
use crate::input::{Bind, ControllerAction, DodgeAction, Event, KeyState, LimitAction, MouseButton};
use crate::report::{
    ControllerReport,
    apply_digital_spec,
    button_active_spec,
    default_report,
};
use crate::samples::{
    MouseSample,
    SampleQueue,
    deltas_bounded,
    evict_spec,
    push_spec,
    sorted_by_time,
    sum_dx,
    sum_dy,
    times_at_most,
    MAX_DELTA,
    MAX_SAMPLES,
};
use crate::shape::{
    abs_int,
    clamp_axis,
    clamp_axis_spec,
    max_int,
    mul_div,
    mul_div_spec,
    shape_circular,
    shape_circular_spec,
    shape_linear,
    shape_linear_spec,
    lemma_mul_div_bound,
    AXIS_MAX,
    COORD_LIMIT,
    SCALE,
};
use vstd::arithmetic::mul::lemma_mul_inequality;

verus! {

/// Largest timestamp the engine accepts, so that adding a lock duration
/// can never overflow.
pub const TIME_MAX: u64 = 0x4000_0000_0000_0000;

/// The analog-lock state machine: free (live mouse-derived output), locked
/// until a timestamp (dodge gestures), or locked until the owning bind
/// releases (held analog-override binds).
#[derive(Clone, Copy, Debug, PartialEq, Eq, Structural)]
pub enum LockState {
    /// Live output from the velocity estimator.
    Free,
    /// Locked onto `(x, y)` until the current time passes `expires_at_us`.
    Timed { expires_at_us: u64, x: i64, y: i64 },
    /// Locked onto `(x, y)` until `owner` releases.
    Held { owner: Bind, x: i64, y: i64 },
}

/// The optional soft radius limit applied to circularized shaping.
#[derive(Clone, Copy, Debug, PartialEq, Eq, Structural)]
pub struct LimitState {
    /// Whether the limit caps the radius at all.
    pub enabled: bool,
    /// The cap, fixed-point micro-units in `[0, SCALE]`.
    pub radius_micro: i64,
}

/// The configuration was rejected at startup.
#[derive(Clone, Copy, Debug, PartialEq, Eq, Structural)]
pub enum ConfigError {
    /// A numeric tunable lies outside the range the fixed-point engine
    /// supports.
    TunableOutOfRange,
}

/// Whether the lock overrides live output at time `now`.
pub open spec fn lock_active_spec(l: LockState, now: u64) -> bool {
    match l {
        LockState::Free => false,
        LockState::Timed { expires_at_us, .. } => now <= expires_at_us,
        LockState::Held { .. } => true,
    }
}

/// Horizontal component of the locked vector.
pub open spec fn lock_x_spec(l: LockState) -> i64 {
    match l {
        LockState::Free => 0,
        LockState::Timed { x, .. } => x,
        LockState::Held { x, .. } => x,
    }
}

/// Vertical component of the locked vector.
pub open spec fn lock_y_spec(l: LockState) -> i64 {
    match l {
        LockState::Free => 0,
        LockState::Timed { y, .. } => y,
        LockState::Held { y, .. } => y,
    }
}

/// The locked vector lies within the range the shaping engine accepts.
pub open spec fn lock_coords_ok(l: LockState) -> bool {
    -COORD_LIMIT <= lock_x_spec(l) <= COORD_LIMIT && -COORD_LIMIT <= lock_y_spec(l) <= COORD_LIMIT
}

/// The radius cap in force: the stored cap when enabled, one full
/// deflection otherwise.
pub open spec fn effective_limit(l: LimitState) -> i64 {
    if l.enabled {
        l.radius_micro
    } else {
        SCALE
    }
}

/// The abstract state of the engine: what every contract speaks about.
#[verifier::ext_equal]
pub struct EngineModel {
    /// The immutable configuration.
    pub config: Config,
    /// The velocity estimator's sample queue, oldest first.
    pub samples: Seq<MouseSample>,
    /// The report as assembled so far.
    pub report: ControllerReport,
    /// The analog-lock state.
    pub lock: LockState,
    /// The soft radius limit.
    pub limit: LimitState,
    /// Last transition seen for the left mouse button.
    pub mouse_left: KeyState,
    /// Last transition seen for the right mouse button.
    pub mouse_right: KeyState,
    /// The oversteer alert signal computed by the last shaping call.
    pub alert: bool,
    /// The engine's monotonic clock, microseconds.
    pub last_time_us: u64,
}

/// All invariants of a running engine.
pub open spec fn model_wf(m: EngineModel) -> bool {
    &&& m.config.wf()
    &&& m.samples.len() <= MAX_SAMPLES
    &&& deltas_bounded(m.samples)
    &&& sorted_by_time(m.samples)
    &&& times_at_most(m.samples, m.last_time_us)
    &&& m.last_time_us <= TIME_MAX
    &&& lock_coords_ok(m.lock)
    &&& 0 <= m.limit.radius_micro <= SCALE
}

/// The clock after a call that hands in `now`: time never runs backwards.
pub open spec fn eff_time(m: EngineModel, now: u64) -> u64 {
    if now >= m.last_time_us {
        now
    } else {
        m.last_time_us
    }
}

/// The model with its clock advanced to `eff_time`.
pub open spec fn m_clocked(m: EngineModel, now: u64) -> EngineModel {
    EngineModel { last_time_us: eff_time(m, now), ..m }
}

/// The oversteer alert: raw magnitude at or above the threshold.
pub open spec fn alert_spec(cfg: Config, x: int, y: int) -> bool {
    max_int(abs_int(x), abs_int(y)) >= cfg.oversteer_alert_threshold_micro
}

/// The stick axes produced by the configured shaping policy.
pub open spec fn shaped_axes_spec(cfg: Config, lim: LimitState, x: int, y: int) -> (i16, i16) {
    if cfg.analog_circularize {
        let o = shape_circular_spec(x, y, effective_limit(lim) as int);
        (clamp_axis_spec(o.0), clamp_axis_spec(o.1))
    } else {
        let o = shape_linear_spec(x, y);
        (clamp_axis_spec(o.0), clamp_axis_spec(o.1))
    }
}

/// Shaping writes the left stick and refreshes the alert signal; nothing
/// else moves.
#[verifier::opaque]
pub open spec fn m_set_analog(m: EngineModel, x: int, y: int) -> EngineModel {
    let axes = shaped_axes_spec(m.config, m.limit, x, y);
    EngineModel {
        report: (ControllerReport { thumb_lx: axes.0, thumb_ly: axes.1, ..m.report }),
        alert: alert_spec(m.config, x, y),
        ..m
    }
}

/// Whether a dodge gesture is currently active: its bound input resolves
/// to a digital effect that is active in the report.
pub open spec fn dodge_pressed_spec(m: EngineModel, a: DodgeAction) -> bool {
    match lookup_pair(m.config.dodge_binds@, a) {
        None => false,
        Some(b) => match lookup_pair(m.config.binds@, b) {
            Some(ControllerAction::Button(btn)) => button_active_spec(m.report, btn),
            _ => false,
        },
    }
}

/// The dodge vector: each active directional gesture contributes one full
/// deflection to its axis, opposing directions cancel.
pub open spec fn dodge_vector_spec(m: EngineModel) -> (int, int) {
    let x = (if dodge_pressed_spec(m, DodgeAction::Right) {
        1int
    } else {
        0int
    }) - (if dodge_pressed_spec(m, DodgeAction::Left) {
        1int
    } else {
        0int
    });
    let y = (if dodge_pressed_spec(m, DodgeAction::Forwards) {
        1int
    } else {
        0int
    }) - (if dodge_pressed_spec(m, DodgeAction::Backwards) {
        1int
    } else {
        0int
    });
    (x * (SCALE as int), y * (SCALE as int))
}

/// A qualifying jump press: the dodge vector is resolved against the
/// current digital state, locked in for the dodge-lock duration measured
/// from `now`, and shaped immediately.
#[verifier::opaque]
pub open spec fn m_jump(m: EngineModel, now: u64) -> EngineModel {
    let v = dodge_vector_spec(m);
    let locked = EngineModel {
        lock: (LockState::Timed {
            expires_at_us: (now + m.config.dodge_lock_us) as u64,
            x: v.0 as i64,
            y: v.1 as i64,
        }),
        ..m
    };
    m_set_analog(locked, v.0, v.1)
}

/// One radius-limit control applied to the limit state.
pub open spec fn apply_limit_action_spec(l: LimitState, a: LimitAction, step: i64) -> LimitState {
    match a {
        LimitAction::Reset => LimitState { enabled: l.enabled, radius_micro: SCALE },
        LimitAction::Toggle => LimitState { enabled: !l.enabled, ..l },
        LimitAction::Increment => LimitState {
            radius_micro: if l.radius_micro + step > SCALE as int {
                SCALE
            } else {
                (l.radius_micro + step) as i64
            },
            ..l
        },
        LimitAction::Decrement => LimitState {
            radius_micro: if l.radius_micro - step < 0 {
                0
            } else {
                (l.radius_micro - step) as i64
            },
            ..l
        },
    }
}

/// On a press bound to a limit control, the limit state moves; releases
/// and unbound inputs leave it alone.
pub open spec fn m_limit(m: EngineModel, bind: Bind, st: KeyState) -> EngineModel {
    if st is Down {
        match lookup_pair(m.config.limit_binds@, bind) {
            Some(a) => EngineModel {
                limit: apply_limit_action_spec(m.limit, a, m.config.limit_step_micro),
                ..m
            },
            None => m,
        }
    } else {
        m
    }
}

/// Bind resolution at time `now`: an unbound input is ignored; an
/// analog-override bind locks the stick while held and frees it on
/// release; a digital bind sets or clears its effect, and a press of the
/// jump-gesture bind then resolves a dodge. Limit controls are evaluated
/// on every press, independently of the effect table.
#[verifier::opaque]
pub open spec fn m_bind_at(m: EngineModel, bind: Bind, st: KeyState, now: u64) -> EngineModel {
    let m1 = match lookup_pair(m.config.binds@, bind) {
        None => m,
        Some(ControllerAction::Analog(x, y)) => {
            if st is Down {
                EngineModel { lock: (LockState::Held { owner: bind, x, y }), ..m }
            } else {
                match m.lock {
                    LockState::Held { owner, .. } => if owner == bind {
                        EngineModel { lock: LockState::Free, ..m }
                    } else {
                        m
                    },
                    _ => m,
                }
            }
        },
        Some(ControllerAction::Button(btn)) => {
            let md = EngineModel { report: apply_digital_spec(m.report, btn, st), ..m };
            if st is Down && lookup_pair(m.config.dodge_binds@, DodgeAction::Jump) == Some(bind) {
                m_jump(md, now)
            } else {
                md
            }
        },
    };
    m_limit(m1, bind, st)
}

/// [`m_bind_at`] after advancing the clock.
pub open spec fn m_bind(m: EngineModel, bind: Bind, st: KeyState, now: u64) -> EngineModel {
    m_bind_at(m_clocked(m, now), bind, st, eff_time(m, now))
}

/// Bind resolution never touches the configuration, the sample queue, the
/// stored mouse-button transitions or the clock.
pub proof fn lemma_bind_at_frame(m: EngineModel, bind: Bind, st: KeyState, now: u64)
    ensures
        m_bind_at(m, bind, st, now).config == m.config,
        m_bind_at(m, bind, st, now).samples == m.samples,
        m_bind_at(m, bind, st, now).mouse_left == m.mouse_left,
        m_bind_at(m, bind, st, now).mouse_right == m.mouse_right,
        m_bind_at(m, bind, st, now).last_time_us == m.last_time_us,
{
    reveal(m_bind_at);
    reveal(m_jump);
    reveal(m_set_analog);
}

/// A motion sample enters the queue at the advanced clock.
pub open spec fn m_mouse_move(m: EngineModel, dx: i32, dy: i32, now: u64) -> EngineModel {
    let mc = m_clocked(m, now);
    EngineModel { samples: push_spec(mc.samples, dx, dy, eff_time(m, now)), ..mc }
}

/// The live velocity estimate over the retained samples, scaled by
/// `sensitivity / (10^4 * window-in-seconds)` with the vertical axis
/// inverted, and each component dropped to zero when masked off.
pub open spec fn free_velocity_spec(cfg: Config, s: Seq<MouseSample>) -> (int, int) {
    let num = cfg.sensitivity_micro * 100;
    let vx = if cfg.analog_mask_x {
        mul_div_spec(sum_dx(s), num as int, cfg.sample_window_us as int)
    } else {
        0
    };
    let vy = if cfg.analog_mask_y {
        mul_div_spec(-sum_dy(s), num as int, cfg.sample_window_us as int)
    } else {
        0
    };
    (vx, vy)
}

/// The per-tick analog recomputation at exact time `now`: an active lock
/// shapes its stored vector and nothing else moves; otherwise any expired
/// lock is dropped, stale samples are evicted, and the live velocity is
/// shaped.
#[verifier::opaque]
pub open spec fn m_update_at(m: EngineModel, now: u64) -> EngineModel {
    if lock_active_spec(m.lock, now) {
        m_set_analog(m, lock_x_spec(m.lock) as int, lock_y_spec(m.lock) as int)
    } else {
        let s = evict_spec(m.samples, now, m.config.sample_window_us);
        let v = free_velocity_spec(m.config, s);
        let m2 = EngineModel { lock: LockState::Free, samples: s, ..m };
        m_set_analog(m2, v.0, v.1)
    }
}

/// [`m_update_at`] after advancing the clock.
pub open spec fn m_update(m: EngineModel, now: u64) -> EngineModel {
    m_update_at(m_clocked(m, now), eff_time(m, now))
}

/// A reset clears buttons, triggers, both sticks, the stored mouse-button
/// transitions, the sample queue and any active lock.
pub open spec fn m_reset(m: EngineModel) -> EngineModel {
    EngineModel {
        samples: Seq::empty(),
        report: default_report(),
        lock: LockState::Free,
        mouse_left: KeyState::Up,
        mouse_right: KeyState::Up,
        ..m
    }
}

/// Event dispatch at exact time `now`: motion feeds the estimator, button
/// and key transitions go through bind resolution (mouse transitions also
/// update the stored button state and, under the debounce fix, re-press a
/// button still held when the other releases), and reset clears state.
pub open spec fn m_event_at(m: EngineModel, e: Event, now: u64) -> EngineModel {
    match e {
        Event::MouseMove(dx, dy) => EngineModel { samples: push_spec(m.samples, dx, dy, now), ..m },
        Event::Keyboard(sc, st) => m_bind_at(m, Bind::Keyboard(sc), st, now),
        Event::MouseButton(btn, st) => {
            let m1 = EngineModel {
                mouse_left: if btn == MouseButton::Left {
                    st
                } else {
                    m.mouse_left
                },
                mouse_right: if btn == MouseButton::Right {
                    st
                } else {
                    m.mouse_right
                },
                ..m
            };
            let m2 = m_bind_at(m1, Bind::Mouse(btn), st, now);
            if m2.config.mouse_button_fix && st is Up {
                let m3 = if m2.mouse_left is Down {
                    m_bind_at(m2, Bind::Mouse(MouseButton::Left), KeyState::Down, now)
                } else {
                    m2
                };
                if m3.mouse_right is Down {
                    m_bind_at(m3, Bind::Mouse(MouseButton::Right), KeyState::Down, now)
                } else {
                    m3
                }
            } else {
                m2
            }
        },
        Event::Reset => m_reset(m),
    }
}

/// One tick: the clock advances, at most one event is dispatched, and the
/// analog output is recomputed unconditionally.
pub open spec fn m_step(m: EngineModel, event: Option<Event>, now: u64) -> EngineModel {
    let t = eff_time(m, now);
    let mc = m_clocked(m, now);
    let m1 = match event {
        Some(e) => m_event_at(mc, e, t),
        None => mc,
    };
    m_update_at(m1, t)
}

/// For a digital bind, a press followed by a release leaves the
/// button/trigger state exactly as a bare release would — so from a state
/// where the effect is inactive, the pre-press state is restored — and a
/// double press without an intervening release leaves the same
/// button/trigger state as a single press.
pub proof fn lemma_bind_press_release_roundtrip(m: EngineModel, bind: Bind, now: u64)
    requires
        lookup_pair(m.config.binds@, bind) matches Some(ControllerAction::Button(_)),
    ensures
        ({
            let btn = lookup_pair(m.config.binds@, bind)->Some_0->Button_0;
            let pressed = m_bind_at(m, bind, KeyState::Down, now);
            let released = m_bind_at(pressed, bind, KeyState::Up, now);
            let twice = m_bind_at(pressed, bind, KeyState::Down, now);
            &&& released.report.buttons == apply_digital_spec(
                m.report,
                btn,
                KeyState::Up,
            ).buttons
            &&& released.report.left_trigger == apply_digital_spec(
                m.report,
                btn,
                KeyState::Up,
            ).left_trigger
            &&& released.report.right_trigger == apply_digital_spec(
                m.report,
                btn,
                KeyState::Up,
            ).right_trigger
            &&& !button_active_spec(m.report, btn) ==> released.report.buttons == m.report.buttons
                && released.report.left_trigger == m.report.left_trigger
                && released.report.right_trigger == m.report.right_trigger
            &&& twice.report.buttons == pressed.report.buttons
            &&& twice.report.left_trigger == pressed.report.left_trigger
            &&& twice.report.right_trigger == pressed.report.right_trigger
        }),
{
    reveal(m_bind_at);
    reveal(m_jump);
    reveal(m_set_analog);
    let btn = lookup_pair(m.config.binds@, bind)->Some_0->Button_0;
    crate::report::lemma_press_release_roundtrip(m.report, btn);
    crate::report::lemma_press_release_roundtrip(
        apply_digital_spec(m.report, btn, KeyState::Down),
        btn,
    );
}

/// Dodge resolution is order-independent: the vector depends only on which
/// gestures are active at resolution time, never on the order in which
/// their binds were pressed.
pub proof fn lemma_dodge_order_independent(m1: EngineModel, m2: EngineModel)
    requires
        forall|a: DodgeAction| #[trigger] dodge_pressed_spec(m1, a) == dodge_pressed_spec(m2, a),
    ensures
        dodge_vector_spec(m1) == dodge_vector_spec(m2),
{
    assert(dodge_pressed_spec(m1, DodgeAction::Forwards) == dodge_pressed_spec(
        m2,
        DodgeAction::Forwards,
    ));
    assert(dodge_pressed_spec(m1, DodgeAction::Backwards) == dodge_pressed_spec(
        m2,
        DodgeAction::Backwards,
    ));
    assert(dodge_pressed_spec(m1, DodgeAction::Left) == dodge_pressed_spec(m2, DodgeAction::Left));
    assert(dodge_pressed_spec(m1, DodgeAction::Right) == dodge_pressed_spec(
        m2,
        DodgeAction::Right,
    ));
}

/// Forward together with Left resolves to one full deflection up and to
/// the left, whatever else the state holds.
pub proof fn lemma_dodge_forward_left(m: EngineModel)
    requires
        dodge_pressed_spec(m, DodgeAction::Forwards),
        dodge_pressed_spec(m, DodgeAction::Left),
        !dodge_pressed_spec(m, DodgeAction::Backwards),
        !dodge_pressed_spec(m, DodgeAction::Right),
    ensures
        dodge_vector_spec(m) == (-(SCALE as int), SCALE as int),
{
}

/// Opposing directions cancel on their axis.
pub proof fn lemma_dodge_cancellation(m: EngineModel)
    ensures
        dodge_pressed_spec(m, DodgeAction::Forwards) == dodge_pressed_spec(
            m,
            DodgeAction::Backwards,
        ) ==> dodge_vector_spec(m).1 == 0,
        dodge_pressed_spec(m, DodgeAction::Left) == dodge_pressed_spec(m, DodgeAction::Right)
            ==> dodge_vector_spec(m).0 == 0,
{
}

/// Once the lock no longer covers the current time — in particular, once
/// the clock passes a timed lock's expiry — the next analog recomputation
/// behaves exactly as if no lock were ever held: the lock is dropped and
/// the output is the live free-state computation, with no residual locked
/// vector.
pub proof fn lemma_lock_expiry(m: EngineModel, now: u64)
    requires
        !lock_active_spec(m.lock, eff_time(m, now)),
    ensures
        m_update(m, now) == m_update(EngineModel { lock: LockState::Free, ..m }, now),
        m_update(m, now).lock == LockState::Free,
{
    reveal(m_update_at);
    reveal(m_set_analog);
    let mf = EngineModel { lock: LockState::Free, ..m };
    assert(m_clocked(mf, now) =~= (EngineModel { lock: LockState::Free, ..m_clocked(m, now) }));
    assert(m_update(m, now) =~= m_update(mf, now));
}

/// A reset event always zeroes the buttons, the triggers and both stick
/// axes, clears any active lock and empties the sample queue, whatever the
/// prior state.
pub proof fn lemma_reset_clears(m: EngineModel, now: u64)
    requires
        model_wf(m),
    ensures
        m_step(m, Some(Event::Reset), now).report == default_report(),
        m_step(m, Some(Event::Reset), now).lock == LockState::Free,
        m_step(m, Some(Event::Reset), now).samples == Seq::<MouseSample>::empty(),
        m_step(m, Some(Event::Reset), now).mouse_left == KeyState::Up,
        m_step(m, Some(Event::Reset), now).mouse_right == KeyState::Up,
        m_step(m, Some(Event::Reset), now).alert == (m.config.oversteer_alert_threshold_micro
            <= 0),
{
    reveal(m_update_at);
    reveal(m_set_analog);
    let t = eff_time(m, now);
    let m1 = m_reset(m_clocked(m, now));
    let win = m.config.sample_window_us;
    let empty = Seq::<MouseSample>::empty();
    assert(evict_spec(empty, t, win) =~= empty);
    assert(sum_dx(empty) == 0);
    assert(sum_dy(empty) == 0);
    let num = m.config.sensitivity_micro * 100;
    crate::shape::lemma_mul_div_zero(num as int, win as int);
    assert(free_velocity_spec(m.config, empty) == (0int, 0int));
    lemma_shaped_axes_zero(m.config, m.limit);
    assert(m_step(m, Some(Event::Reset), now).report =~= default_report());
}

/// Shaping the zero vector centers both axes.
proof fn lemma_shaped_axes_zero(cfg: Config, lim: LimitState)
    requires
        0 <= lim.radius_micro <= SCALE,
    ensures
        shaped_axes_spec(cfg, lim, 0, 0) == (0i16, 0i16),
{
    reveal(shape_linear_spec);
    reveal(shape_circular_spec);
    assert(crate::shape::hypot_sq(0, 0) == 0) by (nonlinear_arith);
    crate::shape::lemma_mul_div_zero(AXIS_MAX as int, SCALE as int);
    assert(crate::shape::isqrt_spec(0nat) == 0);
}

/// The state a freshly constructed engine starts from.
pub open spec fn m_init(config: Config) -> EngineModel {
    EngineModel {
        config,
        samples: Seq::empty(),
        report: default_report(),
        lock: LockState::Free,
        limit: (LimitState { enabled: false, radius_micro: SCALE }),
        mouse_left: KeyState::Up,
        mouse_right: KeyState::Up,
        alert: false,
        last_time_us: 0,
    }
}

/// The engine: owns the report, the lock state, the sample queue and the
/// limit state exclusively; one `step` call is one tick.
pub struct EventHandler {
    /// The immutable configuration.
    pub config: Config,
    /// The report as assembled so far.
    pub report: ControllerReport,
    /// The velocity estimator's sample queue.
    pub mouse_samples: SampleQueue,
    /// The analog-lock state.
    pub lock: LockState,
    /// The soft radius limit.
    pub limit: LimitState,
    /// Last transition seen for the left mouse button.
    pub mouse_left: KeyState,
    /// Last transition seen for the right mouse button.
    pub mouse_right: KeyState,
    /// The oversteer alert signal from the last shaping call.
    pub alert_active: bool,
    /// The engine's monotonic clock, microseconds.
    pub last_time_us: u64,
}

impl View for EventHandler {
    type V = EngineModel;

    open spec fn view(&self) -> EngineModel {
        EngineModel {
            config: self.config,
            samples: self.mouse_samples@,
            report: self.report,
            lock: self.lock,
            limit: self.limit,
            mouse_left: self.mouse_left,
            mouse_right: self.mouse_right,
            alert: self.alert_active,
            last_time_us: self.last_time_us,
        }
    }
}

impl EventHandler {
    /// All invariants of a running engine.
    pub open spec fn wf(self) -> bool {
        model_wf(self@)
    }

    /// Builds an engine from a configuration, which is validated here:
    /// construction succeeds exactly when the tunables are in range, and
    /// the process must not start otherwise.
    pub fn new(config: Config) -> (r: Result<EventHandler, ConfigError>)
        ensures
            r is Ok <==> config.wf(),
            r matches Ok(e) ==> e@ == m_init(config) && e.wf(),
    {
        if !config.validate() {
            return Err(ConfigError::TunableOutOfRange);
        }
        let e = EventHandler {
            config,
            report: ControllerReport::default(),
            mouse_samples: SampleQueue::new(),
            lock: LockState::Free,
            limit: LimitState { enabled: false, radius_micro: SCALE },
            mouse_left: KeyState::Up,
            mouse_right: KeyState::Up,
            alert_active: false,
            last_time_us: 0,
        };
        proof {
            assert(e@ =~= m_init(e.config));
        }
        Ok(e)
    }

    /// Whether dodge gesture `action` is currently active, resolved
    /// through its bound input and the current digital state.
    pub fn dodge_action_pressed(&self, action: DodgeAction) -> (r: bool)
        ensures
            r == dodge_pressed_spec(self@, action),
    {
        let bind = match self.config.dodge_bind(action) {
            Some(b) => b,
            None => {
                return false;
            },
        };
        match self.config.bind_action(bind) {
            Some(ControllerAction::Button(btn)) => self.report.button_active(btn),
            _ => false,
        }
    }

    /// Shapes the vector `(x, y)` into the left stick through the
    /// configured policy and refreshes the oversteer alert signal.
    pub fn set_analog(&mut self, x: i64, y: i64)
        requires
            old(self).wf(),
            -COORD_LIMIT <= x <= COORD_LIMIT,
            -COORD_LIMIT <= y <= COORD_LIMIT,
        ensures
            final (self)@ == m_set_analog(old(self)@, x as int, y as int),
            final (self).wf(),
    {
        let ax = if x >= 0 {
            x
        } else {
            -x
        };
        let ay = if y >= 0 {
            y
        } else {
            -y
        };
        let mag = if ax >= ay {
            ax
        } else {
            ay
        };
        self.alert_active = mag >= self.config.oversteer_alert_threshold_micro;
        let axes = if self.config.analog_circularize {
            let lim = if self.limit.enabled {
                self.limit.radius_micro
            } else {
                SCALE
            };
            shape_circular(x, y, lim)
        } else {
            shape_linear(x, y)
        };
        self.report.thumb_lx = axes.0;
        self.report.thumb_ly = axes.1;
        proof {
            reveal(m_set_analog);
            assert(self@ =~= m_set_analog(old(self)@, x as int, y as int));
        }
    }

    /// Resolves and locks in a dodge vector: each active directional
    /// gesture contributes one full deflection, the lock runs for the
    /// configured dodge-lock duration from `now`, and the vector is
    /// shaped immediately.
    pub fn handle_jump(&mut self, now: u64)
        requires
            old(self).wf(),
            now <= TIME_MAX,
        ensures
            final (self)@ == m_jump(old(self)@, now),
            final (self).wf(),
    {
        let mut x: i64 = 0;
        let mut y: i64 = 0;
        if self.dodge_action_pressed(DodgeAction::Right) {
            x = x + SCALE;
        }
        if self.dodge_action_pressed(DodgeAction::Left) {
            x = x - SCALE;
        }
        if self.dodge_action_pressed(DodgeAction::Forwards) {
            y = y + SCALE;
        }
        if self.dodge_action_pressed(DodgeAction::Backwards) {
            y = y - SCALE;
        }
        proof {
            assert(x as int == dodge_vector_spec(self@).0);
            assert(y as int == dodge_vector_spec(self@).1);
        }
        self.lock = LockState::Timed { expires_at_us: now + self.config.dodge_lock_us, x, y };
        self.set_analog(x, y);
        proof {
            reveal(m_jump);
            assert(self@ =~= m_jump(old(self)@, now));
        }
    }

    /// Applies one radius-limit control.
    fn apply_limit(&mut self, a: LimitAction)
        requires
            old(self).wf(),
        ensures
            final (self)@ == (EngineModel {
                limit: apply_limit_action_spec(
                    old(self)@.limit,
                    a,
                    old(self)@.config.limit_step_micro,
                ),
                ..old(self)@
            }),
            final (self).wf(),
    {
        let step = self.config.limit_step_micro;
        match a {
            LimitAction::Reset => {
                self.limit.radius_micro = SCALE;
            },
            LimitAction::Toggle => {
                self.limit.enabled = !self.limit.enabled;
            },
            LimitAction::Increment => {
                let r = self.limit.radius_micro + step;
                self.limit.radius_micro = if r > SCALE {
                    SCALE
                } else {
                    r
                };
            },
            LimitAction::Decrement => {
                let r = self.limit.radius_micro - step;
                self.limit.radius_micro = if r < 0 {
                    0
                } else {
                    r
                };
            },
        }
        proof {
            assert(self@ =~= (EngineModel {
                limit: apply_limit_action_spec(
                    old(self)@.limit,
                    a,
                    old(self)@.config.limit_step_micro,
                ),
                ..old(self)@
            }));
        }
    }

    /// Resolves one physical input transition: advances the clock, applies
    /// the bound controller effect if any (unbound inputs are silently
    /// ignored), triggers dodge resolution on a press of the jump-gesture
    /// bind, and evaluates limit controls on every press.
    pub fn handle_bind(&mut self, bind: Bind, state: KeyState, now: u64)
        requires
            old(self).wf(),
            now <= TIME_MAX,
        ensures
            final (self)@ == m_bind(old(self)@, bind, state, now),
            final (self).wf(),
    {
        let t = if now >= self.last_time_us {
            now
        } else {
            self.last_time_us
        };
        self.last_time_us = t;
        proof {
            reveal(m_bind_at);
            assert(self@ =~= m_clocked(old(self)@, now));
        }
        let ghost mc = self@;
        match self.config.bind_action(bind) {
            None => {},
            Some(ControllerAction::Analog(ax, ay)) => {
                if state == KeyState::Down {
                    proof {
                        crate::config::lemma_lookup_pair_is_entry(self.config.binds@, bind);
                    }
                    self.lock = LockState::Held { owner: bind, x: ax, y: ay };
                } else {
                    let clear = match self.lock {
                        LockState::Held { owner, .. } => owner == bind,
                        _ => false,
                    };
                    if clear {
                        self.lock = LockState::Free;
                    }
                }
            },
            Some(ControllerAction::Button(btn)) => {
                self.report.apply_digital(btn, state);
                proof {
                    assert(self@ =~= (EngineModel {
                        report: apply_digital_spec(mc.report, btn, state),
                        ..mc
                    }));
                }
                if state == KeyState::Down {
                    let jump = match self.config.dodge_bind(DodgeAction::Jump) {
                        Some(jb) => jb == bind,
                        None => false,
                    };
                    if jump {
                        self.handle_jump(t);
                    }
                }
            },
        }
        let ghost m1 = self@;
        if state == KeyState::Down {
            match self.config.limit_action(bind) {
                Some(a) => self.apply_limit(a),
                None => {},
            }
        }
        proof {
            assert(self@ =~= m_limit(m1, bind, state));
            assert(self@ =~= m_bind(old(self)@, bind, state, now));
        }
    }

    /// Appends one mouse-motion delta at the advanced clock.
    pub fn handle_mouse_move(&mut self, dx: i32, dy: i32, now: u64)
        requires
            old(self).wf(),
            now <= TIME_MAX,
        ensures
            final (self)@ == m_mouse_move(old(self)@, dx, dy, now),
            final (self).wf(),
    {
        let t = if now >= self.last_time_us {
            now
        } else {
            self.last_time_us
        };
        self.last_time_us = t;
        proof {
            assert(times_at_most(self.mouse_samples@, t));
        }
        self.mouse_samples.push(dx, dy, t);
        proof {
            assert(self@ =~= m_mouse_move(old(self)@, dx, dy, now));
        }
    }

    /// Recomputes the analog output at the advanced clock: an active lock
    /// shapes its stored vector; otherwise any expired lock is dropped,
    /// stale samples are evicted, and the live velocity estimate is
    /// scaled, masked, vertically inverted and shaped.
    pub fn update_analog(&mut self, now: u64)
        requires
            old(self).wf(),
            now <= TIME_MAX,
        ensures
            final (self)@ == m_update(old(self)@, now),
            final (self).wf(),
    {
        let t = if now >= self.last_time_us {
            now
        } else {
            self.last_time_us
        };
        self.last_time_us = t;
        proof {
            assert(self@ =~= m_clocked(old(self)@, now));
        }
        proof {
            reveal(m_update_at);
        }
        let ghost mc = self@;
        let active = match self.lock {
            LockState::Free => false,
            LockState::Timed { expires_at_us, .. } => t <= expires_at_us,
            LockState::Held { .. } => true,
        };
        if active {
            let lx = match self.lock {
                LockState::Free => 0,
                LockState::Timed { x, .. } => x,
                LockState::Held { x, .. } => x,
            };
            let ly = match self.lock {
                LockState::Free => 0,
                LockState::Timed { y, .. } => y,
                LockState::Held { y, .. } => y,
            };
            self.set_analog(lx, ly);
        } else {
            self.lock = LockState::Free;
            self.mouse_samples.evict(t, self.config.sample_window_us);
            let sums = self.mouse_samples.delta_sums();
            let sx = sums.0;
            let sy = sums.1;
            let num: u64 = self.config.sensitivity_micro * 100;
            let win = self.config.sample_window_us;
            proof {
                lemma_mul_inequality(1000, win as int, COORD_LIMIT as int);
                lemma_mul_div_bound(sx as int, num as int, win as int, 67_108_864, COORD_LIMIT as int);
                lemma_mul_div_bound(
                    -(sy as int),
                    num as int,
                    win as int,
                    67_108_864,
                    COORD_LIMIT as int,
                );
                lemma_mul_div_bound(
                    abs_int(sx as int),
                    num as int,
                    win as int,
                    67_108_864,
                    COORD_LIMIT as int,
                );
                lemma_mul_div_bound(
                    abs_int(-(sy as int)),
                    num as int,
                    win as int,
                    67_108_864,
                    COORD_LIMIT as int,
                );
            }
            let vx = if self.config.analog_mask_x {
                mul_div(sx, num, win as u128)
            } else {
                0
            };
            let vy = if self.config.analog_mask_y {
                mul_div(-sy, num, win as u128)
            } else {
                0
            };
            self.set_analog(vx, vy);
        }
        proof {
            assert(self@ =~= m_update(old(self)@, now));
        }
    }

    /// One tick: advances the clock, dispatches at most one event, then
    /// recomputes the analog output unconditionally and returns the
    /// assembled report snapshot to push to the sink.
    #[verifier::rlimit(100)]
    pub fn step(&mut self, event: Option<Event>, now_us: u64) -> (r: ControllerReport)
        requires
            old(self).wf(),
            now_us <= TIME_MAX,
        ensures
            final (self)@ == m_step(old(self)@, event, now_us),
            final (self).wf(),
            r == final (self)@.report,
    {
        let t = if now_us >= self.last_time_us {
            now_us
        } else {
            self.last_time_us
        };
        self.last_time_us = t;
        proof {
            assert(self@ =~= m_clocked(old(self)@, now_us));
        }
        let ghost mc = self@;
        match event {
            None => {},
            Some(Event::MouseMove(dx, dy)) => {
                self.handle_mouse_move(dx, dy, t);
                proof {
                    assert(self@ =~= m_event_at(mc, Event::MouseMove(dx, dy), t));
                }
            },
            Some(Event::Keyboard(sc, st)) => {
                self.handle_bind(Bind::Keyboard(sc), st, t);
                proof {
                    lemma_bind_at_frame(mc, Bind::Keyboard(sc), st, t);
                    assert(self@ =~= m_event_at(mc, Event::Keyboard(sc, st), t));
                }
            },
            Some(Event::MouseButton(btn, st)) => {
                if btn == MouseButton::Left {
                    self.mouse_left = st;
                }
                if btn == MouseButton::Right {
                    self.mouse_right = st;
                }
                let ghost m1 = self@;
                self.handle_bind(Bind::Mouse(btn), st, t);
                proof {
                    lemma_bind_at_frame(m1, Bind::Mouse(btn), st, t);
                    assert(self@ =~= m_bind_at(m1, Bind::Mouse(btn), st, t));
                }
                let ghost m2 = self@;
                if self.config.mouse_button_fix && st == KeyState::Up {
                    if self.mouse_left == KeyState::Down {
                        proof {
                            lemma_bind_at_frame(m2, Bind::Mouse(MouseButton::Left), KeyState::Down, t);
                        }
                        self.handle_bind(Bind::Mouse(MouseButton::Left), KeyState::Down, t);
                    }
                    let ghost m3 = self@;
                    if self.mouse_right == KeyState::Down {
                        proof {
                            lemma_bind_at_frame(m3, Bind::Mouse(MouseButton::Right), KeyState::Down, t);
                        }
                        self.handle_bind(Bind::Mouse(MouseButton::Right), KeyState::Down, t);
                    }
                }
                proof {
                    assert(self@ =~= m_event_at(mc, Event::MouseButton(btn, st), t));
                }
            },
            Some(Event::Reset) => {
                self.report = ControllerReport::default();
                self.mouse_samples.clear();
                self.lock = LockState::Free;
                self.mouse_left = KeyState::Up;
                self.mouse_right = KeyState::Up;
                proof {
                    assert(self@.samples =~= Seq::<MouseSample>::empty());
                    assert(self@ =~= m_reset(mc));
                }
            },
        }
        let ghost m1 = self@;
        self.update_analog(t);
        proof {
            assert(self@ =~= m_update_at(m1, t));
            assert(self@ =~= m_step(old(self)@, event, now_us));
        }
        self.report
    }
}

} // verus!
