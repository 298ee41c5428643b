//! Immutable configuration: tunable thresholds and the static mapping
//! tables from physical inputs to controller effects, dodge gestures and
//! limit controls.

use vstd::prelude::*;
use crate::input::{Bind, ControllerAction, DodgeAction, LimitAction};
use crate::shape::{COORD_LIMIT, SCALE};

verus! {

/// First value associated with key `k` in an association list, scanning
/// front to back.
pub open spec fn lookup_pair<K, V>(s: Seq<(K, V)>, k: K) -> Option<V>
    decreases s.len(),
{
    if s.len() == 0 {
        None
    } else if s[0].0 == k {
        Some(s[0].1)
    } else {
        lookup_pair(s.subrange(1, s.len() as int), k)
    }
}

/// Scanning on from position `i` past a non-matching entry looks up the
/// same value.
proof fn lemma_lookup_pair_skip<K, V>(s: Seq<(K, V)>, k: K, i: int)
    requires
        0 <= i < s.len(),
        s[i].0 != k,
    ensures
        lookup_pair(s.subrange(i, s.len() as int), k) == lookup_pair(
            s.subrange(i + 1, s.len() as int),
            k,
        ),
{
    let tail = s.subrange(i, s.len() as int);
    assert(tail.subrange(1, tail.len() as int) =~= s.subrange(i + 1, s.len() as int));
}

/// A successful lookup returns a value stored in the list.
pub proof fn lemma_lookup_pair_is_entry<K, V>(s: Seq<(K, V)>, k: K)
    requires
        lookup_pair(s, k) is Some,
    ensures
        exists|i: int|
            0 <= i < s.len() && (#[trigger] s[i]).0 == k && s[i].1 == lookup_pair(s, k)->Some_0,
    decreases s.len(),
{
    if s.len() > 0 && s[0].0 != k {
        let tail = s.subrange(1, s.len() as int);
        lemma_lookup_pair_is_entry(tail, k);
        let j = choose|j: int|
            0 <= j < tail.len() && (#[trigger] tail[j]).0 == k && tail[j].1 == lookup_pair(
                tail,
                k,
            )->Some_0;
        assert(s[j + 1] == tail[j]);
    }
}

/// Whether the coordinates of an analog-override effect lie within the
/// range the shaping engine accepts.
pub open spec fn analog_coords_ok(a: ControllerAction) -> bool {
    match a {
        ControllerAction::Analog(x, y) => -COORD_LIMIT <= x <= COORD_LIMIT && -COORD_LIMIT <= y
            <= COORD_LIMIT,
        ControllerAction::Button(_) => true,
    }
}

/// Immutable per-run configuration. All analog quantities are fixed-point
/// micro-units; all durations are microseconds.
pub struct Config {
    /// Scales the live mouse velocity into stick deflection.
    pub sensitivity_micro: u64,
    /// Trailing time span of mouse samples considered live.
    pub sample_window_us: u64,
    /// How long a dodge gesture locks the analog vector.
    pub dodge_lock_us: u64,
    /// Ceiling of the event-poll busy wait, one tick.
    pub spin_period_us: u64,
    /// Whether the oversteer alert collaborator is driven at all.
    pub oversteer_alert_enabled: bool,
    /// Raw magnitude at and above which the alert signal is raised.
    pub oversteer_alert_threshold_micro: i64,
    /// Whether the horizontal mouse-velocity component is kept.
    pub analog_mask_x: bool,
    /// Whether the vertical mouse-velocity component is kept.
    pub analog_mask_y: bool,
    /// Shaping policy: circularized when set, linear with overshoot
    /// correction otherwise.
    pub analog_circularize: bool,
    /// Re-press a mouse button still held physically when the other one
    /// releases (debounce correction).
    pub mouse_button_fix: bool,
    /// Step of the bindable radius-limit increment and decrement controls.
    pub limit_step_micro: i64,
    /// Physical input to controller effect; first match wins.
    pub binds: Vec<(Bind, ControllerAction)>,
    /// Dodge gesture to the physical input that drives it.
    pub dodge_binds: Vec<(DodgeAction, Bind)>,
    /// Physical input to radius-limit control; first match wins.
    pub limit_binds: Vec<(Bind, LimitAction)>,
}

impl Config {
    /// Numeric tunables within the ranges the fixed-point engine supports.
    pub open spec fn wf(self) -> bool {
        &&& self.sensitivity_micro <= 1_000_000_000
        &&& 1_000 <= self.sample_window_us <= 1_000_000_000
        &&& self.dodge_lock_us <= 86_400_000_000
        &&& self.oversteer_alert_threshold_micro >= 0
        &&& 0 <= self.limit_step_micro <= SCALE
        &&& forall|i: int|
            0 <= i < self.binds@.len() ==> analog_coords_ok(#[trigger] self.binds@[i].1)
    }

    /// Runtime check of [`Config::wf`], for callers outside verified code.
    pub fn validate(&self) -> (ok: bool)
        ensures
            ok == self.wf(),
    {
        let mut coords_ok = true;
        let mut i: usize = 0;
        while i < self.binds.len()
            invariant
                i <= self.binds@.len(),
                coords_ok == forall|j: int|
                    0 <= j < i ==> analog_coords_ok(#[trigger] self.binds@[j].1),
            decreases self.binds@.len() - i,
        {
            let entry_ok = match self.binds[i].1 {
                ControllerAction::Analog(x, y) => -COORD_LIMIT <= x && x <= COORD_LIMIT
                    && -COORD_LIMIT <= y && y <= COORD_LIMIT,
                ControllerAction::Button(_) => true,
            };
            coords_ok = coords_ok && entry_ok;
            i = i + 1;
        }
        coords_ok && self.sensitivity_micro <= 1_000_000_000 && 1_000 <= self.sample_window_us
            && self.sample_window_us <= 1_000_000_000 && self.dodge_lock_us <= 86_400_000_000
            && self.oversteer_alert_threshold_micro >= 0 && 0 <= self.limit_step_micro
            && self.limit_step_micro <= SCALE
    }

    /// Controller effect bound to `b`, if any.
    pub fn bind_action(&self, b: Bind) -> (r: Option<ControllerAction>)
        ensures
            r == lookup_pair(self.binds@, b),
    {
        let n = self.binds.len();
        proof {
            assert(self.binds@.subrange(0, n as int) =~= self.binds@);
        }
        let mut i: usize = 0;
        while i < n
            invariant
                n == self.binds@.len(),
                i <= n,
                lookup_pair(self.binds@, b) == lookup_pair(
                    self.binds@.subrange(i as int, n as int),
                    b,
                ),
            decreases n - i,
        {
            if self.binds[i].0 == b {
                proof {
                    assert(self.binds@.subrange(i as int, n as int)[0] == self.binds@[i as int]);
                }
                return Some(self.binds[i].1);
            }
            proof {
                lemma_lookup_pair_skip(self.binds@, b, i as int);
                assert(self.binds@.subrange(i as int, n as int) =~= self.binds@.subrange(
                    i as int,
                    self.binds@.len() as int,
                ));
            }
            i = i + 1;
        }
        None
    }

    /// Physical input driving dodge gesture `a`, if any.
    pub fn dodge_bind(&self, a: DodgeAction) -> (r: Option<Bind>)
        ensures
            r == lookup_pair(self.dodge_binds@, a),
    {
        let n = self.dodge_binds.len();
        proof {
            assert(self.dodge_binds@.subrange(0, n as int) =~= self.dodge_binds@);
        }
        let mut i: usize = 0;
        while i < n
            invariant
                n == self.dodge_binds@.len(),
                i <= n,
                lookup_pair(self.dodge_binds@, a) == lookup_pair(
                    self.dodge_binds@.subrange(i as int, n as int),
                    a,
                ),
            decreases n - i,
        {
            if self.dodge_binds[i].0 == a {
                proof {
                    assert(self.dodge_binds@.subrange(i as int, n as int)[0]
                        == self.dodge_binds@[i as int]);
                }
                return Some(self.dodge_binds[i].1);
            }
            proof {
                lemma_lookup_pair_skip(self.dodge_binds@, a, i as int);
                assert(self.dodge_binds@.subrange(i as int, n as int) =~= self.dodge_binds@
                    .subrange(i as int, self.dodge_binds@.len() as int));
            }
            i = i + 1;
        }
        None
    }

    /// Radius-limit control bound to `b`, if any.
    pub fn limit_action(&self, b: Bind) -> (r: Option<LimitAction>)
        ensures
            r == lookup_pair(self.limit_binds@, b),
    {
        let n = self.limit_binds.len();
        proof {
            assert(self.limit_binds@.subrange(0, n as int) =~= self.limit_binds@);
        }
        let mut i: usize = 0;
        while i < n
            invariant
                n == self.limit_binds@.len(),
                i <= n,
                lookup_pair(self.limit_binds@, b) == lookup_pair(
                    self.limit_binds@.subrange(i as int, n as int),
                    b,
                ),
            decreases n - i,
        {
            if self.limit_binds[i].0 == b {
                proof {
                    assert(self.limit_binds@.subrange(i as int, n as int)[0]
                        == self.limit_binds@[i as int]);
                }
                return Some(self.limit_binds[i].1);
            }
            proof {
                lemma_lookup_pair_skip(self.limit_binds@, b, i as int);
                assert(self.limit_binds@.subrange(i as int, n as int) =~= self.limit_binds@
                    .subrange(i as int, self.limit_binds@.len() as int));
            }
            i = i + 1;
        }
        None
    }
}

impl Default for Config {
    /// The tunables the engine starts from when no configuration names
    /// them: sensitivity one, a 20 ms sampling window, a 50 ms dodge lock,
    /// a 2 ms poll budget, alerting off with a 1.5 threshold, both axes
    /// live, circularized shaping, no debounce fix, a 0.1 limit step and
    /// empty mapping tables.
    fn default() -> (c: Self)
        ensures
            c.sensitivity_micro == 1_000_000,
            c.sample_window_us == 20_000,
            c.dodge_lock_us == 50_000,
            c.spin_period_us == 2_000,
            !c.oversteer_alert_enabled,
            c.oversteer_alert_threshold_micro == 1_500_000,
            c.analog_mask_x,
            c.analog_mask_y,
            c.analog_circularize,
            !c.mouse_button_fix,
            c.limit_step_micro == 100_000,
            c.binds@.len() == 0,
            c.dodge_binds@.len() == 0,
            c.limit_binds@.len() == 0,
            c.wf(),
    {
        Config {
            sensitivity_micro: 1_000_000,
            sample_window_us: 20_000,
            dodge_lock_us: 50_000,
            spin_period_us: 2_000,
            oversteer_alert_enabled: false,
            oversteer_alert_threshold_micro: 1_500_000,
            analog_mask_x: true,
            analog_mask_y: true,
            analog_circularize: true,
            mouse_button_fix: false,
            limit_step_micro: 100_000,
            binds: Vec::new(),
            dodge_binds: Vec::new(),
            limit_binds: Vec::new(),
        }
    }
}

} // verus!
