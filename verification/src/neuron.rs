//! The Hindmarsh-Rose (second variant) simulation unit: a single
//! excitable-cell state machine that a real-time host configures, feeds,
//! and ticks.
//!
//! Every real-valued field holds the bit pattern of an IEEE-754 double.
//! The unit owns all discrete logic: key dispatch, the configuration
//! reset policy, input sanitization, step-size selection, and the
//! per-tick step-count bounds.  The floating-point arithmetic a tick
//! needs — the timing quotients and the Runge-Kutta integration steps —
//! is carried out by the embedding layer, which reads the fields,
//! computes, and hands the results back as plain bit patterns; every
//! contract here holds for whatever values come back.
//!
//! Per tick the embedding: calls [`HindmarshRoseV2::process_tick`] with
//! the host period and the precomputed timing quotients, receives the
//! number `n` of integration steps owed, runs `n` Runge-Kutta steps on
//! `(x, y, z)` with the stored `dt` and the latched synaptic input, and
//! stores the integrated triple back with
//! [`HindmarshRoseV2::store_state`].

use vstd::prelude::*;

use crate::fbits::ZERO_BITS;
use crate::fbits::abs_bits;
use crate::fbits::abs_bits_of;
use crate::fbits::f64_eq;
use crate::fbits::f64_eq_b;
use crate::fbits::f64_lt;
use crate::fbits::f64_lt_b;
use crate::fbits::gt_zero;
use crate::fbits::gt_zero_b;
use crate::fbits::is_finite;
use crate::fbits::is_finite_b;
use crate::fbits::le_zero;
use crate::fbits::le_zero_b;
use crate::strcmp::str_eq;
use crate::table::select_dt;
use crate::table::select_dt_b;

verus! {

/// Bit pattern of the default membrane potential, -0.9013747551021072.
pub const X_INIT: u64 = 0xBFEC_D80F_DED3_505C;

/// Bit pattern of the default fast recovery variable, -3.15948829665501.
pub const Y_INIT: u64 = 0xC009_46A1_CCD1_D2F9;

/// Bit pattern of the default slow adaptation variable, 3.247826955037619.
pub const Z_INIT: u64 = 0x4009_FB8C_B2D7_A175;

/// Bit pattern of the default gain `e`, 3.0.
pub const E_INIT: u64 = 0x4008_0000_0000_0000;

/// Bit pattern of the default time-scale separator `mu`, 0.0021.
pub const MU_INIT: u64 = 0x3F61_3404_EA4A_8C15;

/// Bit pattern of the default gain `s`, 4.0.
pub const S_INIT: u64 = 0x4010_0000_0000_0000;

/// Bit pattern of the default offset `vh`, 1.0.
pub const VH_INIT: u64 = 0x3FF0_0000_0000_0000;

/// Bit pattern of the default integration step size, 0.0015.
pub const DT_INIT: u64 = 0x3F58_9374_BC6A_7EFA;

/// Bit pattern of the default burst duration, 1.0.
pub const BURST_INIT: u64 = 0x3FF0_0000_0000_0000;

/// Bit pattern of the default tick period, 0.001 seconds.
pub const PERIOD_INIT: u64 = 0x3F50_624D_D2F1_A9FC;

/// Bit pattern of the machine epsilon for doubles, 2.220446049250313e-16:
/// the threshold above which a period change triggers retiming.
pub const EPSILON_BITS: u64 = 0x3CB0_0000_0000_0000;

/// Hard cap on the number of integration steps a single tick may run.
pub const STEP_CAP: usize = 10000;

/// The floating-point quotients one timing recomputation needs, computed
/// by the embedding layer from the unit's own stored values:
/// `pts_match` is the bit pattern of `burst_duration * (1 / period)`,
/// `burst_steps` is `round(pts_match / (burst_duration * (1 / period)))`
/// cast to `usize`, and `fixed_steps` is `round(period / dt)` cast to
/// `usize`.  Every contract below holds for whatever values stand here.
#[derive(Clone, Copy, Debug)]
pub struct TimingArith {
    /// Bit pattern of the points-per-burst metric.
    pub pts_match: u64,
    /// Rounded burst-mode step ratio (algebraically 1 in exact arithmetic).
    pub burst_steps: usize,
    /// Rounded non-burst step count `period / dt`.
    pub fixed_steps: usize,
}

/// What an output read names: the stored membrane potential sample to be
/// reported in volts, the same sample to be scaled by 1000 and reported
/// in millivolts, or nothing for an unrecognized key (read as 0.0).
#[derive(Clone, Copy, Debug, PartialEq, Eq, Structural)]
pub enum OutputValue {
    /// "Membrane potential (V)": the sample itself.
    Volts(u64),
    /// "Membrane potential (mV)": the sample, to be scaled by 1000.
    Millivolts(u64),
    /// Unrecognized key.
    Unknown,
}

/// The simulation unit.  Every `u64` field is the bit pattern of an
/// IEEE-754 double.
#[derive(Clone, Copy, Debug)]
pub struct HindmarshRoseV2 {
    /// Live membrane potential.
    pub x: u64,
    /// Live fast recovery variable.
    pub y: u64,
    /// Live slow adaptation variable.
    pub z: u64,
    /// Latched synaptic drive; always finite.
    pub input_syn: u64,
    /// Model gain `e`.
    pub e: u64,
    /// Time-scale separator `mu`.
    pub mu: u64,
    /// Model gain `s`.
    pub s: u64,
    /// Model offset `vh`.
    pub vh: u64,
    /// Active integration step size.
    pub dt: u64,
    /// Desired burst span per tick; at most 0 disables burst sizing.
    pub burst_duration: u64,
    /// Number of integration steps owed per tick.
    pub s_points: usize,
    /// Stored host tick period.
    pub period_seconds: u64,
    /// Configured initial/reset value for `x`.
    pub cfg_x: u64,
    /// Configured initial/reset value for `y`.
    pub cfg_y: u64,
    /// Configured initial/reset value for `z`.
    pub cfg_z: u64,
}

impl HindmarshRoseV2 {
    /// The literal construction defaults.
    pub open spec fn default_spec() -> Self {
        HindmarshRoseV2 {
            x: X_INIT,
            y: Y_INIT,
            z: Z_INIT,
            input_syn: ZERO_BITS,
            e: E_INIT,
            mu: MU_INIT,
            s: S_INIT,
            vh: VH_INIT,
            dt: DT_INIT,
            burst_duration: BURST_INIT,
            s_points: 1,
            period_seconds: PERIOD_INIT,
            cfg_x: X_INIT,
            cfg_y: Y_INIT,
            cfg_z: Z_INIT,
        }
    }

    /// Well-formedness of a unit: the latched synaptic drive is always
    /// finite (writes sanitize it) and the per-tick step count never
    /// sits below its floor of 1.  Construction establishes it and every
    /// transition preserves it.
    pub open spec fn wf(st: Self) -> bool {
        &&& is_finite_b(st.input_syn)
        &&& st.s_points >= 1
    }

    /// The live dynamical triple is IEEE-equal, component for component,
    /// to the configured triple.
    pub open spec fn live_matches_cfg(st: Self) -> bool {
        &&& f64_eq_b(st.x, st.cfg_x)
        &&& f64_eq_b(st.y, st.cfg_y)
        &&& f64_eq_b(st.z, st.cfg_z)
    }

    /// The state after one recognized-key write: the three initial
    /// condition keys update the configured triple, the seven parameter
    /// keys update their field directly, anything else is ignored.
    pub open spec fn with_key_applied(st: Self, key: Seq<char>, v: u64) -> Self {
        if key == "x"@ {
            HindmarshRoseV2 { cfg_x: v, ..st }
        } else if key == "y"@ {
            HindmarshRoseV2 { cfg_y: v, ..st }
        } else if key == "z"@ {
            HindmarshRoseV2 { cfg_z: v, ..st }
        } else if key == "e"@ {
            HindmarshRoseV2 { e: v, ..st }
        } else if key == "mu"@ {
            HindmarshRoseV2 { mu: v, ..st }
        } else if key == "s"@ {
            HindmarshRoseV2 { s: v, ..st }
        } else if key == "vh"@ {
            HindmarshRoseV2 { vh: v, ..st }
        } else if key == "dt"@ {
            HindmarshRoseV2 { dt: v, ..st }
        } else if key == "burst_duration"@ {
            HindmarshRoseV2 { burst_duration: v, ..st }
        } else if key == "period_seconds"@ {
            HindmarshRoseV2 { period_seconds: v, ..st }
        } else {
            st
        }
    }

    /// The reset check that follows every configuration write: when the
    /// live triple differs in any component from the configured triple,
    /// the live triple is overwritten with the configured one.
    pub open spec fn with_reset_check(st: Self) -> Self {
        if Self::live_matches_cfg(st) {
            st
        } else {
            HindmarshRoseV2 { x: st.cfg_x, y: st.cfg_y, z: st.cfg_z, ..st }
        }
    }

    /// The state after a whole configuration write: a numeric value is
    /// applied by key (a non-numeric one is ignored), then the reset
    /// check runs unconditionally.
    pub open spec fn config_applied(st: Self, key: Seq<char>, value: Option<u64>) -> Self {
        match value {
            Some(v) => Self::with_reset_check(Self::with_key_applied(st, key, v)),
            None => Self::with_reset_check(st),
        }
    }

    /// A step count clamped to the floor of 1.
    pub open spec fn at_least_one(n: usize) -> usize {
        if n < 1 {
            1
        } else {
            n
        }
    }

    /// The state after one timing recomputation from the stored
    /// `(period_seconds, burst_duration)` and the handed-in quotients:
    /// a non-positive period forces the degenerate single step and
    /// leaves `dt` untouched; a positive burst duration selects `dt`
    /// from the table on the points-per-burst metric and takes the
    /// rounded burst ratio as step count; otherwise the rounded
    /// `period / dt` quotient is taken and `dt` is left alone.  Either
    /// way the step count never falls below 1.
    pub open spec fn timing_applied(st: Self, a: TimingArith) -> Self {
        if le_zero_b(st.period_seconds) {
            HindmarshRoseV2 { s_points: 1, ..st }
        } else if gt_zero_b(st.burst_duration) {
            HindmarshRoseV2 {
                dt: select_dt_b(a.pts_match),
                s_points: Self::at_least_one(a.burst_steps),
                ..st
            }
        } else {
            HindmarshRoseV2 { s_points: Self::at_least_one(a.fixed_steps), ..st }
        }
    }

    /// The state after the timing half of a tick: when the handed-in
    /// period difference exceeds the machine epsilon in magnitude, the
    /// stored period is replaced and the timing is recomputed; otherwise
    /// nothing changes.
    pub open spec fn tick_applied(st: Self, period: u64, diff: u64, a: TimingArith) -> Self {
        if f64_lt_b(EPSILON_BITS, abs_bits_of(diff)) {
            Self::timing_applied(HindmarshRoseV2 { period_seconds: period, ..st }, a)
        } else {
            st
        }
    }

    /// The number of integration steps a tick runs for a stored step
    /// count: clamped into `1 ..= STEP_CAP`.
    pub open spec fn clamped_steps(n: usize) -> usize {
        if n > STEP_CAP {
            STEP_CAP
        } else if n < 1 {
            1
        } else {
            n
        }
    }

    /// The state after an input write: the synaptic drive latches a
    /// finite value as it is and a non-finite one as 0.0; other keys are
    /// ignored.
    pub open spec fn input_applied(st: Self, key: Seq<char>, v: u64) -> Self {
        if key == "i_syn"@ {
            HindmarshRoseV2 {
                input_syn: if is_finite_b(v) {
                    v
                } else {
                    ZERO_BITS
                },
                ..st
            }
        } else {
            st
        }
    }

    /// What an output read returns for a key.
    pub open spec fn output_read(st: Self, key: Seq<char>) -> OutputValue {
        if key == "Membrane potential (V)"@ {
            OutputValue::Volts(st.x)
        } else if key == "Membrane potential (mV)"@ {
            OutputValue::Millivolts(st.x)
        } else {
            OutputValue::Unknown
        }
    }

    /// What an introspection read returns for a key.
    pub open spec fn internal_read(st: Self, key: Seq<char>) -> Option<u64> {
        if key == "x"@ {
            Some(st.x)
        } else if key == "y"@ {
            Some(st.y)
        } else if key == "z"@ {
            Some(st.z)
        } else {
            None
        }
    }

    /// Applies one configuration write: a numeric value (already reduced
    /// to its bit pattern; `None` for a non-numeric one) is stored under
    /// a recognized key, unknown keys and non-numeric values are silently
    /// ignored, and the reset check then runs unconditionally.  The
    /// embedding recomputes the timing with
    /// [`Self::update_burst_settings`] after every write.
    pub fn set_config_value(&mut self, key: &str, value: Option<u64>)
        ensures
            *final(self) == Self::config_applied(*old(self), key@, value),
            Self::wf(*old(self)) ==> Self::wf(*final(self)),
    {
        if let Some(v) = value {
            if str_eq(key, "x") {
                self.cfg_x = v;
            } else if str_eq(key, "y") {
                self.cfg_y = v;
            } else if str_eq(key, "z") {
                self.cfg_z = v;
            } else if str_eq(key, "e") {
                self.e = v;
            } else if str_eq(key, "mu") {
                self.mu = v;
            } else if str_eq(key, "s") {
                self.s = v;
            } else if str_eq(key, "vh") {
                self.vh = v;
            } else if str_eq(key, "dt") {
                self.dt = v;
            } else if str_eq(key, "burst_duration") {
                self.burst_duration = v;
            } else if str_eq(key, "period_seconds") {
                self.period_seconds = v;
            }
        }
        let matches = f64_eq(self.x, self.cfg_x) && f64_eq(self.y, self.cfg_y) && f64_eq(
            self.z,
            self.cfg_z,
        );
        if !matches {
            self.x = self.cfg_x;
            self.y = self.cfg_y;
            self.z = self.cfg_z;
        }
    }

    /// Recomputes `(dt, s_points)` from the stored timing configuration
    /// and the handed-in quotients, as [`Self::timing_applied`] states.
    /// The step count that comes out is always at least 1, whatever the
    /// embedding handed in.
    pub fn update_burst_settings(&mut self, arith: TimingArith)
        ensures
            *final(self) == Self::timing_applied(*old(self), arith),
            final(self).s_points >= 1,
            Self::wf(*old(self)) ==> Self::wf(*final(self)),
    {
        if le_zero(self.period_seconds) {
            self.s_points = 1;
            return;
        }
        if gt_zero(self.burst_duration) {
            self.dt = self.select_optimal_dt(arith.pts_match);
            let _pts_again: u64 = self.select_pts_burst(arith.pts_match);
            self.s_points = if arith.burst_steps < 1 {
                1
            } else {
                arith.burst_steps
            };
        } else {
            self.s_points = if arith.fixed_steps < 1 {
                1
            } else {
                arith.fixed_steps
            };
        }
        if self.s_points == 0 {
            self.s_points = 1;
        }
    }

    /// Selects the step size for a points-per-burst metric from the
    /// calibrated table.
    pub fn select_optimal_dt(&self, pts_match: u64) -> (r: u64)
        ensures
            r == select_dt_b(pts_match),
    {
        select_dt(pts_match)
    }

    /// The burst-point helper: hands the points-per-burst metric back
    /// unchanged after re-invoking the table lookup on it.  The repeated
    /// lookup is deliberately kept: the original sizing path re-derives
    /// the same `dt` a second time, idempotently and without any further
    /// effect.
    pub fn select_pts_burst(&self, pts_match: u64) -> (r: u64)
        ensures
            r == pts_match,
    {
        let _dt: u64 = self.select_optimal_dt(pts_match);
        pts_match
    }

    /// The timing half of a tick: when the handed-in period difference
    /// (the embedding computes `stored period - new period`) exceeds the
    /// machine epsilon in magnitude, stores the new period and recomputes
    /// the timing; then returns how many integration steps the embedding
    /// owes this tick — the stored step count clamped into
    /// `1 ..= STEP_CAP`, so a tick never runs more than 10000 steps and
    /// never fewer than 1.
    pub fn process_tick(&mut self, _tick: u64, period_seconds: u64, period_diff: u64, arith: TimingArith) -> (n: usize)
        ensures
            *final(self) == Self::tick_applied(*old(self), period_seconds, period_diff, arith),
            n == Self::clamped_steps(final(self).s_points),
            1 <= n <= 10000,
            Self::wf(*old(self)) ==> Self::wf(*final(self)),
    {
        let diff_abs = abs_bits(period_diff);
        if f64_lt(EPSILON_BITS, diff_abs) {
            self.period_seconds = period_seconds;
            self.update_burst_settings(arith);
        }
        let s = self.s_points;
        if s > STEP_CAP {
            STEP_CAP
        } else if s < 1 {
            1
        } else {
            s
        }
    }

    /// Stores the dynamical triple the embedding integrated over the
    /// steps of a tick; nothing else changes.
    pub fn store_state(&mut self, x: u64, y: u64, z: u64)
        ensures
            *final(self) == (HindmarshRoseV2 { x, y, z, ..*old(self) }),
            Self::wf(*old(self)) ==> Self::wf(*final(self)),
    {
        self.x = x;
        self.y = y;
        self.z = z;
    }

    /// Applies one input write: the synaptic drive accepts a finite
    /// value and coerces a non-finite one (NaN or an infinity) to 0.0;
    /// other keys are ignored.
    pub fn set_input_value(&mut self, key: &str, value: u64)
        ensures
            *final(self) == Self::input_applied(*old(self), key@, value),
            !is_finite_b(value) && key@ == "i_syn"@ ==> final(self).input_syn == ZERO_BITS,
            is_finite_b(final(self).input_syn) || final(self).input_syn == old(self).input_syn,
            Self::wf(*old(self)) ==> Self::wf(*final(self)),
    {
        if str_eq(key, "i_syn") {
            self.input_syn = if is_finite(value) {
                value
            } else {
                ZERO_BITS
            };
        }
    }

    /// Reads an output channel: both recognized keys name the same
    /// stored membrane potential sample, once to be reported in volts
    /// and once to be scaled by 1000 for millivolts; an unrecognized key
    /// reads as nothing (the embedding reports 0.0 for it).
    pub fn get_output_value(&self, key: &str) -> (r: OutputValue)
        ensures
            r == Self::output_read(*self, key@),
    {
        if str_eq(key, "Membrane potential (V)") {
            OutputValue::Volts(self.x)
        } else if str_eq(key, "Membrane potential (mV)") {
            OutputValue::Millivolts(self.x)
        } else {
            OutputValue::Unknown
        }
    }

    /// Reads an internal variable by key; unrecognized keys read as
    /// nothing.
    pub fn get_internal_value(&self, key: &str) -> (r: Option<u64>)
        ensures
            r == Self::internal_read(*self, key@),
    {
        if str_eq(key, "x") {
            Some(self.x)
        } else if str_eq(key, "y") {
            Some(self.y)
        } else if str_eq(key, "z") {
            Some(self.z)
        } else {
            None
        }
    }
}

/// Law: writing the initial-condition key "x" leaves the live membrane
/// potential at the written value — either the write made the live
/// triple differ from the configured one, so the reset fired and copied
/// the value into `x` bit for bit, or the live value was already
/// IEEE-equal to it.  The keys "y" and "z" behave the same way.
pub proof fn lemma_set_initial_condition(st: HindmarshRoseV2, v: u64)
    ensures
        (HindmarshRoseV2::config_applied(st, "x"@, Some(v))).cfg_x == v,
        (HindmarshRoseV2::config_applied(st, "x"@, Some(v))).x == v || f64_eq_b(
            (HindmarshRoseV2::config_applied(st, "x"@, Some(v))).x,
            v,
        ),
{
}

/// Law: a configuration write under a key other than the three initial
/// condition keys cannot re-arm a reset — when the live triple still
/// matches the configured one, the live `(x, y, z)` comes through the
/// write untouched.  (When the live triple has genuinely diverged from
/// the configured one, the unconditional reset check does fire: see
/// [`lemma_reset_on_divergence`].)
pub proof fn lemma_no_spurious_reset(st: HindmarshRoseV2, key: Seq<char>, v: Option<u64>)
    requires
        key != "x"@,
        key != "y"@,
        key != "z"@,
        HindmarshRoseV2::live_matches_cfg(st),
    ensures
        (HindmarshRoseV2::config_applied(st, key, v)).x == st.x,
        (HindmarshRoseV2::config_applied(st, key, v)).y == st.y,
        (HindmarshRoseV2::config_applied(st, key, v)).z == st.z,
{
}

/// Law: once the live triple differs from the configured triple in any
/// component, every configuration write under a non-initial-condition
/// key overwrites the live triple with the configured one.
pub proof fn lemma_reset_on_divergence(st: HindmarshRoseV2, key: Seq<char>, v: Option<u64>)
    requires
        key != "x"@,
        key != "y"@,
        key != "z"@,
        !HindmarshRoseV2::live_matches_cfg(st),
    ensures
        (HindmarshRoseV2::config_applied(st, key, v)).x == st.cfg_x,
        (HindmarshRoseV2::config_applied(st, key, v)).y == st.cfg_y,
        (HindmarshRoseV2::config_applied(st, key, v)).z == st.cfg_z,
{
}

/// Law: whatever state the unit is in and whatever quotients the
/// embedding hands in — a zero, negative, NaN or infinite period or
/// burst duration included — a timing recomputation never leaves the
/// step count below 1.
pub proof fn lemma_step_count_floor(st: HindmarshRoseV2, a: TimingArith)
    ensures
        (HindmarshRoseV2::timing_applied(st, a)).s_points >= 1,
{
}

/// Law: a tick executes between 1 and 10000 integration steps, whatever
/// step count the timing recomputation stored.
pub proof fn lemma_step_cap(n: usize)
    ensures
        1 <= HindmarshRoseV2::clamped_steps(n) <= 10000,
{
}

/// Law: the two output channels are derived from one another — both
/// read the same stored membrane potential sample, the volt channel as
/// it is and the millivolt channel to be scaled by exactly 1000 by the
/// reader.
pub proof fn lemma_output_derivation(st: HindmarshRoseV2)
    ensures
        HindmarshRoseV2::output_read(st, "Membrane potential (V)"@) == OutputValue::Volts(st.x),
        HindmarshRoseV2::output_read(st, "Membrane potential (mV)"@) == OutputValue::Millivolts(
            st.x,
        ),
{
    reveal_strlit("Membrane potential (V)");
    reveal_strlit("Membrane potential (mV)");
    assert(("Membrane potential (V)"@).len() == 22);
    assert(("Membrane potential (mV)"@).len() == 23);
}

impl Default for HindmarshRoseV2 {
    /// Constructs the unit with the literal defaults of the model.
    fn default() -> (r: Self)
        ensures
            r == Self::default_spec(),
            HindmarshRoseV2::wf(r),
            HindmarshRoseV2::live_matches_cfg(r),
    {
        HindmarshRoseV2 {
            x: X_INIT,
            y: Y_INIT,
            z: Z_INIT,
            input_syn: ZERO_BITS,
            e: E_INIT,
            mu: MU_INIT,
            s: S_INIT,
            vh: VH_INIT,
            dt: DT_INIT,
            burst_duration: BURST_INIT,
            s_points: 1,
            period_seconds: PERIOD_INIT,
            cfg_x: X_INIT,
            cfg_y: Y_INIT,
            cfg_z: Z_INIT,
        }
    }
}

} // verus!
