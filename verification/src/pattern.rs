//! Deterministic input-pattern generators.
//!
//! A `PatternState` is built once from a validated `PatternConfig` and
//! then produces one `InputReport` per tick: either a square wave on a
//! single button (low for `period_reports` ticks, high for the next
//! `period_reports`), or a triangular ping-pong sweep on a single axis
//! that touches both bounds exactly even when the step does not divide
//! the range.

use vstd::prelude::*;
use vstd::arithmetic::div_mod::{
    lemma_div_plus_one, lemma_mod_breakdown, lemma_mod_division_less_than_divisor,
    lemma_mod_multiples_vanish,
};
use crate::config::{spec_axis_range_ok, spec_pattern_valid, AxisName, PatternConfig};
use crate::hid::InputReport;

verus! {

/// Runtime state of one generator instance.
#[derive(Debug, Clone, Copy)]
pub enum PatternStateMode {
    ButtonToggle { button_index: u8, period_reports: u16, report_counter: u64 },
    AxisSweep { axis: AxisName, step: i16, min: i16, max: i16, value: i16, direction: i16 },
}

/// A generator: its mode plus the all-zero template each report starts
/// from.
#[derive(Debug, Clone, Copy)]
pub struct PatternState {
    pub mode: PatternStateMode,
    pub base: InputReport,
}

/// Whether the button is high at tick `c` of a square wave with half
/// period `p`: high during the second half of each `2p`-tick period.
pub open spec fn spec_toggle_on(c: nat, p: nat) -> bool
    recommends
        p >= 1,
{
    (c / p) % 2 == 1
}

/// The button word emitted at tick `c`: bit `button_index` set exactly
/// while the square wave is high.
pub open spec fn spec_toggle_buttons(button_index: u8, c: nat, p: nat) -> u16
    recommends
        p >= 1,
        button_index <= 9,
{
    if spec_toggle_on(c, p) {
        1u16 << (button_index as u16)
    } else {
        0u16
    }
}

/// The unclamped next sweep position.
pub open spec fn spec_sweep_candidate(value: i16, step: i16, direction: i16) -> int {
    value + step * direction
}

/// The sweep position after one tick: the candidate, clamped to the
/// bound it overshoots.
pub open spec fn spec_sweep_next_value(value: i16, step: i16, direction: i16, min: i16, max: i16) -> int {
    let cand = spec_sweep_candidate(value, step, direction);
    if cand >= max {
        max as int
    } else if cand <= min {
        min as int
    } else {
        cand
    }
}

/// The sweep direction after one tick: reversed exactly when a bound
/// was reached.
pub open spec fn spec_sweep_next_direction(value: i16, step: i16, direction: i16, min: i16, max: i16) -> int {
    let cand = spec_sweep_candidate(value, step, direction);
    if cand >= max {
        -1
    } else if cand <= min {
        1
    } else {
        direction as int
    }
}

/// The snapshot `r` with `value` written to the field `axis` selects.
pub open spec fn spec_apply_axis(r: InputReport, axis: AxisName, value: i16) -> InputReport
    recommends
        spec_axis_value_fits(axis, value),
{
    match axis {
        AxisName::Lx => (InputReport { lx: value as i8, ..r }),
        AxisName::Ly => (InputReport { ly: value as i8, ..r }),
        AxisName::Rx => (InputReport { rx: value as i8, ..r }),
        AxisName::Ry => (InputReport { ry: value as i8, ..r }),
        AxisName::Lt => (InputReport { lt: value as u8, ..r }),
        AxisName::Rt => (InputReport { rt: value as u8, ..r }),
    }
}

/// Whether `value` fits the native width of the field `axis` selects.
pub open spec fn spec_axis_value_fits(axis: AxisName, value: i16) -> bool {
    match axis {
        AxisName::Lt | AxisName::Rt => 0 <= value <= 255,
        AxisName::Lx | AxisName::Ly | AxisName::Rx | AxisName::Ry => -128 <= value <= 127,
    }
}

/// Writes `value` into the field of `report` that `axis` selects,
/// leaving every other field unchanged.
pub fn apply_axis_value(report: &mut InputReport, axis: AxisName, value: i16)
    requires
        spec_axis_value_fits(axis, value),
    ensures
        *final(report) == spec_apply_axis(*old(report), axis, value),
{
    match axis {
        AxisName::Lx => report.lx = value as i8,
        AxisName::Ly => report.ly = value as i8,
        AxisName::Rx => report.rx = value as i8,
        AxisName::Ry => report.ry = value as i8,
        AxisName::Lt => report.lt = value as u8,
        AxisName::Rt => report.rt = value as u8,
    }
}

impl PatternState {
    /// Internal invariant: the template is all-zero and the mode's
    /// fields are within the ranges config validation admits, with the
    /// sweep position between its bounds.
    pub open spec fn wf(self) -> bool {
        &&& self.base == InputReport::zero()
        &&& match self.mode {
            PatternStateMode::ButtonToggle { button_index, period_reports, report_counter } => {
                &&& button_index <= 9
                &&& period_reports >= 1
            },
            PatternStateMode::AxisSweep { axis, step, min, max, value, direction } => {
                &&& step >= 1
                &&& min < max
                &&& spec_axis_range_ok(axis, min, max)
                &&& min <= value <= max
                &&& (direction == 1 || direction == -1)
            },
        }
    }

    /// Builds the initial state for a validated pattern: the toggle
    /// starts with its counter at zero, the sweep at its lower bound
    /// moving upward.
    pub fn new(pattern: &PatternConfig) -> (s: Self)
        requires
            spec_pattern_valid(*pattern),
        ensures
            s.wf(),
            s.mode == match *pattern {
                PatternConfig::ButtonToggle { button_index, period_reports } => {
                    (PatternStateMode::ButtonToggle { button_index, period_reports, report_counter: 0 })
                },
                PatternConfig::AxisSweep { axis, step, min, max } => {
                    (PatternStateMode::AxisSweep { axis, step, min, max, value: min, direction: 1 })
                },
            },
    {
        let mode = match *pattern {
            PatternConfig::ButtonToggle { button_index, period_reports } => {
                PatternStateMode::ButtonToggle { button_index, period_reports, report_counter: 0 }
            },
            PatternConfig::AxisSweep { axis, step, min, max } => {
                PatternStateMode::AxisSweep { axis, step, min, max, value: min, direction: 1 }
            },
        };
        PatternState { mode, base: InputReport::default() }
    }

    /// Produces the report for the current tick and advances the
    /// state: the toggle emits its bit when the square wave is high
    /// and counts the tick (the counter stops one short of wrapping);
    /// the sweep emits its current position, then steps and reverses
    /// at the bound it reaches.
    pub fn next_report(&mut self) -> (r: InputReport)
        requires
            old(self).wf(),
        ensures
            final(self).wf(),
            final(self).base == old(self).base,
            match old(self).mode {
                PatternStateMode::ButtonToggle { button_index, period_reports, report_counter } => {
                    &&& r == (InputReport {
                        buttons: spec_toggle_buttons(
                            button_index,
                            report_counter as nat,
                            period_reports as nat,
                        ),
                        ..InputReport::zero()
                    })
                    &&& final(self).mode == (PatternStateMode::ButtonToggle {
                        button_index,
                        period_reports,
                        report_counter: if report_counter < u64::MAX {
                            (report_counter + 1) as u64
                        } else {
                            report_counter
                        },
                    })
                },
                PatternStateMode::AxisSweep { axis, step, min, max, value, direction } => {
                    &&& r == spec_apply_axis(InputReport::zero(), axis, value)
                    &&& min <= value <= max
                    &&& final(self).mode == (PatternStateMode::AxisSweep {
                        axis,
                        step,
                        min,
                        max,
                        value: spec_sweep_next_value(value, step, direction, min, max) as i16,
                        direction: spec_sweep_next_direction(value, step, direction, min, max) as i16,
                    })
                },
            },
    {
        let mut report = self.base;
        match self.mode {
            PatternStateMode::ButtonToggle { button_index, period_reports, report_counter } => {
                let phase = (report_counter / (period_reports as u64)) % 2;
                if phase == 1 {
                    let bit = 1u16 << (button_index as u16);
                    proof {
                        let b = report.buttons;
                        assert(b == 0);
                        assert(0u16 | bit == bit) by (bit_vector);
                    }
                    report.buttons = report.buttons | bit;
                }
                let next_counter = if report_counter < u64::MAX {
                    report_counter + 1
                } else {
                    report_counter
                };
                self.mode = PatternStateMode::ButtonToggle {
                    button_index,
                    period_reports,
                    report_counter: next_counter,
                };
            },
            PatternStateMode::AxisSweep { axis, step, min, max, value, direction } => {
                apply_axis_value(&mut report, axis, value);
                let cand = value as i32 + (step as i32) * (direction as i32);
                let (next_value, next_direction): (i16, i16) = if cand >= max as i32 {
                    (max, -1)
                } else if cand <= min as i32 {
                    (min, 1)
                } else {
                    (cand as i16, direction)
                };
                self.mode = PatternStateMode::AxisSweep {
                    axis,
                    step,
                    min,
                    max,
                    value: next_value,
                    direction: next_direction,
                };
            },
        }
        report
    }
}

/// The square wave has period `2p` and spends the first `p` ticks of
/// each period low: shifting a tick count by `2p` does not change the
/// emitted bit, and the bit is low exactly in the first half of each
/// period.
pub proof fn lemma_toggle_square_wave(c: nat, p: nat)
    requires
        p >= 1,
    ensures
        spec_toggle_on((c + 2 * p) as nat, p) == spec_toggle_on(c, p),
        !spec_toggle_on(c, p) <==> c % (2 * p) < p,
{
    let ci = c as int;
    let pi = p as int;
    assert(ci % (pi * 2) == pi * ((ci / pi) % 2) + ci % pi) by {
        lemma_mod_breakdown(ci, pi, 2);
    }
    lemma_mod_division_less_than_divisor(ci, pi);
    lemma_mod_division_less_than_divisor(ci / pi, 2);
    assert(c % (2 * p) == (ci % (pi * 2)) as nat);
    assert((ci / pi) % 2 == 0 || (ci / pi) % 2 == 1);
    assert((ci / pi) % 2 == 0 ==> ci % (pi * 2) == ci % pi < pi);
    assert((ci / pi) % 2 == 1 ==> ci % (pi * 2) == pi + ci % pi >= pi);
    assert((ci + 2 * pi) / pi == ci / pi + 2) by {
        lemma_div_plus_one(ci, pi);
        lemma_div_plus_one(ci + pi, pi);
    }
    assert((ci / pi + 2) % 2 == (ci / pi) % 2) by {
        lemma_mod_multiples_vanish(1, ci / pi, 2);
    }
}

/// One sweep step keeps the position inside `[min, max]`, reverses
/// direction only at the moment the position lands exactly on a bound,
/// and always leaves a unit direction.
pub proof fn lemma_sweep_step(value: i16, step: i16, direction: i16, min: i16, max: i16)
    requires
        step >= 1,
        min < max,
        min <= value <= max,
        direction == 1 || direction == -1,
    ensures
        min <= spec_sweep_next_value(value, step, direction, min, max) <= max,
        spec_sweep_next_direction(value, step, direction, min, max) == 1
            || spec_sweep_next_direction(value, step, direction, min, max) == -1,
        spec_sweep_next_direction(value, step, direction, min, max) != direction ==> (
            spec_sweep_next_value(value, step, direction, min, max) == min as int
            || spec_sweep_next_value(value, step, direction, min, max) == max as int
        ),
{
}

} // verus!
