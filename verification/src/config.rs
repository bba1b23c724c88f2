//! Validated daemon configuration: device identity, report rate and
//! the pattern the daemon should play.
//!
//! Loading and TOML parsing happen outside this crate; the values land
//! here as plain data and `HidConfig::validate` is the single place
//! that decides whether a configuration is acceptable.

use vstd::prelude::*;
use vstd::string::StringExecFns;

verus! {

/// Identity of the emulated device. The name is kept as raw bytes; the
/// registration frame truncates it to 127 bytes and zero-pads it.
#[derive(Debug, Clone, PartialEq, Eq)]
pub struct DeviceConfig {
    pub name: Vec<u8>,
    pub vendor_id: u16,
    pub product_id: u16,
}

/// Report delivery rate in Hz; valid range is 1..=1000.
#[derive(Debug, Clone, PartialEq, Eq)]
pub struct ReportConfig {
    pub rate_hz: u16,
}

/// Which axis an `AxisSweep` pattern drives.
#[derive(Debug, Clone, Copy, PartialEq, Eq, Structural)]
pub enum AxisName {
    Lx,
    Ly,
    Rx,
    Ry,
    Lt,
    Rt,
}

/// The pattern the daemon plays: a square wave on one button, or a
/// triangular ping-pong sweep on one axis.
#[derive(Debug, Clone, PartialEq, Eq)]
pub enum PatternConfig {
    ButtonToggle { button_index: u8, period_reports: u16 },
    AxisSweep { axis: AxisName, step: i16, min: i16, max: i16 },
}

/// The full daemon configuration.
#[derive(Debug, Clone, PartialEq, Eq)]
pub struct HidConfig {
    pub device: DeviceConfig,
    pub report: ReportConfig,
    pub pattern: PatternConfig,
}

/// The reason a configuration was rejected, one variant per check.
#[derive(Debug, Clone, Copy, PartialEq, Eq, Structural)]
pub enum ValidationIssue {
    EmptyName,
    RateOutOfRange,
    ButtonIndexOutOfRange,
    PeriodZero,
    StepNotPositive,
    MinNotBelowMax,
    TriggerRangeOutOfBounds,
    StickRangeOutOfBounds,
}

/// Configuration error surfaced by this crate. I/O and parse failures
/// belong to the unverified loader around the crate.
#[derive(Debug, Clone, Copy, PartialEq, Eq, Structural)]
pub enum HidConfigError {
    Validation(ValidationIssue),
}

/// ASCII whitespace, as trimmed from the front and back of a name.
pub open spec fn spec_is_ascii_whitespace(b: u8) -> bool {
    b == 0x20 || b == 0x09 || b == 0x0a || b == 0x0c || b == 0x0d
}

/// A name is blank when it contains no non-whitespace byte; a blank
/// name is rejected.
pub open spec fn spec_name_blank(name: Seq<u8>) -> bool {
    forall|i: int| 0 <= i < name.len() ==> spec_is_ascii_whitespace(#[trigger] name[i])
}

/// Per-axis value bounds: triggers are unsigned 8-bit, sticks are
/// signed with the symmetric range -127..=127.
pub open spec fn spec_axis_range_ok(axis: AxisName, min: i16, max: i16) -> bool {
    match axis {
        AxisName::Lt | AxisName::Rt => 0 <= min && max <= 255,
        AxisName::Lx | AxisName::Ly | AxisName::Rx | AxisName::Ry => -127 <= min && max <= 127,
    }
}

/// The first check a pattern fails, if any, in the order the checks
/// are made: positivity of the step, ordering of the bounds, then the
/// per-axis range.
pub open spec fn spec_pattern_issue(pattern: PatternConfig) -> Option<ValidationIssue> {
    match pattern {
        PatternConfig::ButtonToggle { button_index, period_reports } => {
            if button_index > 9 {
                Some(ValidationIssue::ButtonIndexOutOfRange)
            } else if period_reports == 0 {
                Some(ValidationIssue::PeriodZero)
            } else {
                None
            }
        },
        PatternConfig::AxisSweep { axis, step, min, max } => {
            if step <= 0 {
                Some(ValidationIssue::StepNotPositive)
            } else if min >= max {
                Some(ValidationIssue::MinNotBelowMax)
            } else if !spec_axis_range_ok(axis, min, max) {
                match axis {
                    AxisName::Lt | AxisName::Rt => Some(ValidationIssue::TriggerRangeOutOfBounds),
                    _ => Some(ValidationIssue::StickRangeOutOfBounds),
                }
            } else {
                None
            }
        },
    }
}

/// A pattern is valid when no check fails.
pub open spec fn spec_pattern_valid(pattern: PatternConfig) -> bool {
    spec_pattern_issue(pattern) is None
}

/// The first check a configuration fails, if any: name, then rate,
/// then the pattern checks.
pub open spec fn spec_validation_issue(c: HidConfig) -> Option<ValidationIssue> {
    if spec_name_blank(c.device.name@) {
        Some(ValidationIssue::EmptyName)
    } else if c.report.rate_hz == 0 || c.report.rate_hz > 1000 {
        Some(ValidationIssue::RateOutOfRange)
    } else {
        spec_pattern_issue(c.pattern)
    }
}

/// A configuration is valid when no check fails.
pub open spec fn spec_config_valid(c: HidConfig) -> bool {
    spec_validation_issue(c) is None
}

/// True when the name contains no non-whitespace byte.
fn name_is_blank(name: &Vec<u8>) -> (r: bool)
    ensures
        r == spec_name_blank(name@),
{
    let mut i: usize = 0;
    while i < name.len()
        invariant
            i <= name.len(),
            forall|j: int| 0 <= j < i ==> spec_is_ascii_whitespace(#[trigger] name@[j]),
        decreases name.len() - i,
    {
        let b = name[i];
        if !(b == 0x20 || b == 0x09 || b == 0x0a || b == 0x0c || b == 0x0d) {
            return false;
        }
        i += 1;
    }
    true
}

impl HidConfig {
    /// Checks the configuration exactly once, in a fixed order, and
    /// reports the first failing check.
    pub fn validate(&self) -> (r: Result<(), HidConfigError>)
        ensures
            r is Ok <==> spec_config_valid(*self),
            (match spec_validation_issue(*self) {
                None => r is Ok,
                Some(issue) => r == Err::<(), HidConfigError>(HidConfigError::Validation(issue)),
            }),
    {
        if name_is_blank(&self.device.name) {
            return Err(HidConfigError::Validation(ValidationIssue::EmptyName));
        }
        if self.report.rate_hz == 0 || self.report.rate_hz > 1000 {
            return Err(HidConfigError::Validation(ValidationIssue::RateOutOfRange));
        }
        match self.pattern {
            PatternConfig::ButtonToggle { button_index, period_reports } => {
                if button_index > 9 {
                    return Err(HidConfigError::Validation(ValidationIssue::ButtonIndexOutOfRange));
                }
                if period_reports == 0 {
                    return Err(HidConfigError::Validation(ValidationIssue::PeriodZero));
                }
            },
            PatternConfig::AxisSweep { axis, step, min, max } => {
                if step <= 0 {
                    return Err(HidConfigError::Validation(ValidationIssue::StepNotPositive));
                }
                if min >= max {
                    return Err(HidConfigError::Validation(ValidationIssue::MinNotBelowMax));
                }
                match axis {
                    AxisName::Lt | AxisName::Rt => {
                        if min < 0 || max > 255 {
                            return Err(HidConfigError::Validation(
                                ValidationIssue::TriggerRangeOutOfBounds,
                            ));
                        }
                    },
                    AxisName::Lx | AxisName::Ly | AxisName::Rx | AxisName::Ry => {
                        if min < -127 || max > 127 {
                            return Err(HidConfigError::Validation(
                                ValidationIssue::StickRangeOutOfBounds,
                            ));
                        }
                    },
                }
            },
        }
        Ok(())
    }
}

/// The text that names a failed check.
pub open spec fn spec_issue_message(issue: ValidationIssue) -> Seq<char> {
    match issue {
        ValidationIssue::EmptyName => "device.name must not be empty"@,
        ValidationIssue::RateOutOfRange => "report.rate_hz must be in 1..=1000"@,
        ValidationIssue::ButtonIndexOutOfRange => "pattern.button_index must be in 0..=9"@,
        ValidationIssue::PeriodZero => "pattern.period_reports must be greater than zero"@,
        ValidationIssue::StepNotPositive => "pattern.step must be greater than zero"@,
        ValidationIssue::MinNotBelowMax => "pattern.min must be less than pattern.max"@,
        ValidationIssue::TriggerRangeOutOfBounds => "trigger sweep range must be within 0..=255"@,
        ValidationIssue::StickRangeOutOfBounds => "stick sweep range must be within -127..=127"@,
    }
}

impl ValidationIssue {
    /// The human-readable reason, matching the check that failed.
    pub fn message(&self) -> (m: String)
        ensures
            m@ == spec_issue_message(*self),
    {
        match *self {
            ValidationIssue::EmptyName => String::from_str("device.name must not be empty"),
            ValidationIssue::RateOutOfRange => String::from_str("report.rate_hz must be in 1..=1000"),
            ValidationIssue::ButtonIndexOutOfRange => String::from_str(
                "pattern.button_index must be in 0..=9",
            ),
            ValidationIssue::PeriodZero => String::from_str(
                "pattern.period_reports must be greater than zero",
            ),
            ValidationIssue::StepNotPositive => String::from_str(
                "pattern.step must be greater than zero",
            ),
            ValidationIssue::MinNotBelowMax => String::from_str(
                "pattern.min must be less than pattern.max",
            ),
            ValidationIssue::TriggerRangeOutOfBounds => String::from_str(
                "trigger sweep range must be within 0..=255",
            ),
            ValidationIssue::StickRangeOutOfBounds => String::from_str(
                "stick sweep range must be within -127..=127",
            ),
        }
    }
}

impl HidConfigError {
    /// The full error text, in the shape the daemon prints.
    pub fn message(&self) -> (m: String)
        ensures
            m@ == match *self {
                HidConfigError::Validation(issue) => "invalid HID config: "@ + spec_issue_message(
                    issue,
                ),
            },
    {
        match *self {
            HidConfigError::Validation(issue) => {
                let mut m = String::from_str("invalid HID config: ");
                let tail = issue.message();
                m.append(tail.as_str());
                m
            },
        }
    }
}

} // verus!
