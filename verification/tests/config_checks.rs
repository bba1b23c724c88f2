use uhid_gamepad::config::{
    AxisName, DeviceConfig, HidConfig, HidConfigError, PatternConfig, ReportConfig,
    ValidationIssue,
};
use uhid_gamepad::sched::{plan_tick, tick_period_nanos, TickPlan};

fn base_config() -> HidConfig {
    HidConfig {
        device: DeviceConfig {
            name: b"ControllerOS Gamepad".to_vec(),
            vendor_id: 1,
            product_id: 2,
        },
        report: ReportConfig { rate_hz: 60 },
        pattern: PatternConfig::ButtonToggle { button_index: 0, period_reports: 1 },
    }
}

fn issue_of(cfg: &HidConfig) -> ValidationIssue {
    match cfg.validate() {
        Err(HidConfigError::Validation(issue)) => issue,
        Ok(()) => panic!("expected the configuration to be rejected"),
    }
}

#[test]
fn valid_configurations_pass() {
    assert!(base_config().validate().is_ok());

    let mut sweep = base_config();
    sweep.pattern = PatternConfig::AxisSweep { axis: AxisName::Rt, step: 4, min: 0, max: 255 };
    assert!(sweep.validate().is_ok());
}

#[test]
fn blank_names_are_rejected() {
    let mut cfg = base_config();
    cfg.device.name = b"".to_vec();
    assert_eq!(issue_of(&cfg), ValidationIssue::EmptyName);

    cfg.device.name = b"  \t\n ".to_vec();
    assert_eq!(issue_of(&cfg), ValidationIssue::EmptyName);
    assert!(issue_of(&cfg).message().contains("device.name"));
}

#[test]
fn out_of_range_rates_are_rejected() {
    let mut cfg = base_config();
    cfg.report.rate_hz = 0;
    assert_eq!(issue_of(&cfg), ValidationIssue::RateOutOfRange);
    assert!(
        HidConfigError::Validation(issue_of(&cfg)).message().contains("report.rate_hz"),
    );

    cfg.report.rate_hz = 1001;
    assert_eq!(issue_of(&cfg), ValidationIssue::RateOutOfRange);

    cfg.report.rate_hz = 1000;
    assert!(cfg.validate().is_ok());
}

#[test]
fn bad_button_patterns_are_rejected() {
    let mut cfg = base_config();
    cfg.pattern = PatternConfig::ButtonToggle { button_index: 10, period_reports: 1 };
    assert_eq!(issue_of(&cfg), ValidationIssue::ButtonIndexOutOfRange);

    cfg.pattern = PatternConfig::ButtonToggle { button_index: 9, period_reports: 0 };
    assert_eq!(issue_of(&cfg), ValidationIssue::PeriodZero);
}

#[test]
fn bad_sweep_patterns_are_rejected() {
    let mut cfg = base_config();
    cfg.pattern = PatternConfig::AxisSweep { axis: AxisName::Lx, step: 0, min: -3, max: 3 };
    assert_eq!(issue_of(&cfg), ValidationIssue::StepNotPositive);

    cfg.pattern = PatternConfig::AxisSweep { axis: AxisName::Lx, step: 1, min: 3, max: 3 };
    assert_eq!(issue_of(&cfg), ValidationIssue::MinNotBelowMax);

    cfg.pattern = PatternConfig::AxisSweep { axis: AxisName::Lt, step: 1, min: -1, max: 10 };
    assert_eq!(issue_of(&cfg), ValidationIssue::TriggerRangeOutOfBounds);

    cfg.pattern = PatternConfig::AxisSweep { axis: AxisName::Rt, step: 1, min: 0, max: 256 };
    assert_eq!(issue_of(&cfg), ValidationIssue::TriggerRangeOutOfBounds);

    cfg.pattern = PatternConfig::AxisSweep { axis: AxisName::Lx, step: 5, min: -200, max: 100 };
    assert_eq!(issue_of(&cfg), ValidationIssue::StickRangeOutOfBounds);
    assert!(issue_of(&cfg).message().contains("stick sweep range"));

    cfg.pattern = PatternConfig::AxisSweep { axis: AxisName::Ry, step: 5, min: -100, max: 128 };
    assert_eq!(issue_of(&cfg), ValidationIssue::StickRangeOutOfBounds);
}

#[test]
fn tick_period_matches_rate() {
    assert_eq!(tick_period_nanos(125), 8_000_000);
    assert_eq!(tick_period_nanos(1), 1_000_000_000);
    assert_eq!(tick_period_nanos(1000), 1_000_000);
}

#[test]
fn tick_plan_sleeps_until_the_advanced_target() {
    let plan = plan_tick(1_000, 8_000, 3_000);
    assert_eq!(plan, TickPlan { sleep_nanos: 6_000, next_target: 9_000 });
}

#[test]
fn tick_plan_drops_backlog_on_overrun() {
    let plan = plan_tick(1_000, 8_000, 20_000);
    assert_eq!(plan, TickPlan { sleep_nanos: 0, next_target: 20_000 });
}
