use uhid_gamepad::config::{AxisName, PatternConfig};
use uhid_gamepad::pattern::PatternState;

#[test]
fn button_toggle_changes_state_over_time() {
    let mut pattern = PatternState::new(&PatternConfig::ButtonToggle {
        button_index: 2,
        period_reports: 3,
    });

    let mut reports = Vec::new();
    for _ in 0..7 {
        reports.push(pattern.next_report().buttons);
    }

    assert_eq!(reports[0], 0);
    assert_eq!(reports[1], 0);
    assert_eq!(reports[2], 0);
    assert_eq!(reports[3], 1 << 2);
    assert_eq!(reports[4], 1 << 2);
    assert_eq!(reports[5], 1 << 2);
    assert_eq!(reports[6], 0);
}

#[test]
fn axis_sweep_bounces_between_limits() {
    let mut pattern = PatternState::new(&PatternConfig::AxisSweep {
        axis: AxisName::Lx,
        step: 3,
        min: -3,
        max: 3,
    });

    let mut values = Vec::new();
    for _ in 0..6 {
        values.push(pattern.next_report().lx);
    }

    assert_eq!(values, vec![-3, 0, 3, 0, -3, 0]);
}

#[test]
fn axis_sweep_clamps_overshoot_to_bounds() {
    let mut pattern = PatternState::new(&PatternConfig::AxisSweep {
        axis: AxisName::Rt,
        step: 100,
        min: 0,
        max: 255,
    });

    let mut values = Vec::new();
    for _ in 0..8 {
        values.push(pattern.next_report().rt);
    }

    assert_eq!(values, vec![0, 100, 200, 255, 155, 55, 0, 100]);
}

#[test]
fn button_toggle_period_one_alternates_every_tick() {
    let mut pattern = PatternState::new(&PatternConfig::ButtonToggle {
        button_index: 9,
        period_reports: 1,
    });

    let mut reports = Vec::new();
    for _ in 0..4 {
        reports.push(pattern.next_report().buttons);
    }

    assert_eq!(reports, vec![0, 1 << 9, 0, 1 << 9]);
}

#[test]
fn sweep_only_touches_selected_axis() {
    let mut pattern = PatternState::new(&PatternConfig::AxisSweep {
        axis: AxisName::Ly,
        step: 5,
        min: -10,
        max: 10,
    });

    let report = pattern.next_report();
    assert_eq!(report.ly, -10);
    assert_eq!(report.lx, 0);
    assert_eq!(report.rx, 0);
    assert_eq!(report.ry, 0);
    assert_eq!(report.lt, 0);
    assert_eq!(report.rt, 0);
    assert_eq!(report.buttons, 0);
    assert_eq!(report.hat, 0);
}
