use battery_notify::config::Thresholds;
use battery_notify::poll::AlertRequest;
use battery_notify::poll::critical_alert;
use battery_notify::poll::evaluate_device;
use battery_notify::poll::low_alert;
use battery_notify::state::ThresholdKind;
use battery_notify::state::WarningState;
use battery_notify::text::dec_string;
use battery_notify::text::format_percent;

fn kinds(alerts: &[AlertRequest]) -> Vec<ThresholdKind> {
    alerts.iter().map(|a| a.kind).collect()
}

#[test]
fn decimal_rendering() {
    assert_eq!(dec_string(0), "0");
    assert_eq!(dec_string(7), "7");
    assert_eq!(dec_string(40), "40");
    assert_eq!(dec_string(255), "255");
}

#[test]
fn percent_rendering() {
    assert_eq!(format_percent(0), "0.0");
    assert_eq!(format_percent(5), "0.5");
    assert_eq!(format_percent(185), "18.5");
    assert_eq!(format_percent(300), "30.0");
    assert_eq!(format_percent(1000), "100.0");
}

#[test]
fn low_alert_text() {
    let alert = low_alert(180);
    assert_eq!(alert.kind, ThresholdKind::Low);
    assert_eq!(alert.title, "");
    assert_eq!(alert.body, "Battery is low: 18.0%");
}

#[test]
fn critical_alert_text() {
    let alert = critical_alert(50);
    assert_eq!(alert.kind, ThresholdKind::Critical);
    assert_eq!(alert.title, "Battery critical");
    assert_eq!(alert.body, "Battery is critical: 5.0%");
}

#[test]
fn low_before_critical_in_one_cycle() {
    let thresholds = Thresholds {
        low_percent: Some(20),
        critical_percent: Some(10),
    };
    let mut state = WarningState::default();
    let alerts = evaluate_device(50, &mut state, &thresholds);
    assert_eq!(
        kinds(&alerts),
        vec![ThresholdKind::Low, ThresholdKind::Critical]
    );
    assert!(state.low_warned);
    assert!(state.critical_warned);
}

#[test]
fn low_firing_does_not_suppress_critical() {
    let thresholds = Thresholds {
        low_percent: Some(20),
        critical_percent: Some(10),
    };
    let mut state = WarningState::default();
    // The low alert fires first, above the critical threshold.
    let alerts = evaluate_device(180, &mut state, &thresholds);
    assert_eq!(kinds(&alerts), vec![ThresholdKind::Low]);
    // A further drop still fires the critical alert.
    let alerts = evaluate_device(50, &mut state, &thresholds);
    assert_eq!(kinds(&alerts), vec![ThresholdKind::Critical]);
}

#[test]
fn partial_recovery_rearms_only_one_kind() {
    let thresholds = Thresholds {
        low_percent: Some(20),
        critical_percent: Some(10),
    };
    let mut state = WarningState::default();
    let _ = evaluate_device(50, &mut state, &thresholds);
    assert!(state.low_warned && state.critical_warned);
    // Recovery above critical but not above low re-arms only critical.
    let alerts = evaluate_device(150, &mut state, &thresholds);
    assert!(alerts.is_empty());
    assert!(state.low_warned);
    assert!(!state.critical_warned);
    // Dropping again fires critical once more; low stays suppressed.
    let alerts = evaluate_device(50, &mut state, &thresholds);
    assert_eq!(kinds(&alerts), vec![ThresholdKind::Critical]);
}

#[test]
fn unconfigured_kind_never_fires() {
    let thresholds = Thresholds {
        low_percent: Some(20),
        critical_percent: None,
    };
    let mut state = WarningState::default();
    let alerts = evaluate_device(50, &mut state, &thresholds);
    assert_eq!(kinds(&alerts), vec![ThresholdKind::Low]);
    assert!(!state.critical_warned);
}

#[test]
fn end_to_end_trace() {
    // Charges 30%, 18%, 18%, 5%, 40%, 18% with low=20, critical=10 yield a
    // low alert at the second reading, a critical alert at the fourth, a
    // silent recovery of both, and a second low alert at the last.
    let thresholds = Thresholds {
        low_percent: Some(20),
        critical_percent: Some(10),
    };
    let trace: Vec<u32> = vec![300, 180, 180, 50, 400, 180];
    let mut state = WarningState::default();
    let mut all_kinds: Vec<(usize, ThresholdKind)> = Vec::new();
    for (step, &percent) in trace.iter().enumerate() {
        for alert in evaluate_device(percent, &mut state, &thresholds) {
            all_kinds.push((step, alert.kind));
        }
    }
    assert_eq!(
        all_kinds,
        vec![
            (1, ThresholdKind::Low),
            (3, ThresholdKind::Critical),
            (5, ThresholdKind::Low),
        ]
    );
}
