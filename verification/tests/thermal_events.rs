use platform_common::thermal_events::{
    EventResponse, ProchotAction, ProchotTracker, Severity, ThermalEvent, ThresholdKind,
};

fn exceeded(id: u8, kind: ThresholdKind) -> ThermalEvent {
    ThermalEvent::ThresholdExceeded(id, kind)
}

fn cleared(id: u8, kind: ThresholdKind) -> ThermalEvent {
    ThermalEvent::ThresholdCleared(id, kind)
}

#[test]
fn new_tracker_is_all_clear() {
    let tracker = ProchotTracker::new(3);
    assert_eq!(tracker.num_sensors(), 3);
    assert!(tracker.all_clear());
}

#[test]
fn prochot_exceeded_asserts() {
    let mut tracker = ProchotTracker::new(2);
    let r = tracker.handle(exceeded(1, ThresholdKind::Prochot));
    assert_eq!(r, EventResponse { severity: Severity::Warn, prochot: ProchotAction::Assert });
    assert!(!tracker.all_clear());
}

#[test]
fn deassert_only_once_every_sensor_is_clear() {
    let mut tracker = ProchotTracker::new(2);
    tracker.handle(exceeded(0, ThresholdKind::Prochot));
    tracker.handle(exceeded(1, ThresholdKind::Prochot));
    let r = tracker.handle(cleared(0, ThresholdKind::Prochot));
    assert_eq!(r, EventResponse { severity: Severity::Info, prochot: ProchotAction::Hold });
    let r = tracker.handle(cleared(1, ThresholdKind::Prochot));
    assert_eq!(r, EventResponse { severity: Severity::Info, prochot: ProchotAction::Deassert });
    assert!(tracker.all_clear());
}

#[test]
fn clearing_an_already_clear_sensor_deasserts_when_all_clear() {
    let mut tracker = ProchotTracker::new(1);
    let r = tracker.handle(cleared(0, ThresholdKind::Prochot));
    assert_eq!(r.prochot, ProchotAction::Deassert);
}

#[test]
fn other_thresholds_only_report() {
    let mut tracker = ProchotTracker::new(1);
    for kind in [ThresholdKind::WarnLow, ThresholdKind::WarnHigh, ThresholdKind::Critical] {
        let r = tracker.handle(exceeded(7, kind));
        assert_eq!(r, EventResponse { severity: Severity::Warn, prochot: ProchotAction::Hold });
        let r = tracker.handle(cleared(7, kind));
        assert_eq!(r, EventResponse { severity: Severity::Info, prochot: ProchotAction::Hold });
    }
    assert!(tracker.all_clear());
}

#[test]
fn failures_are_warnings() {
    let mut tracker = ProchotTracker::new(1);
    tracker.handle(exceeded(0, ThresholdKind::Prochot));
    let r = tracker.handle(ThermalEvent::SensorFailure(3));
    assert_eq!(r, EventResponse { severity: Severity::Warn, prochot: ProchotAction::Hold });
    let r = tracker.handle(ThermalEvent::FanFailure(0));
    assert_eq!(r, EventResponse { severity: Severity::Warn, prochot: ProchotAction::Hold });
    assert!(!tracker.all_clear());
}

#[test]
fn signal_follows_sensors_over_a_sequence() {
    // The signal level implied by the actions is asserted exactly when some
    // sensor is over its PROCHOT threshold.
    let events = [
        exceeded(2, ThresholdKind::Prochot),
        exceeded(0, ThresholdKind::Prochot),
        cleared(2, ThresholdKind::Prochot),
        exceeded(1, ThresholdKind::Critical),
        cleared(0, ThresholdKind::Prochot),
        exceeded(1, ThresholdKind::Prochot),
        cleared(1, ThresholdKind::Prochot),
    ];
    let mut tracker = ProchotTracker::new(3);
    let mut asserted = false;
    for e in events {
        match tracker.handle(e).prochot {
            ProchotAction::Assert => asserted = true,
            ProchotAction::Deassert => asserted = false,
            ProchotAction::Hold => {}
        }
        assert_eq!(asserted, !tracker.all_clear());
    }
    assert!(!asserted);
}
