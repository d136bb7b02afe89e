//! Decisions taken on thermal-service events.
//!
//! Every event is reported (warnings for threshold crossings and failures,
//! information for threshold clears). PROCHOT threshold events additionally
//! drive the shared PROCHOT signal: the signal is asserted whenever a sensor
//! exceeds its PROCHOT threshold, and deasserted only once every sensor has
//! cleared it.
use vstd::prelude::*;

verus! {

/// The threshold that a temperature sensor crossed.
#[derive(Clone, Copy, Debug, PartialEq, Eq, Structural)]
pub enum ThresholdKind {
    WarnLow,
    WarnHigh,
    Prochot,
    Critical,
}

/// An event raised by the thermal service.
#[derive(Clone, Copy, Debug, PartialEq, Eq, Structural)]
pub enum ThermalEvent {
    /// The sensor with this id exceeded the given threshold.
    ThresholdExceeded(u8, ThresholdKind),
    /// The sensor with this id cleared the given threshold.
    ThresholdCleared(u8, ThresholdKind),
    /// The sensor with this id failed.
    SensorFailure(u8),
    /// The fan with this id failed.
    FanFailure(u8),
}

/// How an event is to be reported.
#[derive(Clone, Copy, Debug, PartialEq, Eq, Structural)]
pub enum Severity {
    Info,
    Warn,
}

/// What to do with the PROCHOT signal after an event.
#[derive(Clone, Copy, Debug, PartialEq, Eq, Structural)]
pub enum ProchotAction {
    /// Assert the signal.
    Assert,
    /// Deassert the signal.
    Deassert,
    /// Leave the signal as it is.
    Hold,
}

/// The response to one thermal event.
#[derive(Clone, Copy, Debug, PartialEq, Eq, Structural)]
pub struct EventResponse {
    pub severity: Severity,
    pub prochot: ProchotAction,
}

/// Every sensor is clear of its PROCHOT threshold.
pub open spec fn all_clear(clear: Seq<bool>) -> bool {
    forall|i: int| 0 <= i < clear.len() ==> clear[i]
}

/// The event names a sensor slot that the tracker of `num_sensors` sensors
/// has, wherever it needs one (PROCHOT threshold events).
pub open spec fn event_in_range(event: ThermalEvent, num_sensors: nat) -> bool {
    match event {
        ThermalEvent::ThresholdExceeded(id, ThresholdKind::Prochot) => id < num_sensors,
        ThermalEvent::ThresholdCleared(id, ThresholdKind::Prochot) => id < num_sensors,
        _ => true,
    }
}

/// How `event` is reported.
pub open spec fn event_severity(event: ThermalEvent) -> Severity {
    match event {
        ThermalEvent::ThresholdCleared(_, _) => Severity::Info,
        _ => Severity::Warn,
    }
}

/// The per-sensor clear flags after `event`.
pub open spec fn next_clear(clear: Seq<bool>, event: ThermalEvent) -> Seq<bool> {
    match event {
        ThermalEvent::ThresholdExceeded(id, ThresholdKind::Prochot) => clear.update(id as int, false),
        ThermalEvent::ThresholdCleared(id, ThresholdKind::Prochot) => clear.update(id as int, true),
        _ => clear,
    }
}

/// The PROCHOT action taken on `event`.
pub open spec fn prochot_action(clear: Seq<bool>, event: ThermalEvent) -> ProchotAction {
    match event {
        ThermalEvent::ThresholdExceeded(_, ThresholdKind::Prochot) => ProchotAction::Assert,
        ThermalEvent::ThresholdCleared(_, ThresholdKind::Prochot) => if all_clear(next_clear(clear, event)) {
            ProchotAction::Deassert
        } else {
            ProchotAction::Hold
        },
        _ => ProchotAction::Hold,
    }
}

/// The level of the PROCHOT signal after `action`, given its level before.
pub open spec fn signal_after(asserted: bool, action: ProchotAction) -> bool {
    match action {
        ProchotAction::Assert => true,
        ProchotAction::Deassert => false,
        ProchotAction::Hold => asserted,
    }
}

/// Clear flags and signal level after handling `events` in order.
pub open spec fn run_events(clear: Seq<bool>, asserted: bool, events: Seq<ThermalEvent>) -> (Seq<bool>, bool)
    decreases events.len(),
{
    if events.len() == 0 {
        (clear, asserted)
    } else {
        let (c, a) = run_events(clear, asserted, events.drop_last());
        let e = events.last();
        (next_clear(c, e), signal_after(a, prochot_action(c, e)))
    }
}

/// Every event of `events` names a sensor slot of `num_sensors`.
pub open spec fn events_in_range(events: Seq<ThermalEvent>, num_sensors: nat) -> bool {
    forall|i: int| 0 <= i < events.len() ==> event_in_range(#[trigger] events[i], num_sensors)
}

/// A PROCHOT threshold event: exceeded or cleared, of the PROCHOT kind.
pub open spec fn is_prochot_event(event: ThermalEvent) -> bool {
    ||| event matches ThermalEvent::ThresholdExceeded(_, ThresholdKind::Prochot)
    ||| event matches ThermalEvent::ThresholdCleared(_, ThresholdKind::Prochot)
}

/// Only PROCHOT threshold events touch the PROCHOT flags: every other event
/// (WARN or CRITICAL thresholds exceeded or cleared, sensor or fan
/// failures) leaves every flag as it was and leaves the signal alone.
pub proof fn lemma_other_events_leave_prochot_alone(clear: Seq<bool>, event: ThermalEvent)
    requires
        !is_prochot_event(event),
    ensures
        next_clear(clear, event) == clear,
        prochot_action(clear, event) == ProchotAction::Hold,
{
}

/// A PROCHOT exceeded event marks exactly that sensor as over its threshold
/// and asserts the signal; a PROCHOT cleared event marks exactly that
/// sensor as clear, and deasserts the signal exactly when every sensor is
/// then clear, holding it otherwise. No other sensor's flag changes.
pub proof fn lemma_prochot_events_touch_one_sensor(clear: Seq<bool>, event: ThermalEvent)
    requires
        event_in_range(event, clear.len()),
        is_prochot_event(event),
    ensures
        next_clear(clear, event).len() == clear.len(),
        match event {
            ThermalEvent::ThresholdExceeded(id, _) => {
                &&& !next_clear(clear, event)[id as int]
                &&& forall|j: int| 0 <= j < clear.len() && j != id ==> next_clear(clear, event)[j] == clear[j]
                &&& prochot_action(clear, event) == ProchotAction::Assert
            },
            ThermalEvent::ThresholdCleared(id, _) => {
                &&& next_clear(clear, event)[id as int]
                &&& forall|j: int| 0 <= j < clear.len() && j != id ==> next_clear(clear, event)[j] == clear[j]
                &&& (prochot_action(clear, event) == ProchotAction::Deassert <==> (forall|j: int|
                    0 <= j < clear.len() ==> (j == id || clear[j])))
                &&& (prochot_action(clear, event) == ProchotAction::Deassert || prochot_action(clear, event)
                    == ProchotAction::Hold)
            },
            _ => false,
        },
{
    match event {
        ThermalEvent::ThresholdCleared(id, _) => {
            let n = next_clear(clear, event);
            if forall|j: int| 0 <= j < clear.len() ==> (j == id || clear[j]) {
                assert forall|j: int| 0 <= j < n.len() implies n[j] by {
                    if j != id as int {
                        assert(clear[j]);
                    }
                }
            }
            if all_clear(n) {
                assert forall|j: int| 0 <= j < clear.len() implies (j == id || clear[j]) by {
                    assert(n[j]);
                }
            }
        },
        _ => {},
    }
}

/// Reporting: clears are information, everything else is a warning.
pub proof fn lemma_severity_by_event(event: ThermalEvent)
    ensures
        (event_severity(event) == Severity::Info) <==> (event matches ThermalEvent::ThresholdCleared(_, _)),
{
}

/// Handling one event keeps the PROCHOT signal asserted exactly when some
/// sensor is over its PROCHOT threshold.
pub proof fn lemma_step_keeps_signal_consistent(clear: Seq<bool>, asserted: bool, event: ThermalEvent)
    requires
        event_in_range(event, clear.len()),
        asserted == !all_clear(clear),
    ensures
        next_clear(clear, event).len() == clear.len(),
        signal_after(asserted, prochot_action(clear, event)) == !all_clear(next_clear(clear, event)),
{
    match event {
        ThermalEvent::ThresholdExceeded(id, ThresholdKind::Prochot) => {
            let n = next_clear(clear, event);
            assert(!n[id as int]);
        },
        ThermalEvent::ThresholdCleared(id, ThresholdKind::Prochot) => {
            let n = next_clear(clear, event);
            if !all_clear(n) {
                let k = choose|k: int| 0 <= k < n.len() && !n[k];
                assert(k != id as int);
                assert(!clear[k]);
            }
        },
        _ => {},
    }
}

/// Starting with every sensor clear and the signal deasserted, after any
/// sequence of events the PROCHOT signal is asserted exactly when some
/// sensor is over its PROCHOT threshold.
pub proof fn lemma_signal_asserted_iff_some_sensor_over(num_sensors: nat, events: Seq<ThermalEvent>)
    requires
        events_in_range(events, num_sensors),
    ensures
        run_events(Seq::new(num_sensors, |i: int| true), false, events).0.len() == num_sensors,
        run_events(Seq::new(num_sensors, |i: int| true), false, events).1
            == !all_clear(run_events(Seq::new(num_sensors, |i: int| true), false, events).0),
    decreases events.len(),
{
    let init = Seq::new(num_sensors, |i: int| true);
    if events.len() > 0 {
        let prefix = events.drop_last();
        assert forall|i: int| 0 <= i < prefix.len() implies event_in_range(#[trigger] prefix[i], num_sensors) by {
            assert(prefix[i] == events[i]);
        }
        lemma_signal_asserted_iff_some_sensor_over(num_sensors, prefix);
        let (c, a) = run_events(init, false, prefix);
        assert(event_in_range(events[events.len() - 1], num_sensors));
        lemma_step_keeps_signal_consistent(c, a, events.last());
    }
}

/// Per-sensor PROCHOT bookkeeping for the thermal event handler.
pub struct ProchotTracker {
    clear: Vec<bool>,
}

impl View for ProchotTracker {
    /// For each sensor, whether it is clear of its PROCHOT threshold.
    type V = Seq<bool>;

    closed spec fn view(&self) -> Seq<bool> {
        self.clear@
    }
}

impl ProchotTracker {
    /// A tracker for `num_sensors` sensors, all of them clear.
    pub fn new(num_sensors: usize) -> (tracker: Self)
        ensures
            tracker@ == Seq::new(num_sensors as nat, |i: int| true),
    {
        let mut clear: Vec<bool> = Vec::new();
        let mut i: usize = 0;
        while i < num_sensors
            invariant
                i <= num_sensors,
                clear@ == Seq::new(i as nat, |j: int| true),
            decreases num_sensors - i,
        {
            clear.push(true);
            i = i + 1;
        }
        ProchotTracker { clear }
    }

    /// The number of sensors tracked.
    pub fn num_sensors(&self) -> (n: usize)
        ensures
            n == self@.len(),
    {
        self.clear.len()
    }

    /// Whether every sensor is clear of its PROCHOT threshold.
    pub fn all_clear(&self) -> (b: bool)
        ensures
            b == all_clear(self@),
            b <==> (forall|i: int| 0 <= i < self@.len() ==> self@[i]),
    {
        let mut i: usize = 0;
        while i < self.clear.len()
            invariant
                i <= self.clear@.len(),
                forall|j: int| 0 <= j < i ==> self.clear@[j],
            decreases self.clear@.len() - i,
        {
            if !self.clear[i] {
                return false;
            }
            i = i + 1;
        }
        true
    }

    /// Handle one thermal event: update the per-sensor flags and say how to
    /// report the event and what to do with the PROCHOT signal.
    pub fn handle(&mut self, event: ThermalEvent) -> (response: EventResponse)
        requires
            event_in_range(event, old(self)@.len()),
        ensures
            final(self)@ == next_clear(old(self)@, event),
            response.severity == event_severity(event),
            response.prochot == prochot_action(old(self)@, event),
            !is_prochot_event(event) ==> final(self)@ == old(self)@ && response.prochot
                == ProchotAction::Hold,
            final(self)@.len() == old(self)@.len(),
    {
        match event {
            ThermalEvent::ThresholdExceeded(id, ThresholdKind::Prochot) => {
                self.clear.set(id as usize, false);
                EventResponse { severity: Severity::Warn, prochot: ProchotAction::Assert }
            },
            ThermalEvent::ThresholdCleared(id, ThresholdKind::Prochot) => {
                self.clear.set(id as usize, true);
                let prochot = if self.all_clear() {
                    ProchotAction::Deassert
                } else {
                    ProchotAction::Hold
                };
                EventResponse { severity: Severity::Info, prochot }
            },
            ThermalEvent::ThresholdCleared(_, _) => {
                EventResponse { severity: Severity::Info, prochot: ProchotAction::Hold }
            },
            _ => EventResponse { severity: Severity::Warn, prochot: ProchotAction::Hold },
        }
    }
}

} // verus!
