//! The fuel-gauge polling schedule and its failure recovery.
//!
//! Once per cycle (one second apart) the battery service is asked for
//! dynamic data, and every [`STATIC_POLL_PERIOD`] cycles also for static
//! data. Each failed request counts as a failure; once more than
//! [`MAX_FAILURES`] have accumulated, the counters are reset and the
//! service is driven through recovery.
use vstd::prelude::*;

verus! {

/// Number of cycles between two static-data polls.
pub const STATIC_POLL_PERIOD: usize = 216000;

/// Failures tolerated before recovery is started.
pub const MAX_FAILURES: u32 = 10;

/// Seconds to wait before retrying recovery after a device timeout.
pub const RECOVERY_BACKOFF_SECS: u64 = 10;

/// The failures that one poll outcome adds: a poll that was made and
/// failed counts one, a successful poll or one not made counts none.
pub open spec fn failures_of(outcome: Option<bool>) -> nat {
    match outcome {
        Some(false) => 1,
        _ => 0,
    }
}

/// The cycle counter after `count`, wrapping at the width of `usize`.
pub open spec fn next_count(count: nat) -> nat {
    if count >= usize::MAX {
        0
    } else {
        count + 1
    }
}

/// Whether a cycle that ends with `failures` accumulated starts recovery.
pub open spec fn recovery_due(failures: nat) -> bool {
    failures > MAX_FAILURES
}

/// The schedule `(failures, count)` after one cycle.
pub open spec fn cycle_step(state: (nat, nat), static_ok: Option<bool>, dynamic_ok: bool) -> (nat, nat) {
    let f = state.0 + failures_of(static_ok) + failures_of(Some(dynamic_ok));
    if recovery_due(f) {
        (0, next_count(0))
    } else {
        (f, next_count(state.1))
    }
}

/// Whether static data is due in a cycle that starts with this counter.
pub open spec fn static_due(count: nat) -> bool {
    count % (STATIC_POLL_PERIOD as nat) == 0
}

/// The outcomes of the polls of one cycle: that of the static-data poll
/// (`None` where none was made) and that of the dynamic-data poll.
pub type CycleOutcome = (Option<bool>, bool);

/// The schedule after a sequence of cycles.
pub open spec fn run_cycles(state: (nat, nat), cycles: Seq<CycleOutcome>) -> (nat, nat)
    decreases cycles.len(),
{
    if cycles.len() == 0 {
        state
    } else {
        let s = run_cycles(state, cycles.drop_last());
        cycle_step(s, cycles.last().0, cycles.last().1)
    }
}

/// No failure was reported in any of `cycles`.
pub open spec fn no_failures(cycles: Seq<CycleOutcome>) -> bool {
    forall|i: int|
        0 <= i < cycles.len() ==> failures_of(#[trigger] cycles[i].0) == 0 && cycles[i].1
}

/// The polling schedule of the fuel-gauge update task.
pub struct PollSchedule {
    failures: u32,
    count: usize,
}

impl View for PollSchedule {
    /// The pair (failures accumulated, cycle counter).
    type V = (nat, nat);

    closed spec fn view(&self) -> (nat, nat) {
        (self.failures as nat, self.count as nat)
    }
}

impl PollSchedule {
    #[verifier::type_invariant]
    spec fn failures_bounded(self) -> bool {
        self.failures <= MAX_FAILURES
    }

    /// A schedule at its first cycle with no failures.
    pub fn new() -> (schedule: Self)
        ensures
            schedule@ == (0nat, 0nat),
    {
        PollSchedule { failures: 0, count: 0 }
    }

    /// Failures accumulated since the start or the last recovery.
    pub fn failures(&self) -> (n: u32)
        ensures
            n == self@.0,
            n <= MAX_FAILURES,
    {
        proof {
            use_type_invariant(self);
        }
        self.failures
    }

    /// The cycle counter.
    pub fn count(&self) -> (n: usize)
        ensures
            n == self@.1,
    {
        self.count
    }

    /// Whether static data is to be polled in this cycle.
    pub fn static_poll_due(&self) -> (due: bool)
        ensures
            due == static_due(self@.1),
            due <==> self@.1 % 216000 == 0,
    {
        self.count.is_multiple_of(STATIC_POLL_PERIOD)
    }

    /// Account for the polls of one cycle and move to the next one.
    /// Returns `true` when recovery is to be started now.
    pub fn complete_cycle(&mut self, static_ok: Option<bool>, dynamic_ok: bool) -> (recover: bool)
        ensures
            recover == recovery_due(old(self)@.0 + failures_of(static_ok) + failures_of(Some(dynamic_ok))),
            final(self)@ == cycle_step(old(self)@, static_ok, dynamic_ok),
            final(self)@.0 <= MAX_FAILURES,
            recover ==> final(self)@ == (0nat, 1nat),
            !recover ==> final(self)@.1 == (old(self)@.1 + 1) % (usize::MAX as nat + 1),
    {
        proof {
            use_type_invariant(&*self);
        }
        let mut failures = self.failures;
        if let Some(false) = static_ok {
            failures = failures + 1;
        }
        if !dynamic_ok {
            failures = failures + 1;
        }
        let recover = failures > MAX_FAILURES;
        if recover {
            self.failures = 0;
            self.count = 0;
        } else {
            self.failures = failures;
        }
        self.count = self.count.wrapping_add(1);
        proof {
            lemma_cycle_step_on_inputs(old(self)@, static_ok, dynamic_ok);
        }
        recover
    }
}

/// How one attempt at recovery ended.
#[derive(Clone, Copy, Debug, PartialEq, Eq, Structural)]
pub enum RecoveryOutcome {
    /// The device recovered.
    Recovered,
    /// The state machine reported a device timeout.
    DeviceTimeout,
    /// The state machine reported that recovery without reinitialisation failed.
    NoOpRecoveryFailed,
    /// The state machine reported another error.
    OtherStateError,
    /// The service reported an error outside the state machine.
    OtherError,
}

/// What the recovery loop does next.
#[derive(Clone, Copy, Debug, PartialEq, Eq, Structural)]
pub enum RecoveryStep {
    /// Recovery succeeded: resume polling.
    Done,
    /// Wait [`RECOVERY_BACKOFF_SECS`] seconds, then try again.
    Backoff,
    /// Recovery cannot succeed without reinitialisation: resume polling.
    GiveUp,
    /// Try again at once.
    Retry,
}

/// The step that follows a recovery attempt with this outcome.
pub open spec fn recovery_step_spec(outcome: RecoveryOutcome) -> RecoveryStep {
    match outcome {
        RecoveryOutcome::Recovered => RecoveryStep::Done,
        RecoveryOutcome::DeviceTimeout => RecoveryStep::Backoff,
        RecoveryOutcome::NoOpRecoveryFailed => RecoveryStep::GiveUp,
        _ => RecoveryStep::Retry,
    }
}

/// Decide what follows a recovery attempt.
pub fn recovery_step(outcome: RecoveryOutcome) -> (step: RecoveryStep)
    ensures
        step == recovery_step_spec(outcome),
{
    match outcome {
        RecoveryOutcome::Recovered => RecoveryStep::Done,
        RecoveryOutcome::DeviceTimeout => RecoveryStep::Backoff,
        RecoveryOutcome::NoOpRecoveryFailed => RecoveryStep::GiveUp,
        RecoveryOutcome::OtherStateError => RecoveryStep::Retry,
        RecoveryOutcome::OtherError => RecoveryStep::Retry,
    }
}

/// Success resumes polling, a failure that needs reinitialisation gives up,
/// a device timeout backs off for ten seconds, and any other error is
/// retried at once. So the recovery loop ends exactly on success or on a failure that needs
/// reinitialisation; it waits before retrying only after a device timeout.
pub proof fn lemma_recovery_ends_only_on_success_or_give_up(outcome: RecoveryOutcome)
    ensures
        outcome == RecoveryOutcome::Recovered ==> recovery_step_spec(outcome) == RecoveryStep::Done,
        outcome == RecoveryOutcome::NoOpRecoveryFailed ==> recovery_step_spec(outcome)
            == RecoveryStep::GiveUp,
        outcome == RecoveryOutcome::OtherStateError ==> recovery_step_spec(outcome) == RecoveryStep::Retry,
        outcome == RecoveryOutcome::OtherError ==> recovery_step_spec(outcome) == RecoveryStep::Retry,
        RECOVERY_BACKOFF_SECS == 10,
        (recovery_step_spec(outcome) == RecoveryStep::Done || recovery_step_spec(outcome)
            == RecoveryStep::GiveUp) <==> (outcome == RecoveryOutcome::Recovered || outcome
            == RecoveryOutcome::NoOpRecoveryFailed),
        (recovery_step_spec(outcome) == RecoveryStep::Backoff) <==> outcome
            == RecoveryOutcome::DeviceTimeout,
{
}

/// One cycle, stated on its inputs: the failures of the cycle are one for
/// a static poll that was made and failed plus one for a failed dynamic
/// poll. If the accumulated failures exceed [`MAX_FAILURES`] the schedule
/// restarts at failures zero and counter one (recovery starts on the
/// eleventh failure); otherwise it keeps the
/// accumulated failures and the counter advances by one, wrapping at the
/// width of `usize`, whatever the outcomes of the polls.
pub proof fn lemma_cycle_step_on_inputs(state: (nat, nat), static_ok: Option<bool>, dynamic_ok: bool)
    requires
        state.1 <= usize::MAX,
    ensures
        ({
            let f = state.0 + (if static_ok == Some(false) { 1nat } else { 0nat }) + (if dynamic_ok {
                0nat
            } else {
                1nat
            });
            &&& f > 10 ==> cycle_step(state, static_ok, dynamic_ok) == (0nat, 1nat)
            &&& f <= 10 ==> cycle_step(state, static_ok, dynamic_ok).0 == f
            &&& f <= 10 ==> cycle_step(state, static_ok, dynamic_ok).1 == (state.1 + 1) % (
            usize::MAX as nat + 1)
        }),
{
    let m = usize::MAX as nat + 1;
    if state.1 < usize::MAX {
        vstd::arithmetic::div_mod::lemma_small_mod(state.1 + 1, m);
    } else {
        vstd::arithmetic::div_mod::lemma_mod_self_0(m as int);
    }
}

/// Whatever the poll outcomes, the failures carried from one cycle to the
/// next never exceed [`MAX_FAILURES`], and a cycle resets them to zero
/// exactly when it starts recovery.
pub proof fn lemma_failures_stay_bounded(state: (nat, nat), static_ok: Option<bool>, dynamic_ok: bool)
    requires
        state.0 <= MAX_FAILURES,
    ensures
        cycle_step(state, static_ok, dynamic_ok).0 <= MAX_FAILURES,
        recovery_due(state.0 + failures_of(static_ok) + failures_of(Some(dynamic_ok)))
            ==> cycle_step(state, static_ok, dynamic_ok) == (0nat, 1nat),
{
}

/// Without failures, each cycle advances the counter by one (wrapping at
/// the width of `usize`) and keeps the failures as they were; from a fresh
/// schedule, static data is then due in cycle `n` exactly when `n` is a
/// multiple of [`STATIC_POLL_PERIOD`].
pub proof fn lemma_cycles_without_failures(state: (nat, nat), cycles: Seq<CycleOutcome>)
    requires
        state.0 <= MAX_FAILURES,
        state.1 <= usize::MAX,
        no_failures(cycles),
    ensures
        run_cycles(state, cycles).0 == state.0,
        run_cycles(state, cycles).1 == (state.1 + cycles.len()) % (usize::MAX as nat + 1),
        state == (0nat, 0nat) && cycles.len() <= usize::MAX ==> (static_due(run_cycles(state, cycles).1)
            <==> cycles.len() % 216000 == 0),
    decreases cycles.len(),
{
    let m = usize::MAX as nat + 1;
    if cycles.len() == 0 {
        vstd::arithmetic::div_mod::lemma_small_mod(state.1, m);
    } else {
        let prefix = cycles.drop_last();
        assert forall|i: int| 0 <= i < prefix.len() implies failures_of(#[trigger] prefix[i].0) == 0
            && prefix[i].1 by {
            assert(prefix[i] == cycles[i]);
        }
        lemma_cycles_without_failures(state, prefix);
        let last = cycles[cycles.len() - 1];
        assert(failures_of(last.0) == 0 && last.1);
        let c = (state.1 + prefix.len()) % m;
        vstd::arithmetic::div_mod::lemma_add_mod_noop((state.1 + prefix.len()) as int, 1, m as int);
        vstd::arithmetic::div_mod::lemma_small_mod(1, m);
        if c < usize::MAX {
            vstd::arithmetic::div_mod::lemma_small_mod(c + 1, m);
        } else {
            vstd::arithmetic::div_mod::lemma_mod_self_0(m as int);
        }
    }
}

} // verus!
