//! Cycle and scheduling.
//!
//! One cycle fans out over every tracked repository on both providers and
//! is bounded by a wall-clock deadline. The loop around it runs forever:
//! idle between cycles, running while one is in flight, starting the next
//! on each interval tick. A cycle that outlives its deadline concludes as
//! timed out; that is an expected outcome, not an error, and never stops
//! the loop.

use vstd::prelude::*;

verus! {

/// How one polling cycle ended.
#[derive(Clone, Copy, Debug, PartialEq, Eq, Structural)]
pub enum CycleOutcome {
    /// Both provider sweeps concluded before the deadline, each either
    /// clean or failed; a failure is logged and otherwise ignored.
    Completed { travis_ok: bool, appveyor_ok: bool },
    /// The deadline elapsed first; in-flight work is abandoned.
    TimedOut,
}

/// Where the scheduler loop stands.
#[derive(Clone, Copy, Debug, PartialEq, Eq, Structural)]
pub enum SchedulerState {
    /// Between cycles.
    Idle,
    /// A cycle is in flight.
    Running,
}

/// What the outside world reports to the scheduler loop.
#[derive(Clone, Copy, Debug, PartialEq, Eq, Structural)]
pub enum SchedulerEvent {
    /// The fixed interval elapsed.
    Tick,
    /// The cycle in flight concluded, by finishing or by its deadline.
    CycleConcluded(CycleOutcome),
}

/// What the scheduler loop asks the outside world to do next. There is no
/// failing action: every event leads back into the loop.
#[derive(Clone, Copy, Debug, PartialEq, Eq, Structural)]
pub enum SchedulerAction {
    /// Launch a cycle over all repositories and providers.
    StartCycle,
    /// Record how the cycle ended, then wait for the next tick.
    Log(CycleOutcome),
    /// Nothing to do until the next event.
    Wait,
}

/// A provider sweep succeeds only when every repository's probe did.
pub fn sweep_ok(results: &Vec<bool>) -> (r: bool)
    ensures
        r == forall|i: int| 0 <= i < results@.len() ==> results@[i],
{
    let mut i: usize = 0;
    while i < results.len()
        invariant
            i <= results@.len(),
            forall|j: int| 0 <= j < i ==> results@[j],
        decreases results@.len() - i,
    {
        if !results[i] {
            return false;
        }
        i = i + 1;
    }
    true
}

/// How a cycle ends, given whether the deadline won the race.
pub open spec fn spec_conclude_cycle(
    timed_out: bool,
    travis_ok: bool,
    appveyor_ok: bool,
) -> CycleOutcome {
    if timed_out {
        CycleOutcome::TimedOut
    } else {
        CycleOutcome::Completed { travis_ok, appveyor_ok }
    }
}

/// Joins a cycle: the deadline elapsing first makes it time out, with the
/// eventual provider results discarded; otherwise both sweep outcomes are
/// kept, a failed one being a log line and nothing more.
pub fn conclude_cycle(timed_out: bool, travis_ok: bool, appveyor_ok: bool) -> (r: CycleOutcome)
    ensures
        r == spec_conclude_cycle(timed_out, travis_ok, appveyor_ok),
{
    if timed_out {
        CycleOutcome::TimedOut
    } else {
        CycleOutcome::Completed { travis_ok, appveyor_ok }
    }
}

/// The loop's transition relation: which state it moves to and what it
/// asks for, on each event in each state.
pub open spec fn spec_scheduler_step(s: SchedulerState, e: SchedulerEvent) -> (
    SchedulerState,
    SchedulerAction,
) {
    match (s, e) {
        (SchedulerState::Idle, SchedulerEvent::Tick) => (
            SchedulerState::Running,
            SchedulerAction::StartCycle,
        ),
        (SchedulerState::Idle, SchedulerEvent::CycleConcluded(_)) => (
            SchedulerState::Idle,
            SchedulerAction::Wait,
        ),
        (SchedulerState::Running, SchedulerEvent::Tick) => (
            SchedulerState::Running,
            SchedulerAction::Wait,
        ),
        (SchedulerState::Running, SchedulerEvent::CycleConcluded(o)) => (
            SchedulerState::Idle,
            SchedulerAction::Log(o),
        ),
    }
}

/// Drives the loop one event forward. A tick while idle starts a cycle; a
/// concluding cycle is logged and the loop returns to idle, whatever the
/// outcome was; everything else waits.
pub fn scheduler_step(s: SchedulerState, e: SchedulerEvent) -> (r: (
    SchedulerState,
    SchedulerAction,
))
    ensures
        r == spec_scheduler_step(s, e),
{
    match (s, e) {
        (SchedulerState::Idle, SchedulerEvent::Tick) => (
            SchedulerState::Running,
            SchedulerAction::StartCycle,
        ),
        (SchedulerState::Idle, SchedulerEvent::CycleConcluded(_)) => (
            SchedulerState::Idle,
            SchedulerAction::Wait,
        ),
        (SchedulerState::Running, SchedulerEvent::Tick) => (
            SchedulerState::Running,
            SchedulerAction::Wait,
        ),
        (SchedulerState::Running, SchedulerEvent::CycleConcluded(o)) => (
            SchedulerState::Idle,
            SchedulerAction::Log(o),
        ),
    }
}

/// Law: a cycle that exceeds its deadline concludes as timed out, the loop
/// merely logs that and returns to idle, and the next tick starts a fresh
/// cycle. No outcome, the timed-out one included, makes the loop fail or
/// stop: `SchedulerAction` has no failing case and the step is total.
pub proof fn lemma_timeout_reschedules(travis_ok: bool, appveyor_ok: bool, o: CycleOutcome)
    ensures
        spec_conclude_cycle(true, travis_ok, appveyor_ok) == CycleOutcome::TimedOut,
        spec_scheduler_step(SchedulerState::Running, SchedulerEvent::CycleConcluded(o)) == (
            SchedulerState::Idle,
            SchedulerAction::Log(o),
        ),
        spec_scheduler_step(SchedulerState::Idle, SchedulerEvent::Tick) == (
            SchedulerState::Running,
            SchedulerAction::StartCycle,
        ),
{
}

} // verus!
