use cancelbot::cycle::CycleOutcome;
use cancelbot::cycle::SchedulerAction;
use cancelbot::cycle::SchedulerEvent;
use cancelbot::cycle::SchedulerState;
use cancelbot::cycle::conclude_cycle;
use cancelbot::cycle::scheduler_step;
use cancelbot::cycle::sweep_ok;

#[test]
fn deadline_wins_the_race() {
    // The deadline elapsing makes the cycle time out whatever the provider
    // sweeps would eventually have reported.
    assert_eq!(conclude_cycle(true, true, true), CycleOutcome::TimedOut);
    assert_eq!(conclude_cycle(true, false, false), CycleOutcome::TimedOut);
}

#[test]
fn finished_cycle_keeps_both_sweep_outcomes() {
    assert_eq!(
        conclude_cycle(false, true, false),
        CycleOutcome::Completed { travis_ok: true, appveyor_ok: false }
    );
    assert_eq!(
        conclude_cycle(false, true, true),
        CycleOutcome::Completed { travis_ok: true, appveyor_ok: true }
    );
}

#[test]
fn tick_starts_a_cycle_when_idle() {
    assert_eq!(
        scheduler_step(SchedulerState::Idle, SchedulerEvent::Tick),
        (SchedulerState::Running, SchedulerAction::StartCycle)
    );
}

#[test]
fn timed_out_cycle_is_logged_and_the_loop_goes_on() {
    // A timed-out cycle is an expected outcome: the loop logs it, returns
    // to idle, and the next tick starts a fresh cycle.
    assert_eq!(
        scheduler_step(SchedulerState::Running, SchedulerEvent::CycleConcluded(CycleOutcome::TimedOut)),
        (SchedulerState::Idle, SchedulerAction::Log(CycleOutcome::TimedOut))
    );
    assert_eq!(
        scheduler_step(SchedulerState::Idle, SchedulerEvent::Tick),
        (SchedulerState::Running, SchedulerAction::StartCycle)
    );
}

#[test]
fn failed_sweep_is_logged_like_any_other() {
    let outcome = CycleOutcome::Completed { travis_ok: false, appveyor_ok: true };
    assert_eq!(
        scheduler_step(SchedulerState::Running, SchedulerEvent::CycleConcluded(outcome)),
        (SchedulerState::Idle, SchedulerAction::Log(outcome))
    );
}

#[test]
fn stray_events_leave_the_loop_waiting() {
    assert_eq!(
        scheduler_step(SchedulerState::Running, SchedulerEvent::Tick),
        (SchedulerState::Running, SchedulerAction::Wait)
    );
    assert_eq!(
        scheduler_step(
            SchedulerState::Idle,
            SchedulerEvent::CycleConcluded(CycleOutcome::TimedOut)
        ),
        (SchedulerState::Idle, SchedulerAction::Wait)
    );
}

#[test]
fn one_failing_repository_fails_only_its_sweep() {
    assert!(sweep_ok(&Vec::new()));
    assert!(sweep_ok(&vec![true, true, true]));
    assert!(!sweep_ok(&vec![true, false, true]));
}
