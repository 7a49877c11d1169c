use lightningd::action_of;
use lightningd::initial_state;
use lightningd::launch_step;
use lightningd::supervise;
use lightningd::AttemptFate;
use lightningd::LaunchAction;
use lightningd::LaunchEvent;
use lightningd::LaunchOutcome;
use lightningd::LaunchPhase;

#[test]
fn spawn_ok_moves_to_polling() {
    let s0 = initial_state(3);
    assert_eq!(action_of(&s0), LaunchAction::Spawn);
    let s1 = launch_step(s0, LaunchEvent::SpawnOk);
    assert_eq!(s1.phase, LaunchPhase::PollingReadiness);
    assert_eq!(s1.attempts_left, 3);
    assert_eq!(action_of(&s1), LaunchAction::PollAgain);
}

#[test]
fn spawn_error_is_terminal_despite_budget() {
    let s0 = initial_state(3);
    let s1 = launch_step(s0, LaunchEvent::SpawnErr);
    assert_eq!(s1.phase, LaunchPhase::SpawnFailed);
    assert_eq!(action_of(&s1), LaunchAction::GiveUp);
}

#[test]
fn probe_failure_keeps_polling() {
    let s0 = launch_step(initial_state(2), LaunchEvent::SpawnOk);
    let s1 = launch_step(s0, LaunchEvent::ProbeErr);
    assert_eq!(s1.phase, LaunchPhase::PollingReadiness);
    assert_eq!(s1.attempts_left, 2);
}

#[test]
fn probe_success_is_ready() {
    let s0 = launch_step(initial_state(2), LaunchEvent::SpawnOk);
    let s1 = launch_step(s0, LaunchEvent::ProbeOk);
    assert_eq!(s1.phase, LaunchPhase::Ready);
    assert_eq!(action_of(&s1), LaunchAction::Finish);
}

#[test]
fn early_exit_with_budget_respawns() {
    let s0 = launch_step(initial_state(2), LaunchEvent::SpawnOk);
    let s1 = launch_step(s0, LaunchEvent::ProcessExited(101));
    assert_eq!(s1.phase, LaunchPhase::Spawning);
    assert_eq!(s1.attempts_left, 1);
    assert_eq!(action_of(&s1), LaunchAction::Spawn);
}

#[test]
fn early_exit_without_budget_fails() {
    let s0 = launch_step(initial_state(0), LaunchEvent::SpawnOk);
    let s1 = launch_step(s0, LaunchEvent::ProcessExited(101));
    assert_eq!(s1.phase, LaunchPhase::EarlyExit(101));
    assert_eq!(action_of(&s1), LaunchAction::GiveUp);
}

#[test]
fn zero_attempts_fail_immediately() {
    // Budget 0: the very first early exit is terminal, no retry is made.
    let fates = vec![AttemptFate::ExitedEarly(7), AttemptFate::BecameReady];
    let out = supervise(0, &fates);
    assert_eq!(out, LaunchOutcome::GaveUp { status: 7 });
}

#[test]
fn k_early_exits_consume_k_retries() {
    // Budget 3, two early exits then readiness: success with exactly two
    // retries consumed.
    let fates = vec![
        AttemptFate::ExitedEarly(1),
        AttemptFate::ExitedEarly(1),
        AttemptFate::BecameReady,
        AttemptFate::BecameReady,
    ];
    let out = supervise(3, &fates);
    assert_eq!(out, LaunchOutcome::Ready { retries_used: 2 });
}

#[test]
fn immediate_readiness_uses_no_retry() {
    let fates = vec![AttemptFate::BecameReady];
    let out = supervise(0, &fates);
    assert_eq!(out, LaunchOutcome::Ready { retries_used: 0 });
}

#[test]
fn exhausted_budget_reports_last_status() {
    // Budget 2, three early exits: the budget runs out and the launch fails
    // with the status of the last observed exit.
    let fates = vec![
        AttemptFate::ExitedEarly(1),
        AttemptFate::ExitedEarly(2),
        AttemptFate::ExitedEarly(3),
    ];
    let out = supervise(2, &fates);
    assert_eq!(out, LaunchOutcome::GaveUp { status: 3 });
}

#[test]
fn full_budget_of_exits_then_ready() {
    // k == N: the last unit of budget pays for the last retry, which succeeds.
    let fates = vec![
        AttemptFate::ExitedEarly(9),
        AttemptFate::ExitedEarly(9),
        AttemptFate::ExitedEarly(9),
        AttemptFate::BecameReady,
    ];
    let out = supervise(3, &fates);
    assert_eq!(out, LaunchOutcome::Ready { retries_used: 3 });
}
