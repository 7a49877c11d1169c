use vstd::prelude::*;

verus! {

/// The phase of one supervised launch. A launch starts in `Spawning`, moves
/// to `PollingReadiness` once the process exists, and ends in one of the
/// three terminal phases.
#[derive(Debug, PartialEq, Eq, Structural, Clone, Copy)]
pub enum LaunchPhase {
    /// A fresh work directory is to be materialized and the process spawned
    /// into it.
    Spawning,
    /// The process is running; its liveness and its control endpoint are
    /// being polled.
    PollingReadiness,
    /// Terminal: the control endpoint answered a status query; the handle
    /// can be built.
    Ready,
    /// Terminal: the process exited before readiness, with this raw status,
    /// and no attempts remained.
    EarlyExit(i32),
    /// Terminal: the spawn call itself failed; never retried.
    SpawnFailed,
}

/// The whole state of the launch protocol: the phase together with the
/// remaining attempt budget.
#[derive(Debug, PartialEq, Eq, Structural, Clone, Copy)]
pub struct LaunchState {
    /// Where the protocol stands.
    pub phase: LaunchPhase,
    /// How many automatic relaunches remain after an early process exit.
    pub attempts_left: u8,
}

/// One observation handed to the supervisor by the shell that runs the
/// process and the readiness probe.
#[derive(Debug, PartialEq, Eq, Structural, Clone, Copy)]
pub enum LaunchEvent {
    /// The spawn call returned a child process.
    SpawnOk,
    /// The spawn call itself failed.
    SpawnErr,
    /// The non-blocking wait reported that the process has already exited,
    /// with this raw status.
    ProcessExited(i32),
    /// The process is alive and the control endpoint answered the trivial
    /// status query.
    ProbeOk,
    /// The process is alive but the probe failed (socket absent, connection
    /// refused, or query error); such failures are transient and drive the
    /// poll loop, never the caller.
    ProbeErr,
}

/// What the shell must do next, as decided by [`launch_step`].
#[derive(Debug, PartialEq, Eq, Structural, Clone, Copy)]
pub enum LaunchAction {
    /// Materialize a fresh work directory (discarding any previous one) and
    /// spawn the process into it.
    Spawn,
    /// Sleep the fixed inter-poll delay, then observe the process and the
    /// probe again.
    PollAgain,
    /// Build the handle from the live process and the connected client, and
    /// return it.
    Finish,
    /// Surface the terminal failure recorded in the phase to the caller.
    GiveUp,
}

/// Whether an event can be observed in a given phase: spawn outcomes belong
/// to `Spawning`, liveness and probe outcomes to `PollingReadiness`.
pub open spec fn event_fits(state: LaunchState, ev: LaunchEvent) -> bool {
    match ev {
        LaunchEvent::SpawnOk | LaunchEvent::SpawnErr => state.phase is Spawning,
        LaunchEvent::ProcessExited(_) | LaunchEvent::ProbeOk | LaunchEvent::ProbeErr => state.phase is PollingReadiness,
    }
}

/// The transition function of the launch protocol.
///
/// - A successful spawn moves to readiness polling; a failed spawn is
///   immediately terminal, whatever the budget.
/// - An early process exit consumes one attempt and restarts from
///   `Spawning` while the budget lasts; with the budget at zero it is
///   terminal with the observed status.
/// - A successful probe is terminal success; a failed probe keeps polling.
pub open spec fn spec_launch_step(state: LaunchState, ev: LaunchEvent) -> LaunchState {
    match ev {
        LaunchEvent::SpawnOk => LaunchState {
            phase: LaunchPhase::PollingReadiness,
            ..state
        },
        LaunchEvent::SpawnErr => LaunchState { phase: LaunchPhase::SpawnFailed, ..state },
        LaunchEvent::ProcessExited(status) => {
            if state.attempts_left > 0 {
                LaunchState {
                    phase: LaunchPhase::Spawning,
                    attempts_left: (state.attempts_left - 1) as u8,
                }
            } else {
                LaunchState { phase: LaunchPhase::EarlyExit(status), ..state }
            }
        },
        LaunchEvent::ProbeOk => LaunchState { phase: LaunchPhase::Ready, ..state },
        LaunchEvent::ProbeErr => LaunchState { phase: LaunchPhase::PollingReadiness, ..state },
    }
}

/// The action the shell must take in a state: spawn, poll, finish, or
/// surface the failure.
pub open spec fn spec_action_of(state: LaunchState) -> LaunchAction {
    match state.phase {
        LaunchPhase::Spawning => LaunchAction::Spawn,
        LaunchPhase::PollingReadiness => LaunchAction::PollAgain,
        LaunchPhase::Ready => LaunchAction::Finish,
        LaunchPhase::EarlyExit(_) => LaunchAction::GiveUp,
        LaunchPhase::SpawnFailed => LaunchAction::GiveUp,
    }
}

/// Decide at run time whether an event can be observed in a state, so an
/// unverified caller can guard its calls to [`launch_step`].
pub fn check_event_fits(state: &LaunchState, ev: &LaunchEvent) -> (r: bool)
    ensures
        r == event_fits(*state, *ev),
{
    match ev {
        LaunchEvent::SpawnOk | LaunchEvent::SpawnErr => matches!(state.phase, LaunchPhase::Spawning),
        LaunchEvent::ProcessExited(_) | LaunchEvent::ProbeOk | LaunchEvent::ProbeErr => matches!(
            state.phase,
            LaunchPhase::PollingReadiness,
        ),
    }
}

/// Advance the launch protocol by one observation.
pub fn launch_step(state: LaunchState, ev: LaunchEvent) -> (next: LaunchState)
    requires
        event_fits(state, ev),
    ensures
        next == spec_launch_step(state, ev),
{
    match ev {
        LaunchEvent::SpawnOk => LaunchState {
            phase: LaunchPhase::PollingReadiness,
            attempts_left: state.attempts_left,
        },
        LaunchEvent::SpawnErr => LaunchState {
            phase: LaunchPhase::SpawnFailed,
            attempts_left: state.attempts_left,
        },
        LaunchEvent::ProcessExited(status) => {
            if state.attempts_left > 0 {
                LaunchState {
                    phase: LaunchPhase::Spawning,
                    attempts_left: state.attempts_left - 1,
                }
            } else {
                LaunchState { phase: LaunchPhase::EarlyExit(status), attempts_left: 0 }
            }
        },
        LaunchEvent::ProbeOk => LaunchState {
            phase: LaunchPhase::Ready,
            attempts_left: state.attempts_left,
        },
        LaunchEvent::ProbeErr => LaunchState {
            phase: LaunchPhase::PollingReadiness,
            attempts_left: state.attempts_left,
        },
    }
}

/// The next action for the shell in a given state.
pub fn action_of(state: &LaunchState) -> (a: LaunchAction)
    ensures
        a == spec_action_of(*state),
{
    match state.phase {
        LaunchPhase::Spawning => LaunchAction::Spawn,
        LaunchPhase::PollingReadiness => LaunchAction::PollAgain,
        LaunchPhase::Ready => LaunchAction::Finish,
        LaunchPhase::EarlyExit(_) => LaunchAction::GiveUp,
        LaunchPhase::SpawnFailed => LaunchAction::GiveUp,
    }
}

/// The fresh state for a launch with the given attempt budget.
pub fn initial_state(attempts: u8) -> (s: LaunchState)
    ensures
        s.phase is Spawning,
        s.attempts_left == attempts,
{
    LaunchState { phase: LaunchPhase::Spawning, attempts_left: attempts }
}

/// Fold the transition function over a series of observations.
pub open spec fn spec_run_events(state: LaunchState, evs: Seq<LaunchEvent>) -> LaunchState
    decreases evs.len(),
{
    if evs.len() == 0 {
        state
    } else {
        spec_run_events(spec_launch_step(state, evs[0]), evs.drop_first())
    }
}

/// Running a concatenation of observations is running the two parts in turn.
pub proof fn lemma_run_events_append(state: LaunchState, a: Seq<LaunchEvent>, b: Seq<LaunchEvent>)
    ensures
        spec_run_events(state, a + b) == spec_run_events(spec_run_events(state, a), b),
    decreases a.len(),
{
    if a.len() == 0 {
        assert(a + b =~= b);
    } else {
        assert((a + b).drop_first() =~= a.drop_first() + b);
        lemma_run_events_append(spec_launch_step(state, a[0]), a.drop_first(), b);
    }
}

/// Running a single observation is one step of the transition function.
pub proof fn lemma_run_events_single(state: LaunchState, ev: LaunchEvent)
    ensures
        spec_run_events(state, seq![ev]) == spec_launch_step(state, ev),
{
    let s1 = seq![ev];
    assert(s1[0] == ev);
    assert(s1.drop_first() =~= Seq::<LaunchEvent>::empty());
    assert(spec_run_events(spec_launch_step(state, ev), s1.drop_first()) == spec_launch_step(
        state,
        ev,
    ));
}

/// Transient probe failures drive the poll loop and nothing else: any run
/// of them leaves the polling state exactly as it was.
pub proof fn lemma_probe_failures_preserve_state(state: LaunchState, m: nat)
    requires
        state.phase is PollingReadiness,
    ensures
        spec_run_events(state, Seq::new(m, |i: int| LaunchEvent::ProbeErr)) == state,
    decreases m,
{
    if m > 0 {
        let evs = Seq::new(m, |i: int| LaunchEvent::ProbeErr);
        assert(evs.drop_first() =~= Seq::new((m - 1) as nat, |i: int| LaunchEvent::ProbeErr));
        assert(spec_launch_step(state, evs[0]) == state);
        lemma_probe_failures_preserve_state(state, (m - 1) as nat);
    }
}

/// One whole launch attempt that ends in an early exit, at the event level:
/// a successful spawn, then `m` transient probe failures, then the process
/// found exited with status `s`. With budget remaining the machine is back
/// at `Spawning` with one attempt fewer — one retry consumed, the rest of
/// the state untouched; with the budget at zero it is terminal with that
/// status. This is exactly the attempt-level fate `ExitedEarly`.
pub proof fn lemma_attempt_early_exit(state: LaunchState, m: nat, s: i32)
    requires
        state.phase is Spawning,
    ensures
        state.attempts_left > 0 ==> spec_run_events(
            state,
            seq![LaunchEvent::SpawnOk] + Seq::new(m, |i: int| LaunchEvent::ProbeErr) + seq![
                LaunchEvent::ProcessExited(s),
            ],
        ) == (LaunchState {
            phase: LaunchPhase::Spawning,
            attempts_left: (state.attempts_left - 1) as u8,
        }),
        state.attempts_left == 0 ==> spec_run_events(
            state,
            seq![LaunchEvent::SpawnOk] + Seq::new(m, |i: int| LaunchEvent::ProbeErr) + seq![
                LaunchEvent::ProcessExited(s),
            ],
        ) == (LaunchState { phase: LaunchPhase::EarlyExit(s), attempts_left: state.attempts_left }),
{
    let polling = LaunchState { phase: LaunchPhase::PollingReadiness, ..state };
    let probes = Seq::new(m, |i: int| LaunchEvent::ProbeErr);
    lemma_run_events_append(state, seq![LaunchEvent::SpawnOk] + probes, seq![
        LaunchEvent::ProcessExited(s),
    ]);
    lemma_run_events_append(state, seq![LaunchEvent::SpawnOk], probes);
    lemma_run_events_single(state, LaunchEvent::SpawnOk);
    assert(spec_launch_step(state, LaunchEvent::SpawnOk) == polling);
    lemma_probe_failures_preserve_state(polling, m);
    lemma_run_events_single(polling, LaunchEvent::ProcessExited(s));
}

/// One whole launch attempt that reaches readiness, at the event level: a
/// successful spawn, then `m` transient probe failures, then an answered
/// probe. The machine ends `Ready` with the attempt budget untouched —
/// readiness consumes no retries. This is exactly the attempt-level fate
/// `BecameReady`.
pub proof fn lemma_attempt_becomes_ready(state: LaunchState, m: nat)
    requires
        state.phase is Spawning,
    ensures
        spec_run_events(
            state,
            seq![LaunchEvent::SpawnOk] + Seq::new(m, |i: int| LaunchEvent::ProbeErr) + seq![
                LaunchEvent::ProbeOk,
            ],
        ) == (LaunchState { phase: LaunchPhase::Ready, attempts_left: state.attempts_left }),
{
    let polling = LaunchState { phase: LaunchPhase::PollingReadiness, ..state };
    let probes = Seq::new(m, |i: int| LaunchEvent::ProbeErr);
    lemma_run_events_append(state, seq![LaunchEvent::SpawnOk] + probes, seq![LaunchEvent::ProbeOk]);
    lemma_run_events_append(state, seq![LaunchEvent::SpawnOk], probes);
    lemma_run_events_single(state, LaunchEvent::SpawnOk);
    assert(spec_launch_step(state, LaunchEvent::SpawnOk) == polling);
    lemma_probe_failures_preserve_state(polling, m);
    lemma_run_events_single(polling, LaunchEvent::ProbeOk);
}

} // verus!
