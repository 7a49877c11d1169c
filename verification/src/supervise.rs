use vstd::prelude::*;

verus! {

/// What the supervised process did during one launch attempt, as seen by
/// the poller: either it exited before readiness, or it stayed alive until
/// its control endpoint answered a status query.
#[derive(Debug, PartialEq, Eq, Structural, Clone, Copy)]
pub enum AttemptFate {
    /// The process exited early, with this raw status.
    ExitedEarly(i32),
    /// The process stayed alive and a readiness probe succeeded.
    BecameReady,
}

/// The result of a whole supervised launch over a series of attempts.
#[derive(Debug, PartialEq, Eq, Structural, Clone, Copy)]
pub enum LaunchOutcome {
    /// The daemon reached readiness after consuming this many retries
    /// (relaunches beyond the first spawn).
    Ready { retries_used: u8 },
    /// The attempt budget was exhausted: terminal failure carrying the last
    /// observed raw exit status.
    GaveUp { status: i32 },
}

/// The terminal status of a launch whose successive attempts meet the given
/// fates: `None` means readiness was reached, `Some(s)` means the budget ran
/// out on an early exit with status `s`.
///
/// Each early exit consumes one attempt from the budget and moves on to the
/// next fate with a fresh work directory; with the budget at zero an early
/// exit is terminal at once.
pub open spec fn spec_outcome(attempts: nat, fates: Seq<AttemptFate>) -> Option<i32>
    decreases fates.len(),
{
    if fates.len() == 0 {
        None
    } else {
        match fates[0] {
            AttemptFate::BecameReady => None,
            AttemptFate::ExitedEarly(s) => {
                if attempts > 0 {
                    spec_outcome((attempts - 1) as nat, fates.drop_first())
                } else {
                    Some(s)
                }
            },
        }
    }
}

/// How many times such a launch spawns the process in all: one spawn per
/// fate consumed before the launch concludes.
pub open spec fn spec_spawn_count(attempts: nat, fates: Seq<AttemptFate>) -> nat
    decreases fates.len(),
{
    if fates.len() == 0 {
        0
    } else {
        match fates[0] {
            AttemptFate::BecameReady => 1,
            AttemptFate::ExitedEarly(_) => {
                if attempts > 0 {
                    1 + spec_spawn_count((attempts - 1) as nat, fates.drop_first())
                } else {
                    1
                }
            },
        }
    }
}

/// Run the whole launch protocol against a process whose successive
/// attempts meet the given fates, as an explicit bounded loop holding the
/// attempt counter: materialize a fresh directory, spawn, poll; on an early
/// exit, retry with the budget one smaller; on readiness, succeed.
///
/// `fates` must describe at least `attempts + 1` attempts, since the launch
/// spawns at most once per unit of budget plus the initial spawn.
pub fn supervise(attempts: u8, fates: &Vec<AttemptFate>) -> (r: LaunchOutcome)
    requires
        fates@.len() > attempts,
    ensures
        r is Ready <==> spec_outcome(attempts as nat, fates@) is None,
        r matches LaunchOutcome::Ready { retries_used } ==> retries_used + 1 == spec_spawn_count(
            attempts as nat,
            fates@,
        ),
        r matches LaunchOutcome::GaveUp { status } ==> spec_outcome(attempts as nat, fates@)
            == Some(status),
{
    let n = attempts as usize;
    let mut i: usize = 0;
    proof {
        assert(fates@.skip(0) =~= fates@);
    }
    loop
        invariant
            i <= n,
            n == attempts,
            fates@.len() > attempts,
            spec_outcome(attempts as nat, fates@) == spec_outcome(
                (attempts - i) as nat,
                fates@.skip(i as int),
            ),
            spec_spawn_count(attempts as nat, fates@) == i + spec_spawn_count(
                (attempts - i) as nat,
                fates@.skip(i as int),
            ),
        decreases n - i,
    {
        proof {
            assert(fates@.skip(i as int)[0] == fates@[i as int]);
        }
        match fates[i] {
            AttemptFate::BecameReady => {
                return LaunchOutcome::Ready { retries_used: i as u8 };
            },
            AttemptFate::ExitedEarly(s) => {
                if i < n {
                    proof {
                        assert(fates@.skip(i as int).drop_first() =~= fates@.skip(i as int + 1));
                    }
                    i += 1;
                } else {
                    return LaunchOutcome::GaveUp { status: s };
                }
            },
        }
    }
}

/// With the budget already at zero, an early exit on the first attempt is
/// terminal at once: the launch fails with that status, no retry happens,
/// and exactly one spawn is made.
pub proof fn lemma_no_budget_fails_immediately(fates: Seq<AttemptFate>, s: i32)
    requires
        fates.len() > 0,
        fates[0] == AttemptFate::ExitedEarly(s),
    ensures
        spec_outcome(0, fates) == Some(s),
        spec_spawn_count(0, fates) == 1,
{
}

/// With a budget of `attempts`, a run of `k <= attempts` consecutive early
/// exits followed by readiness succeeds and consumes exactly `k` retries:
/// the process is spawned `k + 1` times in all.
pub proof fn lemma_retries_consumed(attempts: nat, fates: Seq<AttemptFate>, k: nat)
    requires
        k <= attempts,
        k < fates.len(),
        forall|i: int| 0 <= i < k ==> fates[i] is ExitedEarly,
        fates[k as int] == AttemptFate::BecameReady,
    ensures
        spec_outcome(attempts, fates) is None,
        spec_spawn_count(attempts, fates) == k + 1,
    decreases k,
{
    if k == 0 {
    } else {
        assert(fates[0] is ExitedEarly);
        let rest = fates.drop_first();
        assert forall|i: int| 0 <= i < k - 1 implies rest[i] is ExitedEarly by {
            assert(rest[i] == fates[i + 1]);
        }
        assert(rest[k - 1] == fates[k as int]);
        lemma_retries_consumed((attempts - 1) as nat, rest, (k - 1) as nat);
    }
}

} // verus!
