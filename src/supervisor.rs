//! Start-on-demand of a session's worker, as a machine that the caller
//! drives: the machine decides, the caller probes, spawns and waits, and hands
//! back what it saw.
//!
//! Phases: probing whether the worker is reachable; spawning one; polling its
//! endpoint a bounded number of times; finished.
use vstd::prelude::*;

verus! {

/// Why a worker could not be made reachable.
#[derive(Debug, Clone, Copy, PartialEq, Eq, Structural)]
pub enum StartError {
    /// The worker process could not be launched.
    SpawnFailed,
    /// The worker never accepted connections within the polling ceiling.
    StartupTimeout,
}

/// Where the supervisor stands.
#[derive(Debug, Clone, Copy, PartialEq, Eq, Structural)]
pub enum StartPhase {
    /// Waiting for the reachability probe.
    Probing,
    /// Waiting for the launch of a worker.
    Spawning,
    /// Waiting for the result of poll number `attempt` (counted from 1).
    Polling { attempt: u32 },
    /// Done; nothing more is asked.
    Finished,
}

/// What the caller observed.
#[derive(Debug, Clone, Copy, PartialEq, Eq, Structural)]
pub enum StartEvent {
    /// Whether the worker is reachable: its liveness record exists and its
    /// endpoint accepts connections.
    Reachable(bool),
    /// Whether the worker process was launched.
    Spawned(bool),
    /// Whether the endpoint accepted a connection.
    Polled(bool),
}

/// What the caller is to do next.
#[derive(Debug, Clone, Copy, PartialEq, Eq, Structural)]
pub enum StartAction {
    /// Launch one worker for the session, with a visible window if `headed`.
    Spawn { headed: bool },
    /// Wait one polling interval, then try to connect to the endpoint.
    WaitAndPoll,
    /// Stop: the worker is reachable.
    Ready,
    /// Stop: the worker could not be made reachable.
    Fail(StartError),
}

/// The supervisor of one start-up of a session's worker.
#[derive(Debug, Clone, Copy, PartialEq, Eq, Structural)]
pub struct Supervisor {
    /// Whether a spawned worker shows its window.
    pub headed: bool,
    /// How many polls are made before giving up.
    pub max_polls: u32,
    /// Where it stands.
    pub phase: StartPhase,
}

/// The event that `phase` waits for has the right kind.
pub open spec fn expects(phase: StartPhase, e: StartEvent) -> bool {
    match phase {
        StartPhase::Probing => e is Reachable,
        StartPhase::Spawning => e is Spawned,
        StartPhase::Polling { .. } => e is Polled,
        StartPhase::Finished => false,
    }
}

/// A supervisor is well formed when its poll count stays within the ceiling.
pub open spec fn wf(s: Supervisor) -> bool {
    &&& s.max_polls >= 1
    &&& (s.phase matches StartPhase::Polling { attempt } ==> 1 <= attempt <= s.max_polls)
}

/// One transition: the next supervisor and the action it asks for.
pub open spec fn next(s: Supervisor, e: StartEvent) -> (Supervisor, StartAction) {
    let done = Supervisor { phase: StartPhase::Finished, ..s };
    match (s.phase, e) {
        (StartPhase::Probing, StartEvent::Reachable(true)) => (done, StartAction::Ready),
        (StartPhase::Probing, _) => (
            Supervisor { phase: StartPhase::Spawning, ..s },
            StartAction::Spawn { headed: s.headed },
        ),
        (StartPhase::Spawning, StartEvent::Spawned(true)) => (
            Supervisor { phase: StartPhase::Polling { attempt: 1 }, ..s },
            StartAction::WaitAndPoll,
        ),
        (StartPhase::Spawning, _) => (done, StartAction::Fail((StartError::SpawnFailed))),
        (StartPhase::Polling { attempt }, StartEvent::Polled(true)) => (
            done,
            StartAction::Ready,
        ),
        (StartPhase::Polling { attempt }, _) => if attempt < s.max_polls {
            (
                Supervisor { phase: StartPhase::Polling { attempt: (attempt + 1) as u32 }, ..s },
                StartAction::WaitAndPoll,
            )
        } else {
            (done, StartAction::Fail((StartError::StartupTimeout)))
        },
        (StartPhase::Finished, _) => (done, StartAction::Ready),
    }
}

/// The actions a supervisor asks for when the caller reports `events` in
/// turn, up to and including the first that stops.
pub open spec fn run(s: Supervisor, events: Seq<StartEvent>) -> Seq<StartAction>
    decreases events.len(),
{
    if events.len() == 0 || s.phase is Finished {
        seq![]
    } else {
        let (t, a) = next(s, events[0]);
        if is_final(a) {
            seq![a]
        } else {
            seq![a] + run(t, events.drop_first())
        }
    }
}

/// The action ends the start-up.
pub open spec fn is_final(a: StartAction) -> bool {
    a is Ready || a is Fail
}

/// A fresh supervisor: it first asks whether the worker is reachable.
pub open spec fn fresh(s: Supervisor) -> bool {
    s.phase is Probing && s.max_polls >= 1
}

impl Supervisor {
    /// A supervisor for a worker that shows its window if `headed`, polling at
    /// most `max_polls` times (at least once) after a launch.
    pub fn new(headed: bool, max_polls: u32) -> (r: Supervisor)
        ensures
            fresh(r),
            r.headed == headed,
            r.max_polls == if max_polls == 0 {
                1
            } else {
                max_polls
            },
    {
        Supervisor {
            headed,
            max_polls: if max_polls == 0 {
                1
            } else {
                max_polls
            },
            phase: StartPhase::Probing,
        }
    }

    /// Takes the caller's observation and says what to do next.
    pub fn step(&mut self, e: StartEvent) -> (a: StartAction)
        requires
            wf(*old(self)),
            expects(old(self).phase, e),
        ensures
            (*final(self), a) == next(*old(self), e),
            wf(*final(self)),
            is_final(a) <==> final(self).phase is Finished,
    {
        match (self.phase, e) {
            (StartPhase::Probing, StartEvent::Reachable(true)) => {
                self.phase = StartPhase::Finished;
                StartAction::Ready
            },
            (StartPhase::Probing, _) => {
                self.phase = StartPhase::Spawning;
                StartAction::Spawn { headed: self.headed }
            },
            (StartPhase::Spawning, StartEvent::Spawned(true)) => {
                self.phase = StartPhase::Polling { attempt: 1 };
                StartAction::WaitAndPoll
            },
            (StartPhase::Spawning, _) => {
                self.phase = StartPhase::Finished;
                StartAction::Fail((StartError::SpawnFailed))
            },
            (StartPhase::Polling { attempt }, StartEvent::Polled(true)) => {
                self.phase = StartPhase::Finished;
                StartAction::Ready
            },
            (StartPhase::Polling { attempt }, _) => {
                if attempt < self.max_polls {
                    self.phase = StartPhase::Polling { attempt: attempt + 1 };
                    StartAction::WaitAndPoll
                } else {
                    self.phase = StartPhase::Finished;
                    StartAction::Fail((StartError::StartupTimeout))
                }
            },
            (StartPhase::Finished, _) => StartAction::Ready,
        }
    }
}

/// Some poll among the first `n` of `polls` found the endpoint accepting.
pub open spec fn accepted_within(polls: Seq<StartEvent>, n: int) -> bool {
    exists|i: int| 0 <= i < n && i < polls.len() && polls[i] == StartEvent::Polled(true)
}

/// Every event of `polls` is a poll result.
pub open spec fn all_polls(polls: Seq<StartEvent>) -> bool {
    forall|i: int| 0 <= i < polls.len() ==> (#[trigger] polls[i]) is Polled
}

proof fn lemma_polling_run(s: Supervisor, polls: Seq<StartEvent>)
    requires
        wf(s),
        s.phase is Polling,
        all_polls(polls),
        polls.len() >= s.max_polls - s.phase->attempt + 1,
    ensures
        ({
            let r = run(s, polls);
            let left = s.max_polls - s.phase->attempt + 1;
            &&& 0 < r.len() <= left
            &&& forall|i: int| 0 <= i < r.len() - 1 ==> #[trigger] r[i] == StartAction::WaitAndPoll
            &&& r.last() == if accepted_within(polls, left) {
                StartAction::Ready
            } else {
                StartAction::Fail(StartError::StartupTimeout)
            }
        }),
    decreases polls.len(),
{
    let (t, a) = next(s, polls[0]);
    let left = s.max_polls - s.phase->attempt + 1;
    assert(polls[0] is Polled);
    if polls[0] == StartEvent::Polled(true) {
        assert(accepted_within(polls, left));
    } else if s.phase->attempt < s.max_polls {
        let rest = polls.drop_first();
        assert(all_polls(rest)) by {
            assert forall|i: int| 0 <= i < rest.len() implies (#[trigger] rest[i]) is Polled by {
                assert(rest[i] == polls[i + 1]);
            }
        }
        lemma_polling_run(t, rest);
        let r = run(s, polls);
        assert(r == seq![a] + run(t, rest));
        if accepted_within(polls, left) {
            let i = choose|i: int| 0 <= i < left && i < polls.len() && polls[i] == StartEvent::Polled(true);
            assert(i > 0);
            assert(rest[i - 1] == polls[i]);
            assert(accepted_within(rest, left - 1));
        }
        if accepted_within(rest, left - 1) {
            let i = choose|i: int| 0 <= i < left - 1 && i < rest.len() && rest[i] == StartEvent::Polled(true);
            assert(polls[i + 1] == rest[i]);
        }
        assert forall|i: int| 0 <= i < r.len() - 1 implies #[trigger] r[i] == StartAction::WaitAndPoll by {
            if i > 0 {
                assert(r[i] == run(t, rest)[i - 1]);
            }
        }
    } else {
        if accepted_within(polls, left) {
            let i = choose|i: int| 0 <= i < left && i < polls.len() && polls[i] == StartEvent::Polled(true);
            assert(i == 0);
        }
    }
}

/// A worker that is already reachable is never launched again: the start-up
/// ends at once with success, asking for no launch. So starting a session
/// twice in a row launches nothing the second time.
pub proof fn lemma_reachable_worker_not_spawned(s: Supervisor, events: Seq<StartEvent>)
    requires
        fresh(s),
        events.len() > 0,
        events[0] == StartEvent::Reachable(true),
    ensures
        run(s, events) == seq![StartAction::Ready],
{
}

/// For an unreachable worker, the start-up launches exactly one worker, with
/// the requested window, then polls at most `max_polls` times. It succeeds as
/// soon as a poll within that ceiling finds the endpoint accepting, and ends
/// with `StartupTimeout` when none does.
pub proof fn lemma_unreachable_worker_spawned_once(s: Supervisor, polls: Seq<StartEvent>)
    requires
        fresh(s),
        all_polls(polls),
        polls.len() >= s.max_polls,
    ensures
        ({
            let r = run(s, seq![StartEvent::Reachable(false), StartEvent::Spawned(true)] + polls);
            &&& 2 < r.len() <= s.max_polls + 2
            &&& r[0] == StartAction::Spawn { headed: s.headed }
            &&& forall|i: int| 1 <= i < r.len() ==> !(#[trigger] r[i] is Spawn)
            &&& r.last() == if accepted_within(polls, s.max_polls as int) {
                StartAction::Ready
            } else {
                StartAction::Fail(StartError::StartupTimeout)
            }
        }),
{
    let events = seq![StartEvent::Reachable(false), StartEvent::Spawned(true)] + polls;
    let (s1, a1) = next(s, events[0]);
    let (s2, a2) = next(s1, events[1]);
    assert(events.drop_first()[0] == StartEvent::Spawned(true));
    assert(events.drop_first().drop_first() =~= polls);
    lemma_polling_run(s2, polls);
    let r = run(s, events);
    let tail = run(s2, polls);
    assert(run(s1, events.drop_first()) == seq![a2] + tail);
    assert(r == seq![a1] + run(s1, events.drop_first()));
    assert(r == seq![a1] + (seq![a2] + tail));
    assert forall|i: int| 1 <= i < r.len() implies !(#[trigger] r[i] is Spawn) by {
        if i >= 2 {
            assert(r[i] == tail[i - 2]);
            if i - 2 < tail.len() - 1 {
                assert(tail[i - 2] == StartAction::WaitAndPoll);
            }
        }
    }
    assert(r.last() == tail.last());
}

} // verus!
