//! Termination of a local session's worker, as a machine that the caller
//! drives: the machine decides, the caller signals, probes and removes files.
//!
//! The record is read first; a graceful-termination signal goes to the
//! process it names; when the signal is rejected the process is probed; the
//! record and the socket endpoint are then removed whatever came of it, and
//! termination is reported failed only when the process is still alive.
use vstd::prelude::*;
use crate::pid::{decimal_i32, parse_pid, trimmed};

verus! {

/// Why a session could not be terminated.
#[derive(Debug, Clone, Copy, PartialEq, Eq, Structural)]
pub enum KillError {
    /// The session has no liveness record.
    NotFound,
    /// The liveness record holds no process id of a single process.
    MalformedRecord,
    /// The signal was rejected and the process is still alive.
    TerminationFailed { pid: i32 },
}

/// Where a termination stands.
#[derive(Debug, Clone, Copy, PartialEq, Eq, Structural)]
pub enum KillPhase {
    /// Waiting for the result of signalling `pid`.
    Signalling { pid: i32 },
    /// Waiting to learn whether `pid` is still alive after a rejected signal.
    Probing { pid: i32 },
    /// Waiting for the removal of the session's files; `failed` when the
    /// process survived.
    CleaningUp { pid: i32, failed: bool },
    /// Done; nothing more is asked.
    Finished,
}

/// What the caller observed.
#[derive(Debug, Clone, Copy, PartialEq, Eq, Structural)]
pub enum KillEvent {
    /// Whether the termination signal was accepted.
    Signalled(bool),
    /// Whether the process is still alive.
    AliveAfter(bool),
    /// The record and the endpoint files were removed, as far as possible.
    CleanedUp,
}

/// What the caller is to do next.
#[derive(Debug, Clone, Copy, PartialEq, Eq, Structural)]
pub enum KillAction {
    /// Send the graceful-termination signal to this process.
    Signal(i32),
    /// Tell whether this process is alive.
    ProbeAlive(i32),
    /// Remove the session's liveness record and socket endpoint.
    Cleanup,
    /// Stop: the worker with this process id was terminated.
    Killed(i32),
    /// Stop: termination did not succeed.
    Fail(KillError),
}

/// The termination of one session.
#[derive(Debug, Clone, Copy, PartialEq, Eq, Structural)]
pub struct Killer {
    pub phase: KillPhase,
}

/// Where a termination starts, given the liveness record's text (`None`
/// when there is no record). A process id that is not positive would address
/// a process group, or every process, so it is never signalled.
pub open spec fn kill_start(record: Option<String>) -> (KillPhase, KillAction) {
    match record {
        None => (KillPhase::Finished, KillAction::Fail(KillError::NotFound)),
        Some(text) => match decimal_i32(trimmed(text@)) {
            Some(pid) if pid > 0 => (KillPhase::Signalling { pid }, KillAction::Signal(pid)),
            _ => (KillPhase::Finished, KillAction::Fail(KillError::MalformedRecord)),
        },
    }
}

/// The event that `phase` waits for has the right kind.
pub open spec fn kill_expects(phase: KillPhase, e: KillEvent) -> bool {
    match phase {
        KillPhase::Signalling { .. } => e is Signalled,
        KillPhase::Probing { .. } => e is AliveAfter,
        KillPhase::CleaningUp { .. } => e is CleanedUp,
        KillPhase::Finished => false,
    }
}

/// One transition: the next phase and the action it asks for.
pub open spec fn kill_next(phase: KillPhase, e: KillEvent) -> (KillPhase, KillAction) {
    match (phase, e) {
        (KillPhase::Signalling { pid }, KillEvent::Signalled(true)) => (
            KillPhase::CleaningUp { pid, failed: false },
            KillAction::Cleanup,
        ),
        (KillPhase::Signalling { pid }, _) => (KillPhase::Probing { pid }, KillAction::ProbeAlive(pid)),
        (KillPhase::Probing { pid }, KillEvent::AliveAfter(alive)) => (
            KillPhase::CleaningUp { pid, failed: alive },
            KillAction::Cleanup,
        ),
        (KillPhase::Probing { pid }, _) => (
            KillPhase::CleaningUp { pid, failed: false },
            KillAction::Cleanup,
        ),
        (KillPhase::CleaningUp { pid, failed }, _) => (
            KillPhase::Finished,
            if failed {
                KillAction::Fail(KillError::TerminationFailed { pid })
            } else {
                KillAction::Killed(pid)
            },
        ),
        (KillPhase::Finished, _) => (KillPhase::Finished, KillAction::Fail(KillError::NotFound)),
    }
}

impl Killer {
    /// Starts the termination of a session whose liveness record holds
    /// `record`. Without a record it ends at once with `NotFound`, and no
    /// signal is asked for.
    pub fn start(record: Option<String>) -> (r: (Killer, KillAction))
        ensures
            (r.0.phase, r.1) == kill_start(record),
            record is None ==> r.1 == KillAction::Fail(KillError::NotFound) && r.0.phase is Finished,
    {
        match record {
            None => (Killer { phase: KillPhase::Finished }, KillAction::Fail(KillError::NotFound)),
            Some(text) => match parse_pid(text.as_str()) {
                None => (
                    Killer { phase: KillPhase::Finished },
                    KillAction::Fail(KillError::MalformedRecord),
                ),
                Some(pid) => if pid > 0 {
                    (Killer { phase: KillPhase::Signalling { pid } }, KillAction::Signal(pid))
                } else {
                    (Killer { phase: KillPhase::Finished }, KillAction::Fail(KillError::MalformedRecord))
                },
            },
        }
    }

    /// Takes the caller's observation and says what to do next.
    pub fn step(&mut self, e: KillEvent) -> (a: KillAction)
        requires
            kill_expects(old(self).phase, e),
        ensures
            (final(self).phase, a) == kill_next(old(self).phase, e),
    {
        match (self.phase, e) {
            (KillPhase::Signalling { pid }, KillEvent::Signalled(true)) => {
                self.phase = KillPhase::CleaningUp { pid, failed: false };
                KillAction::Cleanup
            },
            (KillPhase::Signalling { pid }, _) => {
                self.phase = KillPhase::Probing { pid };
                KillAction::ProbeAlive(pid)
            },
            (KillPhase::Probing { pid }, KillEvent::AliveAfter(alive)) => {
                self.phase = KillPhase::CleaningUp { pid, failed: alive };
                KillAction::Cleanup
            },
            (KillPhase::Probing { pid }, _) => {
                self.phase = KillPhase::CleaningUp { pid, failed: false };
                KillAction::Cleanup
            },
            (KillPhase::CleaningUp { pid, failed }, _) => {
                self.phase = KillPhase::Finished;
                if failed {
                    KillAction::Fail(KillError::TerminationFailed { pid })
                } else {
                    KillAction::Killed(pid)
                }
            },
            (KillPhase::Finished, _) => KillAction::Fail(KillError::NotFound),
        }
    }
}

/// The actions a termination that started at `phase` asks for when the
/// caller reports `events` in turn, up to and including its outcome.
pub open spec fn kill_run(phase: KillPhase, events: Seq<KillEvent>) -> Seq<KillAction>
    decreases events.len(),
{
    if events.len() == 0 || phase is Finished {
        seq![]
    } else {
        let (p, a) = kill_next(phase, events[0]);
        seq![a] + kill_run(p, events.drop_first())
    }
}

/// Once a signal has gone to `pid`, the session's files are removed before
/// any outcome, whatever the signal's fate; termination is reported failed
/// exactly when the signal was rejected and the process is still alive.
pub proof fn lemma_cleanup_precedes_outcome(pid: i32, accepted: bool, alive: bool)
    ensures
        accepted ==> kill_run(
            KillPhase::Signalling { pid },
            seq![KillEvent::Signalled(true), KillEvent::CleanedUp],
        ) == seq![KillAction::Cleanup, KillAction::Killed(pid)],
        !accepted ==> kill_run(
            KillPhase::Signalling { pid },
            seq![KillEvent::Signalled(false), KillEvent::AliveAfter(alive), KillEvent::CleanedUp],
        ) == seq![
            KillAction::ProbeAlive(pid),
            KillAction::Cleanup,
            if alive {
                KillAction::Fail(KillError::TerminationFailed { pid })
            } else {
                KillAction::Killed(pid)
            },
        ],
{
    let s = KillPhase::Signalling { pid };
    if accepted {
        let ev = seq![KillEvent::Signalled(true), KillEvent::CleanedUp];
        let c = KillPhase::CleaningUp { pid, failed: false };
        assert(ev.drop_first() =~= seq![KillEvent::CleanedUp]);
        assert(ev.drop_first().drop_first() =~= Seq::<KillEvent>::empty());
        assert(kill_run(KillPhase::Finished, ev.drop_first().drop_first()) =~= Seq::<KillAction>::empty());
        assert(kill_run(c, ev.drop_first()) =~= seq![KillAction::Killed(pid)]);
        assert(kill_run(s, ev) =~= seq![KillAction::Cleanup, KillAction::Killed(pid)]);
    } else {
        let ev = seq![KillEvent::Signalled(false), KillEvent::AliveAfter(alive), KillEvent::CleanedUp];
        let pr = KillPhase::Probing { pid };
        let c = KillPhase::CleaningUp { pid, failed: alive };
        let last = if alive {
            KillAction::Fail(KillError::TerminationFailed { pid })
        } else {
            KillAction::Killed(pid)
        };
        let e1 = ev.drop_first();
        let e2 = e1.drop_first();
        assert(e1 =~= seq![KillEvent::AliveAfter(alive), KillEvent::CleanedUp]);
        assert(e2 =~= seq![KillEvent::CleanedUp]);
        assert(e2.drop_first() =~= Seq::<KillEvent>::empty());
        assert(kill_run(KillPhase::Finished, e2.drop_first()) =~= Seq::<KillAction>::empty());
        assert(kill_run(c, e2) =~= seq![last]);
        assert(kill_run(pr, e1) =~= seq![KillAction::Cleanup, last]);
        assert(kill_run(s, ev) =~= seq![KillAction::ProbeAlive(pid), KillAction::Cleanup, last]);
    }
}

} // verus!
