use vstd::prelude::*;

verus! {

/// Signal number of the graceful-termination signal (SIGTERM).
pub const SIGTERM: i32 = 15;
/// Number of times an exit is checked for after the termination signal.
pub const POLL_ATTEMPTS: u16 = 10;
/// Pause between two checks, in milliseconds.
pub const POLL_INTERVAL_MS: u64 = 100;

/// How a child process ended: its exit code, or the signal that killed it.
#[derive(Clone, Copy, Debug, PartialEq, Eq, Structural)]
pub struct ExitStatus {
    pub code: Option<i32>,
    pub signal: Option<i32>,
}

/// Why a child process could not be cleaned up.
#[derive(Clone, Copy, Debug, PartialEq, Eq, Structural)]
pub enum CleanupError {
    /// The process had ended on its own, badly, before cleanup began.
    TerminatedEarly(ExitStatus),
    /// The process ended badly after it was asked to stop.
    BadExit(ExitStatus),
    /// The process was still running after every check.
    Timeout,
}

/// What one non-blocking check of a child process found.
#[derive(Clone, Copy, Debug, PartialEq, Eq, Structural)]
pub enum Observation {
    Running,
    Exited(ExitStatus),
}

/// What the owner of the process is to do next.
#[derive(Clone, Copy, Debug, PartialEq, Eq)]
pub enum CleanupAction {
    /// Send the termination signal once, then check the process again.
    SendTerm,
    /// Wait this many milliseconds, then check the process again.
    Sleep(u64),
    /// Cleanup is over, with this result.
    Finish(Result<(), CleanupError>),
}

/// Where a cleanup stands.
#[derive(Clone, Copy, Debug, PartialEq, Eq, Structural)]
pub enum CleanupPhase {
    /// Nothing is known yet of the process.
    Unchecked,
    /// The signal was sent and the process was checked `polls` times since.
    Signalled { polls: u16 },
    /// A result was given.
    Done,
}

/// An exit counts as clean when the termination signal ended the process or
/// it exited with code 0.
pub open spec fn spec_exit_ok(st: ExitStatus) -> bool {
    st.signal == Some(SIGTERM) || st.code == Some(0i32)
}

/// Result of an exit found before cleanup began.
pub open spec fn early_result(st: ExitStatus) -> Result<(), CleanupError> {
    if spec_exit_ok(st) {
        Ok(())
    } else {
        Err(CleanupError::TerminatedEarly(st))
    }
}

/// Result of an exit found after the signal was sent.
pub open spec fn late_result(st: ExitStatus) -> Result<(), CleanupError> {
    if spec_exit_ok(st) {
        Ok(())
    } else {
        Err(CleanupError::BadExit(st))
    }
}

/// One step of cleanup: the phase that follows and the action to take.
pub open spec fn spec_step(phase: CleanupPhase, obs: Observation) -> (CleanupPhase, CleanupAction) {
    match phase {
        CleanupPhase::Signalled { polls } => match obs {
            Observation::Exited(st) => (CleanupPhase::Done, CleanupAction::Finish(late_result(st))),
            Observation::Running => if polls + 1 >= POLL_ATTEMPTS {
                (CleanupPhase::Done, CleanupAction::Finish(Err(CleanupError::Timeout)))
            } else {
                (CleanupPhase::Signalled { polls: (polls + 1) as u16 }, CleanupAction::Sleep(POLL_INTERVAL_MS))
            },
        },
        _ => match obs {
            Observation::Exited(st) => (CleanupPhase::Done, CleanupAction::Finish(early_result(st))),
            Observation::Running => (CleanupPhase::Signalled { polls: 0 }, CleanupAction::SendTerm),
        },
    }
}

/// The actions a cleanup takes from `phase` while every check finds the
/// process still running, up to `n` checks or until it finishes.
pub open spec fn actions_while_running(phase: CleanupPhase, n: nat) -> Seq<CleanupAction>
    decreases n,
{
    if n == 0 {
        seq![]
    } else {
        let (next, a) = spec_step(phase, Observation::Running);
        if a is Finish {
            seq![a]
        } else {
            seq![a] + actions_while_running(next, (n - 1) as nat)
        }
    }
}

proof fn lemma_signalled_running(polls: u16, n: nat)
    requires
        polls < POLL_ATTEMPTS,
        n >= POLL_ATTEMPTS - polls,
    ensures
        ({
            let acts = actions_while_running(CleanupPhase::Signalled { polls }, n);
            &&& acts.len() == POLL_ATTEMPTS - polls
            &&& acts.last() == CleanupAction::Finish(Err(CleanupError::Timeout))
            &&& forall|i: int| 0 <= i < acts.len() - 1 ==> acts[i] == CleanupAction::Sleep(POLL_INTERVAL_MS)
        }),
    decreases POLL_ATTEMPTS - polls,
{
    let acts = actions_while_running(CleanupPhase::Signalled { polls }, n);
    if polls + 1 < POLL_ATTEMPTS {
        let next = CleanupPhase::Signalled { polls: (polls + 1) as u16 };
        lemma_signalled_running((polls + 1) as u16, (n - 1) as nat);
        let rest = actions_while_running(next, (n - 1) as nat);
        assert(acts == seq![CleanupAction::Sleep(POLL_INTERVAL_MS)] + rest);
        assert forall|i: int| 0 <= i < acts.len() - 1 implies acts[i] == CleanupAction::Sleep(POLL_INTERVAL_MS) by {
            if i > 0 {
                assert(acts[i] == rest[i - 1]);
            }
        }
    }
}

/// Against a process that never exits, cleanup sends the termination signal
/// exactly once, then checks the process `POLL_ATTEMPTS` times with
/// `POLL_INTERVAL_MS` between checks, and gives up with `Timeout`.
pub proof fn lemma_cleanup_of_stuck_process(n: nat)
    requires
        n > POLL_ATTEMPTS,
    ensures
        ({
            let acts = actions_while_running(CleanupPhase::Unchecked, n);
            &&& acts.len() == POLL_ATTEMPTS + 1
            &&& acts[0] == CleanupAction::SendTerm
            &&& forall|i: int| 1 <= i < POLL_ATTEMPTS ==> acts[i] == CleanupAction::Sleep(POLL_INTERVAL_MS)
            &&& acts[POLL_ATTEMPTS as int] == CleanupAction::Finish(Err(CleanupError::Timeout))
            &&& forall|i: int| 1 <= i < acts.len() ==> acts[i] != CleanupAction::SendTerm
        }),
{
    let acts = actions_while_running(CleanupPhase::Unchecked, n);
    lemma_signalled_running(0, (n - 1) as nat);
    let rest = actions_while_running(CleanupPhase::Signalled { polls: 0 }, (n - 1) as nat);
    assert(acts == seq![CleanupAction::SendTerm] + rest);
    assert forall|i: int| 1 <= i < acts.len() implies acts[i] != CleanupAction::SendTerm by {
        assert(acts[i] == rest[i - 1]);
    }
    assert forall|i: int| 1 <= i < POLL_ATTEMPTS implies acts[i] == CleanupAction::Sleep(POLL_INTERVAL_MS) by {
        assert(acts[i] == rest[i - 1]);
    }
    assert(acts[POLL_ATTEMPTS as int] == rest.last());
}

/// A process found already exited when cleanup begins is judged at once: an
/// exit with code 0 is a success, and an exit with another code, not caused
/// by the termination signal, is an early termination.
pub proof fn lemma_exited_before_cleanup(st: ExitStatus)
    ensures
        st.code == Some(0i32) ==> spec_step(CleanupPhase::Unchecked, Observation::Exited(st))
            == (CleanupPhase::Done, CleanupAction::Finish(Ok(()))),
        st.code != Some(0i32) && st.signal != Some(SIGTERM) ==> spec_step(CleanupPhase::Unchecked, Observation::Exited(st))
            == (CleanupPhase::Done, CleanupAction::Finish(Err(CleanupError::TerminatedEarly(st)))),
{
}

/// Whether an exit counts as clean: ended by the termination signal, or with
/// exit code 0.
pub fn exit_ok(st: ExitStatus) -> (r: bool)
    ensures
        r == spec_exit_ok(st),
{
    match (st.signal, st.code) {
        (Some(sig), _) if sig == SIGTERM => true,
        (_, Some(code)) => code == 0,
        _ => false,
    }
}

/// Graceful shutdown of one child process, driven by its owner: the owner
/// checks the process, hands what it found to `step`, and does what `step`
/// says until it says `Finish`.
#[derive(Clone, Copy, Debug)]
pub struct Cleanup {
    pub phase: CleanupPhase,
}

impl Cleanup {
    /// The phase is one from which a step can be taken.
    pub open spec fn wf(&self) -> bool {
        match self.phase {
            CleanupPhase::Signalled { polls } => polls < POLL_ATTEMPTS,
            CleanupPhase::Unchecked => true,
            CleanupPhase::Done => false,
        }
    }

    /// A cleanup that has not yet looked at the process.
    pub fn new() -> (c: Cleanup)
        ensures
            c.phase == CleanupPhase::Unchecked,
            c.wf(),
    {
        Cleanup { phase: CleanupPhase::Unchecked }
    }

    /// Whether a result has been given.
    pub fn is_done(&self) -> (r: bool)
        ensures
            r == (self.phase == CleanupPhase::Done),
    {
        match self.phase {
            CleanupPhase::Done => true,
            _ => false,
        }
    }

    /// Takes what a check of the process found and says what to do next. An
    /// exit found before the signal is judged as an early end; a process still
    /// running then gets the signal; after it, the process is checked up to
    /// `POLL_ATTEMPTS` times, `POLL_INTERVAL_MS` apart, before cleanup gives up.
    pub fn step(&mut self, obs: Observation) -> (a: CleanupAction)
        requires
            old(self).wf(),
        ensures
            (final(self).phase, a) == spec_step(old(self).phase, obs),
            final(self).wf() || final(self).phase == CleanupPhase::Done,
            final(self).phase == CleanupPhase::Done <==> a is Finish,
    {
        match self.phase {
            CleanupPhase::Signalled { polls } => match obs {
                Observation::Exited(st) => {
                    self.phase = CleanupPhase::Done;
                    if exit_ok(st) {
                        CleanupAction::Finish(Ok(()))
                    } else {
                        CleanupAction::Finish(Err(CleanupError::BadExit(st)))
                    }
                },
                Observation::Running => {
                    if polls + 1 >= POLL_ATTEMPTS {
                        self.phase = CleanupPhase::Done;
                        CleanupAction::Finish(Err(CleanupError::Timeout))
                    } else {
                        self.phase = CleanupPhase::Signalled { polls: polls + 1 };
                        CleanupAction::Sleep(POLL_INTERVAL_MS)
                    }
                },
            },
            _ => match obs {
                Observation::Exited(st) => {
                    self.phase = CleanupPhase::Done;
                    if exit_ok(st) {
                        CleanupAction::Finish(Ok(()))
                    } else {
                        CleanupAction::Finish(Err(CleanupError::TerminatedEarly(st)))
                    }
                },
                Observation::Running => {
                    self.phase = CleanupPhase::Signalled { polls: 0 };
                    CleanupAction::SendTerm
                },
            },
        }
    }
}

} // verus!
