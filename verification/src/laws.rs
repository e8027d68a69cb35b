use vstd::prelude::*;

use crate::supervisor::{
    spec_connect_begin, spec_connect_poll, spec_disconnect, spec_status, spec_teardown,
    CleanupFlag, ConnectError, ConnectionState, ExitOutcome, PollVerdict, ProcessPoll, Supervisor,
    MAX_POLL_ATTEMPTS, POLL_INTERVAL_MS,
};

verus! {

/// Observable state never drifts from true subprocess ownership: every
/// supervisor transition preserves well-formedness, and a status request
/// reports connected exactly when a subprocess handle is owned after its
/// poll.
pub proof fn lemma_no_state_drift(
    s: Supervisor,
    f: CleanupFlag,
    now: u64,
    exited: Option<ExitOutcome>,
    lock_present: bool,
    poll: ProcessPoll,
)
    requires
        s.wf(),
    ensures
        spec_connect_begin(s).0.wf(),
        spec_connect_poll(s, now, exited, lock_present).0.wf(),
        spec_disconnect(s, poll).0.wf(),
        spec_status(s, poll).0.wf(),
        spec_teardown(s, f).0.wf(),
        spec_status(s, poll).1 == (spec_status(s, poll).0.process.pid is Some),
{
}

/// Disconnect is idempotent: after any disconnect, a second one reports
/// "already disconnected" without error and changes nothing, and both
/// requests demand lock-file removal, so no lock file is left behind.
pub proof fn lemma_disconnect_idempotent(s: Supervisor, p1: ProcessPoll, p2: ProcessPoll)
    ensures
        ({
            let (s1, o1, plan1) = spec_disconnect(s, p1);
            let (s2, o2, plan2) = spec_disconnect(s1, p2);
            &&& o2 is AlreadyDisconnected
            &&& s2 == s1
            &&& plan1.clear_lock
            &&& plan2.clear_lock
        }),
{
}

/// Every fatal poll verdict leaves the supervisor disconnected with no
/// owned subprocess, and a disconnect attempted right after is a no-op
/// reporting "already disconnected".
pub proof fn lemma_failed_connect_leaves_disconnected(
    s: Supervisor,
    now: u64,
    exited: Option<ExitOutcome>,
    lock_present: bool,
    poll: ProcessPoll,
)
    ensures
        ({
            let (s2, v) = spec_connect_poll(s, now, exited, lock_present);
            v is Failed ==> {
                let (s3, o, plan) = spec_disconnect(s2, poll);
                &&& s2.state is Disconnected
                &&& s2.process.pid is None
                &&& o is AlreadyDisconnected
                &&& plan.clear_lock
            }
        }),
{
}

/// The supervisor after `n` quiet polls (no exit observed, no lock file).
pub open spec fn spec_poll_quiet_n(s: Supervisor, now: u64, n: nat) -> Supervisor
    decreases n,
{
    if n == 0 {
        s
    } else {
        spec_connect_poll(spec_poll_quiet_n(s, now, (n - 1) as nat), now, None, false).0
    }
}

/// Timeout boundary: from a fresh attempt with an owned subprocess, a run
/// of quiet polls keeps the attempt in flight for exactly the configured
/// budget; the final quiet poll of the budget fails the attempt as a
/// timeout and leaves no owned subprocess.
pub proof fn lemma_timeout_exactly_at_bound(s: Supervisor, now: u64, n: nat)
    requires
        s.state == (ConnectionState::Connecting { attempt: 0u32 }),
        s.process.pid is Some,
        n < MAX_POLL_ATTEMPTS,
    ensures
        spec_poll_quiet_n(s, now, n).state == (ConnectionState::Connecting { attempt: n as u32 }),
        spec_poll_quiet_n(s, now, n).process == s.process,
        n < MAX_POLL_ATTEMPTS - 1 ==> spec_connect_poll(
            spec_poll_quiet_n(s, now, n),
            now,
            None,
            false,
        ).1 is Continue,
        n == MAX_POLL_ATTEMPTS - 1 ==> ({
            let (s2, v) = spec_connect_poll(spec_poll_quiet_n(s, now, n), now, None, false);
            &&& v matches PollVerdict::Failed { error, plan }
            &&& error is Timeout
            &&& plan.clear_lock
            &&& s2.state is Disconnected
            &&& s2.process.pid is None
        }),
    decreases n,
{
    if n > 0 {
        lemma_timeout_exactly_at_bound(s, now, (n - 1) as nat);
    }
}

/// The poll budget spans the sixty-second ceiling the timeout message
/// names: the number of poll iterations times the poll interval is
/// exactly 60000 milliseconds.
pub proof fn lemma_poll_budget_is_sixty_seconds()
    ensures
        MAX_POLL_ATTEMPTS as int * POLL_INTERVAL_MS as int == 60000,
{
}

/// Failure mapping: an exit observed during the poll window fails the
/// attempt with the observed exit detail, categorized as a credential or
/// network failure and never as a timeout, whatever the lock file says,
/// and leaves no owned subprocess.
pub proof fn lemma_exit_maps_to_failure_not_timeout(
    s: Supervisor,
    now: u64,
    outcome: ExitOutcome,
    lock_present: bool,
)
    requires
        s.state is Connecting,
        s.process.pid is Some,
    ensures
        ({
            let (s2, v) = spec_connect_poll(s, now, Some(outcome), lock_present);
            &&& v matches PollVerdict::Failed { error, plan }
            &&& error == (ConnectError::AuthOrNetworkFailed { code: outcome.code })
            &&& !(error is Timeout)
            &&& plan.clear_lock
            &&& s2.state is Disconnected
            &&& s2.process.pid is None
        }),
{
}

/// Success path: when the lock file appears while the subprocess still
/// runs, the attempt succeeds keeping the subprocess owned, a status
/// request then reports connected, and a subsequent disconnect terminates
/// exactly the spawned subprocess and demands lock-file removal.
pub proof fn lemma_success_then_disconnect(s: Supervisor, now: u64, pid: u32)
    requires
        s.state is Connecting,
        s.process.pid == Some(pid),
    ensures
        ({
            let (s2, v) = spec_connect_poll(s, now, None, true);
            let (s3, connected) = spec_status(s2, ProcessPoll::Running);
            let (s4, o, plan) = spec_disconnect(s3, ProcessPoll::Running);
            &&& v is Success
            &&& s2.state == (ConnectionState::Connected { since: now })
            &&& s2.process.pid == Some(pid)
            &&& connected
            &&& o is Disconnected
            &&& plan.kill_pid == Some(pid)
            &&& plan.clear_lock
            &&& s4.state is Disconnected
            &&& s4.process.pid is None
        }),
{
}

/// Signal safety: of two teardown requests through the one-shot guard,
/// only the first yields termination and lock-removal work; a status
/// request interleaved between them neither repeats nor undoes it.
pub proof fn lemma_teardown_runs_once(s: Supervisor, f: CleanupFlag, poll: ProcessPoll)
    requires
        !f.done,
    ensures
        ({
            let (s1, f1, plan1) = spec_teardown(s, f);
            let (s1b, _) = spec_status(s1, poll);
            let (s2, f2, plan2) = spec_teardown(s1b, f1);
            &&& plan1 matches Some(work)
            &&& work.sweep_kill
            &&& work.clear_lock
            &&& work.kill_pid == s.process.pid
            &&& plan2 is None
            &&& s2 == s1b
            &&& f2.done
        }),
{
}

} // verus!
