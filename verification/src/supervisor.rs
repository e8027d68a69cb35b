use vstd::prelude::*;

use crate::decimal::i32_decimal;
use crate::decimal::spec_int_decimal;

verus! {

/// Poll interval of the bounded success/failure wait, in milliseconds.
pub const POLL_INTERVAL_MS: u64 = 500;

/// Number of poll iterations before a connection attempt times out
/// (120 polls of 500 ms: a 60-second ceiling).
pub const MAX_POLL_ATTEMPTS: u32 = 120;

/// How a finished subprocess ended: an exit code, or none when it was
/// terminated by a signal.
#[derive(Clone, Copy, Debug)]
pub struct ExitOutcome {
    /// Exit code; absent when the process ended on a signal.
    pub code: Option<i32>,
}

/// What one non-blocking poll of the owned subprocess observed.
#[derive(Clone, Copy, Debug)]
pub enum ProcessPoll {
    /// The subprocess is still running.
    Running,
    /// The subprocess has exited with the given outcome.
    Exited(ExitOutcome),
    /// The poll itself failed; the handle is abandoned rather than trusted.
    PollFailed,
}

/// Cleanup work for the driver: which process to kill and reap, whether to
/// sweep same-name stragglers, and whether to remove the lock file. Lock
/// removal is demanded on every disconnect path, unconditionally.
#[derive(Clone, Copy, Debug)]
pub struct TerminatePlan {
    /// Identity of the process to kill and reap, when one is owned.
    pub kill_pid: Option<u32>,
    /// Also kill every process under the binary's name, as a defence
    /// against helper children the direct handle does not own.
    pub sweep_kill: bool,
    /// Remove the lock-file marker.
    pub clear_lock: bool,
}

/// Owns at most one live subprocess, by its identity. The driver keeps the
/// operating-system child handle beside this value and mirrors its state:
/// absent exactly when disconnected.
#[derive(Clone, Copy, Debug)]
pub struct GpclientProcess {
    /// Identity of the owned subprocess; absent when none is owned.
    pub pid: Option<u32>,
}

/// Effect of one non-blocking status poll on the handle: an observed exit
/// (or a failing poll) clears the handle as a side effect, so the same exit
/// is never reported twice.
pub open spec fn spec_check_status(p: GpclientProcess, poll: ProcessPoll) -> (
    GpclientProcess,
    Option<ExitOutcome>,
) {
    match p.pid {
        None => (p, None),
        Some(_) => match poll {
            ProcessPoll::Running => (p, None),
            ProcessPoll::Exited(outcome) => (GpclientProcess { pid: None }, Some(outcome)),
            ProcessPoll::PollFailed => (GpclientProcess { pid: None }, None),
        },
    }
}

/// Effect of a forceful termination: the handle is released, the owned
/// process (if any) is killed, same-name stragglers are swept whenever a
/// process was owned, and the lock file is removed regardless.
pub open spec fn spec_process_disconnect(p: GpclientProcess) -> (GpclientProcess, TerminatePlan) {
    (
        GpclientProcess { pid: None },
        TerminatePlan { kill_pid: p.pid, sweep_kill: p.pid is Some, clear_lock: true },
    )
}

impl GpclientProcess {
    /// A handle owning nothing.
    pub fn new() -> (p: Self)
        ensures
            p.pid is None,
    {
        GpclientProcess { pid: None }
    }

    /// Whether a subprocess is currently owned.
    pub fn is_connected(&self) -> (b: bool)
        ensures
            b == (self.pid is Some),
    {
        match self.pid {
            Some(_) => true,
            None => false,
        }
    }

    /// Record a successful spawn: the only way the handle goes from absent
    /// to owned.
    pub fn note_spawned(&mut self, pid: u32)
        ensures
            final(self).pid == Some(pid),
    {
        self.pid = Some(pid);
    }

    /// Fold one non-blocking poll observation into the handle. An observed
    /// exit is returned once and clears the handle; a failing poll clears
    /// the handle without a result.
    pub fn check_status(&mut self, poll: ProcessPoll) -> (r: Option<ExitOutcome>)
        ensures
            (*final(self), r) == spec_check_status(*old(self), poll),
    {
        match self.pid {
            None => None,
            Some(_) => match poll {
                ProcessPoll::Running => None,
                ProcessPoll::Exited(outcome) => {
                    self.pid = None;
                    Some(outcome)
                },
                ProcessPoll::PollFailed => {
                    self.pid = None;
                    None
                },
            },
        }
    }

    /// Release the handle and demand forceful termination plus unconditional
    /// lock cleanup.
    pub fn disconnect(&mut self) -> (plan: TerminatePlan)
        ensures
            (*final(self), plan) == spec_process_disconnect(*old(self)),
    {
        let plan = TerminatePlan {
            kill_pid: self.pid,
            sweep_kill: self.is_connected(),
            clear_lock: true,
        };
        self.pid = None;
        plan
    }
}

/// Connection lifecycle as callers observe it.
#[derive(Clone, Copy, Debug)]
pub enum ConnectionState {
    /// No attempt in flight, no connection.
    Disconnected,
    /// An attempt is in flight; `attempt` quiet polls have elapsed.
    Connecting { attempt: u32 },
    /// Established, with the moment success was detected.
    Connected { since: u64 },
}

/// Why a connection attempt failed.
#[derive(Clone, Copy, Debug)]
pub enum ConnectError {
    /// The external binary could not be started.
    SpawnFailed,
    /// Writing the secrets to the subprocess's standard input failed.
    AuthWriteFailed,
    /// The subprocess exited during the attempt; carries its exit detail.
    AuthOrNetworkFailed { code: Option<i32> },
    /// No success or failure signal within the bounded poll window.
    Timeout,
}

impl ConnectError {
    /// The user-facing failure description. It distinguishes the known
    /// bad-credentials-or-unreachable-server exit code from other exit
    /// codes, from a signal-terminated subprocess, and from a timeout, and
    /// never echoes a secret.
    pub open spec fn spec_message(self) -> Seq<char> {
        match self {
            ConnectError::SpawnFailed => "Failed to spawn gpclient"@,
            ConnectError::AuthWriteFailed => "Failed to write password"@,
            ConnectError::AuthOrNetworkFailed { code } => match code {
                Some(c) => if c == 1 {
                    "Connection failed: Unable to reach VPN server or authentication failed"@
                } else {
                    "Connection failed with exit code: "@ + spec_int_decimal(c as int)
                },
                None => "Connection failed: Process terminated by signal"@,
            },
            ConnectError::Timeout => "Connection timeout: VPN did not establish within 60 seconds"@,
        }
    }

    /// Render the user-facing failure description.
    pub fn message(&self) -> (m: String)
        ensures
            m@ == self.spec_message(),
    {
        match self {
            ConnectError::SpawnFailed => "Failed to spawn gpclient".to_owned(),
            ConnectError::AuthWriteFailed => "Failed to write password".to_owned(),
            ConnectError::AuthOrNetworkFailed { code } => match code {
                Some(c) => {
                    if *c == 1i32 {
                        "Connection failed: Unable to reach VPN server or authentication failed".to_owned()
                    } else {
                        let mut m = "Connection failed with exit code: ".to_owned();
                        let digits = i32_decimal(*c);
                        m.append(digits.as_str());
                        m
                    }
                },
                None => "Connection failed: Process terminated by signal".to_owned(),
            },
            ConnectError::Timeout => {
                "Connection timeout: VPN did not establish within 60 seconds".to_owned()
            },
        }
    }
}

/// Result of a disconnect request.
#[derive(Clone, Copy, Debug)]
pub enum DisconnectOutcome {
    /// A live subprocess was terminated.
    Disconnected,
    /// Nothing needed terminating: no subprocess was owned, or it had
    /// already exited on its own.
    AlreadyDisconnected,
}

impl DisconnectOutcome {
    /// Render the user-facing confirmation.
    pub fn message(&self) -> (m: String)
        ensures
            self is Disconnected ==> m@ == "Disconnected successfully"@,
            self is AlreadyDisconnected ==> m@ == "Already disconnected"@,
    {
        match self {
            DisconnectOutcome::Disconnected => "Disconnected successfully".to_owned(),
            DisconnectOutcome::AlreadyDisconnected => "Already disconnected".to_owned(),
        }
    }
}

/// Confirmation for a successful connection attempt.
pub fn connect_success_message() -> (m: String)
    ensures
        m@ == "VPN connection established successfully"@,
{
    "VPN connection established successfully".to_owned()
}

/// Verdict of one poll iteration of a connection attempt.
#[derive(Clone, Copy, Debug)]
pub enum PollVerdict {
    /// No signal yet: poll again after one interval.
    Continue,
    /// The lock-file marker appeared: the connection is established.
    Success,
    /// The attempt failed; carries the error and the cleanup work owed.
    Failed { error: ConnectError, plan: TerminatePlan },
    /// The handle was cleared while polling (a disconnect won the race):
    /// the attempt abandons its own success declaration.
    Abandoned,
}

/// The connection supervisor: the caller-observed state beside the process
/// handle. All operations go through one guard in the driver, so each
/// transition here is a single serialized step.
#[derive(Clone, Copy, Debug)]
pub struct Supervisor {
    /// State as callers observe it.
    pub state: ConnectionState,
    /// The owned-subprocess handle.
    pub process: GpclientProcess,
}

impl Supervisor {
    /// The observable state never drifts from the handle: connected implies
    /// an owned subprocess, disconnected implies none.
    pub open spec fn wf(self) -> bool {
        &&& self.state is Connected ==> self.process.pid is Some
        &&& self.state is Disconnected ==> self.process.pid is None
    }

    /// A fresh supervisor: disconnected, owning nothing.
    pub fn new() -> (s: Self)
        ensures
            s.state is Disconnected,
            s.process.pid is None,
            s.wf(),
    {
        Supervisor { state: ConnectionState::Disconnected, process: GpclientProcess::new() }
    }

    /// Whether a subprocess handle is currently owned.
    pub fn is_connected(&self) -> (b: bool)
        ensures
            b == (self.process.pid is Some),
    {
        self.process.is_connected()
    }
}

/// Start of a connect request: any existing subprocess is disconnected
/// first, and the supervisor enters the connecting state with a fresh poll
/// budget.
pub open spec fn spec_connect_begin(s: Supervisor) -> (Supervisor, Option<TerminatePlan>) {
    (
        Supervisor {
            state: ConnectionState::Connecting { attempt: 0 },
            process: GpclientProcess { pid: None },
        },
        if s.process.pid is Some {
            Some(spec_process_disconnect(s.process).1)
        } else {
            None
        },
    )
}

/// One poll iteration of an in-flight attempt. An observed exit outranks
/// the lock file and fails the attempt with the exit detail; the lock file
/// alone declares success; a quiet poll continues until the budget is
/// exhausted, which fails the attempt as a timeout and reclaims the
/// subprocess. Outside the connecting state, or with the handle cleared by
/// a disconnect that won the race, the attempt is abandoned.
pub open spec fn spec_connect_poll(
    s: Supervisor,
    now: u64,
    exited: Option<ExitOutcome>,
    lock_present: bool,
) -> (Supervisor, PollVerdict) {
    if !(s.state is Connecting) {
        (s, PollVerdict::Abandoned)
    } else if s.process.pid is None {
        (Supervisor { state: ConnectionState::Disconnected, ..s }, PollVerdict::Abandoned)
    } else {
        match exited {
            Some(outcome) => (
                Supervisor {
                    state: ConnectionState::Disconnected,
                    process: GpclientProcess { pid: None },
                },
                PollVerdict::Failed {
                    error: ConnectError::AuthOrNetworkFailed { code: outcome.code },
                    plan: TerminatePlan { kill_pid: None, sweep_kill: false, clear_lock: true },
                },
            ),
            None => if lock_present {
                (
                    Supervisor { state: ConnectionState::Connected { since: now }, ..s },
                    PollVerdict::Success,
                )
            } else if s.state->attempt + 1 < MAX_POLL_ATTEMPTS {
                (
                    Supervisor {
                        state: ConnectionState::Connecting {
                            attempt: (s.state->attempt + 1) as u32,
                        },
                        ..s
                    },
                    PollVerdict::Continue,
                )
            } else {
                (
                    Supervisor {
                        state: ConnectionState::Disconnected,
                        process: GpclientProcess { pid: None },
                    },
                    PollVerdict::Failed {
                        error: ConnectError::Timeout,
                        plan: spec_process_disconnect(s.process).1,
                    },
                )
            },
        }
    }
}

/// A disconnect request. The observation of one prior non-blocking poll is
/// folded in: when no subprocess is owned, or it had already exited, the
/// request reports "already disconnected" without error; otherwise the
/// subprocess is terminated. Every branch demands lock-file cleanup.
pub open spec fn spec_disconnect(s: Supervisor, poll: ProcessPoll) -> (
    Supervisor,
    DisconnectOutcome,
    TerminatePlan,
) {
    let cleared = Supervisor {
        state: ConnectionState::Disconnected,
        process: GpclientProcess { pid: None },
    };
    let lock_only = TerminatePlan { kill_pid: None, sweep_kill: false, clear_lock: true };
    match s.process.pid {
        None => (cleared, DisconnectOutcome::AlreadyDisconnected, lock_only),
        Some(_) => match poll {
            ProcessPoll::Running => (
                cleared,
                DisconnectOutcome::Disconnected,
                spec_process_disconnect(s.process).1,
            ),
            ProcessPoll::Exited(_) => (cleared, DisconnectOutcome::AlreadyDisconnected, lock_only),
            ProcessPoll::PollFailed => (
                cleared,
                DisconnectOutcome::AlreadyDisconnected,
                lock_only,
            ),
        },
    }
}

/// A status request: one non-blocking poll is folded into the handle (so a
/// silently dead subprocess is detected) and the handle's liveness is
/// reported. It never fails.
pub open spec fn spec_status(s: Supervisor, poll: ProcessPoll) -> (Supervisor, bool) {
    let p2 = spec_check_status(s.process, poll).0;
    let state2 = if p2.pid is None && !(s.state is Disconnected) {
        ConnectionState::Disconnected
    } else {
        s.state
    };
    (Supervisor { state: state2, process: p2 }, p2.pid is Some)
}

impl Supervisor {
    /// Begin a connect request: disconnect any existing subprocess first
    /// (the returned plan is its termination work) and enter the connecting
    /// state with a fresh poll budget.
    pub fn connect_begin(&mut self) -> (plan: Option<TerminatePlan>)
        ensures
            (*final(self), plan) == spec_connect_begin(*old(self)),
            final(self).wf(),
    {
        let plan = if self.process.is_connected() {
            Some(self.process.disconnect())
        } else {
            None
        };
        self.state = ConnectionState::Connecting { attempt: 0 };
        plan
    }

    /// Record the successful spawn of the attempt's subprocess.
    pub fn connect_spawned(&mut self, pid: u32)
        requires
            old(self).state is Connecting,
            old(self).process.pid is None,
        ensures
            final(self).state == old(self).state,
            final(self).process.pid == Some(pid),
            final(self).wf(),
    {
        self.process.note_spawned(pid);
    }

    /// Record that the subprocess could not be spawned: the attempt is over
    /// and the supervisor returns to the disconnected state, owning nothing.
    pub fn connect_spawn_failed(&mut self) -> (e: ConnectError)
        requires
            old(self).process.pid is None,
        ensures
            final(self).state is Disconnected,
            final(self).process.pid is None,
            e is SpawnFailed,
            final(self).wf(),
    {
        self.state = ConnectionState::Disconnected;
        ConnectError::SpawnFailed
    }

    /// Record that writing the secrets to the subprocess failed: the
    /// just-spawned process is torn down and the attempt fails.
    pub fn connect_auth_write_failed(&mut self) -> (r: (ConnectError, TerminatePlan))
        ensures
            final(self).state is Disconnected,
            final(self).process.pid is None,
            r.0 is AuthWriteFailed,
            r.1 == spec_process_disconnect(old(self).process).1,
            final(self).wf(),
    {
        let plan = self.process.disconnect();
        self.state = ConnectionState::Disconnected;
        (ConnectError::AuthWriteFailed, plan)
    }

    /// One poll iteration of the in-flight attempt; see
    /// [`spec_connect_poll`] for the exact transition.
    pub fn connect_poll(&mut self, now: u64, exited: Option<ExitOutcome>, lock_present: bool) -> (v:
        PollVerdict)
        requires
            old(self).wf(),
        ensures
            (*final(self), v) == spec_connect_poll(*old(self), now, exited, lock_present),
            final(self).wf(),
            v is Failed ==> final(self).state is Disconnected && final(self).process.pid is None,
            v is Success ==> final(self).state == (ConnectionState::Connected { since: now }),
    {
        let attempt: u32;
        match self.state {
            ConnectionState::Connecting { attempt: a } => {
                attempt = a;
            },
            _ => {
                return PollVerdict::Abandoned;
            },
        }
        if !self.process.is_connected() {
            self.state = ConnectionState::Disconnected;
            return PollVerdict::Abandoned;
        }
        match exited {
            Some(outcome) => {
                self.process.pid = None;
                self.state = ConnectionState::Disconnected;
                PollVerdict::Failed {
                    error: ConnectError::AuthOrNetworkFailed { code: outcome.code },
                    plan: TerminatePlan { kill_pid: None, sweep_kill: false, clear_lock: true },
                }
            },
            None => {
                if lock_present {
                    self.state = ConnectionState::Connected { since: now };
                    PollVerdict::Success
                } else if attempt < MAX_POLL_ATTEMPTS - 1 {
                    self.state = ConnectionState::Connecting { attempt: attempt + 1 };
                    PollVerdict::Continue
                } else {
                    let plan = self.process.disconnect();
                    self.state = ConnectionState::Disconnected;
                    PollVerdict::Failed { error: ConnectError::Timeout, plan }
                }
            },
        }
    }

    /// Disconnect; see [`spec_disconnect`] for the exact transition. Safe
    /// to invoke when no connection was ever established.
    pub fn disconnect(&mut self, poll: ProcessPoll) -> (r: (DisconnectOutcome, TerminatePlan))
        ensures
            (*final(self), r.0, r.1) == spec_disconnect(*old(self), poll),
            final(self).state is Disconnected,
            final(self).process.pid is None,
            r.1.clear_lock,
            final(self).wf(),
    {
        if !self.process.is_connected() {
            self.state = ConnectionState::Disconnected;
            return (
                DisconnectOutcome::AlreadyDisconnected,
                TerminatePlan { kill_pid: None, sweep_kill: false, clear_lock: true },
            );
        }
        match poll {
            ProcessPoll::Running => {
                let plan = self.process.disconnect();
                self.state = ConnectionState::Disconnected;
                (DisconnectOutcome::Disconnected, plan)
            },
            _ => {
                self.process.pid = None;
                self.state = ConnectionState::Disconnected;
                (
                    DisconnectOutcome::AlreadyDisconnected,
                    TerminatePlan { kill_pid: None, sweep_kill: false, clear_lock: true },
                )
            },
        }
    }

    /// Report whether a subprocess is owned, after folding in one
    /// non-blocking poll so a silently dead subprocess is detected. Never
    /// fails.
    pub fn status(&mut self, poll: ProcessPoll) -> (connected: bool)
        requires
            old(self).wf(),
        ensures
            (*final(self), connected) == spec_status(*old(self), poll),
            connected == (final(self).process.pid is Some),
            final(self).wf(),
    {
        self.process.check_status(poll);
        let connected = self.process.is_connected();
        if !connected {
            self.state = ConnectionState::Disconnected;
        }
        connected
    }
}

/// One-shot guard around final cleanup, shared by the termination-signal
/// path and the normal exit path, so cleanup runs exactly once however the
/// process goes down.
#[derive(Clone, Copy, Debug)]
pub struct CleanupFlag {
    /// Whether cleanup has already run.
    pub done: bool,
}

impl CleanupFlag {
    /// A fresh guard: cleanup not yet run.
    pub fn new() -> (f: Self)
        ensures
            !f.done,
    {
        CleanupFlag { done: false }
    }
}

/// Final teardown: the first request releases the handle and yields the
/// full cleanup work (kill the owned subprocess if any, sweep same-name
/// stragglers, remove the lock file); every later request yields nothing.
pub open spec fn spec_teardown(s: Supervisor, f: CleanupFlag) -> (
    Supervisor,
    CleanupFlag,
    Option<TerminatePlan>,
) {
    if f.done {
        (s, f, None)
    } else {
        (
            Supervisor {
                state: ConnectionState::Disconnected,
                process: GpclientProcess { pid: None },
            },
            CleanupFlag { done: true },
            Some(TerminatePlan { kill_pid: s.process.pid, sweep_kill: true, clear_lock: true }),
        )
    }
}

/// Run final teardown through the one-shot guard; see [`spec_teardown`].
pub fn teardown(sup: &mut Supervisor, flag: &mut CleanupFlag) -> (plan: Option<TerminatePlan>)
    requires
        old(sup).wf(),
    ensures
        (*final(sup), *final(flag), plan) == spec_teardown(*old(sup), *old(flag)),
        final(sup).wf(),
        final(flag).done,
{
    if flag.done {
        return None;
    }
    flag.done = true;
    let kill_pid = sup.process.pid;
    sup.process.pid = None;
    sup.state = ConnectionState::Disconnected;
    Some(TerminatePlan { kill_pid, sweep_kill: true, clear_lock: true })
}

} // verus!
