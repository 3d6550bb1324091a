use crate::text::concat_str;
use vstd::prelude::*;

verus! {

/// Log line appended when the gateway process has been spawned.
pub open spec fn started_marker() -> Seq<char> {
    "[gateway] Started successfully"@
}

/// Log line appended when the gateway process has been terminated on request.
pub open spec fn stopped_marker() -> Seq<char> {
    "[gateway] Stopped"@
}

/// Why a start request was refused.
#[derive(Debug, Clone, PartialEq, Eq)]
pub enum StartError {
    /// A process is already tracked; it was left untouched.
    AlreadyRunning,
    /// Spawning the process failed for the given reason; nothing is tracked.
    SpawnFailed(String),
}

impl StartError {
    /// The text shown for this error.
    pub open spec fn spec_message(&self) -> Seq<char> {
        match self {
            StartError::AlreadyRunning => "Gateway is already running"@,
            StartError::SpawnFailed(reason) => "Failed to start Gateway: "@ + reason@,
        }
    }

    /// The text shown for this error.
    pub fn message(&self) -> (r: String)
        ensures
            r@ == self.spec_message(),
    {
        match self {
            StartError::AlreadyRunning => "Gateway is already running".to_owned(),
            StartError::SpawnFailed(reason) => concat_str("Failed to start Gateway: ", reason.as_str()),
        }
    }
}

/// Why a stop request was refused.
#[derive(Debug, Clone, PartialEq, Eq)]
pub enum StopError {
    /// No process is tracked.
    NotRunning,
    /// Terminating the process failed for the given reason; it is still tracked.
    KillFailed(String),
}

/// What a supervisor holds, as plain values: the handle of the tracked
/// process, the log lines (oldest first), and the reason of the last start
/// attempt when that attempt failed.
pub struct SupervisorView<C> {
    pub handle: Option<C>,
    pub logs: Seq<Seq<char>>,
    pub start_failure: Option<Seq<char>>,
}

/// A supervisor that tracks nothing and has logged nothing.
pub open spec fn initial<C>() -> SupervisorView<C> {
    SupervisorView { handle: None, logs: Seq::empty(), start_failure: None }
}

/// The answer to a start request in state `s`, before anything is spawned.
pub open spec fn start_check<C>(s: SupervisorView<C>) -> Result<(), StartError> {
    if s.handle is Some {
        Err(StartError::AlreadyRunning)
    } else {
        Ok(())
    }
}

/// The state after spawning in state `s` produced `spawned`.
pub open spec fn after_start<C>(s: SupervisorView<C>, spawned: Result<C, String>) -> SupervisorView<
    C,
> {
    match spawned {
        Ok(c) => SupervisorView {
            handle: Some(c),
            logs: s.logs.push(started_marker()),
            start_failure: None,
        },
        Err(e) => SupervisorView { handle: None, logs: s.logs, start_failure: Some(e@) },
    }
}

/// What a start that spawned `spawned` returns.
pub open spec fn start_result<C>(spawned: Result<C, String>) -> Result<(), StartError> {
    match spawned {
        Ok(_) => Ok(()),
        Err(e) => Err(StartError::SpawnFailed(e)),
    }
}

/// The answer to a stop request in state `s`, before anything is signalled.
pub open spec fn stop_check<C>(s: SupervisorView<C>) -> Result<(), StopError> {
    if s.handle is Some {
        Ok(())
    } else {
        Err(StopError::NotRunning)
    }
}

/// The state after terminating the tracked process in state `s` gave `killed`.
pub open spec fn after_stop<C>(s: SupervisorView<C>, killed: Result<(), String>) -> SupervisorView<
    C,
> {
    match killed {
        Ok(_) => SupervisorView { handle: None, logs: s.logs.push(stopped_marker()), ..s },
        Err(_) => s,
    }
}

/// What a stop whose termination gave `killed` returns.
pub open spec fn stop_result(killed: Result<(), String>) -> Result<(), StopError> {
    match killed {
        Ok(_) => Ok(()),
        Err(e) => Err(StopError::KillFailed(e)),
    }
}

/// The state after the tracked process was seen to have exited by itself:
/// only the stale handle is released; the log is left as it was.
pub open spec fn after_exit<C>(s: SupervisorView<C>) -> SupervisorView<C> {
    SupervisorView { handle: None, ..s }
}

/// The state after the process printed the lines `lines`.
pub open spec fn after_output<C>(s: SupervisorView<C>, lines: Seq<Seq<char>>) -> SupervisorView<C> {
    SupervisorView { logs: s.logs + lines, ..s }
}

/// Whether the gateway counts as running in state `s` when its health probe
/// gave `healthy`: a process must be tracked and the probe must succeed.
pub open spec fn is_running<C>(s: SupervisorView<C>, healthy: bool) -> bool {
    s.handle is Some && healthy
}

impl StopError {
    /// The text shown for this error.
    pub open spec fn spec_message(&self) -> Seq<char> {
        match self {
            StopError::NotRunning => "Gateway is not running"@,
            StopError::KillFailed(reason) => "Failed to kill Gateway: "@ + reason@,
        }
    }

    /// The text shown for this error.
    pub fn message(&self) -> (r: String)
        ensures
            r@ == self.spec_message(),
    {
        match self {
            StopError::NotRunning => "Gateway is not running".to_owned(),
            StopError::KillFailed(reason) => concat_str("Failed to kill Gateway: ", reason.as_str()),
        }
    }
}

/// The one supervised child process, with the log of its lifecycle.
///
/// `C` is the handle of the running process. The handle is present exactly
/// while a start has succeeded and neither a stop nor an exit has been
/// recorded since. Every operation takes the supervisor by reference, so the
/// owner serialises them behind one lock. Starting and stopping come in two
/// halves, because the outside work (spawning, signalling) happens between
/// them: the first half decides whether that work is to be done at all, the
/// second records what it produced.
pub struct GatewayProcess<C> {
    child: Option<C>,
    logs: Vec<String>,
    last_start_failure: Option<String>,
}

impl<C> View for GatewayProcess<C> {
    type V = SupervisorView<C>;

    closed spec fn view(&self) -> SupervisorView<C> {
        SupervisorView {
            handle: self.child,
            logs: self.logs@.map_values(|l: String| l@),
            start_failure: match self.last_start_failure {
                Some(s) => Some(s@),
                None => None,
            },
        }
    }
}

impl<C> GatewayProcess<C> {
    /// A supervisor that tracks no process and has an empty log.
    pub fn new() -> (r: Self)
        ensures
            r@ == initial::<C>(),
    {
        let r = GatewayProcess { child: None, logs: Vec::new(), last_start_failure: None };
        assert(r@.logs =~= Seq::<Seq<char>>::empty());
        r
    }

    /// Whether a process handle is tracked (no health check involved).
    pub fn is_tracked(&self) -> (r: bool)
        ensures
            r == self@.handle is Some,
    {
        self.child.is_some()
    }

    /// First half of a start: refuses when a process is already tracked.
    /// The caller spawns the process only when this returns `Ok`.
    pub fn check_start(&self) -> (r: Result<(), StartError>)
        ensures
            r == start_check(self@),
    {
        if self.child.is_some() {
            Err(StartError::AlreadyRunning)
        } else {
            Ok(())
        }
    }

    /// Second half of a start: records what spawning produced. On success
    /// the handle is tracked and the start marker is logged; on failure
    /// nothing is tracked and the reason is kept for status reports.
    pub fn finish_start(&mut self, spawned: Result<C, String>) -> (r: Result<(), StartError>)
        requires
            old(self)@.handle is None,
        ensures
            r == start_result(spawned),
            final(self)@ == after_start(old(self)@, spawned),
    {
        match spawned {
            Ok(c) => {
                self.child = Some(c);
                self.logs.push("[gateway] Started successfully".to_owned());
                self.last_start_failure = None;
                assert(self@.logs =~= old(self)@.logs.push(started_marker()));
                Ok(())
            },
            Err(e) => {
                self.last_start_failure = Some(e.clone());
                Err(StartError::SpawnFailed(e))
            },
        }
    }

    /// Mutable access to the tracked handle, to signal or wait on it.
    pub fn child_mut(&mut self) -> (r: &mut C)
        requires
            old(self)@.handle is Some,
        ensures
            *r == old(self)@.handle->0,
            final(self)@ == (SupervisorView { handle: Some(*final(r)), ..old(self)@ }),
    {
        match &mut self.child {
            Some(c) => c,
            None => vstd::pervasive::unreached(),
        }
    }

    /// First half of a stop: refuses when no process is tracked.
    /// The caller terminates the process only when this returns `Ok`.
    pub fn check_stop(&self) -> (r: Result<(), StopError>)
        ensures
            r == stop_check(self@),
    {
        if self.child.is_some() {
            Ok(())
        } else {
            Err(StopError::NotRunning)
        }
    }

    /// Second half of a stop: records how termination went. On success the
    /// handle is released and the stop marker is logged; on failure the
    /// handle stays tracked so that the stop can be retried.
    pub fn finish_stop(&mut self, killed: Result<(), String>) -> (r: Result<(), StopError>)
        requires
            old(self)@.handle is Some,
        ensures
            r == stop_result(killed),
            final(self)@ == after_stop(old(self)@, killed),
    {
        match killed {
            Ok(_) => {
                self.child = None;
                self.logs.push("[gateway] Stopped".to_owned());
                assert(self@.logs =~= old(self)@.logs.push(stopped_marker()));
                Ok(())
            },
            Err(e) => Err(StopError::KillFailed(e)),
        }
    }

    /// Records that the tracked process was seen to have exited by itself:
    /// the stale handle is released, so a later start is not refused. The
    /// log is not touched, so a status check that reaps leaves it unchanged.
    pub fn record_exit(&mut self)
        requires
            old(self)@.handle is Some,
        ensures
            final(self)@ == after_exit(old(self)@),
    {
        self.child = None;
    }

    /// Appends one line of the process's captured output to the log.
    pub fn record_output(&mut self, line: String)
        ensures
            final(self)@ == after_output(old(self)@, seq![line@]),
    {
        let ghost l = line@;
        self.logs.push(line);
        assert(self@.logs =~= old(self)@.logs + seq![l]);
    }

    /// Whether the gateway counts as running, given the outcome of a health
    /// probe of its endpoint. When no process is tracked the answer is `false`
    /// whatever the probe said, so the probe need not be made.
    pub fn running_given_probe(&self, healthy: bool) -> (r: bool)
        ensures
            r == is_running(self@, healthy),
    {
        self.child.is_some() && healthy
    }

    /// A copy of the log buffer, oldest line first.
    pub fn logs(&self) -> (r: Vec<String>)
        ensures
            r@.map_values(|l: String| l@) == self@.logs,
    {
        let mut out: Vec<String> = Vec::new();
        let mut i: usize = 0;
        while i < self.logs.len()
            invariant
                i <= self.logs@.len(),
                out@.len() == i,
                forall|j: int| 0 <= j < i ==> #[trigger] out@[j]@ == self.logs@[j]@,
            decreases self.logs@.len() - i,
        {
            let line = self.logs[i].clone();
            out.push(line);
            i = i + 1;
        }
        assert(out@.map_values(|l: String| l@) =~= self@.logs);
        out
    }

    /// The reason of the last start attempt, when that attempt failed.
    pub fn last_start_failure(&self) -> (r: Option<String>)
        ensures
            match r {
                Some(s) => self@.start_failure == Some(s@),
                None => self@.start_failure is None,
            },
    {
        match &self.last_start_failure {
            Some(s) => Some(s.clone()),
            None => None,
        }
    }
}

/// A second start without a stop in between is refused with
/// `AlreadyRunning`, and the refusal leaves the first handle in place.
pub proof fn lemma_second_start_refused<C>(s: SupervisorView<C>, c: C)
    requires
        s.handle is None,
    ensures
        start_check(after_start(s, Ok(c))) == Err::<(), StartError>(StartError::AlreadyRunning),
        after_start(s, Ok(c)).handle == Some(c),
{
}

/// A stop is refused with `NotRunning` on a fresh supervisor and after any
/// start that failed to spawn.
pub proof fn lemma_stop_without_start<C>(s: SupervisorView<C>, e: String)
    requires
        s.handle is None,
    ensures
        stop_check(initial::<C>()) == Err::<(), StopError>(StopError::NotRunning),
        stop_check(after_start(s, Err(e))) == Err::<(), StopError>(StopError::NotRunning),
{
}

/// After a successful start the gateway counts as running exactly when its
/// health probe succeeds; after a successful stop it does not count as
/// running, whatever the probe answers.
pub proof fn lemma_running_follows_probe<C>(
    s: SupervisorView<C>,
    c: C,
    healthy: bool,
)
    requires
        s.handle is None,
    ensures
        is_running(after_start(s, Ok(c)), healthy) == healthy,
        !is_running(after_stop(after_start(s, Ok(c)), Ok(())), healthy),
{
}

/// Releasing the handle of a process that exited by itself changes nothing
/// but the handle: the log and the last start failure stay as they were.
pub proof fn lemma_exit_keeps_log<C>(s: SupervisorView<C>)
    ensures
        after_exit(s).handle is None,
        after_exit(s).logs == s.logs,
        after_exit(s).start_failure == s.start_failure,
{
}

/// On a fresh supervisor, a start then any captured output then a stop
/// leave the log as the start marker, the output, and the stop marker; the
/// log is never emptied, so it can be read after the stop.
pub proof fn lemma_log_markers<C>(c: C, lines: Seq<Seq<char>>)
    ensures
        after_start(initial::<C>(), Ok(c)).logs[0] == started_marker(),
        after_stop(after_output(after_start(initial::<C>(), Ok(c)), lines), Ok(())).logs
            == seq![started_marker()] + lines + seq![stopped_marker()],
{
    let s1 = after_start(initial::<C>(), Ok(c));
    assert(s1.logs =~= seq![started_marker()]);
    let s3 = after_stop(after_output(s1, lines), Ok(()));
    assert(s3.logs =~= seq![started_marker()] + lines + seq![stopped_marker()]);
}

} // verus!
