//! The process controller: one traced process, its run/stop state, and the
//! teardown that leaves it consistent when the controlling value goes away.
use vstd::prelude::*;
use vstd::string::*;

use crate::text::{decimal, push_decimal};

verus! {

/// An operating-system process identifier. The value `0` means "no process";
/// a real process has a positive identifier.
#[derive(Debug, Clone, Copy, PartialEq, Eq, Structural)]
pub struct Pid(pub i32);

impl View for Pid {
    type V = i32;

    open spec fn view(&self) -> i32 {
        self.0
    }
}

impl From<i32> for Pid {
    fn from(raw: i32) -> (r: Pid) {
        Pid(raw)
    }
}

impl vstd::std_specs::convert::FromSpecImpl<i32> for Pid {
    open spec fn obeys_from_spec() -> bool {
        true
    }

    open spec fn from_spec(raw: i32) -> Pid {
        Pid(raw)
    }
}

impl Pid {
    /// The raw identifier.
    pub fn as_raw(&self) -> (r: i32)
        ensures
            r == self@,
    {
        self.0
    }

    /// The identifier as decimal text.
    pub fn to_text(&self) -> (r: String)
        ensures
            r@ == decimal(self@ as int),
    {
        crate::text::decimal_text(self.0)
    }
}

/// The control state of the traced process.
#[derive(Debug, Clone, Copy, PartialEq, Eq, Structural)]
pub enum ProcessState {
    Stopped,
    Running,
    Exited,
    Terminated,
}

/// What a wait on the traced process reported, as plain values.
#[derive(Debug)]
pub enum WaitOutcome {
    /// The process exited normally with this code.
    Exited(i32),
    /// The process was killed by the named signal.
    Signaled(String),
    /// The process stopped on the named signal.
    Stopped(String),
    /// Any other report (continued, still alive, a trace event).
    Other,
}

/// Why the traced process last changed state.
#[derive(Debug)]
pub struct StopReason {
    pub reason: ProcessState,
    pub exit_status: Option<i32>,
    pub signal: Option<String>,
}

/// The stop reason that a wait outcome decodes to; `None` for an outcome that
/// is not an exit, a fatal signal or a stop.
pub open spec fn decode(o: WaitOutcome) -> Option<(ProcessState, Option<i32>, Option<Seq<char>>)> {
    match o {
        WaitOutcome::Exited(code) => Some((ProcessState::Exited, Some(code), None)),
        WaitOutcome::Signaled(sig) => Some((ProcessState::Terminated, None, Some(sig@))),
        WaitOutcome::Stopped(sig) => Some((ProcessState::Stopped, None, Some(sig@))),
        WaitOutcome::Other => None,
    }
}

/// An optional string as optional text.
pub open spec fn opt_view(s: Option<String>) -> Option<Seq<char>> {
    match s {
        Some(t) => Some(t@),
        None => None,
    }
}

impl StopReason {
    /// The fields as plain values.
    pub open spec fn fields(&self) -> (ProcessState, Option<i32>, Option<Seq<char>>) {
        (self.reason, self.exit_status, opt_view(self.signal))
    }

    /// An exit carries a code, a signal event carries a signal name, and
    /// nothing else carries either.
    pub open spec fn wf(&self) -> bool {
        match self.reason {
            ProcessState::Exited => self.exit_status is Some && self.signal is None,
            ProcessState::Terminated | ProcessState::Stopped => self.exit_status is None
                && self.signal is Some,
            ProcessState::Running => self.exit_status is None && self.signal is None,
        }
    }

    /// Decodes a wait outcome; `None` for an outcome of no known shape.
    pub fn from_outcome(o: WaitOutcome) -> (r: Option<StopReason>)
        ensures
            match decode(o) {
                Some(f) => r matches Some(s) && s.fields() == f,
                None => r is None,
            },
            r matches Some(s) ==> s.wf() && s.reason != ProcessState::Running,
    {
        match o {
            WaitOutcome::Exited(code) => Some(
                StopReason { reason: ProcessState::Exited, exit_status: Some(code), signal: None },
            ),
            WaitOutcome::Signaled(sig) => Some(
                StopReason { reason: ProcessState::Terminated, exit_status: None, signal: Some(sig) },
            ),
            WaitOutcome::Stopped(sig) => Some(
                StopReason { reason: ProcessState::Stopped, exit_status: None, signal: Some(sig) },
            ),
            WaitOutcome::Other => None,
        }
    }
}

/// The text that describes a stop reason: empty for the transient running state.
pub open spec fn description(r: StopReason) -> Seq<char> {
    match r.reason {
        ProcessState::Exited => "exited with status: "@ + decimal(r.exit_status->Some_0 as int),
        ProcessState::Terminated => "terminated with signal: "@ + r.signal->Some_0@,
        ProcessState::Stopped => "stopped with signal: "@ + r.signal->Some_0@,
        ProcessState::Running => Seq::empty(),
    }
}

/// The report line for a process and a stop reason; none for the running state.
pub open spec fn report(pid: Pid, r: StopReason) -> Option<Seq<char>> {
    if r.reason == ProcessState::Running {
        None
    } else {
        Some("Process "@ + decimal(pid@ as int) + " "@ + description(r))
    }
}

/// What a wait comes to: the decoded reason, `Wait` when the wait itself
/// failed, `UnexpectedWaitStatus` for an outcome of no known shape.
pub open spec fn wait_result(o: Option<WaitOutcome>) -> Result<
    (ProcessState, Option<i32>, Option<Seq<char>>),
    ProcessError,
> {
    match o {
        None => Err(ProcessError::Wait),
        Some(w) => match decode(w) {
            Some(f) => Ok(f),
            None => Err(ProcessError::UnexpectedWaitStatus),
        },
    }
}

impl StopReason {
    /// Decides what a wait on the process comes to; `None` is a failed wait.
    pub fn from_wait(o: Option<WaitOutcome>) -> (r: Result<StopReason, ProcessError>)
        ensures
            match wait_result(o) {
                Ok(f) => r matches Ok(s) && s.fields() == f && s.wf(),
                Err(e) => r == Err::<StopReason, ProcessError>(e),
            },
    {
        match o {
            None => Err(ProcessError::Wait),
            Some(w) => match StopReason::from_outcome(w) {
                Some(reason) => Ok(reason),
                None => Err(ProcessError::UnexpectedWaitStatus),
            },
        }
    }

    /// Describes the stop reason in words.
    pub fn describe(&self) -> (r: String)
        requires
            self.wf(),
        ensures
            r@ == description(*self),
    {
        match self.reason {
            ProcessState::Exited => {
                let mut out = String::from_str("exited with status: ");
                match self.exit_status {
                    Some(code) => push_decimal(&mut out, code),
                    None => {},
                }
                out
            },
            ProcessState::Terminated => {
                let mut out = String::from_str("terminated with signal: ");
                match &self.signal {
                    Some(sig) => out.append(sig.as_str()),
                    None => {},
                }
                out
            },
            ProcessState::Stopped => {
                let mut out = String::from_str("stopped with signal: ");
                match &self.signal {
                    Some(sig) => out.append(sig.as_str()),
                    None => {},
                }
                out
            },
            ProcessState::Running => String::new(),
        }
    }
}

/// The line to print after a stop: `Process <id> <description>`, or nothing
/// for the transient running state.
pub fn stop_report(pid: Pid, reason: &StopReason) -> (r: Option<String>)
    requires
        reason.wf(),
    ensures
        opt_view(r) == report(pid, *reason),
{
    if reason.reason == ProcessState::Running {
        return None;
    }
    let mut out = String::from_str("Process ");
    push_decimal(&mut out, pid.0);
    out.append(" ");
    let d = reason.describe();
    out.append(d.as_str());
    Some(out)
}

/// Why a controller operation failed.
#[derive(Debug, Clone, Copy, PartialEq, Eq, Structural)]
pub enum ProcessError {
    /// The child process could not be created.
    Fork,
    /// The child could not request tracing.
    Traceme,
    /// The child did not reach the new program image.
    Exec,
    /// The executable path cannot be handed to exec as a C string.
    InvalidPath,
    /// The identifier is the "no process" sentinel `0` (or, for a launched
    /// child, not a positive identifier).
    InvalidPid,
    /// The OS refused to attach to the target.
    Attach,
    /// The OS refused to continue the process.
    Resume,
    /// The wait on the process failed.
    Wait,
    /// The wait reported a change that is neither an exit, a fatal signal nor a stop.
    UnexpectedWaitStatus,
}

impl ProcessError {
    /// A one-line message for the user.
    pub fn message(&self) -> (r: &'static str)
        ensures
            r@ == error_message(*self),
    {
        match self {
            ProcessError::Fork => "Failed to fork inferior process",
            ProcessError::Traceme => "Failed to trace inferior process",
            ProcessError::Exec => "Failed to exec inferior process",
            ProcessError::InvalidPath => "Executable path holds a NUL byte",
            ProcessError::InvalidPid => "Can't attach to process with invalid PID",
            ProcessError::Attach => "Failed to attach to process",
            ProcessError::Resume => "Failed to resume inferior process",
            ProcessError::Wait => "Failed waiting for signal on inferior process",
            ProcessError::UnexpectedWaitStatus => "Unexpected wait status from inferior process",
        }
    }
}

/// The message of each controller error.
pub open spec fn error_message(e: ProcessError) -> Seq<char> {
    match e {
        ProcessError::Fork => "Failed to fork inferior process"@,
        ProcessError::Traceme => "Failed to trace inferior process"@,
        ProcessError::Exec => "Failed to exec inferior process"@,
        ProcessError::InvalidPath => "Executable path holds a NUL byte"@,
        ProcessError::InvalidPid => "Can't attach to process with invalid PID"@,
        ProcessError::Attach => "Failed to attach to process"@,
        ProcessError::Resume => "Failed to resume inferior process"@,
        ProcessError::Wait => "Failed waiting for signal on inferior process"@,
        ProcessError::UnexpectedWaitStatus => "Unexpected wait status from inferior process"@,
    }
}

/// Whether a path can be handed to exec: it holds no NUL byte.
pub open spec fn exec_path_ok(path: Seq<u8>) -> bool {
    forall|i: int| 0 <= i < path.len() ==> path[i] != 0
}

/// Checks, before any child is created, that the executable path can be passed
/// to exec as a C string.
pub fn check_exec_path(path: &[u8]) -> (r: Result<(), ProcessError>)
    ensures
        exec_path_ok(path@) <==> r is Ok,
        r is Err ==> r == Err::<(), ProcessError>(ProcessError::InvalidPath),
{
    let mut i: usize = 0;
    while i < path.len()
        invariant
            i <= path@.len(),
            forall|k: int| 0 <= k < i ==> path@[k] != 0,
        decreases path@.len() - i,
    {
        if path[i] == 0 {
            return Err(ProcessError::InvalidPath);
        }
        i = i + 1;
    }
    Ok(())
}

/// A signal that teardown sends.
#[derive(Debug, Clone, Copy, PartialEq, Eq, Structural)]
pub enum ControlSignal {
    Stop,
    Cont,
    Kill,
}

/// Relies on `nix::sys::ptrace::attach`: asks the OS to trace `pid`; true when
/// the request was accepted. Nothing is promised of the answer.
#[verifier::external_body]
fn ptrace_attach(pid: i32) -> (ok: bool) {
    nix::sys::ptrace::attach(nix::unistd::Pid::from_raw(pid)).is_ok()
}

/// Relies on `nix::sys::ptrace::cont`: lets the stopped tracee `pid` run on,
/// delivering no signal; true when the request was accepted.
#[verifier::external_body]
fn ptrace_cont(pid: i32) -> (ok: bool) {
    nix::sys::ptrace::cont(nix::unistd::Pid::from_raw(pid), None).is_ok()
}

/// Relies on `nix::sys::ptrace::detach`: ends tracing of `pid`, delivering no
/// signal; true when the request was accepted. It returns and does not panic.
#[verifier::external_body]
fn ptrace_detach(pid: i32) -> (ok: bool)
    opens_invariants none
    no_unwind
{
    nix::sys::ptrace::detach(nix::unistd::Pid::from_raw(pid), None).is_ok()
}

/// Relies on `nix::sys::signal::kill`: sends the signal to `pid`; true when it
/// was sent. It returns and does not panic.
#[verifier::external_body]
fn send_signal(pid: i32, sig: ControlSignal) -> (ok: bool)
    opens_invariants none
    no_unwind
{
    let sig = match sig {
        ControlSignal::Stop => nix::sys::signal::Signal::SIGSTOP,
        ControlSignal::Cont => nix::sys::signal::Signal::SIGCONT,
        ControlSignal::Kill => nix::sys::signal::Signal::SIGKILL,
    };
    nix::sys::signal::kill(nix::unistd::Pid::from_raw(pid), sig).is_ok()
}

/// Relies on `nix::sys::wait::waitpid` with no options: blocks until `pid`
/// changes state and reports how, with signals given by name; `None` when the
/// wait itself failed. It returns and does not panic.
#[verifier::external_body]
fn wait_pid(pid: i32) -> (r: Option<WaitOutcome>)
    opens_invariants none
    no_unwind
{
    match nix::sys::wait::waitpid(nix::unistd::Pid::from_raw(pid), None) {
        Ok(nix::sys::wait::WaitStatus::Exited(_, code)) => Some(WaitOutcome::Exited(code)),
        Ok(nix::sys::wait::WaitStatus::Signaled(_, sig, _)) => Some(WaitOutcome::Signaled(sig.as_str().to_string())),
        Ok(nix::sys::wait::WaitStatus::Stopped(_, sig)) => Some(WaitOutcome::Stopped(sig.as_str().to_string())),
        Ok(_) => Some(WaitOutcome::Other),
        Err(_) => None,
    }
}

/// A traced process as plain values.
pub struct ProcessView {
    pub pid: i32,
    /// Whether this session created the process and must end it on teardown.
    pub owns_lifetime: bool,
    pub state: ProcessState,
}

/// The single traced process of a session. Dropping it runs the teardown.
#[derive(Debug)]
pub struct Process {
    pid: Pid,
    terminate_on_end: bool,
    state: ProcessState,
}

impl View for Process {
    type V = ProcessView;

    closed spec fn view(&self) -> ProcessView {
        ProcessView { pid: self.pid@, owns_lifetime: self.terminate_on_end, state: self.state }
    }
}

/// A settled state: one that a wait reports, never the transient running state.
pub open spec fn is_settled(s: ProcessState) -> bool {
    s != ProcessState::Running
}

/// A successful resume: only the state changes, to running.
pub open spec fn resumed(before: ProcessView, after: ProcessView) -> bool {
    after == ProcessView { state: ProcessState::Running, ..before }
}

/// A successful wait that returned `r`: only the state changes, to the reported one.
pub open spec fn waited(before: ProcessView, after: ProcessView, r: StopReason) -> bool {
    &&& r.wf()
    &&& is_settled(r.reason)
    &&& after == ProcessView { state: r.reason, ..before }
}

/// A process that this session has just taken control of, after its first wait.
pub open spec fn started(p: ProcessView, pid: i32, owns: bool) -> bool {
    &&& p.pid == pid
    &&& p.owns_lifetime == owns
    &&& is_settled(p.state)
}

/// The errors that the first wait of a new process can end in.
pub open spec fn is_wait_error(e: ProcessError) -> bool {
    e == ProcessError::Wait || e == ProcessError::UnexpectedWaitStatus
}

impl Process {
    /// Takes control of `child`, a process that the caller has just created and
    /// that requested tracing before replacing its program image. The session
    /// owns it. The first wait must find it stopped at the new image; a child
    /// that exited or was killed instead could not start the executable.
    pub fn launch(child: Pid) -> (r: Result<Process, ProcessError>)
        ensures
            child@ <= 0 <==> r == Err::<Process, ProcessError>(ProcessError::InvalidPid),
            r matches Ok(p) ==> started(p@, child@, true) && p@.state == ProcessState::Stopped,
            r matches Err(e) ==> e == ProcessError::InvalidPid || e == ProcessError::Exec
                || is_wait_error(e),
    {
        if child.0 <= 0 {
            return Err(ProcessError::InvalidPid);
        }
        let mut process = Process { pid: child, terminate_on_end: true, state: ProcessState::Stopped };
        let first = process.wait_on_signal();
        Process::settle_launch(process, first)
    }

    /// Decides a launch from the first wait on the new child: a stop at the new
    /// program image gives the process; an exit or a kill means the child never
    /// reached the executable; a failed wait is returned as it is.
    pub fn settle_launch(process: Process, first: Result<StopReason, ProcessError>) -> (r: Result<
        Process,
        ProcessError,
    >)
        ensures
            first matches Ok(s) ==> if s.reason == ProcessState::Stopped {
                r matches Ok(p) && p@ == process@
            } else {
                r == Err::<Process, ProcessError>(ProcessError::Exec)
            },
            first matches Err(e) ==> r == Err::<Process, ProcessError>(e),
    {
        match first {
            Ok(reason) => {
                if reason.reason == ProcessState::Stopped {
                    Ok(process)
                } else {
                    Err(ProcessError::Exec)
                }
            },
            Err(e) => Err(e),
        }
    }

    /// Attaches to the running process `pid`. The sentinel `0` is refused
    /// before any request reaches the OS; any other identifier is left to the
    /// OS to accept or refuse. The session does not own the process; the first
    /// wait settles its state.
    pub fn attach(pid: Pid) -> (r: Result<Process, ProcessError>)
        ensures
            pid@ == 0 <==> r == Err::<Process, ProcessError>(ProcessError::InvalidPid),
            r matches Ok(p) ==> started(p@, pid@, false),
            r matches Err(e) ==> e == ProcessError::InvalidPid || e == ProcessError::Attach
                || is_wait_error(e),
    {
        if pid.0 == 0 {
            return Err(ProcessError::InvalidPid);
        }
        if !ptrace_attach(pid.0) {
            return Err(ProcessError::Attach);
        }
        let mut process = Process { pid, terminate_on_end: false, state: ProcessState::Stopped };
        match process.wait_on_signal() {
            Ok(_) => Ok(process),
            Err(e) => Err(e),
        }
    }

    /// Lets the process run on. On success the state is running until the next
    /// wait; on failure nothing changes.
    pub fn resume(&mut self) -> (r: Result<(), ProcessError>)
        ensures
            r is Ok ==> resumed(old(self)@, final(self)@),
            r is Err ==> r == Err::<(), ProcessError>(ProcessError::Resume) && final(self)@
                == old(self)@,
    {
        if !ptrace_cont(self.pid.0) {
            return Err(ProcessError::Resume);
        }
        self.state = ProcessState::Running;
        Ok(())
    }

    /// Blocks until the process changes state, records the new state and
    /// returns why it changed. On failure nothing changes.
    pub fn wait_on_signal(&mut self) -> (r: Result<StopReason, ProcessError>)
        ensures
            r matches Ok(reason) ==> waited(old(self)@, final(self)@, reason),
            r matches Err(e) ==> is_wait_error(e) && final(self)@ == old(self)@,
    {
        let result = StopReason::from_wait(wait_pid(self.pid.0));
        if let Ok(reason) = &result {
            self.state = reason.reason;
        }
        result
    }

    /// The identifier of the traced process.
    pub fn pid(&self) -> (r: Pid)
        ensures
            r@ == self@.pid,
    {
        self.pid
    }

    /// The last known control state.
    pub fn state(&self) -> (r: ProcessState)
        ensures
            r == self@.state,
    {
        self.state
    }

    /// Whether the session created the process and ends it on teardown.
    pub fn owns_lifetime(&self) -> (r: bool)
        ensures
            r == self@.owns_lifetime,
    {
        self.terminate_on_end
    }
}

/// One step of the teardown protocol.
#[derive(Debug, Clone, Copy, PartialEq, Eq, Structural)]
pub enum TeardownStep {
    /// Send a stop signal and wait until the process has stopped.
    StopAndWait,
    /// Ask the OS to stop tracing the process.
    Detach,
    /// Send a continue signal.
    Continue,
    /// Send a kill signal and wait until the process has exited.
    KillAndWait,
}

/// Whether the recorded state says that the process is gone.
pub open spec fn is_gone(s: ProcessState) -> bool {
    s == ProcessState::Exited || s == ProcessState::Terminated
}

/// The steps of teardown, in order: nothing for the "no process" sentinel `0`
/// or any other identifier that names no single process;
/// otherwise stop a running process first, then detach and continue, and last
/// kill a process that the session created, unless it is already gone.
pub open spec fn teardown_plan(p: ProcessView) -> Seq<TeardownStep> {
    if p.pid <= 0 {
        Seq::empty()
    } else {
        let stop = if p.state == ProcessState::Running {
            seq![TeardownStep::StopAndWait]
        } else {
            Seq::empty()
        };
        let kill = if p.owns_lifetime && !is_gone(p.state) {
            seq![TeardownStep::KillAndWait]
        } else {
            Seq::empty()
        };
        stop + seq![TeardownStep::Detach, TeardownStep::Continue] + kill
    }
}

/// The OS-side condition of a traced process.
pub struct Tracee {
    pub alive: bool,
    pub traced: bool,
    pub stopped: bool,
}

/// What one teardown step does to the process. Nothing happens to a process
/// that is gone; detaching takes effect only on a stopped tracee; a continue
/// signal does not resume a process that is still traced.
pub open spec fn apply_step(t: Tracee, step: TeardownStep) -> Tracee {
    if !t.alive {
        t
    } else {
        match step {
            TeardownStep::StopAndWait => Tracee { stopped: true, ..t },
            TeardownStep::Detach => if t.traced && t.stopped {
                Tracee { traced: false, ..t }
            } else {
                t
            },
            TeardownStep::Continue => if t.traced {
                t
            } else {
                Tracee { stopped: false, ..t }
            },
            TeardownStep::KillAndWait => Tracee { alive: false, traced: false, stopped: false },
        }
    }
}

/// The condition after the steps, applied in order.
pub open spec fn run_steps(t: Tracee, steps: Seq<TeardownStep>) -> Tracee
    decreases steps.len(),
{
    if steps.len() == 0 {
        t
    } else {
        run_steps(apply_step(t, steps[0]), steps.drop_first())
    }
}

/// The recorded state agrees with the OS: a live process is traced, is halted
/// unless it was last resumed, and is not alive once it has exited or been
/// terminated.
pub open spec fn tracks(p: ProcessView, t: Tracee) -> bool {
    &&& t.alive ==> t.traced
    &&& p.state == ProcessState::Stopped && t.alive ==> t.stopped
    &&& p.state == ProcessState::Exited || p.state == ProcessState::Terminated ==> !t.alive
}

/// After teardown a process is never left both stopped and traced. A process
/// that the session created is gone; one it attached to is alive, untraced and
/// running if it was alive before.
pub proof fn lemma_teardown_releases(p: ProcessView, t: Tracee)
    requires
        p.pid > 0,
        tracks(p, t),
    ensures
        ({
            let f = run_steps(t, teardown_plan(p));
            &&& !(f.alive && f.stopped && f.traced)
            &&& p.owns_lifetime ==> !f.alive
            &&& !p.owns_lifetime && t.alive ==> f.alive && !f.traced && !f.stopped
        }),
{
    reveal_with_fuel(run_steps, 5);
    let plan = teardown_plan(p);
    if is_gone(p.state) {
        assert(plan =~= seq![TeardownStep::Detach, TeardownStep::Continue]);
    } else if p.state == ProcessState::Running {
        if p.owns_lifetime {
            assert(plan =~= seq![TeardownStep::StopAndWait, TeardownStep::Detach, TeardownStep::Continue, TeardownStep::KillAndWait]);
        } else {
            assert(plan =~= seq![TeardownStep::StopAndWait, TeardownStep::Detach, TeardownStep::Continue]);
        }
    } else {
        if p.owns_lifetime {
            assert(plan =~= seq![TeardownStep::Detach, TeardownStep::Continue, TeardownStep::KillAndWait]);
        } else {
            assert(plan =~= seq![TeardownStep::Detach, TeardownStep::Continue]);
        }
    }
}

/// A successful resume followed by a successful wait leaves the process in a
/// settled state (exited, terminated or stopped), never running, with its
/// identifier and ownership unchanged.
pub proof fn lemma_resume_then_wait_settles(
    before: ProcessView,
    mid: ProcessView,
    after: ProcessView,
    reason: StopReason,
)
    requires
        resumed(before, mid),
        waited(mid, after, reason),
    ensures
        after.state == ProcessState::Exited || after.state == ProcessState::Terminated
            || after.state == ProcessState::Stopped,
        after.state == reason.reason,
        after.pid == before.pid,
        after.owns_lifetime == before.owns_lifetime,
{
}

/// Teardown of a running process that the session created stops it before
/// detaching from it, and kills it as the last step.
pub proof fn lemma_running_launched_teardown_order(p: ProcessView)
    requires
        p.pid > 0,
        p.state == ProcessState::Running,
        p.owns_lifetime,
    ensures
        teardown_plan(p) == seq![
            TeardownStep::StopAndWait,
            TeardownStep::Detach,
            TeardownStep::Continue,
            TeardownStep::KillAndWait,
        ],
{
    assert(teardown_plan(p) =~= seq![
        TeardownStep::StopAndWait,
        TeardownStep::Detach,
        TeardownStep::Continue,
        TeardownStep::KillAndWait,
    ]);
}

/// Teardown of a process that has already exited or been terminated sends it
/// no kill signal.
pub proof fn lemma_gone_process_not_killed(p: ProcessView)
    requires
        is_gone(p.state),
    ensures
        !teardown_plan(p).contains(TeardownStep::KillAndWait),
{
    if p.pid > 0 {
        assert(teardown_plan(p) =~= seq![TeardownStep::Detach, TeardownStep::Continue]);
        assert(teardown_plan(p)[0] != TeardownStep::KillAndWait);
        assert(teardown_plan(p)[1] != TeardownStep::KillAndWait);
    }
}

/// The plan of a process with this identifier, ownership and state is one of
/// four sequences of at most four steps.
proof fn lemma_plan_shapes(p: ProcessView)
    ensures
        teardown_plan(p).len() <= 4,
        p.pid > 0 ==> {
            let stop = p.state == ProcessState::Running;
            let kill = p.owns_lifetime && !is_gone(p.state);
            &&& stop && kill ==> teardown_plan(p) == seq![TeardownStep::StopAndWait, TeardownStep::Detach, TeardownStep::Continue, TeardownStep::KillAndWait]
            &&& stop && !kill ==> teardown_plan(p) == seq![TeardownStep::StopAndWait, TeardownStep::Detach, TeardownStep::Continue]
            &&& !stop && kill ==> teardown_plan(p) == seq![TeardownStep::Detach, TeardownStep::Continue, TeardownStep::KillAndWait]
            &&& !stop && !kill ==> teardown_plan(p) == seq![TeardownStep::Detach, TeardownStep::Continue]
        },
{
    if p.pid > 0 {
        assert(seq![TeardownStep::StopAndWait] + seq![TeardownStep::Detach, TeardownStep::Continue] + seq![TeardownStep::KillAndWait] =~= seq![TeardownStep::StopAndWait, TeardownStep::Detach, TeardownStep::Continue, TeardownStep::KillAndWait]);
        assert(seq![TeardownStep::StopAndWait] + seq![TeardownStep::Detach, TeardownStep::Continue] + Seq::<TeardownStep>::empty() =~= seq![TeardownStep::StopAndWait, TeardownStep::Detach, TeardownStep::Continue]);
        assert(Seq::<TeardownStep>::empty() + seq![TeardownStep::Detach, TeardownStep::Continue] + seq![TeardownStep::KillAndWait] =~= seq![TeardownStep::Detach, TeardownStep::Continue, TeardownStep::KillAndWait]);
        assert(Seq::<TeardownStep>::empty() + seq![TeardownStep::Detach, TeardownStep::Continue] + Seq::<TeardownStep>::empty() =~= seq![TeardownStep::Detach, TeardownStep::Continue]);
    }
}

/// The step at position `k` of the teardown of a process with this
/// identifier, ownership and state; `None` past the last step.
pub fn teardown_step(pid: Pid, owns_lifetime: bool, state: ProcessState, k: usize) -> (r: Option<
    TeardownStep,
>)
    ensures
        ({
            let plan = teardown_plan(ProcessView { pid: pid@, owns_lifetime, state });
            &&& k < plan.len() ==> r == Some(plan[k as int])
            &&& k >= plan.len() ==> r is None
        }),
    opens_invariants none
    no_unwind
{
    proof {
        lemma_plan_shapes(ProcessView { pid: pid@, owns_lifetime, state });
    }
    if pid.0 <= 0 {
        return None;
    }
    let stop = state == ProcessState::Running;
    let kill = owns_lifetime && state != ProcessState::Exited && state != ProcessState::Terminated;
    let j: usize = if stop {
        if k == 0 {
            return Some(TeardownStep::StopAndWait);
        }
        k - 1
    } else {
        k
    };
    if j == 0 {
        Some(TeardownStep::Detach)
    } else if j == 1 {
        Some(TeardownStep::Continue)
    } else if j == 2 && kill {
        Some(TeardownStep::KillAndWait)
    } else {
        None
    }
}

/// The whole teardown of a process with this identifier, ownership and state,
/// in the order in which it runs.
pub fn teardown_steps(pid: Pid, owns_lifetime: bool, state: ProcessState) -> (r: Vec<TeardownStep>)
    ensures
        r@ == teardown_plan(ProcessView { pid: pid@, owns_lifetime, state }),
{
    let ghost plan = teardown_plan(ProcessView { pid: pid@, owns_lifetime, state });
    proof {
        lemma_plan_shapes(ProcessView { pid: pid@, owns_lifetime, state });
    }
    let mut r: Vec<TeardownStep> = Vec::new();
    let mut k: usize = 0;
    loop
        invariant
            plan == teardown_plan(ProcessView { pid: pid@, owns_lifetime, state }),
            plan.len() <= 4,
            k <= plan.len(),
            r@ == plan.subrange(0, k as int),
        ensures
            r@ == plan,
        decreases 4 - k,
    {
        match teardown_step(pid, owns_lifetime, state, k) {
            None => {
                assert(r@ =~= plan);
                break ;
            },
            Some(step) => {
                r.push(step);
                assert(r@ =~= plan.subrange(0, k + 1));
                k = k + 1;
            },
        }
    }
    r
}

/// Makes the OS requests of one teardown step on `pid`, ignoring what they answer.
fn run_step(pid: i32, step: TeardownStep)
    opens_invariants none
    no_unwind
{
    match step {
        TeardownStep::StopAndWait => {
            let _ = send_signal(pid, ControlSignal::Stop);
            let _ = wait_pid(pid);
        },
        TeardownStep::Detach => {
            let _ = ptrace_detach(pid);
        },
        TeardownStep::Continue => {
            let _ = send_signal(pid, ControlSignal::Cont);
        },
        TeardownStep::KillAndWait => {
            let _ = send_signal(pid, ControlSignal::Kill);
            let _ = wait_pid(pid);
        },
    }
}

impl Process {
    /// Runs the teardown protocol: each step of the plan in turn, through
    /// `run_step`, ignoring what the OS answers. Returns the steps it ran.
    fn teardown(&self) -> (done: Ghost<Seq<TeardownStep>>)
        ensures
            done@ == teardown_plan(self@),
        opens_invariants none
        no_unwind
    {
        let ghost plan = teardown_plan(self@);
        proof {
            lemma_plan_shapes(self@);
        }
        let ghost mut done: Seq<TeardownStep> = Seq::empty();
        let mut k: usize = 0;
        loop
            invariant
                plan == teardown_plan(self@),
                plan.len() <= 4,
                k <= plan.len(),
                done == plan.subrange(0, k as int),
            ensures
                done == plan,
            decreases 4 - k,
        {
            match teardown_step(self.pid, self.terminate_on_end, self.state, k) {
                None => {
                    assert(done =~= plan);
                    break ;
                },
                Some(step) => {
                    run_step(self.pid.0, step);
                    proof {
                        done = done.push(step);
                        assert(done =~= plan.subrange(0, k + 1));
                    }
                    k = k + 1;
                },
            }
        }
        Ghost(done)
    }
}

impl Drop for Process {
    /// Tears the process down when its owner goes away, on every path.
    fn drop(&mut self)
        opens_invariants none
        no_unwind
    {
        let _ = self.teardown();
    }
}

} // verus!
