use vstd::prelude::*;
use vstd::string::StringExecFns;

verus! {

/// How waiting on the child ended.
#[derive(Debug, Clone, Copy, PartialEq, Eq, Structural)]
pub enum ExitReport {
    /// The child exited; its exit code, or `None` when a signal ended it.
    Status(Option<i32>),
    /// The operating system could not report the child's status.
    WaitFailed,
}

/// The exit code the program reports for the child's end: 0 after a
/// successful exit, the child's own code after a failing one, and 1 when
/// there is no code or the wait itself failed.
pub open spec fn exit_code_of(report: ExitReport) -> i32 {
    match report {
        ExitReport::Status(Some(code)) => code,
        ExitReport::Status(None) => 1,
        ExitReport::WaitFailed => 1,
    }
}

/// Where the supervised server is in its life.
#[derive(Debug, Clone, Copy, PartialEq, Eq, Structural)]
pub enum SupervisorState {
    /// Nothing launched yet.
    Idle,
    /// The launch is under way; remembers a shutdown requested meanwhile.
    Launching { shutdown_requested: bool },
    /// The child runs; its process id, while the system reports one.
    Running { pid: Option<u32> },
    /// A termination request went out; waiting for the child to exit.
    Stopping,
    /// The child was reaped with this report; it is never touched again.
    Exited { report: ExitReport },
}

/// What happened outside the supervisor.
#[derive(Debug, Clone, Copy, PartialEq, Eq, Structural)]
pub enum SupervisorEvent {
    /// The caller asks for the server to be launched.
    Start,
    /// The child was spawned, with its process id if the system gave one.
    Spawned { pid: Option<u32> },
    /// A termination signal reached the program.
    Shutdown,
    /// Waiting on the child returned.
    ChildExited(ExitReport),
}

/// What the caller has to do next.
#[derive(Debug, Clone, Copy, PartialEq, Eq, Structural)]
pub enum SupervisorAction {
    /// Resolve the mod directory and spawn the child.
    Launch,
    /// Keep waiting for the next event.
    Wait,
    /// Send a termination request to this process id, then keep waiting.
    Terminate(u32),
    /// The child is gone: end with this exit code (0: return normally).
    Finish(i32),
}

/// The supervisor's transition on one event: the next state and the action.
pub open spec fn next(s: SupervisorState, e: SupervisorEvent) -> (SupervisorState, SupervisorAction) {
    match (s, e) {
        (SupervisorState::Idle, SupervisorEvent::Start) => (
            SupervisorState::Launching { shutdown_requested: false },
            SupervisorAction::Launch,
        ),
        (SupervisorState::Launching { .. }, SupervisorEvent::Shutdown) => (
            SupervisorState::Launching { shutdown_requested: true },
            SupervisorAction::Wait,
        ),
        (SupervisorState::Launching { shutdown_requested }, SupervisorEvent::Spawned { pid }) => {
            if shutdown_requested {
                match pid {
                    Some(p) => (SupervisorState::Stopping, SupervisorAction::Terminate(p)),
                    None => (SupervisorState::Stopping, SupervisorAction::Wait),
                }
            } else {
                (SupervisorState::Running { pid }, SupervisorAction::Wait)
            }
        },
        (SupervisorState::Running { pid }, SupervisorEvent::Shutdown) => match pid {
            Some(p) => (SupervisorState::Stopping, SupervisorAction::Terminate(p)),
            None => (SupervisorState::Stopping, SupervisorAction::Wait),
        },
        (SupervisorState::Running { .. }, SupervisorEvent::ChildExited(report)) => (
            SupervisorState::Exited { report },
            SupervisorAction::Finish(exit_code_of(report)),
        ),
        (SupervisorState::Stopping, SupervisorEvent::ChildExited(report)) => (
            SupervisorState::Exited { report },
            SupervisorAction::Finish(exit_code_of(report)),
        ),
        _ => (s, SupervisorAction::Wait),
    }
}

/// The exit code the program reports for the child's end.
pub fn exit_code(report: ExitReport) -> (r: i32)
    ensures
        r == exit_code_of(report),
{
    match report {
        ExitReport::Status(Some(code)) => code,
        ExitReport::Status(None) => 1,
        ExitReport::WaitFailed => 1,
    }
}

/// The owner of one child process's life, from launch to reap.
pub struct Supervisor {
    state: SupervisorState,
}

impl View for Supervisor {
    type V = SupervisorState;

    closed spec fn view(&self) -> SupervisorState {
        self.state
    }
}

impl Supervisor {
    /// A supervisor with nothing launched.
    pub fn new() -> (r: Supervisor)
        ensures
            r@ == SupervisorState::Idle,
    {
        Supervisor { state: SupervisorState::Idle }
    }

    /// The current state.
    pub fn state(&self) -> (r: SupervisorState)
        ensures
            r == self@,
    {
        self.state
    }

    /// Takes one event and says what to do about it.
    pub fn step(&mut self, event: SupervisorEvent) -> (r: SupervisorAction)
        ensures
            (final(self)@, r) == next(old(self)@, event),
    {
        let (state, action) = match (self.state, event) {
            (SupervisorState::Idle, SupervisorEvent::Start) => (
                SupervisorState::Launching { shutdown_requested: false },
                SupervisorAction::Launch,
            ),
            (SupervisorState::Launching { .. }, SupervisorEvent::Shutdown) => (
                SupervisorState::Launching { shutdown_requested: true },
                SupervisorAction::Wait,
            ),
            (SupervisorState::Launching { shutdown_requested }, SupervisorEvent::Spawned { pid }) => {
                if shutdown_requested {
                    match pid {
                        Some(p) => (SupervisorState::Stopping, SupervisorAction::Terminate(p)),
                        None => (SupervisorState::Stopping, SupervisorAction::Wait),
                    }
                } else {
                    (SupervisorState::Running { pid }, SupervisorAction::Wait)
                }
            },
            (SupervisorState::Running { pid }, SupervisorEvent::Shutdown) => match pid {
                Some(p) => (SupervisorState::Stopping, SupervisorAction::Terminate(p)),
                None => (SupervisorState::Stopping, SupervisorAction::Wait),
            },
            (SupervisorState::Running { .. }, SupervisorEvent::ChildExited(report)) => (
                SupervisorState::Exited { report },
                SupervisorAction::Finish(exit_code(report)),
            ),
            (SupervisorState::Stopping, SupervisorEvent::ChildExited(report)) => (
                SupervisorState::Exited { report },
                SupervisorAction::Finish(exit_code(report)),
            ),
            (s, _) => (s, SupervisorAction::Wait),
        };
        self.state = state;
        action
    }
}

/// The number of termination requests issued while taking `events` in
/// order, starting in state `s`.
pub open spec fn terminations(s: SupervisorState, events: Seq<SupervisorEvent>) -> nat
    decreases events.len(),
{
    if events.len() == 0 {
        0
    } else {
        let (s2, a) = next(s, events[0]);
        (if a is Terminate { 1nat } else { 0nat }) + terminations(s2, events.drop_first())
    }
}

/// The state reached after taking `events` in order, starting in `s`.
pub open spec fn after(s: SupervisorState, events: Seq<SupervisorEvent>) -> SupervisorState
    decreases events.len(),
{
    if events.len() == 0 {
        s
    } else {
        after(next(s, events[0]).0, events.drop_first())
    }
}

/// No termination request has been issued yet in this state.
pub open spec fn before_termination(s: SupervisorState) -> bool {
    s is Idle || s is Launching || s is Running
}

/// Taking one event never returns to a state before termination from one
/// after it.
proof fn lemma_no_return(s: SupervisorState, e: SupervisorEvent)
    ensures
        before_termination(next(s, e).0) ==> before_termination(s),
        next(s, e).1 is Terminate ==> !before_termination(next(s, e).0),
{
}

/// Signals are absorbed after the first: whatever events arrive, however
/// many shutdowns among them, at most one termination request goes out, and
/// none once the request went out or the child was reaped.
pub proof fn lemma_single_termination(s: SupervisorState, events: Seq<SupervisorEvent>)
    ensures
        terminations(s, events) <= 1,
        !before_termination(s) ==> terminations(s, events) == 0,
    decreases events.len(),
{
    if events.len() > 0 {
        lemma_no_return(s, events[0]);
        lemma_single_termination(next(s, events[0]).0, events.drop_first());
    }
}

/// A shutdown while the child runs sends it exactly one termination request
/// to its process id and leaves the supervisor waiting for the exit; a
/// shutdown requested during launch does the same as soon as it is spawned.
pub proof fn lemma_shutdown_terminates(pid: u32)
    ensures
        next(SupervisorState::Running { pid: Some(pid) }, SupervisorEvent::Shutdown) == (
            SupervisorState::Stopping,
            SupervisorAction::Terminate(pid),
        ),
        next(
            SupervisorState::Launching { shutdown_requested: true },
            SupervisorEvent::Spawned { pid: Some(pid) },
        ) == (SupervisorState::Stopping, SupervisorAction::Terminate(pid)),
{
}

/// The supervisor finishes only on the child's own exit, never on a signal:
/// a finish comes from a reap, carries the exit code of what was reaped, and
/// leaves the supervisor in the final state, where no event has any effect.
pub proof fn lemma_finish_only_on_exit(s: SupervisorState, e: SupervisorEvent)
    ensures
        next(s, e).1 is Finish ==> exists|report: ExitReport|
            e == SupervisorEvent::ChildExited(report) && next(s, e) == (
                SupervisorState::Exited { report },
                SupervisorAction::Finish(exit_code_of(report)),
            ),
        s is Exited ==> next(s, e) == (s, SupervisorAction::Wait),
        (s is Running || s is Stopping) && e is ChildExited ==> next(s, e).1 is Finish,
{
    if next(s, e).1 is Finish {
        let report = e->ChildExited_0;
        assert(e == SupervisorEvent::ChildExited(report));
    }
}

/// The reported exit code is the child's own whenever it has one: a failing
/// child's code is passed on unchanged, and success gives 0.
pub proof fn lemma_exit_code_passes_through(code: i32)
    ensures
        exit_code_of(ExitReport::Status(Some(code))) == code,
        exit_code_of(ExitReport::Status(None)) == 1,
        exit_code_of(ExitReport::WaitFailed) == 1,
{
}

/// Turns the two termination signals, however often they come, into one
/// shutdown notice.
pub struct SignalRelay {
    fired: bool,
}

impl View for SignalRelay {
    type V = bool;

    /// Whether the shutdown notice has been raised.
    closed spec fn view(&self) -> bool {
        self.fired
    }
}

/// The termination signals the program listens for.
#[derive(Debug, Clone, Copy, PartialEq, Eq, Structural)]
pub enum TerminationSignal {
    Interrupt,
    Terminate,
}

impl SignalRelay {
    pub fn new() -> (r: SignalRelay)
        ensures
            !r@,
    {
        SignalRelay { fired: false }
    }

    /// Takes one signal of either kind; true when it raises the shutdown
    /// notice, which only the first one does.
    pub fn relay(&mut self, signal: TerminationSignal) -> (r: bool)
        ensures
            r == !old(self)@,
            final(self)@,
    {
        let first = !self.fired;
        self.fired = true;
        first
    }
}

/// The server's command line: the mod directory option, then the
/// pass-through arguments as given.
pub open spec fn server_args_spec(mod_directory: Seq<char>, extra: Seq<Seq<char>>) -> Seq<Seq<char>> {
    seq!["--mod-directory"@, mod_directory] + extra
}

/// Builds the server's argument list from the absolute mod directory and
/// the pass-through arguments.
pub fn server_args(mod_directory: &str, extra: &Vec<String>) -> (r: Vec<String>)
    ensures
        r@.map_values(|a: String| a@) == server_args_spec(
            mod_directory@,
            extra@.map_values(|a: String| a@),
        ),
{
    let mut args: Vec<String> = Vec::new();
    args.push(String::from_str("--mod-directory"));
    args.push(String::from_str(mod_directory));
    let mut i: usize = 0;
    while i < extra.len()
        invariant
            i <= extra@.len(),
            args@.len() == i + 2,
            args@[0]@ == "--mod-directory"@,
            args@[1]@ == mod_directory@,
            forall|k: int| 0 <= k < i ==> args@[k + 2]@ == extra@[k]@,
        decreases extra@.len() - i,
    {
        args.push(extra[i].clone());
        i = i + 1;
    }
    let ghost lhs = args@.map_values(|a: String| a@);
    let ghost rhs = server_args_spec(mod_directory@, extra@.map_values(|a: String| a@));
    assert(lhs =~= rhs);
    args
}

} // verus!
