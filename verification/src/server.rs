//! The server: how each serving strategy reacts to what happens on the
//! listening socket.
//!
//! Like a session, the server is a state machine that owns no socket. Its
//! driver starts it with `Start`, carries out each action it is handed, and
//! reports the outcome as the next event. Under `Mode::Forked` the machine
//! itself creates the worker process when a connection has been accepted; all
//! other work is the driver's.

use crate::config::{Config, Mode};
use crate::text::{decimal, port_text};
use vstd::prelude::*;

verus! {

/// Why a server stopped.
#[derive(Clone, Copy, Debug, PartialEq, Eq, Structural)]
pub enum ServerError {
    /// The exits of worker processes could not be set to be discarded.
    Lifecycle,
    /// The listening socket could not be bound.
    Listener,
    /// Waiting for a connection failed.
    Accept,
    /// A session that ran in the server's own control flow failed.
    Session,
    /// No worker process could be created; `0` is the system's error number.
    Spawn(i32),
    /// The driver reported an event that answers no action of the server.
    Misuse,
}

/// Where a server stands.
#[derive(Clone, Copy, Debug, PartialEq, Eq, Structural)]
pub enum ServerPhase {
    /// Nothing has been done.
    Idle,
    /// The exits of worker processes are being set to be discarded.
    Guarding,
    /// The listening socket is being bound.
    Binding,
    /// The server waits for a connection.
    Accepting,
    /// A session runs in the server's own control flow.
    Serving,
    /// This process is a new worker: it is taking back the notice of its own
    /// children's exits.
    Settling,
    /// This process or thread is a worker: it serves one session and ends.
    Worker,
    /// The worker's session is over; `clean` tells whether it went well.
    Ended { clean: bool },
    /// The server has stopped.
    Failed(ServerError),
}

/// What the driver reports to a server.
#[derive(Clone, Copy, Debug, PartialEq, Eq, Structural)]
pub enum ServerEvent {
    /// The server is to begin.
    Start,
    /// The last action was carried out.
    Done,
    /// A connection was accepted.
    Accepted,
    /// The session that was to be served is over; `clean` tells whether it
    /// ended without an error.
    SessionEnded { clean: bool },
    /// The last action could not be carried out.
    Failed,
}

/// What a server asks of its driver.
#[derive(Clone, Copy, Debug, PartialEq, Eq, Structural)]
pub enum ServerAction {
    /// Have the system discard the exits of child processes from now on, so
    /// that no ended worker waits to be collected; report `Done` or `Failed`.
    IgnoreChildExit,
    /// Have the system keep the exits of this process's children again, so
    /// that this worker can wait for the programs it runs; report `Done` or
    /// `Failed`.
    WatchChildExit,
    /// Bind the listening socket to the server's address; report `Done` or
    /// `Failed`.
    Bind,
    /// Let go of the connection accepted last, if it is still held, and wait
    /// for the next one; report `Accepted` or `Failed`.
    Accept,
    /// Run a session on the connection accepted last, here and now; report
    /// `SessionEnded`.
    Serve,
    /// Hand the connection accepted last to a new thread, which serves it as
    /// a worker, and wait for the next connection at once; report `Accepted`
    /// or `Failed`.
    Spawn,
    /// End this worker process with the given status.
    Exit(i32),
    /// End this worker thread; if `failed`, log the session's error first.
    Retire { failed: bool },
    /// Stop serving and report the error.
    Fail(ServerError),
}

/// What came of creating a worker process.
#[derive(Clone, Copy, Debug, PartialEq, Eq, Structural)]
pub enum ForkOutcome {
    /// The process was created, and this is the server.
    Parent,
    /// The process was created, and this is the worker.
    Child,
    /// No process was created; `0` is the system's error number.
    Failed(i32),
}

/// The phase and action of a server that stops with `error`.
pub open spec fn stopped(error: ServerError) -> (ServerPhase, ServerAction) {
    (ServerPhase::Failed(error), ServerAction::Fail(error))
}

/// What is common to the three strategies before the first connection: the
/// listening socket is bound, and then the server waits.
pub open spec fn listening_step(phase: ServerPhase, event: ServerEvent) -> (
    ServerPhase,
    ServerAction,
) {
    match (phase, event) {
        (ServerPhase::Binding, ServerEvent::Done) => (ServerPhase::Accepting, ServerAction::Accept),
        (ServerPhase::Binding, ServerEvent::Failed) => stopped(ServerError::Listener),
        (ServerPhase::Accepting, ServerEvent::Failed) => stopped(ServerError::Accept),
        (ServerPhase::Failed(error), _) => stopped(error),
        _ => stopped(ServerError::Misuse),
    }
}

/// The sequential strategy: each session runs to its end in the server's own
/// control flow before the next connection is accepted, and a session that
/// fails stops the server.
pub open spec fn simple_step(phase: ServerPhase, event: ServerEvent) -> (
    ServerPhase,
    ServerAction,
) {
    match (phase, event) {
        (ServerPhase::Idle, ServerEvent::Start) => (ServerPhase::Binding, ServerAction::Bind),
        (ServerPhase::Accepting, ServerEvent::Accepted) => (
            ServerPhase::Serving,
            ServerAction::Serve,
        ),
        (ServerPhase::Serving, ServerEvent::SessionEnded { clean }) => if clean {
            (ServerPhase::Accepting, ServerAction::Accept)
        } else {
            stopped(ServerError::Session)
        },
        _ => listening_step(phase, event),
    }
}

/// The strategy of one thread per session: each connection goes to a new
/// thread and the server waits for the next at once. A worker thread serves
/// its session and ends; a session that fails is logged and harms nobody
/// else.
pub open spec fn threaded_step(phase: ServerPhase, event: ServerEvent) -> (
    ServerPhase,
    ServerAction,
) {
    match (phase, event) {
        (ServerPhase::Idle, ServerEvent::Start) => (ServerPhase::Binding, ServerAction::Bind),
        (ServerPhase::Accepting, ServerEvent::Accepted) => (
            ServerPhase::Accepting,
            ServerAction::Spawn,
        ),
        (ServerPhase::Worker, ServerEvent::SessionEnded { clean }) => (
            ServerPhase::Ended { clean },
            ServerAction::Retire { failed: !clean },
        ),
        (ServerPhase::Ended { clean }, _) => (
            ServerPhase::Ended { clean },
            ServerAction::Retire { failed: false },
        ),
        _ => listening_step(phase, event),
    }
}

/// The status with which a worker process ends.
pub open spec fn exit_status(clean: bool) -> i32 {
    if clean {
        0
    } else {
        1
    }
}

/// What a server under `Mode::Forked` does once the worker process for an
/// accepted connection has or has not been created: the server goes back to
/// waiting, the worker makes ready to serve the session, and without a worker
/// the server stops.
pub open spec fn forked(outcome: ForkOutcome) -> (ServerPhase, ServerAction) {
    match outcome {
        ForkOutcome::Parent => (ServerPhase::Accepting, ServerAction::Accept),
        ForkOutcome::Child => (ServerPhase::Settling, ServerAction::WatchChildExit),
        ForkOutcome::Failed(number) => stopped(ServerError::Spawn(number)),
    }
}

/// The strategy of one process per session. Before anything else the exits
/// of child processes are set to be discarded. Each accepted connection gets
/// a process of its own, of which `outcome` tells. A worker process begins
/// with the server's settings: it first takes back the notice of its own
/// children's exits, then serves its session, and then ends, whatever came of
/// the session. A worker that cannot make ready ends at once, with status 1.
pub open spec fn forked_step(phase: ServerPhase, event: ServerEvent, outcome: ForkOutcome) -> (
    ServerPhase,
    ServerAction,
) {
    match (phase, event) {
        (ServerPhase::Idle, ServerEvent::Start) => (
            ServerPhase::Guarding,
            ServerAction::IgnoreChildExit,
        ),
        (ServerPhase::Guarding, ServerEvent::Done) => (ServerPhase::Binding, ServerAction::Bind),
        (ServerPhase::Guarding, ServerEvent::Failed) => stopped(ServerError::Lifecycle),
        (ServerPhase::Accepting, ServerEvent::Accepted) => forked(outcome),
        (ServerPhase::Settling, ServerEvent::Done) => (ServerPhase::Worker, ServerAction::Serve),
        (ServerPhase::Settling, ServerEvent::Failed) => (
            ServerPhase::Ended { clean: false },
            ServerAction::Exit(exit_status(false)),
        ),
        (ServerPhase::Worker, ServerEvent::SessionEnded { clean }) => (
            ServerPhase::Ended { clean },
            ServerAction::Exit(exit_status(clean)),
        ),
        (ServerPhase::Ended { clean }, _) => (
            ServerPhase::Ended { clean },
            ServerAction::Exit(exit_status(clean)),
        ),
        _ => listening_step(phase, event),
    }
}

/// The server as a whole: the strategy that `mode` names. `outcome` is read
/// only where a worker process is created.
pub open spec fn server_step(
    mode: Mode,
    phase: ServerPhase,
    event: ServerEvent,
    outcome: ForkOutcome,
) -> (ServerPhase, ServerAction) {
    match mode {
        Mode::Simple => simple_step(phase, event),
        Mode::Threaded => threaded_step(phase, event),
        Mode::Forked => forked_step(phase, event, outcome),
    }
}

/// The address to listen on: the host, a colon, and the port in base ten.
pub open spec fn address_of(host: Seq<char>, port: u16) -> Seq<char> {
    host + ":"@ + decimal(port as nat)
}

/// What a server holds, as mathematical values.
pub struct ServerView {
    pub mode: Mode,
    pub address: Seq<char>,
    pub phase: ServerPhase,
}

/// A server: its strategy, its address, and where it stands.
#[derive(Debug)]
pub struct Server {
    mode: Mode,
    address: String,
    phase: ServerPhase,
}

impl View for Server {
    type V = ServerView;

    closed spec fn view(&self) -> ServerView {
        ServerView { mode: self.mode, address: self.address@, phase: self.phase }
    }
}

/// The error of the outside crate `nix`, carried from where a call fails to
/// where its number is read. Nothing is known of what it holds.
#[verifier::external_type_specification]
#[verifier::external_body]
pub struct ExNixError(nix::Error);

/// Which of the two processes goes on after a worker process was created.
#[derive(Clone, Copy, Debug, PartialEq, Eq, Structural)]
pub enum ForkRole {
    /// The process that asked.
    Parent,
    /// The process that was created.
    Child,
}

/// Calls `nix::unistd::fork`, which duplicates the calling process. Both
/// processes return from it, each with its role; where no process could be
/// created, the caller alone returns, with the error. Nothing is claimed of
/// which of these happens.
#[verifier::external_body]
fn fork_process() -> (outcome: Result<ForkRole, nix::Error>) {
    match nix::unistd::fork() {
        Ok(nix::unistd::ForkResult::Parent { .. }) => Ok(ForkRole::Parent),
        Ok(nix::unistd::ForkResult::Child) => Ok(ForkRole::Child),
        Err(error) => Err(error),
    }
}

/// Calls `nix::Error::as_errno`, which hands out the system's error number
/// where the error holds one. Nothing is claimed of the number.
#[verifier::external_body]
fn error_number(error: nix::Error) -> (number: Option<i32>) {
    match error.as_errno() {
        Some(errno) => Some(errno as i32),
        None => None,
    }
}

/// The three strategies' common part: see `listening_step`.
fn run_listening(phase: ServerPhase, event: ServerEvent) -> (next: (ServerPhase, ServerAction))
    ensures
        next == listening_step(phase, event),
{
    match (phase, event) {
        (ServerPhase::Binding, ServerEvent::Done) => (ServerPhase::Accepting, ServerAction::Accept),
        (ServerPhase::Binding, ServerEvent::Failed) => stop(ServerError::Listener),
        (ServerPhase::Accepting, ServerEvent::Failed) => stop(ServerError::Accept),
        (ServerPhase::Failed(error), _) => stop(error),
        _ => stop(ServerError::Misuse),
    }
}

/// The phase and action of a server that stops with `error`.
fn stop(error: ServerError) -> (next: (ServerPhase, ServerAction))
    ensures
        next == stopped(error),
{
    (ServerPhase::Failed(error), ServerAction::Fail(error))
}

/// One step of the sequential strategy.
pub fn run_single_threaded(phase: ServerPhase, event: ServerEvent) -> (next: (
    ServerPhase,
    ServerAction,
))
    ensures
        next == simple_step(phase, event),
{
    match (phase, event) {
        (ServerPhase::Idle, ServerEvent::Start) => (ServerPhase::Binding, ServerAction::Bind),
        (ServerPhase::Accepting, ServerEvent::Accepted) => (
            ServerPhase::Serving,
            ServerAction::Serve,
        ),
        (ServerPhase::Serving, ServerEvent::SessionEnded { clean }) => {
            if clean {
                (ServerPhase::Accepting, ServerAction::Accept)
            } else {
                stop(ServerError::Session)
            }
        },
        _ => run_listening(phase, event),
    }
}

/// One step of the strategy of one thread per session.
pub fn run_with_threads(phase: ServerPhase, event: ServerEvent) -> (next: (
    ServerPhase,
    ServerAction,
))
    ensures
        next == threaded_step(phase, event),
{
    match (phase, event) {
        (ServerPhase::Idle, ServerEvent::Start) => (ServerPhase::Binding, ServerAction::Bind),
        (ServerPhase::Accepting, ServerEvent::Accepted) => (
            ServerPhase::Accepting,
            ServerAction::Spawn,
        ),
        (ServerPhase::Worker, ServerEvent::SessionEnded { clean }) => (
            ServerPhase::Ended { clean },
            ServerAction::Retire { failed: !clean },
        ),
        (ServerPhase::Ended { clean }, _) => (
            ServerPhase::Ended { clean },
            ServerAction::Retire { failed: false },
        ),
        _ => run_listening(phase, event),
    }
}

/// Tells what came of creating a worker process, for every value that the
/// system may hand back.
pub fn fork_outcome(role: Result<ForkRole, Option<i32>>) -> (outcome: ForkOutcome)
    ensures
        outcome == match role {
            Ok(ForkRole::Parent) => ForkOutcome::Parent,
            Ok(ForkRole::Child) => ForkOutcome::Child,
            Err(Some(number)) => ForkOutcome::Failed(number),
            Err(None) => ForkOutcome::Failed(0),
        },
{
    match role {
        Ok(ForkRole::Parent) => ForkOutcome::Parent,
        Ok(ForkRole::Child) => ForkOutcome::Child,
        Err(Some(number)) => ForkOutcome::Failed(number),
        Err(None) => ForkOutcome::Failed(0),
    }
}

/// What the server does once the worker process for an accepted connection
/// has or has not been created.
pub fn settle_fork(outcome: ForkOutcome) -> (next: (ServerPhase, ServerAction))
    ensures
        next == forked(outcome),
{
    match outcome {
        ForkOutcome::Parent => (ServerPhase::Accepting, ServerAction::Accept),
        ForkOutcome::Child => (ServerPhase::Settling, ServerAction::WatchChildExit),
        ForkOutcome::Failed(number) => stop(ServerError::Spawn(number)),
    }
}

/// The status with which a worker process ends.
pub fn worker_status(clean: bool) -> (status: i32)
    ensures
        status == exit_status(clean),
{
    if clean {
        0
    } else {
        1
    }
}

/// One step of the strategy of one process per session, for a given
/// `outcome` of creating the worker process. `outcome` is read only when a
/// connection has been accepted.
pub fn forked_next(phase: ServerPhase, event: ServerEvent, outcome: ForkOutcome) -> (next: (
    ServerPhase,
    ServerAction,
))
    ensures
        next == forked_step(phase, event, outcome),
{
    match (phase, event) {
        (ServerPhase::Idle, ServerEvent::Start) => (
            ServerPhase::Guarding,
            ServerAction::IgnoreChildExit,
        ),
        (ServerPhase::Guarding, ServerEvent::Done) => (ServerPhase::Binding, ServerAction::Bind),
        (ServerPhase::Guarding, ServerEvent::Failed) => stop(ServerError::Lifecycle),
        (ServerPhase::Accepting, ServerEvent::Accepted) => settle_fork(outcome),
        (ServerPhase::Settling, ServerEvent::Done) => (ServerPhase::Worker, ServerAction::Serve),
        (ServerPhase::Settling, ServerEvent::Failed) => (
            ServerPhase::Ended { clean: false },
            ServerAction::Exit(worker_status(false)),
        ),
        (ServerPhase::Worker, ServerEvent::SessionEnded { clean }) => (
            ServerPhase::Ended { clean },
            ServerAction::Exit(worker_status(clean)),
        ),
        (ServerPhase::Ended { clean }, _) => (
            ServerPhase::Ended { clean },
            ServerAction::Exit(worker_status(clean)),
        ),
        _ => run_listening(phase, event),
    }
}

/// One step of the strategy of one process per session. When a connection
/// has been accepted, this creates the worker process: the call then returns
/// in both processes, in the server with `Accept` and in the worker with
/// `WatchChildExit`, or in the server alone with the failure. On every other event no
/// process is created, and the step is the same whatever `outcome` is put
/// into `forked_step`.
///
/// The worker begins as a copy of the server with the calling thread as its
/// only one. A server under this strategy is to run no other thread.
pub fn run_with_fork(phase: ServerPhase, event: ServerEvent) -> (next: (
    ServerPhase,
    ServerAction,
))
    ensures
        exists|outcome: ForkOutcome| next == #[trigger] forked_step(phase, event, outcome),
{
    let outcome = match (phase, event) {
        (ServerPhase::Accepting, ServerEvent::Accepted) => match fork_process() {
            Ok(role) => fork_outcome(Ok(role)),
            Err(error) => fork_outcome(Err(error_number(error))),
        },
        _ => ForkOutcome::Parent,
    };
    forked_next(phase, event, outcome)
}

impl Server {
    /// A server for `config`, with nothing done yet.
    pub fn new(config: &Config) -> (server: Server)
        ensures
            server@ == (ServerView {
                mode: config@.mode,
                address: address_of(config@.host, config@.port),
                phase: ServerPhase::Idle,
            }),
    {
        let mut address = String::from_str(config.host());
        address.append(":");
        address.append(port_text(*config.port()).as_str());
        Server { mode: config.mode(), address, phase: ServerPhase::Idle }
    }

    /// A worker of this server: it serves the one session that it is given,
    /// reports its end, and is done.
    pub fn worker(&self) -> (worker: Server)
        ensures
            worker@ == (ServerView { phase: ServerPhase::Worker, ..self@ }),
    {
        Server { mode: self.mode, address: self.address.clone(), phase: ServerPhase::Worker }
    }

    /// The serving strategy.
    pub fn mode(&self) -> (mode: Mode)
        ensures
            mode == self@.mode,
    {
        self.mode
    }

    /// The address that the listening socket is bound to.
    pub fn address(&self) -> (address: &str)
        ensures
            address@ == self@.address,
    {
        self.address.as_str()
    }

    /// Where the server stands.
    pub fn phase(&self) -> (phase: ServerPhase)
        ensures
            phase == self@.phase,
    {
        self.phase
    }
}

/// Advances `server` by one event, under the strategy that it was configured
/// with, and says what to do next.
pub fn run(server: &mut Server, event: ServerEvent) -> (action: ServerAction)
    ensures
        final(server)@.mode == old(server)@.mode,
        final(server)@.address == old(server)@.address,
        exists|outcome: ForkOutcome|
            (final(server)@.phase, action) == #[trigger] server_step(
                old(server)@.mode,
                old(server)@.phase,
                event,
                outcome,
            ),
{
    let (phase, action) = match server.mode {
        Mode::Simple => run_single_threaded(server.phase, event),
        Mode::Threaded => run_with_threads(server.phase, event),
        Mode::Forked => run_with_fork(server.phase, event),
    };
    proof {
        let outcome = choose|outcome: ForkOutcome|
            (phase, action) == #[trigger] forked_step(server.phase, event, outcome);
        assert((phase, action) == server_step(server.mode, server.phase, event, outcome));
    }
    server.phase = phase;
    action
}

/// The phase of a server that began in `start` and has handled the first `n`
/// of `events`; `outcomes[i]` tells what came of creating a worker process, if
/// one was created, while `events[i]` was handled.
pub open spec fn phase_at(
    mode: Mode,
    start: ServerPhase,
    events: Seq<ServerEvent>,
    outcomes: Seq<ForkOutcome>,
    n: nat,
) -> ServerPhase
    decreases n,
{
    if n == 0 {
        start
    } else {
        server_step(
            mode,
            phase_at(mode, start, events, outcomes, (n - 1) as nat),
            events[n - 1],
            outcomes[n - 1],
        ).0
    }
}

/// The action with which such a server answers `events[n]`.
pub open spec fn action_at(
    mode: Mode,
    start: ServerPhase,
    events: Seq<ServerEvent>,
    outcomes: Seq<ForkOutcome>,
    n: nat,
) -> ServerAction {
    server_step(mode, phase_at(mode, start, events, outcomes, n), events[n as int], outcomes[n as int]).1
}

/// Whether a server in `phase` is a worker, or has stopped: it will not wait
/// for a connection again.
pub open spec fn leaf(phase: ServerPhase) -> bool {
    phase is Settling || phase is Worker || phase is Ended || phase is Failed
}

/// Whether `action` belongs to the server's accept loop: the work of the
/// process that listens.
pub open spec fn listens(action: ServerAction) -> bool {
    action is IgnoreChildExit || action is Bind || action is Accept || action is Spawn
}

/// A server that has stopped stays stopped: it answers every event with the
/// error it stopped with.
pub proof fn lemma_failed_is_final(
    mode: Mode,
    start: ServerPhase,
    events: Seq<ServerEvent>,
    outcomes: Seq<ForkOutcome>,
    n: nat,
    m: nat,
)
    requires
        n <= m,
        phase_at(mode, start, events, outcomes, n) is Failed,
    ensures
        phase_at(mode, start, events, outcomes, m) == phase_at(mode, start, events, outcomes, n),
        action_at(mode, start, events, outcomes, m) == ServerAction::Fail(
            phase_at(mode, start, events, outcomes, n)->Failed_0,
        ),
    decreases m - n,
{
    if n < m {
        lemma_failed_is_final(mode, start, events, outcomes, n, (m - 1) as nat);
    }
}

/// A worker is a leaf: once a process or thread is a worker, or the server
/// has stopped, it never goes back into the accept loop, whatever the
/// session came to and whatever is reported to it.
pub proof fn lemma_worker_is_a_leaf(
    mode: Mode,
    start: ServerPhase,
    events: Seq<ServerEvent>,
    outcomes: Seq<ForkOutcome>,
    n: nat,
    m: nat,
)
    requires
        n <= m,
        leaf(phase_at(mode, start, events, outcomes, n)),
    ensures
        leaf(phase_at(mode, start, events, outcomes, m)),
        !listens(action_at(mode, start, events, outcomes, m)),
    decreases m - n,
{
    if n < m {
        lemma_worker_is_a_leaf(mode, start, events, outcomes, n, (m - 1) as nat);
    }
}

/// A worker ends with its session. Under `Mode::Forked` the process exits,
/// with status 0 after a session that went well and 1 after one that failed;
/// under `Mode::Threaded` the thread ends, and a failure is logged first.
/// Neither stops the server: no error is reported.
pub proof fn lemma_worker_ends_with_session(mode: Mode, clean: bool, outcome: ForkOutcome)
    requires
        mode != Mode::Simple,
    ensures
        server_step(mode, ServerPhase::Worker, ServerEvent::SessionEnded { clean }, outcome) == (
            ServerPhase::Ended { clean },
            if mode == Mode::Forked {
                ServerAction::Exit(exit_status(clean))
            } else {
                ServerAction::Retire { failed: !clean }
            },
        ),
{
}

/// Under `Mode::Simple` sessions are served one after the other: if the
/// server has a session served in answer to `events[i]` and another in answer
/// to a later `events[j]`, then the end of the first was reported to it, as
/// the very next event, before the second connection was even waited for.
pub proof fn lemma_simple_serves_in_turn(
    events: Seq<ServerEvent>,
    outcomes: Seq<ForkOutcome>,
    i: nat,
    j: nat,
)
    requires
        i < j,
        action_at(Mode::Simple, ServerPhase::Idle, events, outcomes, i) == ServerAction::Serve,
        action_at(Mode::Simple, ServerPhase::Idle, events, outcomes, j) == ServerAction::Serve,
    ensures
        i + 1 < j,
        events[i as int + 1] == (ServerEvent::SessionEnded { clean: true }),
        action_at(Mode::Simple, ServerPhase::Idle, events, outcomes, i + 1) == ServerAction::Accept,
{
    let mode = Mode::Simple;
    let start = ServerPhase::Idle;
    assert(phase_at(mode, start, events, outcomes, i + 1) == ServerPhase::Serving);
    if events[i as int + 1] != (ServerEvent::SessionEnded { clean: true }) {
        assert(phase_at(mode, start, events, outcomes, i + 2) is Failed);
        if j == i + 1 {
        } else {
            lemma_failed_is_final(mode, start, events, outcomes, i + 2, j);
        }
    }
}

/// Under `Mode::Simple` a session that fails stops the server: every later
/// event is answered with that error.
pub proof fn lemma_simple_failure_stops_server(
    events: Seq<ServerEvent>,
    outcomes: Seq<ForkOutcome>,
    n: nat,
    m: nat,
)
    requires
        n < m,
        phase_at(Mode::Simple, ServerPhase::Idle, events, outcomes, n) == ServerPhase::Serving,
        events[n as int] == (ServerEvent::SessionEnded { clean: false }),
    ensures
        action_at(Mode::Simple, ServerPhase::Idle, events, outcomes, n) == ServerAction::Fail(
            ServerError::Session,
        ),
        action_at(Mode::Simple, ServerPhase::Idle, events, outcomes, m) == ServerAction::Fail(
            ServerError::Session,
        ),
{
    assert(phase_at(Mode::Simple, ServerPhase::Idle, events, outcomes, n + 1)
        == ServerPhase::Failed(ServerError::Session));
    lemma_failed_is_final(Mode::Simple, ServerPhase::Idle, events, outcomes, n + 1, m);
}

/// Under `Mode::Threaded` and `Mode::Forked` the server never waits for a
/// session: while connections keep being accepted, and the worker processes
/// can be created, each connection gets its worker and the server goes
/// straight back to waiting for the next, however many sessions are under
/// way.
pub proof fn lemma_isolated_accepts_without_waiting(
    mode: Mode,
    events: Seq<ServerEvent>,
    outcomes: Seq<ForkOutcome>,
    n: nat,
    count: nat,
)
    requires
        mode != Mode::Simple,
        phase_at(mode, ServerPhase::Idle, events, outcomes, n) == ServerPhase::Accepting,
        forall|k: int| n <= k < n + count ==> #[trigger] events[k] == ServerEvent::Accepted,
        mode == Mode::Forked ==> forall|k: int|
            n <= k < n + count ==> #[trigger] outcomes[k] == ForkOutcome::Parent,
    ensures
        phase_at(mode, ServerPhase::Idle, events, outcomes, n + count) == ServerPhase::Accepting,
        forall|k: nat|
            n <= k < n + count ==> #[trigger] action_at(mode, ServerPhase::Idle, events, outcomes, k)
                == if mode == Mode::Threaded {
                ServerAction::Spawn
            } else {
                ServerAction::Accept
            },
    decreases count,
{
    if count > 0 {
        lemma_isolated_accepts_without_waiting(mode, events, outcomes, n, (count - 1) as nat);
        let last = (n + count - 1) as nat;
        assert(events[last as int] == ServerEvent::Accepted);
        assert(mode == Mode::Forked ==> outcomes[last as int] == ForkOutcome::Parent);
        assert(phase_at(mode, ServerPhase::Idle, events, outcomes, last) == ServerPhase::Accepting);
    }
}

/// Under `Mode::Forked` what came of creating a worker process matters only
/// where one is created: when a connection has been accepted.
pub proof fn lemma_outcome_matters_after_accept_only(
    phase: ServerPhase,
    event: ServerEvent,
    one: ForkOutcome,
    other: ForkOutcome,
)
    requires
        !(phase is Accepting && event is Accepted),
    ensures
        forked_step(phase, event, one) == forked_step(phase, event, other),
{
}

/// Under `Mode::Forked` the process that was created for a connection serves
/// that connection as a worker, once it keeps the exits of its own children
/// again.
pub proof fn lemma_forked_child_serves(outcome: ForkOutcome)
    ensures
        forked_step(ServerPhase::Accepting, ServerEvent::Accepted, ForkOutcome::Child) == (
            ServerPhase::Settling,
            ServerAction::WatchChildExit,
        ),
        forked_step(ServerPhase::Settling, ServerEvent::Done, outcome) == (
            ServerPhase::Worker,
            ServerAction::Serve,
        ),
{
}

/// How far a server under `Mode::Forked` can have come after `n` events.
proof fn lemma_forked_progress(events: Seq<ServerEvent>, outcomes: Seq<ForkOutcome>, n: nat)
    ensures
        ({
            let phase = phase_at(Mode::Forked, ServerPhase::Idle, events, outcomes, n);
            &&& phase is Idle ==> n == 0
            &&& phase is Guarding ==> n == 1 && events[0] == ServerEvent::Start
            &&& !(phase is Serving)
            &&& phase is Binding || phase is Accepting || phase is Settling || phase is Worker
                || phase is Ended ==> n >= 2 && events[0] == ServerEvent::Start && events[1]
                == ServerEvent::Done
        }),
    decreases n,
{
    if n > 0 {
        lemma_forked_progress(events, outcomes, (n - 1) as nat);
    }
}

/// Under `Mode::Forked` no connection is waited for, and no worker process
/// created, before the exits of child processes have been set to be
/// discarded: that is the first thing the server asks for, and it goes on
/// only when told that it was done.
pub proof fn lemma_forked_guards_first(
    events: Seq<ServerEvent>,
    outcomes: Seq<ForkOutcome>,
    n: nat,
)
    requires
        ({
            let action = action_at(Mode::Forked, ServerPhase::Idle, events, outcomes, n);
            action is Bind || action is Accept || action is WatchChildExit || action is Serve
                || action is Exit
        }),
    ensures
        n >= 1,
        action_at(Mode::Forked, ServerPhase::Idle, events, outcomes, 0)
            == ServerAction::IgnoreChildExit,
        events[1] == ServerEvent::Done,
{
    lemma_forked_progress(events, outcomes, n);
}

/// How far the process that listens can have come after `n` events: it is
/// never a worker.
proof fn lemma_listener_progress(
    mode: Mode,
    events: Seq<ServerEvent>,
    outcomes: Seq<ForkOutcome>,
    n: nat,
)
    requires
        forall|k: int| 0 <= k < n ==> #[trigger] outcomes[k] != ForkOutcome::Child,
    ensures
        ({
            let phase = phase_at(mode, ServerPhase::Idle, events, outcomes, n);
            !(phase is Settling) && !(phase is Worker) && !(phase is Ended)
        }),
    decreases n,
{
    if n > 0 {
        lemma_listener_progress(mode, events, outcomes, (n - 1) as nat);
        assert(outcomes[n - 1] != ForkOutcome::Child);
    }
}

/// Serving has no good end. Under every strategy the process that listens,
/// which is the one that was started and never the one that a fork created,
/// goes on for ever or stops with an error: it is never told to exit or to
/// retire, and whenever it is told to stop, it is with the error it has
/// failed with.
pub proof fn lemma_server_ends_only_by_failing(
    mode: Mode,
    events: Seq<ServerEvent>,
    outcomes: Seq<ForkOutcome>,
    n: nat,
)
    requires
        forall|k: int| 0 <= k <= n ==> #[trigger] outcomes[k] != ForkOutcome::Child,
    ensures
        ({
            let action = action_at(mode, ServerPhase::Idle, events, outcomes, n);
            let after = phase_at(mode, ServerPhase::Idle, events, outcomes, n + 1);
            &&& !(action is Exit)
            &&& !(action is Retire)
            &&& !(action is WatchChildExit)
            &&& action is Fail <==> after is Failed
            &&& action is Fail ==> after == ServerPhase::Failed(action->Fail_0)
        }),
{
    lemma_listener_progress(mode, events, outcomes, n);
    assert(outcomes[n as int] != ForkOutcome::Child);
}

} // verus!
