use vstd::prelude::*;

verus! {

/// Exit status of a daemon that stopped as asked.
pub const EXIT_OK: i32 = 0;

/// Exit status of a daemon that failed to start or whose pipeline failed.
pub const EXIT_FAILURE: i32 = 1;

/// Where the daemon is in its life.
#[derive(Debug, Clone, Copy, PartialEq, Eq, Structural)]
pub enum Phase {
    /// Waiting to take the singleton lock.
    Starting,
    /// The lock is held; the socket is being bound.
    Binding,
    /// Serving producers and feeding the sink.
    Running,
    /// Giving the sink a last chance to flush what is queued.
    ShuttingDown,
    /// Done; the process exits.
    Stopped,
}

/// What happened, as seen by the coordinator.
#[derive(Debug, Clone, Copy, PartialEq, Eq, Structural)]
pub enum Event {
    /// The singleton lock was taken.
    LockAcquired,
    /// Another live daemon holds the singleton lock.
    LockHeld,
    /// The lock file could not be opened or locked.
    LockFailed,
    /// The socket is bound and open to producers.
    SocketBound,
    /// Binding the socket failed, or a signal handler could not be set up.
    BindFailed,
    /// A graceful-terminate signal arrived.
    Terminate,
    /// An interrupt signal arrived.
    Interrupt,
    /// The pipeline ended without error.
    PipelineFinished,
    /// The sink reported a fatal transport error.
    PipelineFailed,
    /// The final flush is over.
    Flushed,
}

/// What the coordinator asks its runner to do.
#[derive(Debug, Clone, Copy, PartialEq, Eq, Structural)]
pub enum Action {
    /// Remove a stale socket file if there is one, then bind the socket.
    Bind,
    /// Start the listener, the announcer and the sink consumer.
    Serve,
    /// Let the sink take what is still queued, without waiting for more.
    Flush,
    /// Remove the socket file when `remove_socket`, then exit with `code`.
    Exit { remove_socket: bool, code: i32 },
    /// Nothing to do.
    Nothing,
}

/// The coordinator's state: its phase, whether the socket file it bound
/// exists, and the exit status decided so far.
#[derive(Debug, Clone, Copy, PartialEq, Eq, Structural)]
pub struct Lifecycle {
    pub phase: Phase,
    pub socket_present: bool,
    pub exit_code: i32,
}

/// The state of a daemon that has just started.
pub open spec fn initial() -> Lifecycle {
    Lifecycle { phase: Phase::Starting, socket_present: false, exit_code: EXIT_OK }
}

/// The exit action in state `s` with status `code`.
pub open spec fn exit_action(s: Lifecycle, code: i32) -> Action {
    Action::Exit { remove_socket: s.socket_present, code }
}

/// The action taken on `ev` in state `s`.
pub open spec fn action_of(s: Lifecycle, ev: Event) -> Action {
    match (s.phase, ev) {
        (Phase::Starting, Event::LockAcquired) => Action::Bind,
        (Phase::Starting, Event::LockHeld) => exit_action(s, EXIT_FAILURE),
        (Phase::Starting, Event::LockFailed) => exit_action(s, EXIT_FAILURE),
        (Phase::Binding, Event::SocketBound) => Action::Serve,
        (Phase::Binding, Event::BindFailed) => exit_action(s, EXIT_FAILURE),
        (Phase::Running, Event::Terminate) => Action::Flush,
        (Phase::Running, Event::Interrupt) => Action::Flush,
        (Phase::Running, Event::PipelineFinished) => Action::Flush,
        (Phase::Running, Event::PipelineFailed) => Action::Flush,
        (Phase::ShuttingDown, Event::Flushed) => exit_action(s, s.exit_code),
        (Phase::ShuttingDown, Event::Terminate) => exit_action(s, s.exit_code),
        (Phase::ShuttingDown, Event::Interrupt) => exit_action(s, s.exit_code),
        _ => Action::Nothing,
    }
}

/// The state after `ev` in state `s`.
pub open spec fn next_state(s: Lifecycle, ev: Event) -> Lifecycle {
    match action_of(s, ev) {
        Action::Bind => Lifecycle { phase: Phase::Binding, ..s },
        Action::Serve => Lifecycle { phase: Phase::Running, socket_present: true, ..s },
        Action::Flush => Lifecycle {
            phase: Phase::ShuttingDown,
            exit_code: if ev == Event::PipelineFailed { EXIT_FAILURE } else { EXIT_OK },
            ..s
        },
        Action::Exit { remove_socket: _, code } => Lifecycle {
            phase: Phase::Stopped,
            socket_present: false,
            exit_code: code,
        },
        Action::Nothing => s,
    }
}

/// The states and actions of a run over `evs` from `s`.
pub open spec fn run(s: Lifecycle, evs: Seq<Event>) -> Lifecycle
    decreases evs.len(),
{
    if evs.len() == 0 {
        s
    } else {
        run(next_state(s, evs[0]), evs.drop_first())
    }
}

/// Whether some step of a run over `evs` from `s` asks for `a`.
pub open spec fn asks_for(s: Lifecycle, evs: Seq<Event>, a: Action) -> bool
    decreases evs.len(),
{
    if evs.len() == 0 {
        false
    } else {
        action_of(s, evs[0]) == a || asks_for(next_state(s, evs[0]), evs.drop_first(), a)
    }
}

impl Lifecycle {
    /// A coordinator for a daemon that has just started.
    pub fn new() -> (r: Lifecycle)
        ensures
            r == initial(),
    {
        Lifecycle { phase: Phase::Starting, socket_present: false, exit_code: EXIT_OK }
    }

    fn exit_now(&self, code: i32) -> (r: Action)
        ensures
            r == exit_action(*self, code),
    {
        Action::Exit { remove_socket: self.socket_present, code }
    }

    /// Decides what to do on `ev` and moves to the next phase.
    pub fn step(&mut self, ev: Event) -> (r: Action)
        ensures
            r == action_of(*old(self), ev),
            *final(self) == next_state(*old(self), ev),
    {
        let a = match (self.phase, ev) {
            (Phase::Starting, Event::LockAcquired) => Action::Bind,
            (Phase::Starting, Event::LockHeld) => self.exit_now(EXIT_FAILURE),
            (Phase::Starting, Event::LockFailed) => self.exit_now(EXIT_FAILURE),
            (Phase::Binding, Event::SocketBound) => Action::Serve,
            (Phase::Binding, Event::BindFailed) => self.exit_now(EXIT_FAILURE),
            (Phase::Running, Event::Terminate) => Action::Flush,
            (Phase::Running, Event::Interrupt) => Action::Flush,
            (Phase::Running, Event::PipelineFinished) => Action::Flush,
            (Phase::Running, Event::PipelineFailed) => Action::Flush,
            (Phase::ShuttingDown, Event::Flushed) => self.exit_now(self.exit_code),
            (Phase::ShuttingDown, Event::Terminate) => self.exit_now(self.exit_code),
            (Phase::ShuttingDown, Event::Interrupt) => self.exit_now(self.exit_code),
            _ => Action::Nothing,
        };
        match a {
            Action::Bind => {
                self.phase = Phase::Binding;
            },
            Action::Serve => {
                self.phase = Phase::Running;
                self.socket_present = true;
            },
            Action::Flush => {
                self.phase = Phase::ShuttingDown;
                self.exit_code = if ev == Event::PipelineFailed {
                    EXIT_FAILURE
                } else {
                    EXIT_OK
                };
            },
            Action::Exit { remove_socket: _, code } => {
                self.phase = Phase::Stopped;
                self.socket_present = false;
                self.exit_code = code;
            },
            Action::Nothing => {},
        }
        a
    }
}

/// A stopped daemon stays stopped and does nothing more.
pub proof fn lemma_stopped_is_final(s: Lifecycle, evs: Seq<Event>, a: Action)
    requires
        s.phase == Phase::Stopped,
    ensures
        run(s, evs) == s,
        a != Action::Nothing ==> !asks_for(s, evs, a),
    decreases evs.len(),
{
    if evs.len() > 0 {
        assert(action_of(s, evs[0]) == Action::Nothing);
        lemma_stopped_is_final(s, evs.drop_first(), a);
    }
}

/// When another live daemon holds the lock, a starting daemon exits with a
/// failure status, and never binds, serves or removes a socket file,
/// whatever happens afterwards.
pub proof fn lemma_second_instance_refused(evs: Seq<Event>)
    ensures
        action_of(initial(), Event::LockHeld)
            == (Action::Exit { remove_socket: false, code: EXIT_FAILURE }),
        run(initial(), seq![Event::LockHeld].add(evs)).phase == Phase::Stopped,
        !asks_for(initial(), seq![Event::LockHeld].add(evs), Action::Bind),
        !asks_for(initial(), seq![Event::LockHeld].add(evs), Action::Serve),
        !asks_for(initial(), seq![Event::LockHeld].add(evs), Action::Exit { remove_socket: true, code: EXIT_FAILURE }),
{
    let all = seq![Event::LockHeld].add(evs);
    assert(all.drop_first() =~= evs);
    let s1 = next_state(initial(), Event::LockHeld);
    lemma_stopped_is_final(s1, evs, Action::Bind);
    lemma_stopped_is_final(s1, evs, Action::Serve);
    lemma_stopped_is_final(s1, evs, Action::Exit { remove_socket: true, code: EXIT_FAILURE });
}

/// The socket file exists only while the daemon is running or shutting
/// down.
pub open spec fn socket_inv(s: Lifecycle) -> bool {
    s.socket_present ==> (s.phase == Phase::Running || s.phase == Phase::ShuttingDown)
}

/// Each step keeps the socket file within the running phases, and every
/// step that stops the daemon removes the file if it exists.
pub proof fn lemma_step_socket_inv(s: Lifecycle, ev: Event)
    requires
        socket_inv(s),
    ensures
        socket_inv(next_state(s, ev)),
        next_state(s, ev).phase == Phase::Stopped && s.phase != Phase::Stopped ==>
            action_of(s, ev) == exit_action(s, next_state(s, ev).exit_code),
{
}

/// However the daemon comes to stop (a signal, the end or failure of its
/// pipeline, or a failed start) the socket file is gone afterwards, and the
/// exit status is a failure exactly when the pipeline failed or the start
/// did.
pub proof fn lemma_socket_absent_after_stop(s: Lifecycle, evs: Seq<Event>)
    requires
        socket_inv(s),
    ensures
        socket_inv(run(s, evs)),
        run(s, evs).phase == Phase::Stopped ==> !run(s, evs).socket_present,
    decreases evs.len(),
{
    if evs.len() > 0 {
        lemma_step_socket_inv(s, evs[0]);
        lemma_socket_absent_after_stop(next_state(s, evs[0]), evs.drop_first());
    }
}

} // verus!
