//! The task that restarts the process on request.
use crate::child::{ChildLaunch, ChildSpawnError, LaunchAction, LaunchEvent};
use crate::environment::{
    bind_restart_coordination_socket, fixup_systemd_env, EnvPair, SocketSource,
};
use crate::error::IoFailure;
use crate::restart_coordination_socket::{
    Reply, RestartCoordinationSocket, RestartMessage, RestartResponder,
};
use vstd::prelude::*;
use vstd::string::*;

verus! {

/// Settings for graceful restarts
#[derive(Debug)]
pub struct RestartConfig {
    /// Enables the restart coordination socket for graceful restarts as an alternative to the SIGUSR1 signal.
    pub enabled: bool,
    /// Socket path
    pub coordination_socket_path: Vec<u8>,
    /// Sets environment variables on the newly-started process
    pub environment: Vec<EnvPair>,
    /// Exits early when child process fail to start
    pub exit_on_error: bool,
}

impl Default for RestartConfig {
    fn default() -> (r: Self)
        ensures
            !r.enabled,
            r.coordination_socket_path@.len() == 0,
            r.environment@.len() == 0,
            r.exit_on_error,
    {
        RestartConfig {
            enabled: false,
            coordination_socket_path: Vec::new(),
            environment: Vec::new(),
            exit_on_error: true,
        }
    }
}

/// How a process takes over from its predecessor.
#[derive(Debug, Clone, Copy, PartialEq, Eq, Structural)]
pub enum RestartMode {
    /// The old process starts the new one.
    Fork,
    /// The old process stores its state with systemd, which starts the new process afterwards.
    Systemd,
}

/// Why a restart task ended without a restart.
#[derive(Debug)]
pub enum RestartError {
    /// The start of this process could not be announced.
    Startup(IoFailure),
    /// No more requests can arrive through the restart coordination socket.
    AcceptorTerminated,
    /// The new process did not start, or its state could not be stored.
    RestartFailed(IoFailure),
    /// The thread that starts new processes is gone.
    RestartThreadGone,
}

impl RestartError {
    /// How the error reads.
    pub open spec fn message(self) -> Seq<char> {
        match self {
            RestartError::Startup(e) => e.message(),
            RestartError::AcceptorTerminated => "Restart coordinator socket acceptor terminated"@,
            RestartError::RestartFailed(e) => "Restart failed: "@ + e.message(),
            RestartError::RestartThreadGone => ChildSpawnError::RestartThreadGone.message(),
        }
    }

    /// How the error reads.
    pub fn to_text(&self) -> (r: String)
        ensures
            r@ == self.message(),
    {
        match self {
            RestartError::Startup(e) => e.to_text(),
            RestartError::AcceptorTerminated => String::from_str(
                "Restart coordinator socket acceptor terminated",
            ),
            RestartError::RestartFailed(e) => String::from_str("Restart failed: ").concat(
                e.to_text().as_str(),
            ),
            RestartError::RestartThreadGone => ChildSpawnError::RestartThreadGone.to_text(),
        }
    }
}

/// A request to restart, or the end of requests.
#[derive(Debug, Clone, Copy, PartialEq, Eq, Structural)]
pub enum RequestEvent {
    /// A restart signal arrived.
    Signal,
    /// The restart coordination socket yielded a request, or will yield no more.
    Socket(Option<RestartResponder>),
}

/// The next request to gracefully restart the process.
/// Returns a RestartResponder used to receive the outcome of the restart attempt.
pub fn next_restart_request(event: RequestEvent) -> (r: Result<RestartResponder, RestartError>)
    ensures
        r == match event {
            RequestEvent::Signal => Ok(RestartResponder { rpc: None }),
            RequestEvent::Socket(Some(responder)) => Ok(responder),
            RequestEvent::Socket(None) => Err(RestartError::AcceptorTerminated),
        },
{
    match event {
        RequestEvent::Signal => Ok(RestartResponder { rpc: None }),
        RequestEvent::Socket(Some(responder)) => Ok(responder),
        // Signals could still be served. However whoever has the restart coordination socket
        // enabled probably does not use signals, and needs to recover the process such that the
        // socket can be used again.
        RequestEvent::Socket(None) => Err(RestartError::AcceptorTerminated),
    }
}

/// Where a restart task stands.
#[derive(Debug)]
pub enum TaskPhase {
    /// The start of this process is being announced.
    Starting,
    /// A request is awaited.
    Waiting,
    /// A restart is attempted, and its outcome goes to this responder.
    Attempting(RestartResponder),
    /// The requester is told how the attempt ended.
    Replying(AttemptEnd),
    /// systemd is told the process id of the new process.
    AnnouncingMainPid(u32),
    /// The task has resolved.
    Resolved,
}

/// How an attempt to restart ended.
#[derive(Debug)]
pub enum AttemptEnd {
    /// The restart succeeded, with this process id.
    Succeeded(u32),
    /// The new process did not start, or the state of this process could not be stored.
    Failed(IoFailure),
    /// The thread that starts new processes is gone.
    ThreadGone,
}

/// A task that resolves when a restart succeeds, or if restart becomes impossible.
#[derive(Debug)]
pub struct RestartTask {
    pub phase: TaskPhase,
    pub mode: RestartMode,
    pub exit_on_error: bool,
}

/// What happens to a restart task.
#[derive(Debug)]
pub enum TaskEvent {
    /// The start of this process was announced, or not.
    Announced(Result<(), IoFailure>),
    /// A request arrived, or none will arrive any more.
    Request(RequestEvent),
    /// An attempt to start a new process ended.
    ChildSpawned(Result<u32, ChildSpawnError>),
    /// An attempt to store the state of this process ended; on success, with its process id.
    StateStored(Result<u32, IoFailure>),
    /// The reply to the requester was sent, or could not be sent.
    Replied,
    /// systemd was told the process id of the new process, or could not be told.
    MainPidAnnounced,
}

/// What a restart task does next.
#[derive(Debug)]
pub enum TaskAction {
    /// Wait for a request.
    AwaitRequest,
    /// Start a new process.
    SpawnNewProcess,
    /// Let the lifecycle handler write its state to the memory that systemd stores.
    StoreState,
    /// Send this to the requester.
    SendReply(Reply),
    /// Announce this process id to systemd as that of the main process.
    AnnounceMainPid(u32),
    /// Resolve to the process id of a successful restart, or to an error.
    Resolve(Result<u32, RestartError>),
    /// Go on as before: the event does not belong here.
    Ignore,
}

/// Who is to be told the outcome of what a request begins.
pub open spec fn responder_of(request: RequestEvent) -> RestartResponder {
    match request {
        RequestEvent::Socket(Some(responder)) => responder,
        _ => RestartResponder { rpc: None },
    }
}

/// How an attempt ended, if an event is the end of an attempt in this mode.
pub open spec fn attempt_end(mode: RestartMode, event: TaskEvent) -> Option<AttemptEnd> {
    match (mode, event) {
        (RestartMode::Fork, TaskEvent::ChildSpawned(Ok(pid))) => Some(AttemptEnd::Succeeded(pid)),
        (RestartMode::Fork, TaskEvent::ChildSpawned(Err(ChildSpawnError::ChildError(e)))) => Some(
            AttemptEnd::Failed(e),
        ),
        (
            RestartMode::Fork,
            TaskEvent::ChildSpawned(Err(ChildSpawnError::RestartThreadGone)),
        ) => Some(AttemptEnd::ThreadGone),
        (RestartMode::Systemd, TaskEvent::StateStored(Ok(pid))) => Some(
            AttemptEnd::Succeeded(pid),
        ),
        (RestartMode::Systemd, TaskEvent::StateStored(Err(e))) => Some(AttemptEnd::Failed(e)),
        _ => None,
    }
}

/// The outcome of an attempt as its requester is to be told: the process id, or how the failure
/// reads.
pub open spec fn attempt_outcome(event: TaskEvent) -> Result<u32, Seq<char>> {
    match event {
        TaskEvent::ChildSpawned(Err(e)) => Err(e.message()),
        TaskEvent::StateStored(Err(e)) => Err(e.message()),
        TaskEvent::ChildSpawned(Ok(pid)) => Ok(pid),
        TaskEvent::StateStored(Ok(pid)) => Ok(pid),
        _ => Err(Seq::empty()),
    }
}

/// Whether an action tells the requester on this connection the outcome of an attempt.
pub open spec fn is_reply(
    action: TaskAction,
    connection: u64,
    outcome: Result<u32, Seq<char>>,
) -> bool {
    &&& action is SendReply
    &&& action->SendReply_0.connection == connection
    &&& action->SendReply_0.message is Response
    &&& crate::restart_coordination_socket::told(action->SendReply_0.message) == outcome
}

/// What follows an attempt once its requester, if there is one, has been told: the new main process
/// is announced, the task resolves, or the next request is awaited.
pub open spec fn concluded(mode: RestartMode, exit_on_error: bool, end: AttemptEnd) -> (
    TaskPhase,
    TaskAction,
) {
    match end {
        AttemptEnd::Succeeded(pid) => match mode {
            RestartMode::Fork => (
                TaskPhase::AnnouncingMainPid(pid),
                TaskAction::AnnounceMainPid(pid),
            ),
            RestartMode::Systemd => (TaskPhase::Resolved, TaskAction::Resolve(Ok(pid))),
        },
        AttemptEnd::Failed(e) => if exit_on_error {
            (TaskPhase::Resolved, TaskAction::Resolve(Err(RestartError::RestartFailed(e))))
        } else {
            (TaskPhase::Waiting, TaskAction::AwaitRequest)
        },
        AttemptEnd::ThreadGone => (
            TaskPhase::Resolved,
            TaskAction::Resolve(Err(RestartError::RestartThreadGone)),
        ),
    }
}

/// The steps of a restart task.
pub open spec fn task_step(
    pre: RestartTask,
    event: TaskEvent,
    post: RestartTask,
    action: TaskAction,
) -> bool {
    &&& post.mode == pre.mode
    &&& post.exit_on_error == pre.exit_on_error
    &&& match (pre.phase, event) {
        (TaskPhase::Starting, TaskEvent::Announced(Ok(()))) => {
            &&& post.phase == TaskPhase::Waiting
            &&& action == TaskAction::AwaitRequest
        },
        (TaskPhase::Starting, TaskEvent::Announced(Err(e))) => {
            &&& post.phase == TaskPhase::Resolved
            &&& action == TaskAction::Resolve(Err(RestartError::Startup(e)))
        },
        (TaskPhase::Waiting, TaskEvent::Request(RequestEvent::Socket(None))) => {
            &&& post.phase == TaskPhase::Resolved
            &&& action == TaskAction::Resolve(Err(RestartError::AcceptorTerminated))
        },
        (TaskPhase::Waiting, TaskEvent::Request(request)) => {
            &&& post.phase == TaskPhase::Attempting(responder_of(request))
            &&& action == match pre.mode {
                RestartMode::Fork => TaskAction::SpawnNewProcess,
                RestartMode::Systemd => TaskAction::StoreState,
            }
        },
        (TaskPhase::Attempting(responder), _) => match (
            attempt_end(pre.mode, event),
            responder.rpc,
        ) {
            (Some(end), Some(connection)) => {
                &&& post.phase == TaskPhase::Replying(end)
                &&& is_reply(action, connection, attempt_outcome(event))
            },
            (Some(end), None) => (post.phase, action) == concluded(
                pre.mode,
                pre.exit_on_error,
                end,
            ),
            (None, _) => post.phase == pre.phase && action == TaskAction::Ignore,
        },
        (TaskPhase::Replying(end), TaskEvent::Replied) => (post.phase, action) == concluded(
            pre.mode,
            pre.exit_on_error,
            end,
        ),
        (TaskPhase::AnnouncingMainPid(pid), TaskEvent::MainPidAnnounced) => {
            &&& post.phase == TaskPhase::Resolved
            &&& action == TaskAction::Resolve(Ok(pid))
        },
        _ => post.phase == pre.phase && action == TaskAction::Ignore,
    }
}

impl RestartTask {
    /// A task of a process of which the start has yet to be announced.
    pub fn new(mode: RestartMode, exit_on_error: bool) -> (r: Self)
        ensures
            r == (RestartTask { phase: TaskPhase::Starting, mode, exit_on_error }),
    {
        RestartTask { phase: TaskPhase::Starting, mode, exit_on_error }
    }

    /// Goes on after an attempt of which the requester, if there is one, has been told.
    fn conclude(&mut self, end: AttemptEnd) -> (r: TaskAction)
        ensures
            final(self).mode == old(self).mode,
            final(self).exit_on_error == old(self).exit_on_error,
            (final(self).phase, r) == concluded(old(self).mode, old(self).exit_on_error, end),
    {
        match end {
            AttemptEnd::Succeeded(pid) => match self.mode {
                RestartMode::Fork => {
                    self.phase = TaskPhase::AnnouncingMainPid(pid);
                    TaskAction::AnnounceMainPid(pid)
                },
                RestartMode::Systemd => {
                    self.phase = TaskPhase::Resolved;
                    TaskAction::Resolve(Ok(pid))
                },
            },
            AttemptEnd::Failed(e) => if self.exit_on_error {
                self.phase = TaskPhase::Resolved;
                TaskAction::Resolve(Err(RestartError::RestartFailed(e)))
            } else {
                self.phase = TaskPhase::Waiting;
                TaskAction::AwaitRequest
            },
            AttemptEnd::ThreadGone => {
                self.phase = TaskPhase::Resolved;
                TaskAction::Resolve(Err(RestartError::RestartThreadGone))
            },
        }
    }

    /// Ends an attempt, given what its requester is to be told.
    fn end_attempt(
        &mut self,
        responder: RestartResponder,
        outcome: Result<u32, String>,
        end: AttemptEnd,
    ) -> (r: TaskAction)
        ensures
            final(self).mode == old(self).mode,
            final(self).exit_on_error == old(self).exit_on_error,
            match responder.rpc {
                Some(connection) => {
                    &&& final(self).phase == TaskPhase::Replying(end)
                    &&& is_reply(
                        r,
                        connection,
                        crate::restart_coordination_socket::outcome(outcome),
                    )
                },
                None => (final(self).phase, r) == concluded(
                    old(self).mode,
                    old(self).exit_on_error,
                    end,
                ),
            },
    {
        match responder.respond(outcome) {
            Some(reply) => {
                self.phase = TaskPhase::Replying(end);
                TaskAction::SendReply(reply)
            },
            None => self.conclude(end),
        }
    }

    /// Takes in an event and tells what to do next.
    pub fn step(&mut self, event: TaskEvent) -> (r: TaskAction)
        ensures
            task_step(*old(self), event, *final(self), r),
    {
        let mut phase = TaskPhase::Resolved;
        std::mem::swap(&mut phase, &mut self.phase);
        match (phase, event) {
            (TaskPhase::Starting, TaskEvent::Announced(announced)) => match announced {
                Ok(()) => {
                    self.phase = TaskPhase::Waiting;
                    TaskAction::AwaitRequest
                },
                Err(e) => TaskAction::Resolve(Err(RestartError::Startup(e))),
            },
            (TaskPhase::Waiting, TaskEvent::Request(request)) => match next_restart_request(
                request,
            ) {
                Ok(responder) => {
                    self.phase = TaskPhase::Attempting(responder);
                    match self.mode {
                        RestartMode::Fork => TaskAction::SpawnNewProcess,
                        RestartMode::Systemd => TaskAction::StoreState,
                    }
                },
                Err(e) => TaskAction::Resolve(Err(e)),
            },
            (TaskPhase::Attempting(responder), event) => match (self.mode, event) {
                (RestartMode::Fork, TaskEvent::ChildSpawned(spawned)) => {
                    let outcome = match &spawned {
                        Ok(pid) => Ok(*pid),
                        Err(e) => Err(e.to_text()),
                    };
                    let end = match spawned {
                        Ok(pid) => AttemptEnd::Succeeded(pid),
                        Err(ChildSpawnError::ChildError(e)) => AttemptEnd::Failed(e),
                        Err(ChildSpawnError::RestartThreadGone) => AttemptEnd::ThreadGone,
                    };
                    self.end_attempt(responder, outcome, end)
                },
                (RestartMode::Systemd, TaskEvent::StateStored(stored)) => {
                    let outcome = match &stored {
                        Ok(pid) => Ok(*pid),
                        Err(e) => Err(e.to_text()),
                    };
                    let end = match stored {
                        Ok(pid) => AttemptEnd::Succeeded(pid),
                        Err(e) => AttemptEnd::Failed(e),
                    };
                    self.end_attempt(responder, outcome, end)
                },
                _ => {
                    self.phase = TaskPhase::Attempting(responder);
                    TaskAction::Ignore
                },
            },
            (TaskPhase::Replying(end), TaskEvent::Replied) => self.conclude(end),
            (TaskPhase::AnnouncingMainPid(pid), TaskEvent::MainPidAnnounced) => {
                TaskAction::Resolve(Ok(pid))
            },
            (phase, _) => {
                self.phase = phase;
                TaskAction::Ignore
            },
        }
    }
}

/// What a process needs to serve restart requests.
#[derive(Debug)]
pub struct RestartSetup {
    /// Where the restart coordination socket comes from, if it is used.
    pub socket: Option<SocketSource>,
    /// Where the restart coordination socket is, if it has to be bound.
    pub coordination_socket_path: Vec<u8>,
    /// The environment variables to set on a new process.
    pub environment: Vec<EnvPair>,
    /// The task to run.
    pub task: RestartTask,
}

/// Where the restart coordination socket comes from, if it is used at all.
pub open spec fn socket_source(enabled: bool, inherited: Option<&str>) -> Result<
    Option<SocketSource>,
    IoFailure,
> {
    if !enabled {
        Ok(None)
    } else {
        match inherited {
            None => Ok(Some(SocketSource::Bind)),
            Some(text) => match crate::text::parsed_i32(text@) {
                Some(fd) => Ok(Some(SocketSource::Inherit(fd))),
                None => Err(IoFailure::InvalidFd),
            },
        }
    }
}

/// Where the restart coordination socket comes from, if it is used at all, given the descriptor
/// that the environment names, if any.
pub fn new_restart_coordination_socket_stream(enabled: bool, inherited: Option<&str>) -> (r: Result<
    Option<SocketSource>,
    IoFailure,
>)
    ensures
        r == socket_source(enabled, inherited),
{
    if enabled {
        match bind_restart_coordination_socket(inherited) {
            Ok(source) => Ok(Some(source)),
            Err(e) => Err(e),
        }
    } else {
        Ok(None)
    }
}

/// Whether a result is what the settings ask for: a setup with a task that is yet to start, or the
/// reason why there is no restart coordination socket.
pub open spec fn is_setup_result(
    result: Result<RestartSetup, IoFailure>,
    settings: RestartConfig,
    mode: RestartMode,
    inherited: Option<&str>,
) -> bool {
    result == match socket_source(settings.enabled, inherited) {
        Ok(socket) => Ok(
            RestartSetup {
                socket,
                coordination_socket_path: settings.coordination_socket_path,
                environment: settings.environment,
                task: RestartTask {
                    phase: TaskPhase::Starting,
                    mode,
                    exit_on_error: settings.exit_on_error,
                },
            },
        ),
        Err(e) => Err(e),
    }
}

/// Sets up the task that restarts the process, given the descriptor of an inherited restart
/// coordination socket that the environment names, if any.
pub fn spawn_restart_task(settings: RestartConfig, mode: RestartMode, inherited: Option<&str>) -> (r:
    Result<RestartSetup, IoFailure>)
    ensures
        is_setup_result(r, settings, mode, inherited),
{
    match new_restart_coordination_socket_stream(settings.enabled, inherited) {
        Ok(socket) => Ok(
            RestartSetup {
                socket,
                coordination_socket_path: settings.coordination_socket_path,
                environment: settings.environment,
                task: RestartTask::new(mode, settings.exit_on_error),
            },
        ),
        Err(e) => Err(e),
    }
}

impl RestartConfig {
    /// Prepare the current process to handle restarts by starting a new process, if enabled.
    /// The first part of the result is what to put into `LISTEN_PID`, if anything, in any case.
    pub fn try_into_restart_task(
        self,
        listen_pid: Option<&str>,
        pid: u32,
        inherited: Option<&str>,
    ) -> (r: (Option<String>, Result<RestartSetup, IoFailure>))
        ensures
            crate::environment::fixed_up(r.0, crate::environment::var_view(listen_pid), pid),
            is_setup_result(r.1, self, RestartMode::Fork, inherited),
    {
        (
            fixup_systemd_env(listen_pid, pid),
            spawn_restart_task(self, RestartMode::Fork, inherited),
        )
    }

    /// Prepare the current process to handle restarts by storing its state with systemd, if
    /// enabled.
    /// The first part of the result is what to put into `LISTEN_PID`, if anything, in any case.
    pub fn try_into_systemd_restart_task(
        self,
        listen_pid: Option<&str>,
        pid: u32,
        inherited: Option<&str>,
    ) -> (r: (Option<String>, Result<RestartSetup, IoFailure>))
        ensures
            crate::environment::fixed_up(r.0, crate::environment::var_view(listen_pid), pid),
            is_setup_result(r.1, self, RestartMode::Systemd, inherited),
    {
        (
            fixup_systemd_env(listen_pid, pid),
            spawn_restart_task(self, RestartMode::Systemd, inherited),
        )
    }

    /// Request an already-running service to restart: what to send to the restart coordination
    /// socket.
    pub fn request_restart(&self) -> (r: Result<RestartMessage, String>)
        ensures
            self.enabled ==> r == Ok::<RestartMessage, String>(
                RestartMessage::Request(
                    crate::restart_coordination_socket::RestartRequest::TryRestart,
                ),
            ),
            !self.enabled ==> r is Err && r->Err_0@
                == "no restart coordination socket socket defined in config"@,
    {
        if !self.enabled {
            return Err(
                String::from_str("no restart coordination socket socket defined in config"),
            );
        }
        Ok(RestartCoordinationSocket::send_restart_command())
    }
}

/// A course of a restart task: the states that it goes through, what happened in each of them, and
/// what was done next.
pub open spec fn task_trace(
    tasks: Seq<RestartTask>,
    events: Seq<TaskEvent>,
    actions: Seq<TaskAction>,
) -> bool {
    &&& tasks.len() == events.len() + 1
    &&& actions.len() == events.len()
    &&& tasks[0].phase is Starting
    &&& forall|i: int|
        #![trigger actions[i]]
        0 <= i < actions.len() ==> task_step(tasks[i], events[i], tasks[i + 1], actions[i])
}

/// Whether an action begins an attempt to restart.
pub open spec fn is_attempt(action: TaskAction) -> bool {
    action is SpawnNewProcess || action is StoreState
}

/// Whether no attempt to restart begins behind step `i` and before step `m`.
pub open spec fn no_attempt_between(actions: Seq<TaskAction>, i: int, m: int) -> bool {
    forall|k: int| i < k < m ==> !is_attempt(#[trigger] actions[k])
}

/// Whether an attempt to restart ends at step `k`.
pub open spec fn ends_attempt(tasks: Seq<RestartTask>, k: int) -> bool {
    tasks[k].phase is Attempting && !(tasks[k + 1].phase is Attempting)
}

/// Whether exactly one reply is sent behind step `i` and before step `m`: on this connection, when
/// the attempt ends, and telling how it ended.
pub open spec fn answered_once(
    tasks: Seq<RestartTask>,
    events: Seq<TaskEvent>,
    actions: Seq<TaskAction>,
    i: int,
    m: int,
    connection: u64,
) -> bool {
    exists|k: int|
        #![trigger actions[k]]
        {
            &&& i < k < m
            &&& ends_attempt(tasks, k)
            &&& is_reply(actions[k], connection, attempt_outcome(events[k]))
            &&& forall|n: int| i < n < m && #[trigger] actions[n] is SendReply ==> n == k
        }
}

/// Whether no reply is sent behind step `i` and before step `m`.
pub open spec fn no_reply_between(actions: Seq<TaskAction>, i: int, m: int) -> bool {
    forall|n: int| i < n < m ==> !(#[trigger] actions[n] is SendReply)
}

proof fn lemma_mode_stays(
    tasks: Seq<RestartTask>,
    events: Seq<TaskEvent>,
    actions: Seq<TaskAction>,
    m: int,
)
    requires
        task_trace(tasks, events, actions),
        0 <= m < tasks.len(),
    ensures
        tasks[m].mode == tasks[0].mode,
        tasks[m].exit_on_error == tasks[0].exit_on_error,
    decreases m,
{
    if m > 0 {
        lemma_mode_stays(tasks, events, actions, m - 1);
        assert(task_step(tasks[m - 1], events[m - 1], tasks[m], actions[m - 1]));
    }
}

/// Whoever initiates an upgrade over the restart coordination socket gets to know whether it
/// succeeded: as long as the attempt lasts nothing is sent, and once it is over, exactly one reply
/// has been sent, on the connection on which the request came, which tells the process id or how
/// the failure reads. A signal is answered by nothing.
pub proof fn law_requester_is_answered(
    tasks: Seq<RestartTask>,
    events: Seq<TaskEvent>,
    actions: Seq<TaskAction>,
    i: int,
    m: int,
)
    requires
        task_trace(tasks, events, actions),
        0 <= i < m < tasks.len(),
        is_attempt(actions[i]),
        no_attempt_between(actions, i, m),
    ensures
        events[i] is Request,
        ({
            let responder = responder_of(events[i]->Request_0);
            &&& tasks[m].phase is Attempting ==> {
                &&& tasks[m].phase->Attempting_0 == responder
                &&& no_reply_between(actions, i, m)
            }
            &&& !(tasks[m].phase is Attempting) ==> match responder.rpc {
                Some(connection) => answered_once(tasks, events, actions, i, m, connection),
                None => no_reply_between(actions, i, m) && !(tasks[m].phase is Replying),
            }
        }),
    decreases m,
{
    let n = m - 1;
    assert(task_step(tasks[i], events[i], tasks[i + 1], actions[i]));
    assert(task_step(tasks[n], events[n], tasks[n + 1], actions[n]));
    if n > i {
        law_requester_is_answered(tasks, events, actions, i, n);
        let responder = responder_of(events[i]->Request_0);
        if !(tasks[m].phase is Attempting) && responder.rpc is Some {
            let connection = responder.rpc->0;
            if tasks[n].phase is Attempting {
                assert(is_reply(actions[n], connection, attempt_outcome(events[n])));
            } else {
                let k = choose|k: int|
                    #![trigger actions[k]]
                    {
                        &&& i < k < n
                        &&& ends_attempt(tasks, k)
                        &&& is_reply(actions[k], connection, attempt_outcome(events[k]))
                        &&& forall|l: int| i < l < n && #[trigger] actions[l] is SendReply ==> l
                            == k
                    };
                assert(!(actions[n] is SendReply));
                assert(is_reply(actions[k], connection, attempt_outcome(events[k])));
            }
        }
    }
}

/// The requester of an attempt has been told its outcome, once, when the next attempt begins.
pub proof fn law_answered_before_next_attempt(
    tasks: Seq<RestartTask>,
    events: Seq<TaskEvent>,
    actions: Seq<TaskAction>,
    i: int,
    j: int,
)
    requires
        task_trace(tasks, events, actions),
        0 <= i < j < actions.len(),
        is_attempt(actions[i]),
        is_attempt(actions[j]),
        no_attempt_between(actions, i, j),
    ensures
        events[i] is Request,
        match responder_of(events[i]->Request_0).rpc {
            Some(connection) => answered_once(tasks, events, actions, i, j, connection),
            None => no_reply_between(actions, i, j),
        },
{
    assert(task_step(tasks[j], events[j], tasks[j + 1], actions[j]));
    law_requester_is_answered(tasks, events, actions, i, j);
}

/// A reply goes out first: before the new main process is announced, and before the task resolves
/// on an attempt, the requester of the attempt has been told its outcome.
pub proof fn law_reply_comes_first(
    tasks: Seq<RestartTask>,
    events: Seq<TaskEvent>,
    actions: Seq<TaskAction>,
    i: int,
    m: int,
)
    requires
        task_trace(tasks, events, actions),
        0 <= i < m < actions.len(),
        is_attempt(actions[i]),
        no_attempt_between(actions, i, m),
        actions[m] is AnnounceMainPid || actions[m] is Resolve,
    ensures
        events[i] is Request,
        responder_of(events[i]->Request_0).rpc matches Some(connection) ==> answered_once(
            tasks,
            events,
            actions,
            i,
            m,
            connection,
        ),
{
    assert(task_step(tasks[m], events[m], tasks[m + 1], actions[m]));
    law_requester_is_answered(tasks, events, actions, i, m);
}

proof fn lemma_attempting_until_ended(
    tasks: Seq<RestartTask>,
    events: Seq<TaskEvent>,
    actions: Seq<TaskAction>,
    i: int,
    m: int,
)
    requires
        task_trace(tasks, events, actions),
        0 <= i < m < tasks.len(),
        is_attempt(actions[i]),
    ensures
        tasks[m].phase is Attempting || exists|k: int|
            i < k < m && #[trigger] ends_attempt(tasks, k),
    decreases m,
{
    assert(task_step(tasks[m - 1], events[m - 1], tasks[m], actions[m - 1]));
    if m > i + 1 {
        lemma_attempting_until_ended(tasks, events, actions, i, m - 1);
        if !(tasks[m].phase is Attempting) && tasks[m - 1].phase is Attempting {
            assert(ends_attempt(tasks, m - 1));
        }
    }
}

/// Only a single upgrade is ever run in parallel: before an attempt begins, the one before it has
/// ended.
pub proof fn law_single_upgrade_at_a_time(
    tasks: Seq<RestartTask>,
    events: Seq<TaskEvent>,
    actions: Seq<TaskAction>,
    i: int,
    j: int,
)
    requires
        task_trace(tasks, events, actions),
        0 <= i < j < actions.len(),
        is_attempt(actions[i]),
        is_attempt(actions[j]),
    ensures
        exists|k: int| i < k < j && #[trigger] ends_attempt(tasks, k),
{
    assert(task_step(tasks[j], events[j], tasks[j + 1], actions[j]));
    lemma_attempting_until_ended(tasks, events, actions, i, j);
}

/// A task that has resolved does nothing any more; in particular, after a successful upgrade no
/// further one is attempted.
pub proof fn law_resolved_task_does_nothing(
    tasks: Seq<RestartTask>,
    events: Seq<TaskEvent>,
    actions: Seq<TaskAction>,
    i: int,
    j: int,
)
    requires
        task_trace(tasks, events, actions),
        0 <= i < j < actions.len(),
        actions[i] is Resolve,
    ensures
        tasks[j].phase is Resolved,
        actions[j] is Ignore,
    decreases j,
{
    assert(task_step(tasks[i], events[i], tasks[i + 1], actions[i]));
    if j > i + 1 {
        law_resolved_task_does_nothing(tasks, events, actions, i, j - 1);
        assert(task_step(tasks[j - 1], events[j - 1], tasks[j], actions[j - 1]));
    }
    assert(task_step(tasks[j], events[j], tasks[j + 1], actions[j]));
}

/// Whether step `k` is the last one before step `m` at which an attempt ended, and it ended this
/// way.
pub open spec fn last_attempt_ended(
    tasks: Seq<RestartTask>,
    events: Seq<TaskEvent>,
    k: int,
    m: int,
    end: AttemptEnd,
) -> bool {
    &&& 0 <= k < m
    &&& ends_attempt(tasks, k)
    &&& attempt_end(tasks[0].mode, events[k]) == Some(end)
    &&& forall|n: int| k < n < m ==> !#[trigger] ends_attempt(tasks, n)
}

proof fn lemma_phase_after_attempt(
    tasks: Seq<RestartTask>,
    events: Seq<TaskEvent>,
    actions: Seq<TaskAction>,
    m: int,
)
    requires
        task_trace(tasks, events, actions),
        0 <= m < tasks.len(),
    ensures
        tasks[m].phase matches TaskPhase::Replying(end) ==> exists|k: int| #[trigger]
            last_attempt_ended(tasks, events, k, m, end),
        tasks[m].phase matches TaskPhase::AnnouncingMainPid(pid) ==> {
            &&& tasks[m].mode is Fork
            &&& exists|k: int| #[trigger]
                last_attempt_ended(tasks, events, k, m, AttemptEnd::Succeeded(pid))
            &&& exists|k: int|
                0 <= k < m && #[trigger] actions[k] == TaskAction::AnnounceMainPid(pid)
        },
    decreases m,
{
    if m > 0 {
        let n = m - 1;
        lemma_phase_after_attempt(tasks, events, actions, n);
        lemma_mode_stays(tasks, events, actions, n);
        assert(task_step(tasks[n], events[n], tasks[m], actions[n]));
        match tasks[m].phase {
            TaskPhase::Replying(end) => {
                if tasks[n].phase is Attempting {
                    assert(last_attempt_ended(tasks, events, n, m, end));
                } else {
                    let k = choose|k: int| #[trigger] last_attempt_ended(tasks, events, k, n, end);
                    assert(last_attempt_ended(tasks, events, k, m, end));
                }
            },
            TaskPhase::AnnouncingMainPid(pid) => {
                let end = AttemptEnd::Succeeded(pid);
                if tasks[n].phase is Attempting {
                    assert(last_attempt_ended(tasks, events, n, m, end));
                    assert(actions[n] == TaskAction::AnnounceMainPid(pid));
                } else {
                    let k = choose|k: int| #[trigger] last_attempt_ended(tasks, events, k, n, end);
                    assert(last_attempt_ended(tasks, events, k, m, end));
                    if tasks[n].phase is Replying {
                        assert(actions[n] == TaskAction::AnnounceMainPid(pid));
                    }
                }
            },
            _ => {},
        }
    }
}

/// The task resolves successfully only if an attempt succeeded, the last one, and then to the
/// process id that the attempt gave. A new process has then been announced as the main process.
pub proof fn law_success_comes_from_an_attempt(
    tasks: Seq<RestartTask>,
    events: Seq<TaskEvent>,
    actions: Seq<TaskAction>,
    m: int,
    pid: u32,
)
    requires
        task_trace(tasks, events, actions),
        0 <= m < actions.len(),
        actions[m] == TaskAction::Resolve(Ok(pid)),
    ensures
        exists|k: int| #[trigger]
            last_attempt_ended(tasks, events, k, m + 1, AttemptEnd::Succeeded(pid)),
        tasks[m].mode is Fork ==> exists|k: int|
            0 <= k < m && #[trigger] actions[k] == TaskAction::AnnounceMainPid(pid),
{
    let end = AttemptEnd::Succeeded(pid);
    assert(task_step(tasks[m], events[m], tasks[m + 1], actions[m]));
    lemma_mode_stays(tasks, events, actions, m);
    lemma_phase_after_attempt(tasks, events, actions, m);
    if tasks[m].phase is Attempting {
        assert(last_attempt_ended(tasks, events, m, m + 1, end));
    } else {
        let k = choose|k: int| #[trigger] last_attempt_ended(tasks, events, k, m, end);
        assert(last_attempt_ended(tasks, events, k, m + 1, end));
    }
}

/// A successful attempt is the last one: nothing is done afterwards but to tell the requester, to
/// announce the new main process, and to resolve to its process id.
pub proof fn law_success_ends_the_task(
    tasks: Seq<RestartTask>,
    events: Seq<TaskEvent>,
    actions: Seq<TaskAction>,
    k: int,
    m: int,
    pid: u32,
)
    requires
        task_trace(tasks, events, actions),
        0 <= k < m < tasks.len(),
        ends_attempt(tasks, k),
        attempt_end(tasks[0].mode, events[k]) == Some(AttemptEnd::Succeeded(pid)),
    ensures
        ({
            ||| tasks[m].phase == TaskPhase::Replying(AttemptEnd::Succeeded(pid))
            ||| tasks[m].phase == TaskPhase::AnnouncingMainPid(pid)
            ||| tasks[m].phase is Resolved
        }),
        ({
            ||| actions[m - 1] is SendReply
            ||| actions[m - 1] == TaskAction::AnnounceMainPid(pid)
            ||| actions[m - 1] == TaskAction::Resolve(Ok(pid))
            ||| actions[m - 1] is Ignore
        }),
    decreases m,
{
    let n = m - 1;
    lemma_mode_stays(tasks, events, actions, n);
    assert(task_step(tasks[n], events[n], tasks[m], actions[n]));
    if n > k {
        law_success_ends_the_task(tasks, events, actions, k, n, pid);
    }
}

proof fn lemma_replying_stays(
    tasks: Seq<RestartTask>,
    events: Seq<TaskEvent>,
    actions: Seq<TaskAction>,
    k: int,
    m: int,
)
    requires
        task_trace(tasks, events, actions),
        0 <= k <= m < tasks.len(),
        tasks[k].phase is Replying,
        forall|n: int| k <= n < m ==> !(#[trigger] events[n] is Replied),
    ensures
        tasks[m] == tasks[k],
    decreases m,
{
    if k < m {
        lemma_replying_stays(tasks, events, actions, k, m - 1);
        assert(!(events[m - 1] is Replied));
        assert(task_step(tasks[m - 1], events[m - 1], tasks[m], actions[m - 1]));
    }
}

/// Crashing during initialisation is fine: when an attempt fails and the settings do not say to
/// exit then, the task is as it was before the request, and awaits the next one, as soon as the
/// requester, if there is one, has been told.
pub proof fn law_failed_attempt_changes_nothing(
    tasks: Seq<RestartTask>,
    events: Seq<TaskEvent>,
    actions: Seq<TaskAction>,
    i: int,
    k: int,
    m: int,
)
    requires
        task_trace(tasks, events, actions),
        !tasks[0].exit_on_error,
        0 <= i < k <= m < actions.len(),
        is_attempt(actions[i]),
        no_attempt_between(actions, i, k),
        ends_attempt(tasks, k),
        attempt_end(tasks[0].mode, events[k]) is Some,
        attempt_end(tasks[0].mode, events[k])->0 is Failed,
        if responder_of(events[i]->Request_0).rpc is Some {
            &&& m > k
            &&& events[m] is Replied
            &&& forall|n: int| k < n < m ==> !(#[trigger] events[n] is Replied)
        } else {
            m == k
        },
    ensures
        tasks[m + 1] == tasks[i],
        actions[m] is AwaitRequest,
{
    lemma_mode_stays(tasks, events, actions, i);
    lemma_mode_stays(tasks, events, actions, k);
    lemma_mode_stays(tasks, events, actions, m);
    assert(task_step(tasks[i], events[i], tasks[i + 1], actions[i]));
    assert(task_step(tasks[k], events[k], tasks[k + 1], actions[k]));
    assert(task_step(tasks[m], events[m], tasks[m + 1], actions[m]));
    law_requester_is_answered(tasks, events, actions, i, k);
    if m > k {
        lemma_replying_stays(tasks, events, actions, k + 1, m);
    }
}

/// When a new process does not get ready, whoever asked for the restart over the restart
/// coordination socket is told that the child failed to start, and why.
pub proof fn law_failed_start_is_reported(
    during: RestartTask,
    connection: u64,
    failure: IoFailure,
    after: RestartTask,
    action: TaskAction,
)
    requires
        during.mode == RestartMode::Fork,
        during.phase == TaskPhase::Attempting(RestartResponder { rpc: Some(connection) }),
        task_step(
            during,
            TaskEvent::ChildSpawned(crate::child::spawn_result(true, Some(Err(failure)))),
            after,
            action,
        ),
    ensures
        is_reply(action, connection, Err("Child failed to start: "@ + failure.message())),
{
}

/// The old process ends only after the new one is ready: when the task resolves successfully, and
/// the last attempt ended with what the launch of a new process gave, that process was started
/// under the process id that the task resolves to, got its state, and announced that it is ready.
pub proof fn law_resolves_only_after_new_process_is_ready(
    launches: Seq<ChildLaunch>,
    launch_events: Seq<LaunchEvent>,
    launch_actions: Seq<LaunchAction>,
    j: int,
    result: Result<u32, IoFailure>,
    tasks: Seq<RestartTask>,
    events: Seq<TaskEvent>,
    actions: Seq<TaskAction>,
    k: int,
    m: int,
    pid: u32,
)
    requires
        crate::child::launch_trace(launches, launch_events, launch_actions),
        0 <= j < launch_actions.len(),
        launch_actions[j] == LaunchAction::Finish(result),
        task_trace(tasks, events, actions),
        tasks[0].mode is Fork,
        0 <= k <= m < actions.len(),
        ends_attempt(tasks, k),
        forall|n: int| k < n <= m ==> !#[trigger] ends_attempt(tasks, n),
        events[k] == TaskEvent::ChildSpawned(crate::child::spawn_result(true, Some(result))),
        actions[m] == TaskAction::Resolve(Ok(pid)),
    ensures
        launch_events[j] == LaunchEvent::NotificationRead(Ok(1)),
        exists|i: int, l: int|
            0 <= i < l < j && #[trigger] crate::child::started_at(
                launch_events,
                launch_actions,
                i,
                pid,
            ) && #[trigger] crate::child::state_sent_at(launch_events, launch_actions, l),
{
    law_success_comes_from_an_attempt(tasks, events, actions, m, pid);
    let last = choose|last: int| #[trigger]
        last_attempt_ended(tasks, events, last, m + 1, AttemptEnd::Succeeded(pid));
    assert(ends_attempt(tasks, last));
    assert(last == k);
    assert(result == Ok::<u32, IoFailure>(pid));
    crate::child::law_success_means_ready(launches, launch_events, launch_actions, j, pid);
}

proof fn lemma_announced_before(
    tasks: Seq<RestartTask>,
    events: Seq<TaskEvent>,
    actions: Seq<TaskAction>,
    m: int,
)
    requires
        task_trace(tasks, events, actions),
        0 <= m < tasks.len(),
        !(tasks[m].phase is Starting),
        !(tasks[m].phase is Resolved),
    ensures
        exists|k: int|
            0 <= k < m && #[trigger] events[k] is Announced && events[k]->Announced_0 is Ok,
    decreases m,
{
    assert(task_step(tasks[m - 1], events[m - 1], tasks[m], actions[m - 1]));
    if tasks[m - 1].phase is Starting {
        assert(events[m - 1] is Announced);
    } else {
        lemma_announced_before(tasks, events, actions, m - 1);
    }
}

/// No restart is attempted before the start of this process has been announced successfully.
pub proof fn law_announced_before_any_attempt(
    tasks: Seq<RestartTask>,
    events: Seq<TaskEvent>,
    actions: Seq<TaskAction>,
    j: int,
)
    requires
        task_trace(tasks, events, actions),
        0 <= j < actions.len(),
        is_attempt(actions[j]),
    ensures
        exists|k: int|
            0 <= k < j && #[trigger] events[k] is Announced && events[k]->Announced_0 is Ok,
{
    assert(task_step(tasks[j], events[j], tasks[j + 1], actions[j]));
    lemma_announced_before(tasks, events, actions, j);
}

/// How the reason for which a task ended reads: with the reason that was reported, behind what was
/// attempted.
pub proof fn law_task_errors_carry_their_reason(
    error: &RestartError,
    text: String,
    failure: &IoFailure,
    reason: String,
)
    requires
        call_ensures(RestartError::to_text, (error,), text),
        call_ensures(IoFailure::to_text, (failure,), reason),
    ensures
        *error == RestartError::Startup(*failure) ==> text@ == reason@,
        *error == RestartError::RestartFailed(*failure) ==> text@ == "Restart failed: "@ + reason@,
        *error is AcceptorTerminated ==> text@
            == "Restart coordinator socket acceptor terminated"@,
        *error is RestartThreadGone ==> text@ == "Restart thread exited"@,
{
}

/// By default there is no restart coordination socket, nothing is set on a new process, and the
/// task ends when a restart fails.
pub proof fn law_default_settings(config: RestartConfig)
    requires
        call_ensures(<RestartConfig as Default>::default, (), config),
    ensures
        !config.enabled,
        config.exit_on_error,
        config.environment@.len() == 0,
        config.coordination_socket_path@.len() == 0,
{
}

/// The restart coordination socket is used if and only if the settings enable it, and then it is
/// taken over from the old process or bound as the environment says.
pub proof fn law_socket_is_used_when_enabled(
    inherited: Option<&str>,
    enabled: Result<Option<SocketSource>, IoFailure>,
    disabled: Result<Option<SocketSource>, IoFailure>,
    source: Result<SocketSource, IoFailure>,
)
    requires
        call_ensures(new_restart_coordination_socket_stream, (true, inherited), enabled),
        call_ensures(new_restart_coordination_socket_stream, (false, inherited), disabled),
        call_ensures(bind_restart_coordination_socket, (inherited,), source),
    ensures
        disabled == Ok::<Option<SocketSource>, IoFailure>(None),
        source matches Ok(found) ==> enabled == Ok::<Option<SocketSource>, IoFailure>(Some(found)),
        source matches Err(e) ==> enabled == Err::<Option<SocketSource>, IoFailure>(e),
{
}

/// A setup carries the settings over as they are, each whatever the others say: the path, the
/// environment variables, and whether the task ends when a restart fails. The task is new. There is
/// no setup if and only if the restart coordination socket is to be used and cannot be taken over.
pub proof fn law_setup_carries_settings(
    settings: RestartConfig,
    mode: RestartMode,
    inherited: Option<&str>,
    socket: Result<Option<SocketSource>, IoFailure>,
    result: Result<RestartSetup, IoFailure>,
)
    requires
        call_ensures(
            new_restart_coordination_socket_stream,
            (settings.enabled, inherited),
            socket,
        ),
        call_ensures(spawn_restart_task, (settings, mode, inherited), result),
    ensures
        socket matches Err(e) ==> result is Err && result->Err_0 == e,
        socket matches Ok(source) ==> {
            &&& result is Ok
            &&& result->Ok_0.socket == source
            &&& result->Ok_0.coordination_socket_path@ == settings.coordination_socket_path@
            &&& result->Ok_0.environment@ == settings.environment@
            &&& result->Ok_0.task.exit_on_error == settings.exit_on_error
            &&& result->Ok_0.task.mode == mode
            &&& result->Ok_0.task.phase is Starting
        },
        !settings.enabled ==> result is Ok && result->Ok_0.socket is None,
{
}

/// The two ways to prepare a process for restarts differ in nothing but the mode of the task: they
/// are those of setting up the task, after the process id that systemd passed its descriptors to
/// has been put right.
pub proof fn law_preparing_for_restarts(
    settings: RestartConfig,
    listen_pid: Option<&str>,
    pid: u32,
    inherited: Option<&str>,
    fork: (Option<String>, Result<RestartSetup, IoFailure>),
    systemd: (Option<String>, Result<RestartSetup, IoFailure>),
    fixed: Option<String>,
    fork_setup: Result<RestartSetup, IoFailure>,
    systemd_setup: Result<RestartSetup, IoFailure>,
)
    requires
        call_ensures(
            RestartConfig::try_into_restart_task,
            (settings, listen_pid, pid, inherited),
            fork,
        ),
        call_ensures(
            RestartConfig::try_into_systemd_restart_task,
            (settings, listen_pid, pid, inherited),
            systemd,
        ),
        call_ensures(fixup_systemd_env, (listen_pid, pid), fixed),
        call_ensures(spawn_restart_task, (settings, RestartMode::Fork, inherited), fork_setup),
        call_ensures(
            spawn_restart_task,
            (settings, RestartMode::Systemd, inherited),
            systemd_setup,
        ),
    ensures
        fork.1 == fork_setup,
        systemd.1 == systemd_setup,
        fork.0 is Some <==> fixed is Some,
        systemd.0 is Some <==> fixed is Some,
        fixed matches Some(text) ==> fork.0->0@ == text@ && systemd.0->0@ == text@,
{
}

/// A restart can be requested if and only if the settings enable the restart coordination socket,
/// and the request is the restart command.
pub proof fn law_restart_can_be_requested_when_enabled(
    settings: &RestartConfig,
    request: Result<RestartMessage, String>,
    command: RestartMessage,
)
    requires
        call_ensures(RestartConfig::request_restart, (settings,), request),
        call_ensures(RestartCoordinationSocket::send_restart_command, (), command),
    ensures
        request is Ok <==> settings.enabled,
        request is Ok ==> request->Ok_0 == command,
        request is Err ==> request->Err_0@
            == "no restart coordination socket socket defined in config"@,
{
}

/// A request over a connection keeps its responder, a signal has nobody to respond to, and the end
/// of the connections is the end of the requests.
pub proof fn law_next_request(
    event: RequestEvent,
    next: Result<RestartResponder, RestartError>,
)
    requires
        call_ensures(next_restart_request, (event,), next),
    ensures
        event is Signal ==> next is Ok && next->Ok_0.rpc is None,
        event matches RequestEvent::Socket(Some(responder)) ==> next is Ok && next->Ok_0
            == responder,
        event matches RequestEvent::Socket(None) ==> next is Err
            && next->Err_0 is AcceptorTerminated,
{
}

/// What a task does is a step of its course, and neither its mode nor what it does on failure ever
/// changes.
pub proof fn law_task_keeps_its_settings(
    mode: RestartMode,
    exit_on_error: bool,
    fresh: RestartTask,
    task: &mut RestartTask,
    event: TaskEvent,
    action: TaskAction,
)
    requires
        call_ensures(RestartTask::new, (mode, exit_on_error), fresh),
        call_ensures(RestartTask::step, (task, event), action),
    ensures
        fresh.phase is Starting && fresh.mode == mode && fresh.exit_on_error == exit_on_error,
        task_step(*old(task), event, *final(task), action),
        final(task).mode == old(task).mode,
        final(task).exit_on_error == old(task).exit_on_error,
{
}

/// A new task waits for requests as soon as the start of the process has been announced. If that
/// fails, the task ends with the reason.
pub proof fn law_announced_task_waits(
    task: &mut RestartTask,
    announced: Result<(), IoFailure>,
    action: TaskAction,
)
    requires
        old(task).phase is Starting,
        call_ensures(RestartTask::step, (task, TaskEvent::Announced(announced)), action),
    ensures
        announced is Ok ==> action is AwaitRequest && final(task).phase is Waiting,
        announced matches Err(e) ==> {
            &&& action == TaskAction::Resolve(Err(RestartError::Startup(e)))
            &&& final(task).phase is Resolved
        },
{
}

/// A task that waits attempts a restart on every request, in the way of its mode, and remembers who
/// asked; when no more requests can arrive, it ends.
pub proof fn law_request_begins_an_attempt(
    task: &mut RestartTask,
    request: RequestEvent,
    action: TaskAction,
    next: Result<RestartResponder, RestartError>,
)
    requires
        old(task).phase is Waiting,
        call_ensures(next_restart_request, (request,), next),
        call_ensures(RestartTask::step, (task, TaskEvent::Request(request)), action),
    ensures
        next matches Ok(responder) ==> {
            &&& old(task).mode is Fork ==> action is SpawnNewProcess
            &&& old(task).mode is Systemd ==> action is StoreState
            &&& final(task).phase == TaskPhase::Attempting(responder)
        },
        next is Err ==> action == TaskAction::Resolve(Err(RestartError::AcceptorTerminated))
            && final(task).phase is Resolved,
{
}

/// What an attempt to start a new process comes to if nobody waits for a reply: a new process is
/// announced as the main process; a failure ends the task, with its reason, if the settings say so,
/// and otherwise the next request is awaited; without its thread the task ends in any case.
pub proof fn law_end_of_a_start(
    task: &mut RestartTask,
    spawned: Result<u32, ChildSpawnError>,
    action: TaskAction,
)
    requires
        old(task).phase == TaskPhase::Attempting(RestartResponder { rpc: None }),
        old(task).mode is Fork,
        call_ensures(RestartTask::step, (task, TaskEvent::ChildSpawned(spawned)), action),
    ensures
        spawned matches Ok(pid) ==> action == TaskAction::AnnounceMainPid(pid),
        spawned matches Err(ChildSpawnError::ChildError(e)) ==> if old(task).exit_on_error {
            &&& action == TaskAction::Resolve(Err(RestartError::RestartFailed(e)))
            &&& final(task).phase is Resolved
        } else {
            &&& action is AwaitRequest
            &&& final(task).phase is Waiting
        },
        spawned matches Err(ChildSpawnError::RestartThreadGone) ==> {
            &&& action == TaskAction::Resolve(Err(RestartError::RestartThreadGone))
            &&& final(task).phase is Resolved
        },
{
}

/// What an attempt to store the state comes to if nobody waits for a reply: success ends the task
/// at once, and a failure is dealt with like that of a new process.
pub proof fn law_end_of_a_store(
    task: &mut RestartTask,
    stored: Result<u32, IoFailure>,
    action: TaskAction,
)
    requires
        old(task).phase == TaskPhase::Attempting(RestartResponder { rpc: None }),
        old(task).mode is Systemd,
        call_ensures(RestartTask::step, (task, TaskEvent::StateStored(stored)), action),
    ensures
        stored matches Ok(pid) ==> {
            &&& action == TaskAction::Resolve(Ok(pid))
            &&& final(task).phase is Resolved
        },
        stored matches Err(e) ==> if old(task).exit_on_error {
            &&& action == TaskAction::Resolve(Err(RestartError::RestartFailed(e)))
            &&& final(task).phase is Resolved
        } else {
            &&& action is AwaitRequest
            &&& final(task).phase is Waiting
        },
{
}

/// Whoever waits for a reply makes no difference but that the reply is sent first: the task then
/// does exactly what it would have done at once if nobody had waited.
pub proof fn law_reply_makes_no_difference(
    unasked: &mut RestartTask,
    asked: &mut RestartTask,
    told: &mut RestartTask,
    connection: u64,
    event: TaskEvent,
    at_once: TaskAction,
    reply: TaskAction,
    afterwards: TaskAction,
)
    requires
        old(unasked).phase == TaskPhase::Attempting(RestartResponder { rpc: None }),
        old(asked).phase == TaskPhase::Attempting(RestartResponder { rpc: Some(connection) }),
        old(unasked).mode == old(asked).mode,
        old(unasked).exit_on_error == old(asked).exit_on_error,
        call_ensures(RestartTask::step, (unasked, event), at_once),
        call_ensures(RestartTask::step, (asked, event), reply),
        *old(told) == *final(asked),
        call_ensures(RestartTask::step, (told, TaskEvent::Replied), afterwards),
    ensures
        reply is SendReply <==> !(at_once is Ignore),
        reply is SendReply ==> afterwards == at_once && *final(told) == *final(unasked),
{
}

/// The reply tells the requester, on its connection, the process id of a successful restart or how
/// its failure reads.
pub proof fn law_reply_tells_the_outcome(
    task: &mut RestartTask,
    connection: u64,
    spawned: Result<u32, ChildSpawnError>,
    stored: Result<u32, IoFailure>,
    event: TaskEvent,
    action: TaskAction,
    child_error: &ChildSpawnError,
    child_reason: String,
    store_error: &IoFailure,
    store_reason: String,
)
    requires
        old(task).phase == TaskPhase::Attempting(RestartResponder { rpc: Some(connection) }),
        old(task).mode is Fork ==> event == TaskEvent::ChildSpawned(spawned),
        old(task).mode is Systemd ==> event == TaskEvent::StateStored(stored),
        call_ensures(RestartTask::step, (task, event), action),
        call_ensures(ChildSpawnError::to_text, (child_error,), child_reason),
        call_ensures(IoFailure::to_text, (store_error,), store_reason),
        spawned is Err ==> spawned->Err_0 == *child_error,
        stored is Err ==> stored->Err_0 == *store_error,
    ensures
        action is SendReply,
        action->SendReply_0.connection == connection,
        ({
            let message = action->SendReply_0.message;
            let pid = if old(task).mode is Fork {
                spawned
            } else {
                match stored {
                    Ok(pid) => Ok(pid),
                    Err(e) => Err(ChildSpawnError::ChildError(e)),
                }
            };
            let reason = if old(task).mode is Fork {
                child_reason@
            } else {
                store_reason@
            };
            match pid {
                Ok(pid) => message == RestartMessage::Response(
                    crate::restart_coordination_socket::RestartResponse::RestartComplete(pid),
                ),
                Err(_) => {
                    &&& message is Response
                    &&& message->Response_0 is RestartFailed
                    &&& message->Response_0->RestartFailed_0@ == reason
                },
            }
        }),
{
}

/// A new process that has been announced as the main process is what the task resolves to.
pub proof fn law_announced_process_is_the_result(
    task: &mut RestartTask,
    announcing: &mut RestartTask,
    event: TaskEvent,
    action: TaskAction,
    pid: u32,
    result: TaskAction,
)
    requires
        call_ensures(RestartTask::step, (task, event), action),
        action == TaskAction::AnnounceMainPid(pid),
        *old(announcing) == *final(task),
        call_ensures(RestartTask::step, (announcing, TaskEvent::MainPidAnnounced), result),
    ensures
        result == TaskAction::Resolve(Ok(pid)),
        final(announcing).phase is Resolved,
{
}

/// An event that does not belong to what the task is doing changes nothing.
pub proof fn law_stray_events_change_nothing(
    task: &mut RestartTask,
    event: TaskEvent,
    action: TaskAction,
)
    requires
        call_ensures(RestartTask::step, (task, event), action),
        ({
            let phase = old(task).phase;
            &&& !(phase is Starting && event is Announced)
            &&& !(phase is Waiting && event is Request)
            &&& !(phase is Attempting && old(task).mode is Fork && event is ChildSpawned)
            &&& !(phase is Attempting && old(task).mode is Systemd && event is StateStored)
            &&& !(phase is Replying && event is Replied)
            &&& !(phase is AnnouncingMainPid && event is MainPidAnnounced)
        }),
    ensures
        action is Ignore,
        *final(task) == *old(task),
{
}

/// Whether an attempt in this mode failed at an event, for this reason.
pub open spec fn failed_for(mode: RestartMode, event: TaskEvent, reason: IoFailure) -> bool {
    ||| mode is Fork && event == TaskEvent::ChildSpawned(Err(ChildSpawnError::ChildError(reason)))
    ||| mode is Systemd && event == TaskEvent::StateStored(Err(reason))
}

/// The settings decide what a failed attempt comes to. If they say to exit then, the task resolves
/// to the failure, with its reason; otherwise the next request is awaited. Either happens at once
/// if nobody waits for a reply, and as soon as the reply has been sent otherwise.
pub proof fn law_settings_decide_on_failure(
    tasks: Seq<RestartTask>,
    events: Seq<TaskEvent>,
    actions: Seq<TaskAction>,
    k: int,
    m: int,
    reason: IoFailure,
)
    requires
        task_trace(tasks, events, actions),
        0 <= k <= m < actions.len(),
        tasks[k].phase is Attempting,
        failed_for(tasks[0].mode, events[k], reason),
        if tasks[k].phase->Attempting_0.rpc is Some {
            &&& m > k
            &&& events[m] is Replied
            &&& forall|n: int| k < n < m ==> !(#[trigger] events[n] is Replied)
        } else {
            m == k
        },
    ensures
        tasks[0].exit_on_error ==> {
            &&& actions[m] == TaskAction::Resolve(Err(RestartError::RestartFailed(reason)))
            &&& tasks[m + 1].phase is Resolved
        },
        !tasks[0].exit_on_error ==> {
            &&& actions[m] is AwaitRequest
            &&& tasks[m + 1].phase is Waiting
        },
{
    lemma_mode_stays(tasks, events, actions, k);
    lemma_mode_stays(tasks, events, actions, m);
    assert(task_step(tasks[k], events[k], tasks[k + 1], actions[k]));
    assert(task_step(tasks[m], events[m], tasks[m + 1], actions[m]));
    if m > k {
        lemma_replying_stays(tasks, events, actions, k + 1, m);
    }
}

/// The settings of a process reach all the way to what its task does when a restart that was
/// requested by a signal fails, whether or not the restart coordination socket is used.
pub proof fn law_settings_reach_the_task(
    settings: RestartConfig,
    inherited: Option<&str>,
    setup: RestartSetup,
    a: &mut RestartTask,
    b: &mut RestartTask,
    c: &mut RestartTask,
    started: TaskAction,
    attempt: TaskAction,
    reason: IoFailure,
    outcome: TaskAction,
)
    requires
        call_ensures(spawn_restart_task, (settings, RestartMode::Fork, inherited), Ok(setup)),
        *old(a) == setup.task,
        call_ensures(RestartTask::step, (a, TaskEvent::Announced(Ok(()))), started),
        *old(b) == *final(a),
        call_ensures(RestartTask::step, (b, TaskEvent::Request(RequestEvent::Signal)), attempt),
        *old(c) == *final(b),
        call_ensures(
            RestartTask::step,
            (c, TaskEvent::ChildSpawned(Err(ChildSpawnError::ChildError(reason)))),
            outcome,
        ),
    ensures
        started is AwaitRequest,
        attempt is SpawnNewProcess,
        settings.exit_on_error ==> outcome == TaskAction::Resolve(
            Err(RestartError::RestartFailed(reason)),
        ),
        !settings.exit_on_error ==> outcome is AwaitRequest,
{
}

} // verus!
