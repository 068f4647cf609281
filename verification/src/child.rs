//! Starting the new process.
use crate::environment::{
    child_environment, EnvPair, ENV_HANDOVER_PIPE, ENV_NOTIFY_SOCKET, ENV_RESTART_SOCKET,
};
use crate::error::IoFailure;
use crate::pipes::{CompletionReceiver, CompletionSender, PairedPipes};
use vstd::prelude::*;
use vstd::string::*;

verus! {

/// Indicates an error that happened during child forking.
#[derive(Debug)]
pub enum ChildSpawnError {
    RestartThreadGone,
    ChildError(IoFailure),
}

impl ChildSpawnError {
    /// How the error reads.
    pub open spec fn message(self) -> Seq<char> {
        match self {
            ChildSpawnError::RestartThreadGone => "Restart thread exited"@,
            ChildSpawnError::ChildError(e) => "Child failed to start: "@ + e.message(),
        }
    }

    /// How the error reads.
    pub fn to_text(&self) -> (r: String)
        ensures
            r@ == self.message(),
    {
        match self {
            ChildSpawnError::RestartThreadGone => String::from_str("Restart thread exited"),
            ChildSpawnError::ChildError(e) => String::from_str("Child failed to start: ").concat(
                e.to_text().as_str(),
            ),
        }
    }
}

/// What a new process is to be started with.
#[derive(Debug)]
pub struct LaunchRequest {
    /// The program to execute.
    pub program: String,
    /// The arguments behind the program's name.
    pub args: Vec<String>,
    /// The environment variables that the user sets on the new process.
    pub user_envs: Vec<EnvPair>,
    /// The restart coordination socket, if there is one.
    pub restart_fd: Option<i32>,
}

impl LaunchRequest {
    /// A request to start this program once more, given its own command line.
    pub fn new(
        command_line: Vec<String>,
        user_envs: Vec<EnvPair>,
        restart_fd: Option<i32>,
    ) -> (r: Self)
        requires
            command_line@.len() > 0,
        ensures
            r.program == command_line@[0],
            r.args@ == command_line@.skip(1),
            r.user_envs == user_envs,
            r.restart_fd == restart_fd,
    {
        let mut args = command_line;
        let program = args.remove(0);
        assert(args@ =~= command_line@.skip(1));
        LaunchRequest { program, args, user_envs, restart_fd }
    }
}

/// What the thread that starts new processes is doing.
#[derive(Debug, Clone, Copy, PartialEq, Eq, Structural)]
pub enum SpawnerPhase {
    /// Waiting for a request.
    Idle,
    /// Starting a new process.
    Launching,
    /// Handing over the outcome.
    Delivering,
    /// The thread is gone.
    Exited,
}

/// Handles forking a new client in a more privileged thread: this is the state of that thread.
#[derive(Debug)]
pub struct ChildSpawner {
    /// The restart coordination socket to pass to new processes, if there is one.
    pub restart_fd: Option<i32>,
    /// The environment variables to set on new processes.
    pub environment: Vec<EnvPair>,
    /// What the thread is doing.
    pub phase: SpawnerPhase,
}

/// What happens to the thread that starts new processes.
#[derive(Debug)]
pub enum SpawnerEvent {
    /// A new process is requested, of the program that was started with this command line.
    Requested(Vec<String>),
    /// Nobody can request a new process any more.
    RequesterGone,
    /// An attempt to start a new process ended.
    Launched(Result<u32, IoFailure>),
    /// The outcome was handed over, or there was nobody to take it.
    Delivered(bool),
}

/// What the thread that starts new processes does next.
#[derive(Debug)]
pub enum SpawnerAction {
    /// Start a new process.
    Launch(LaunchRequest),
    /// Hand over the outcome.
    Deliver(Result<u32, IoFailure>),
    /// Wait for the next request.
    AwaitRequest,
    /// End.
    Exit,
    /// End in a panic, as nobody takes the child.
    Panic,
    /// Go on as before: the event does not belong here.
    Ignore,
}

/// Whether a request is one to start the program of this command line once more, with the
/// environment variables and the socket that the thread was given.
pub open spec fn is_request_of(
    request: LaunchRequest,
    command_line: Seq<String>,
    environment: Seq<EnvPair>,
    restart_fd: Option<i32>,
) -> bool {
    &&& request.program == command_line[0]
    &&& request.args@ == command_line.skip(1)
    &&& crate::environment::env_view(request.user_envs@) == crate::environment::env_view(
        environment,
    )
    &&& request.restart_fd == restart_fd
}

/// The steps of the thread that starts new processes.
pub open spec fn spawner_step(
    pre: ChildSpawner,
    event: SpawnerEvent,
    post: ChildSpawner,
    action: SpawnerAction,
) -> bool {
    &&& post.restart_fd == pre.restart_fd
    &&& post.environment == pre.environment
    &&& match (pre.phase, event) {
        (SpawnerPhase::Idle, SpawnerEvent::Requested(command_line)) => {
            &&& post.phase == SpawnerPhase::Launching
            &&& action is Launch
            &&& is_request_of(
                action->Launch_0,
                command_line@,
                pre.environment@,
                pre.restart_fd,
            )
        },
        (SpawnerPhase::Idle, SpawnerEvent::RequesterGone) => {
            &&& post.phase == SpawnerPhase::Exited
            &&& action == SpawnerAction::Exit
        },
        (SpawnerPhase::Launching, SpawnerEvent::Launched(child)) => {
            &&& post.phase == SpawnerPhase::Delivering
            &&& action == SpawnerAction::Deliver(child)
        },
        (SpawnerPhase::Delivering, SpawnerEvent::Delivered(true)) => {
            &&& post.phase == SpawnerPhase::Idle
            &&& action == SpawnerAction::AwaitRequest
        },
        (SpawnerPhase::Delivering, SpawnerEvent::Delivered(false)) => {
            &&& post.phase == SpawnerPhase::Exited
            &&& action == SpawnerAction::Panic
        },
        _ => post.phase == pre.phase && action == SpawnerAction::Ignore,
    }
}

/// A copy of a list of environment settings.
fn copy_settings(settings: &Vec<EnvPair>) -> (r: Vec<EnvPair>)
    ensures
        crate::environment::env_view(r@) == crate::environment::env_view(settings@),
{
    let mut copy: Vec<EnvPair> = Vec::new();
    let mut i: usize = 0;
    while i < settings.len()
        invariant
            i <= settings.len(),
            copy.len() == i,
            forall|k: int|
                0 <= k < i ==> (#[trigger] copy@[k]).0@ == settings@[k].0@ && copy@[k].1@
                    == settings@[k].1@,
        decreases settings.len() - i,
    {
        let key: Vec<u8> = settings[i].0.clone();
        let value: Vec<u8> = settings[i].1.clone();
        assert(key@ =~= settings@[i as int].0@);
        assert(value@ =~= settings@[i as int].1@);
        copy.push((key, value));
        i = i + 1;
    }
    assert(crate::environment::env_view(copy@) =~= crate::environment::env_view(settings@));
    copy
}

/// The outcome of a request to the thread that starts new processes.
pub open spec fn spawn_result(
    request_sent: bool,
    handed_over: Option<Result<u32, IoFailure>>,
) -> Result<u32, ChildSpawnError> {
    if !request_sent {
        Err(ChildSpawnError::RestartThreadGone)
    } else {
        match handed_over {
            Some(Ok(pid)) => Ok(pid),
            Some(Err(e)) => Err(ChildSpawnError::ChildError(e)),
            None => Err(ChildSpawnError::RestartThreadGone),
        }
    }
}

impl ChildSpawner {
    /// Create a ChildSpawner that will pass restart_fd to child processes. It waits for its first
    /// request.
    pub fn new(restart_fd: Option<i32>, environment: Vec<EnvPair>) -> (r: Self)
        ensures
            r == (ChildSpawner { restart_fd, environment, phase: SpawnerPhase::Idle }),
    {
        ChildSpawner { restart_fd, environment, phase: SpawnerPhase::Idle }
    }

    /// Takes in an event and tells what to do next.
    pub fn step(&mut self, event: SpawnerEvent) -> (r: SpawnerAction)
        requires
            event matches SpawnerEvent::Requested(command_line) ==> command_line@.len() > 0,
        ensures
            spawner_step(*old(self), event, *final(self), r),
    {
        match (self.phase, event) {
            (SpawnerPhase::Idle, SpawnerEvent::Requested(command_line)) => {
                self.phase = SpawnerPhase::Launching;
                let user_envs = copy_settings(&self.environment);
                SpawnerAction::Launch(
                    LaunchRequest::new(command_line, user_envs, self.restart_fd),
                )
            },
            (SpawnerPhase::Idle, SpawnerEvent::RequesterGone) => {
                self.phase = SpawnerPhase::Exited;
                SpawnerAction::Exit
            },
            (SpawnerPhase::Launching, SpawnerEvent::Launched(child)) => {
                self.phase = SpawnerPhase::Delivering;
                SpawnerAction::Deliver(child)
            },
            (SpawnerPhase::Delivering, SpawnerEvent::Delivered(taken)) => {
                if taken {
                    self.phase = SpawnerPhase::Idle;
                    SpawnerAction::AwaitRequest
                } else {
                    self.phase = SpawnerPhase::Exited;
                    SpawnerAction::Panic
                }
            },
            _ => SpawnerAction::Ignore,
        }
    }

    /// The outcome of spawning a process via IPC to the privileged thread: whether the request
    /// reached the thread, and what it handed over, if anything.
    /// Returns the child pid on success.
    pub fn spawn_new_process(
        request_sent: bool,
        handed_over: Option<Result<u32, IoFailure>>,
    ) -> (r: Result<u32, ChildSpawnError>)
        ensures
            r == spawn_result(request_sent, handed_over),
    {
        if !request_sent {
            return Err(ChildSpawnError::RestartThreadGone);
        }
        match handed_over {
            Some(Ok(pid)) => Ok(pid),
            Some(Err(e)) => Err(ChildSpawnError::ChildError(e)),
            None => Err(ChildSpawnError::RestartThreadGone),
        }
    }
}

/// A course of the thread that starts new processes, from its creation.
pub open spec fn spawner_trace(
    spawners: Seq<ChildSpawner>,
    events: Seq<SpawnerEvent>,
    actions: Seq<SpawnerAction>,
) -> bool {
    &&& spawners.len() == events.len() + 1
    &&& actions.len() == events.len()
    &&& spawners[0].phase is Idle
    &&& forall|i: int|
        #![trigger actions[i]]
        0 <= i < actions.len() ==> spawner_step(
            spawners[i],
            events[i],
            spawners[i + 1],
            actions[i],
        )
}

/// Whether no process is started behind step `i` and before step `m`.
pub open spec fn no_launch_between(actions: Seq<SpawnerAction>, i: int, m: int) -> bool {
    forall|k: int| i < k < m ==> !(#[trigger] actions[k] is Launch)
}

/// Whether no outcome is handed over behind step `i` and before step `m`.
pub open spec fn no_delivery_between(actions: Seq<SpawnerAction>, i: int, m: int) -> bool {
    forall|k: int| i < k < m ==> !(#[trigger] actions[k] is Deliver)
}

/// Whether exactly one outcome is handed over behind step `i` and before step `m`, and it is that
/// of the attempt that ended then.
pub open spec fn delivered_once(
    events: Seq<SpawnerEvent>,
    actions: Seq<SpawnerAction>,
    i: int,
    m: int,
) -> bool {
    exists|k: int|
        #![trigger actions[k]]
        {
            &&& i < k < m
            &&& events[k] is Launched
            &&& actions[k] == SpawnerAction::Deliver(events[k]->Launched_0)
            &&& forall|n: int| i < n < m && #[trigger] actions[n] is Deliver ==> n == k
        }
}

/// Every new process is started on a request, with the socket and the environment variables that
/// the thread was given when it was created.
pub proof fn law_launches_with_what_was_given(
    spawners: Seq<ChildSpawner>,
    events: Seq<SpawnerEvent>,
    actions: Seq<SpawnerAction>,
    m: int,
)
    requires
        spawner_trace(spawners, events, actions),
        0 <= m < spawners.len(),
    ensures
        spawners[m].restart_fd == spawners[0].restart_fd,
        spawners[m].environment == spawners[0].environment,
        m < actions.len() ==> {
            &&& actions[m] is Launch <==> spawners[m].phase is Idle && events[m] is Requested
            &&& actions[m] is Launch ==> is_request_of(
                actions[m]->Launch_0,
                events[m]->Requested_0@,
                spawners[0].environment@,
                spawners[0].restart_fd,
            )
        },
    decreases m,
{
    if m > 0 {
        law_launches_with_what_was_given(spawners, events, actions, m - 1);
        assert(spawner_step(spawners[m - 1], events[m - 1], spawners[m], actions[m - 1]));
    }
    if m < actions.len() {
        assert(spawner_step(spawners[m], events[m], spawners[m + 1], actions[m]));
    }
}

/// Every request is served by exactly one outcome: as long as the process is being started nothing
/// is handed over, and from then on exactly the outcome of that attempt has been handed over, until
/// the next process is started.
pub proof fn law_one_outcome_per_launch(
    spawners: Seq<ChildSpawner>,
    events: Seq<SpawnerEvent>,
    actions: Seq<SpawnerAction>,
    i: int,
    m: int,
)
    requires
        spawner_trace(spawners, events, actions),
        0 <= i < m < spawners.len(),
        actions[i] is Launch,
        no_launch_between(actions, i, m),
    ensures
        spawners[m].phase is Launching ==> no_delivery_between(actions, i, m),
        !(spawners[m].phase is Launching) ==> delivered_once(events, actions, i, m),
    decreases m,
{
    let n = m - 1;
    assert(spawner_step(spawners[n], events[n], spawners[m], actions[n]));
    if n > i {
        law_one_outcome_per_launch(spawners, events, actions, i, n);
        if !(spawners[m].phase is Launching) {
            if spawners[n].phase is Launching {
                assert(actions[n] == SpawnerAction::Deliver(events[n]->Launched_0));
            } else {
                let k = choose|k: int|
                    #![trigger actions[k]]
                    {
                        &&& i < k < n
                        &&& events[k] is Launched
                        &&& actions[k] == SpawnerAction::Deliver(events[k]->Launched_0)
                        &&& forall|l: int| i < l < n && #[trigger] actions[l] is Deliver ==> l == k
                    };
                assert(!(actions[n] is Deliver));
                assert(actions[k] is Deliver);
            }
        }
    }
}

/// The thread starts one process at a time: between one start and the next one stands exactly one
/// outcome, that of the attempt which began with the first.
pub proof fn law_outcome_is_delivered_before_next_launch(
    spawners: Seq<ChildSpawner>,
    events: Seq<SpawnerEvent>,
    actions: Seq<SpawnerAction>,
    i: int,
    j: int,
)
    requires
        spawner_trace(spawners, events, actions),
        0 <= i < j < actions.len(),
        actions[i] is Launch,
        actions[j] is Launch,
        no_launch_between(actions, i, j),
    ensures
        delivered_once(events, actions, i, j),
{
    assert(spawner_step(spawners[j], events[j], spawners[j + 1], actions[j]));
    law_one_outcome_per_launch(spawners, events, actions, i, j);
}

/// Whether an attempt that began at step `i` is still going on at step `m`.
pub open spec fn launching_since(actions: Seq<SpawnerAction>, i: int, m: int) -> bool {
    &&& 0 <= i < m
    &&& actions[i] is Launch
    &&& no_launch_between(actions, i, m)
    &&& no_delivery_between(actions, i, m)
}

proof fn lemma_launching_since(
    spawners: Seq<ChildSpawner>,
    events: Seq<SpawnerEvent>,
    actions: Seq<SpawnerAction>,
    m: int,
)
    requires
        spawner_trace(spawners, events, actions),
        0 <= m < spawners.len(),
        spawners[m].phase is Launching,
    ensures
        exists|i: int| #[trigger] launching_since(actions, i, m),
    decreases m,
{
    let n = m - 1;
    assert(spawner_step(spawners[n], events[n], spawners[m], actions[n]));
    if spawners[n].phase is Launching {
        lemma_launching_since(spawners, events, actions, n);
        let i = choose|i: int| #[trigger] launching_since(actions, i, n);
        assert(launching_since(actions, i, m));
    } else {
        assert(launching_since(actions, n, m));
    }
}

/// Outcomes are handed over in the order of the requests: each is that of the process that was
/// started last, for which nothing had been handed over yet.
pub proof fn law_every_outcome_has_its_launch(
    spawners: Seq<ChildSpawner>,
    events: Seq<SpawnerEvent>,
    actions: Seq<SpawnerAction>,
    k: int,
)
    requires
        spawner_trace(spawners, events, actions),
        0 <= k < actions.len(),
        actions[k] is Deliver,
    ensures
        events[k] == SpawnerEvent::Launched(actions[k]->Deliver_0),
        exists|i: int| #[trigger] launching_since(actions, i, k),
{
    assert(spawner_step(spawners[k], events[k], spawners[k + 1], actions[k]));
    lemma_launching_since(spawners, events, actions, k);
}

/// The command that starts a new process.
#[derive(Debug)]
pub struct ChildCommand {
    /// The program to execute.
    pub program: String,
    /// The arguments behind the program's name.
    pub args: Vec<String>,
    /// The environment settings, of which a later one overrides an earlier one.
    pub envs: Vec<EnvPair>,
    /// A descriptor of which close-on-exec is to be cleared before the program is executed.
    pub inherit: Option<i32>,
}

/// An attempt to start a new instance of the program.
#[derive(Debug)]
pub enum ChildLaunch {
    /// The lifecycle handler is told that a new process is about to start.
    Announcing(LaunchRequest),
    /// The notification pipe is made.
    OpeningNotifyPipe(LaunchRequest),
    /// The pipe for the handover of state is made.
    OpeningHandoverPipe(LaunchRequest, CompletionSender),
    /// The process is started.
    Spawning,
    /// The lifecycle handler sends state to the new process.
    SendingState(u32),
    /// The new process starts up.
    AwaitingReady(u32),
    /// The lifecycle handler is told that the new process failed.
    TellingHandler(IoFailure),
    /// The new process is killed.
    Killing(IoFailure),
    /// The attempt is over.
    Finished,
}

/// What happens in an attempt to start a new process.
#[derive(Debug)]
pub enum LaunchEvent {
    /// The lifecycle handler was told that a new process is about to start.
    Announced,
    /// The notification pipe was made, or not.
    NotifyPipe(Result<(CompletionReceiver, CompletionSender), IoFailure>),
    /// The pipe for the handover of state was made, or not.
    HandoverPipe(Result<PairedPipes, IoFailure>),
    /// The process was started, or not.
    Spawned(Result<u32, IoFailure>),
    /// The lifecycle handler has sent its state, or not.
    StateSent(Result<(), IoFailure>),
    /// A read of one byte from the notification pipe returned.
    NotificationRead(Result<usize, IoFailure>),
    /// The lifecycle handler was told that the new process failed.
    HandlerTold,
    /// The new process was killed, or had exited already.
    Killed,
}

/// What to do next in an attempt to start a new process.
#[derive(Debug)]
pub enum LaunchAction {
    /// Tell the lifecycle handler that a new process is about to start.
    PreNewProcess,
    /// Make the notification pipe, on which the child writes.
    OpenNotifyPipe,
    /// Make the pipe for the handover of state, on which the parent writes.
    OpenHandoverPipe,
    /// Start the process.
    Spawn(ChildCommand),
    /// Let the lifecycle handler send its state.
    SendToNewProcess,
    /// Close the write end of the notification pipe, which only the child needs, and read a byte.
    ReadNotification,
    /// Tell the lifecycle handler that the new process failed.
    NewProcessFailed,
    /// Kill the new process.
    Kill,
    /// End the attempt: the process id of the new process, or why there is none.
    Finish(Result<u32, IoFailure>),
    /// Go on as before: the event does not belong here.
    Ignore,
}

/// Whether a command is the one that a request asks for, given the two pipes.
pub open spec fn is_command_for(
    command: ChildCommand,
    request: LaunchRequest,
    notify: CompletionSender,
    handover: PairedPipes,
) -> bool {
    &&& command.program == request.program
    &&& command.args == request.args
    &&& crate::environment::env_view(command.envs@) == crate::environment::env_view(
        request.user_envs@,
    ) + crate::environment::handover_settings(handover.reader, notify.fd, request.restart_fd)
    &&& command.inherit == request.restart_fd
}

/// The steps of an attempt to start a new process.
pub open spec fn launch_step(
    pre: ChildLaunch,
    event: LaunchEvent,
    post: ChildLaunch,
    action: LaunchAction,
) -> bool {
    match (pre, event) {
        (ChildLaunch::Announcing(request), LaunchEvent::Announced) => {
            &&& post == ChildLaunch::OpeningNotifyPipe(request)
            &&& action == LaunchAction::OpenNotifyPipe
        },
        (ChildLaunch::OpeningNotifyPipe(request), LaunchEvent::NotifyPipe(Ok(ends))) => {
            &&& post == ChildLaunch::OpeningHandoverPipe(request, ends.1)
            &&& action == LaunchAction::OpenHandoverPipe
        },
        (ChildLaunch::OpeningNotifyPipe(_), LaunchEvent::NotifyPipe(Err(e))) => {
            &&& post == ChildLaunch::Finished
            &&& action == LaunchAction::Finish(Err(e))
        },
        (
            ChildLaunch::OpeningHandoverPipe(request, notify),
            LaunchEvent::HandoverPipe(Ok(pipes)),
        ) => {
            &&& post == ChildLaunch::Spawning
            &&& action is Spawn
            &&& is_command_for(action->Spawn_0, request, notify, pipes)
        },
        (ChildLaunch::OpeningHandoverPipe(..), LaunchEvent::HandoverPipe(Err(e))) => {
            &&& post == ChildLaunch::Finished
            &&& action == LaunchAction::Finish(Err(e))
        },
        (ChildLaunch::Spawning, LaunchEvent::Spawned(Ok(pid))) => {
            &&& post == ChildLaunch::SendingState(pid)
            &&& action == LaunchAction::SendToNewProcess
        },
        (ChildLaunch::Spawning, LaunchEvent::Spawned(Err(e))) => {
            &&& post == ChildLaunch::Finished
            &&& action == LaunchAction::Finish(Err(e))
        },
        (ChildLaunch::SendingState(pid), LaunchEvent::StateSent(Ok(()))) => {
            &&& post == ChildLaunch::AwaitingReady(pid)
            &&& action == LaunchAction::ReadNotification
        },
        (ChildLaunch::SendingState(_), LaunchEvent::StateSent(Err(e))) => {
            &&& post == ChildLaunch::Killing(e)
            &&& action == LaunchAction::Kill
        },
        (ChildLaunch::AwaitingReady(pid), LaunchEvent::NotificationRead(Ok(count))) => {
            if count == 1 {
                &&& post == ChildLaunch::Finished
                &&& action == LaunchAction::Finish(Ok(pid))
            } else {
                &&& post == ChildLaunch::TellingHandler(IoFailure::ChildSilent)
                &&& action == LaunchAction::NewProcessFailed
            }
        },
        (ChildLaunch::AwaitingReady(_), LaunchEvent::NotificationRead(Err(e))) => {
            &&& post == ChildLaunch::TellingHandler(e)
            &&& action == LaunchAction::NewProcessFailed
        },
        (ChildLaunch::TellingHandler(e), LaunchEvent::HandlerTold) => {
            &&& post == ChildLaunch::Killing(e)
            &&& action == LaunchAction::Kill
        },
        (ChildLaunch::Killing(e), LaunchEvent::Killed) => {
            &&& post == ChildLaunch::Finished
            &&& action == LaunchAction::Finish(Err(e))
        },
        _ => post == pre && action == LaunchAction::Ignore,
    }
}

impl ChildLaunch {
    /// Begins an attempt to start a new process.
    pub fn begin(request: LaunchRequest) -> (r: (Self, LaunchAction))
        ensures
            r == (ChildLaunch::Announcing(request), LaunchAction::PreNewProcess),
    {
        (ChildLaunch::Announcing(request), LaunchAction::PreNewProcess)
    }

    /// Takes in an event and tells what to do next.
    pub fn step(self, event: LaunchEvent) -> (r: (Self, LaunchAction))
        ensures
            launch_step(self, event, r.0, r.1),
    {
        match (self, event) {
            (ChildLaunch::Announcing(request), LaunchEvent::Announced) => (
                ChildLaunch::OpeningNotifyPipe(request),
                LaunchAction::OpenNotifyPipe,
            ),
            (ChildLaunch::OpeningNotifyPipe(request), LaunchEvent::NotifyPipe(made)) => match made {
                Ok((_, sender)) => (
                    ChildLaunch::OpeningHandoverPipe(request, sender),
                    LaunchAction::OpenHandoverPipe,
                ),
                Err(e) => (ChildLaunch::Finished, LaunchAction::Finish(Err(e))),
            },
            (
                ChildLaunch::OpeningHandoverPipe(request, notify),
                LaunchEvent::HandoverPipe(made),
            ) => match made {
                Ok(pipes) => {
                    let envs = child_environment(
                        request.user_envs,
                        pipes.reader,
                        notify.fd,
                        request.restart_fd,
                    );
                    let command = ChildCommand {
                        program: request.program,
                        args: request.args,
                        envs,
                        inherit: request.restart_fd,
                    };
                    (ChildLaunch::Spawning, LaunchAction::Spawn(command))
                },
                Err(e) => (ChildLaunch::Finished, LaunchAction::Finish(Err(e))),
            },
            (ChildLaunch::Spawning, LaunchEvent::Spawned(started)) => match started {
                Ok(pid) => (ChildLaunch::SendingState(pid), LaunchAction::SendToNewProcess),
                Err(e) => (ChildLaunch::Finished, LaunchAction::Finish(Err(e))),
            },
            (ChildLaunch::SendingState(pid), LaunchEvent::StateSent(sent)) => match sent {
                Ok(()) => (ChildLaunch::AwaitingReady(pid), LaunchAction::ReadNotification),
                Err(e) => (ChildLaunch::Killing(e), LaunchAction::Kill),
            },
            (
                ChildLaunch::AwaitingReady(pid),
                LaunchEvent::NotificationRead(read),
            ) => match CompletionReceiver::recv(read) {
                Ok(()) => (ChildLaunch::Finished, LaunchAction::Finish(Ok(pid))),
                Err(e) => (ChildLaunch::TellingHandler(e), LaunchAction::NewProcessFailed),
            },
            (ChildLaunch::TellingHandler(e), LaunchEvent::HandlerTold) => (
                ChildLaunch::Killing(e),
                LaunchAction::Kill,
            ),
            (ChildLaunch::Killing(e), LaunchEvent::Killed) => (
                ChildLaunch::Finished,
                LaunchAction::Finish(Err(e)),
            ),
            (phase, _) => (phase, LaunchAction::Ignore),
        }
    }
}

/// A course of an attempt to start a new process: the phases that it goes through, what happened
/// in each of them, and what was done next.
pub open spec fn launch_trace(
    phases: Seq<ChildLaunch>,
    events: Seq<LaunchEvent>,
    actions: Seq<LaunchAction>,
) -> bool {
    &&& phases.len() == events.len() + 1
    &&& actions.len() == events.len()
    &&& phases[0] is Announcing
    &&& forall|i: int|
        #![trigger actions[i]]
        0 <= i < actions.len() ==> launch_step(phases[i], events[i], phases[i + 1], actions[i])
}

/// Whether a process with this id was started at step `i`.
pub open spec fn started_at(
    events: Seq<LaunchEvent>,
    actions: Seq<LaunchAction>,
    i: int,
    pid: u32,
) -> bool {
    events[i] == LaunchEvent::Spawned(Ok(pid)) && actions[i] is SendToNewProcess
}

/// Whether the lifecycle handler successfully sent its state at step `i`.
pub open spec fn state_sent_at(
    events: Seq<LaunchEvent>,
    actions: Seq<LaunchAction>,
    i: int,
) -> bool {
    &&& events[i] is StateSent
    &&& events[i]->StateSent_0 is Ok
    &&& actions[i] is ReadNotification
}

proof fn lemma_launch_history(
    phases: Seq<ChildLaunch>,
    events: Seq<LaunchEvent>,
    actions: Seq<LaunchAction>,
    m: int,
)
    requires
        launch_trace(phases, events, actions),
        0 <= m < phases.len(),
    ensures
        phases[m] matches ChildLaunch::SendingState(pid) ==> exists|i: int|
            0 <= i < m && #[trigger] started_at(events, actions, i, pid),
        phases[m] matches ChildLaunch::AwaitingReady(pid) ==> exists|i: int, k: int|
            0 <= i < k < m && #[trigger] started_at(events, actions, i, pid)
                && #[trigger] state_sent_at(events, actions, k),
    decreases m,
{
    if m > 0 {
        lemma_launch_history(phases, events, actions, m - 1);
        let n = m - 1;
        assert(launch_step(phases[n], events[n], phases[n + 1], actions[n]));
        match phases[m] {
            ChildLaunch::SendingState(pid) => {
                if phases[n] != phases[m] {
                    assert(started_at(events, actions, n, pid));
                }
            },
            ChildLaunch::AwaitingReady(pid) => {
                if phases[n] != phases[m] {
                    assert(phases[n] == ChildLaunch::SendingState(pid));
                    let i = choose|i: int|
                        0 <= i < n && #[trigger] started_at(events, actions, i, pid);
                    assert(state_sent_at(events, actions, n));
                    assert(started_at(events, actions, i, pid));
                }
            },
            _ => {},
        }
    }
}

/// A new process counts as started only after it was started, after the lifecycle handler sent
/// its state to it without an error, and after it announced that it is ready.
pub proof fn law_success_means_ready(
    phases: Seq<ChildLaunch>,
    events: Seq<LaunchEvent>,
    actions: Seq<LaunchAction>,
    j: int,
    pid: u32,
)
    requires
        launch_trace(phases, events, actions),
        0 <= j < actions.len(),
        actions[j] == LaunchAction::Finish(Ok(pid)),
    ensures
        events[j] == LaunchEvent::NotificationRead(Ok(1)),
        exists|i: int, k: int|
            0 <= i < k < j && #[trigger] started_at(events, actions, i, pid)
                && #[trigger] state_sent_at(events, actions, k),
{
    assert(launch_step(phases[j], events[j], phases[j + 1], actions[j]));
    lemma_launch_history(phases, events, actions, j);
}

/// An attempt that is over stays over: nothing else is done afterwards.
pub proof fn law_finished_launch_stays_finished(
    phases: Seq<ChildLaunch>,
    events: Seq<LaunchEvent>,
    actions: Seq<LaunchAction>,
    i: int,
    j: int,
)
    requires
        launch_trace(phases, events, actions),
        0 <= i < j < actions.len(),
        actions[i] is Finish,
    ensures
        phases[j] is Finished,
        actions[j] is Ignore,
    decreases j,
{
    assert(launch_step(phases[i], events[i], phases[i + 1], actions[i]));
    if j > i + 1 {
        law_finished_launch_stays_finished(phases, events, actions, i, j - 1);
        assert(launch_step(phases[j - 1], events[j - 1], phases[j], actions[j - 1]));
    }
    assert(launch_step(phases[j], events[j], phases[j + 1], actions[j]));
}

proof fn lemma_after_start(
    phases: Seq<ChildLaunch>,
    events: Seq<LaunchEvent>,
    actions: Seq<LaunchAction>,
    i: int,
    m: int,
    pid: u32,
)
    requires
        launch_trace(phases, events, actions),
        0 <= i < m < phases.len(),
        started_at(events, actions, i, pid),
    ensures
        ({
            ||| phases[m] is SendingState
            ||| phases[m] is AwaitingReady
            ||| phases[m] is TellingHandler
            ||| phases[m] is Killing && exists|k: int| i < k < m && #[trigger] actions[k] is Kill
            ||| phases[m] is Finished
        }),
    decreases m,
{
    assert(launch_step(phases[m - 1], events[m - 1], phases[m], actions[m - 1]));
    if m > i + 1 {
        lemma_after_start(phases, events, actions, i, m - 1, pid);
        if phases[m] is Killing && !(phases[m - 1] is Killing) {
            assert(actions[m - 1] is Kill);
        }
    }
}

/// A new process that was started and then counts as failed has been killed.
pub proof fn law_failed_process_is_killed(
    phases: Seq<ChildLaunch>,
    events: Seq<LaunchEvent>,
    actions: Seq<LaunchAction>,
    i: int,
    j: int,
    pid: u32,
)
    requires
        launch_trace(phases, events, actions),
        0 <= i < actions.len(),
        0 <= j < actions.len(),
        started_at(events, actions, i, pid),
        actions[j] is Finish,
        actions[j]->Finish_0 is Err,
    ensures
        exists|k: int| i < k < j && #[trigger] actions[k] is Kill,
{
    assert(launch_step(phases[i], events[i], phases[i + 1], actions[i]));
    assert(launch_step(phases[j], events[j], phases[j + 1], actions[j]));
    if j < i {
        law_finished_launch_stays_finished(phases, events, actions, j, i);
    }
    lemma_after_start(phases, events, actions, i, j, pid);
}

/// The lifecycle handler is told of a failed process exactly when that process did not announce
/// that it is ready, and only after the handler's state was sent; it is told before the process is
/// killed.
pub proof fn law_handler_hears_of_failed_process(
    phases: Seq<ChildLaunch>,
    events: Seq<LaunchEvent>,
    actions: Seq<LaunchAction>,
    j: int,
)
    requires
        launch_trace(phases, events, actions),
        0 <= j < actions.len(),
    ensures
        actions[j] is NewProcessFailed <==> phases[j] is AwaitingReady
            && events[j] is NotificationRead && events[j] != LaunchEvent::NotificationRead(Ok(1)),
        actions[j] is NewProcessFailed ==> phases[j + 1] is TellingHandler && exists|k: int|
            0 <= k < j && #[trigger] state_sent_at(events, actions, k),
{
    assert(launch_step(phases[j], events[j], phases[j + 1], actions[j]));
    lemma_launch_history(phases, events, actions, j);
}

proof fn lemma_handler_told_before(
    phases: Seq<ChildLaunch>,
    events: Seq<LaunchEvent>,
    actions: Seq<LaunchAction>,
    m: int,
)
    requires
        launch_trace(phases, events, actions),
        0 <= m < phases.len(),
        phases[m] is TellingHandler,
    ensures
        exists|k: int| 0 <= k < m && #[trigger] actions[k] is NewProcessFailed,
    decreases m,
{
    assert(launch_step(phases[m - 1], events[m - 1], phases[m], actions[m - 1]));
    if phases[m - 1] is TellingHandler {
        lemma_handler_told_before(phases, events, actions, m - 1);
    } else {
        assert(actions[m - 1] is NewProcessFailed);
    }
}

/// A new process has all the time that it needs to get ready: it is killed only if no state could
/// be sent to it, or after it gave up without announcing that it is ready.
pub proof fn law_killed_only_when_failed(
    phases: Seq<ChildLaunch>,
    events: Seq<LaunchEvent>,
    actions: Seq<LaunchAction>,
    j: int,
)
    requires
        launch_trace(phases, events, actions),
        0 <= j < actions.len(),
        actions[j] is Kill,
    ensures
        ({
            ||| events[j] is StateSent && events[j]->StateSent_0 is Err
            ||| events[j] is HandlerTold && exists|k: int|
                0 <= k < j && #[trigger] actions[k] is NewProcessFailed
        }),
{
    assert(launch_step(phases[j], events[j], phases[j + 1], actions[j]));
    if phases[j] is TellingHandler {
        lemma_handler_told_before(phases, events, actions, j);
    }
}

/// A new process finds in its environment the pipe that carries its parent's state, the pipe on
/// which to announce that it is ready, and the restart coordination socket if there is one,
/// whatever the user and the parent put into the environment.
pub proof fn law_new_process_reaches_its_parent(
    command: ChildCommand,
    request: LaunchRequest,
    notify: CompletionSender,
    handover: PairedPipes,
    inherited: Map<Seq<u8>, Seq<u8>>,
    text: Seq<char>,
)
    requires
        is_command_for(command, request, notify, handover),
    ensures
        ({
            let envs = crate::environment::env_view(command.envs@);
            let found = Some(crate::environment::encoded(text));
            &&& crate::environment::visible(inherited, envs, crate::environment::encoded(ENV_HANDOVER_PIPE@)) is Some
            &&& crate::environment::visible(inherited, envs, crate::environment::encoded(ENV_HANDOVER_PIPE@)) == found ==> crate::text::parsed_i32(text)
                == Some(handover.reader)
            &&& crate::environment::visible(inherited, envs, crate::environment::encoded(ENV_NOTIFY_SOCKET@)) is Some
            &&& crate::environment::visible(inherited, envs, crate::environment::encoded(ENV_NOTIFY_SOCKET@)) == found ==> crate::text::parsed_i32(text)
                == Some(notify.fd)
            &&& request.restart_fd is Some ==> crate::environment::visible(
                inherited,
                envs,
                crate::environment::encoded(ENV_RESTART_SOCKET@),
            ) is Some
            &&& request.restart_fd is Some && crate::environment::visible(
                inherited,
                envs,
                crate::environment::encoded(ENV_RESTART_SOCKET@),
            ) == found ==> crate::text::parsed_i32(text) == request.restart_fd
        }),
{
    let user = crate::environment::env_view(request.user_envs@);
    crate::environment::law_handover_settings_win(inherited, user, handover.reader, notify.fd, request.restart_fd);
    crate::environment::law_new_process_finds_descriptors(
        inherited,
        user,
        handover.reader,
        notify.fd,
        request.restart_fd,
        text,
    );
}

/// Why no process was started is told together with the reason that was reported.
pub proof fn law_spawn_errors_carry_their_reason(
    error: &ChildSpawnError,
    text: String,
    failure: &IoFailure,
    reason: String,
)
    requires
        call_ensures(ChildSpawnError::to_text, (error,), text),
        call_ensures(IoFailure::to_text, (failure,), reason),
    ensures
        *error == ChildSpawnError::ChildError(*failure) ==> text@ == "Child failed to start: "@
            + reason@,
        *error is RestartThreadGone ==> text@ == "Restart thread exited"@,
{
}

/// The same program is started once more, with the same arguments in the same order, and with the
/// environment variables and the socket that are asked for.
pub proof fn law_request_repeats_the_command_line(
    command_line: Vec<String>,
    user_envs: Vec<EnvPair>,
    restart_fd: Option<i32>,
    request: LaunchRequest,
)
    requires
        command_line@.len() > 0,
        call_ensures(LaunchRequest::new, (command_line, user_envs, restart_fd), request),
    ensures
        seq![request.program] + request.args@ == command_line@,
        request.user_envs@ == user_envs@,
        request.restart_fd == restart_fd,
{
    assert(seq![request.program] + request.args@ =~= command_line@);
}

/// A new spawner holds what it is given and waits for its first request.
pub proof fn law_new_spawner_waits(
    restart_fd: Option<i32>,
    environment: Vec<EnvPair>,
    spawner: ChildSpawner,
)
    requires
        call_ensures(ChildSpawner::new, (restart_fd, environment), spawner),
    ensures
        spawner.phase is Idle,
        spawner.restart_fd == restart_fd,
        spawner.environment@ == environment@,
{
}

/// What the thread that starts new processes does is a step of its course, and what it was given
/// never changes.
pub proof fn law_spawner_keeps_what_it_was_given(
    spawner: &mut ChildSpawner,
    event: SpawnerEvent,
    action: SpawnerAction,
)
    requires
        call_ensures(ChildSpawner::step, (spawner, event), action),
    ensures
        spawner_step(*old(spawner), event, *final(spawner), action),
        final(spawner).restart_fd == old(spawner).restart_fd,
        final(spawner).environment@ == old(spawner).environment@,
{
}

/// A spawner that waits starts, on a request, the program of the command line once more, with
/// exactly the environment variables and the socket that it was given.
pub proof fn law_spawner_starts_what_is_requested(
    spawner: &mut ChildSpawner,
    command_line: Vec<String>,
    action: SpawnerAction,
)
    requires
        command_line@.len() > 0,
        old(spawner).phase is Idle,
        call_ensures(ChildSpawner::step, (spawner, SpawnerEvent::Requested(command_line)), action),
    ensures
        final(spawner).phase is Launching,
        action is Launch,
        seq![action->Launch_0.program] + action->Launch_0.args@ == command_line@,
        action->Launch_0.restart_fd == old(spawner).restart_fd,
        action->Launch_0.user_envs@.len() == old(spawner).environment@.len(),
        forall|i: int|
            0 <= i < old(spawner).environment@.len() ==> (#[trigger] action->Launch_0.user_envs@[i]).0@
                == old(spawner).environment@[i].0@ && action->Launch_0.user_envs@[i].1@ == old(
                spawner,
            ).environment@[i].1@,
{
    let request = action->Launch_0;
    let given = old(spawner).environment@;
    assert(seq![request.program] + request.args@ =~= command_line@);
    assert(crate::environment::env_view(request.user_envs@).len() == request.user_envs@.len());
    assert(crate::environment::env_view(given).len() == given.len());
    assert forall|i: int| 0 <= i < given.len() implies (#[trigger] request.user_envs@[i]).0@
        == given[i].0@ && request.user_envs@[i].1@ == given[i].1@ by {
        assert(crate::environment::env_view(request.user_envs@)[i]
            == crate::environment::env_view(given)[i]);
    }
}

/// The outcome of a start is handed over as it is, whatever it is; the thread then waits for the
/// next request, or ends if there was nobody to take the outcome. It also ends when nobody can
/// request anything any more.
pub proof fn law_spawner_hands_over_and_goes_on(
    launching: &mut ChildSpawner,
    delivering: &mut ChildSpawner,
    waiting: &mut ChildSpawner,
    outcome: Result<u32, IoFailure>,
    taken: bool,
    delivery: SpawnerAction,
    next: SpawnerAction,
    last: SpawnerAction,
)
    requires
        old(launching).phase is Launching,
        call_ensures(ChildSpawner::step, (launching, SpawnerEvent::Launched(outcome)), delivery),
        *old(delivering) == *final(launching),
        call_ensures(ChildSpawner::step, (delivering, SpawnerEvent::Delivered(taken)), next),
        old(waiting).phase is Idle,
        call_ensures(ChildSpawner::step, (waiting, SpawnerEvent::RequesterGone), last),
    ensures
        delivery == SpawnerAction::Deliver(outcome),
        taken ==> next is AwaitRequest && final(delivering).phase is Idle,
        !taken ==> next is Panic && final(delivering).phase is Exited,
        last is Exit && final(waiting).phase is Exited,
{
}

/// An event that does not belong to what the thread is doing changes nothing.
pub proof fn law_stray_spawner_events_change_nothing(
    spawner: &mut ChildSpawner,
    event: SpawnerEvent,
    action: SpawnerAction,
)
    requires
        call_ensures(ChildSpawner::step, (spawner, event), action),
        ({
            let phase = old(spawner).phase;
            &&& !(phase is Idle && (event is Requested || event is RequesterGone))
            &&& !(phase is Launching && event is Launched)
            &&& !(phase is Delivering && event is Delivered)
        }),
    ensures
        action is Ignore,
        *final(spawner) == *old(spawner),
{
}

/// Whoever requested a process learns what the thread handed over, unchanged; if the thread could
/// not be asked, or handed over nothing, it is gone.
pub proof fn law_outcome_of_a_request(
    request_sent: bool,
    handed_over: Option<Result<u32, IoFailure>>,
    outcome: Result<u32, ChildSpawnError>,
)
    requires
        call_ensures(ChildSpawner::spawn_new_process, (request_sent, handed_over), outcome),
    ensures
        outcome is Err && outcome->Err_0 is RestartThreadGone <==> !request_sent
            || handed_over is None,
        request_sent && handed_over is Some ==> match handed_over->0 {
            Ok(pid) => outcome is Ok && outcome->Ok_0 == pid,
            Err(e) => outcome is Err && outcome->Err_0 == ChildSpawnError::ChildError(e),
        },
{
}

/// An attempt begins with the request that it is for, and the lifecycle handler hears of it first;
/// what it does then is a step of its course.
pub proof fn law_launch_begins_with_its_request(
    request: LaunchRequest,
    begun: (ChildLaunch, LaunchAction),
    launch: ChildLaunch,
    event: LaunchEvent,
    next: (ChildLaunch, LaunchAction),
)
    requires
        call_ensures(ChildLaunch::begin, (request,), begun),
        call_ensures(ChildLaunch::step, (launch, event), next),
    ensures
        begun.0 == ChildLaunch::Announcing(request),
        begun.1 is PreNewProcess,
        launch_step(launch, event, next.0, next.1),
{
}

/// Up to the start of the process an attempt makes first the notification pipe and then the pipe
/// for the handover, and then starts the program of the request: the same program with the same
/// arguments, which inherits the restart coordination socket if there is one. The write end of the
/// notification pipe and the read end of the handover pipe are those that were made for it.
pub proof fn law_launch_starts_what_was_requested(
    request: LaunchRequest,
    begun: (ChildLaunch, LaunchAction),
    announced: (ChildLaunch, LaunchAction),
    notification: (CompletionReceiver, CompletionSender),
    notified: (ChildLaunch, LaunchAction),
    handover: PairedPipes,
    spawning: (ChildLaunch, LaunchAction),
    inherited: Map<Seq<u8>, Seq<u8>>,
    key: Seq<u8>,
    handover_text: String,
    notify_text: String,
    socket_fd: i32,
    socket_text: String,
)
    requires
        call_ensures(ChildLaunch::begin, (request,), begun),
        call_ensures(ChildLaunch::step, (begun.0, LaunchEvent::Announced), announced),
        call_ensures(
            ChildLaunch::step,
            (announced.0, LaunchEvent::NotifyPipe(Ok(notification))),
            notified,
        ),
        call_ensures(
            ChildLaunch::step,
            (notified.0, LaunchEvent::HandoverPipe(Ok(handover))),
            spawning,
        ),
        call_ensures(crate::pipes::fd_string, (handover.reader,), handover_text),
        call_ensures(crate::pipes::fd_string, (notification.1.fd,), notify_text),
        request.restart_fd is Some ==> request.restart_fd == Some(socket_fd),
        call_ensures(crate::pipes::fd_string, (socket_fd,), socket_text),
    ensures
        announced.1 is OpenNotifyPipe,
        notified.1 is OpenHandoverPipe,
        spawning.0 is Spawning,
        spawning.1 is Spawn,
        spawning.1->Spawn_0.program == request.program,
        spawning.1->Spawn_0.args@ == request.args@,
        spawning.1->Spawn_0.inherit == request.restart_fd,
        forall|i: int|
            0 <= i < request.user_envs@.len() ==> (#[trigger] spawning.1->Spawn_0.envs@[i]).0@
                == request.user_envs@[i].0@ && spawning.1->Spawn_0.envs@[i].1@
                == request.user_envs@[i].1@,
        ({
            let found = crate::environment::visible(
                inherited,
                crate::environment::env_view(spawning.1->Spawn_0.envs@),
                key,
            );
            if key == crate::environment::encoded("LISTEN_PID"@) {
                found == Some(crate::environment::encoded("auto"@))
            } else if key == crate::environment::encoded("OXY_HANDOVER_PIPE"@) {
                found == Some(crate::environment::encoded(handover_text@))
            } else if key == crate::environment::encoded("OXY_NOTIFY_SOCKET"@) {
                found == Some(crate::environment::encoded(notify_text@))
            } else if key == crate::environment::encoded("OXY_RESTART_SOCKET"@)
                && request.restart_fd is Some {
                found == Some(crate::environment::encoded(socket_text@))
            } else {
                found == crate::environment::visible(
                    inherited,
                    crate::environment::env_view(request.user_envs@),
                    key,
                )
            }
        }),
{
    crate::environment::law_handover_settings_win(
        inherited,
        crate::environment::env_view(request.user_envs@),
        handover.reader,
        notification.1.fd,
        request.restart_fd,
    );
    let envs = spawning.1->Spawn_0.envs@;
    let user = request.user_envs@;
    assert(crate::environment::env_view(envs).len() == envs.len());
    assert forall|i: int| 0 <= i < user.len() implies (#[trigger] envs[i]).0@ == user[i].0@
        && envs[i].1@ == user[i].1@ by {
        assert(crate::environment::env_view(envs)[i] == crate::environment::env_view(user)[i]);
        assert(crate::environment::env_view(envs)[i] == (envs[i].0@, envs[i].1@));
        assert(crate::environment::env_view(user)[i] == (user[i].0@, user[i].1@));
    }
}

/// An attempt for which a pipe cannot be made, or for which no process can be started, is over, and
/// its outcome is the reason.
pub proof fn law_launch_that_never_starts(
    launch: ChildLaunch,
    event: LaunchEvent,
    reason: IoFailure,
    next: (ChildLaunch, LaunchAction),
)
    requires
        ({
            ||| launch is OpeningNotifyPipe && event == LaunchEvent::NotifyPipe(Err(reason))
            ||| launch is OpeningHandoverPipe && event == LaunchEvent::HandoverPipe(Err(reason))
            ||| launch is Spawning && event == LaunchEvent::Spawned(Err(reason))
        }),
        call_ensures(ChildLaunch::step, (launch, event), next),
    ensures
        next.0 is Finished,
        next.1 == LaunchAction::Finish(Err(reason)),
{
}

/// A process that was started gets its state, then it is waited for, and if it announces that it is
/// ready the attempt has succeeded, with the id of that process.
pub proof fn law_launch_that_succeeds(
    pid: u32,
    started: (ChildLaunch, LaunchAction),
    sent: (ChildLaunch, LaunchAction),
    ready: (ChildLaunch, LaunchAction),
)
    requires
        call_ensures(
            ChildLaunch::step,
            (ChildLaunch::Spawning, LaunchEvent::Spawned(Ok(pid))),
            started,
        ),
        call_ensures(ChildLaunch::step, (started.0, LaunchEvent::StateSent(Ok(()))), sent),
        call_ensures(ChildLaunch::step, (sent.0, LaunchEvent::NotificationRead(Ok(1))), ready),
    ensures
        started.1 is SendToNewProcess,
        sent.1 is ReadNotification,
        ready.0 is Finished,
        ready.1 == LaunchAction::Finish(Ok(pid)),
{
}

/// A process that was started but does not get ready is killed, after the lifecycle handler was
/// told, and the attempt has failed for the reason for which no announcement could be read.
pub proof fn law_launch_that_does_not_get_ready(
    pid: u32,
    read: Result<usize, IoFailure>,
    judged: Result<(), IoFailure>,
    failed: (ChildLaunch, LaunchAction),
    told: (ChildLaunch, LaunchAction),
    killed: (ChildLaunch, LaunchAction),
)
    requires
        call_ensures(CompletionReceiver::recv, (read,), judged),
        judged is Err,
        call_ensures(
            ChildLaunch::step,
            (ChildLaunch::AwaitingReady(pid), LaunchEvent::NotificationRead(read)),
            failed,
        ),
        call_ensures(ChildLaunch::step, (failed.0, LaunchEvent::HandlerTold), told),
        call_ensures(ChildLaunch::step, (told.0, LaunchEvent::Killed), killed),
    ensures
        failed.1 is NewProcessFailed,
        told.1 is Kill,
        killed.0 is Finished,
        killed.1 == LaunchAction::Finish(Err(judged->Err_0)),
{
}

/// A process to which no state can be sent is killed, and the attempt has failed for that reason.
pub proof fn law_launch_without_state(
    pid: u32,
    reason: IoFailure,
    failed: (ChildLaunch, LaunchAction),
    killed: (ChildLaunch, LaunchAction),
)
    requires
        call_ensures(
            ChildLaunch::step,
            (ChildLaunch::SendingState(pid), LaunchEvent::StateSent(Err(reason))),
            failed,
        ),
        call_ensures(ChildLaunch::step, (failed.0, LaunchEvent::Killed), killed),
    ensures
        failed.1 is Kill,
        killed.0 is Finished,
        killed.1 == LaunchAction::Finish(Err(reason)),
{
}

/// An event that does not belong to what an attempt is doing changes nothing.
pub proof fn law_stray_launch_events_change_nothing(
    launch: ChildLaunch,
    event: LaunchEvent,
    next: (ChildLaunch, LaunchAction),
)
    requires
        call_ensures(ChildLaunch::step, (launch, event), next),
        !(launch is Announcing && event is Announced),
        !(launch is OpeningNotifyPipe && event is NotifyPipe),
        !(launch is OpeningHandoverPipe && event is HandoverPipe),
        !(launch is Spawning && event is Spawned),
        !(launch is SendingState && event is StateSent),
        !(launch is AwaitingReady && event is NotificationRead),
        !(launch is TellingHandler && event is HandlerTold),
        !(launch is Killing && event is Killed),
    ensures
        next.0 == launch,
        next.1 is Ignore,
{
}

proof fn lemma_request_stays(
    phases: Seq<ChildLaunch>,
    events: Seq<LaunchEvent>,
    actions: Seq<LaunchAction>,
    m: int,
)
    requires
        launch_trace(phases, events, actions),
        0 <= m < phases.len(),
    ensures
        phases[m] matches ChildLaunch::Announcing(request) ==> phases[0] == ChildLaunch::Announcing(
            request,
        ),
        phases[m] matches ChildLaunch::OpeningNotifyPipe(request) ==> phases[0]
            == ChildLaunch::Announcing(request),
        phases[m] matches ChildLaunch::OpeningHandoverPipe(request, notify) ==> phases[0]
            == ChildLaunch::Announcing(request) && exists|k: int|
            0 <= k < m && #[trigger] events[k] is NotifyPipe && events[k]->NotifyPipe_0 is Ok
                && events[k]->NotifyPipe_0->Ok_0.1 == notify,
    decreases m,
{
    if m > 0 {
        let n = m - 1;
        lemma_request_stays(phases, events, actions, n);
        assert(launch_step(phases[n], events[n], phases[m], actions[n]));
        if phases[m] is OpeningHandoverPipe {
            if phases[n] is OpeningNotifyPipe {
                assert(events[n] is NotifyPipe);
            } else {
                let notify = phases[n]->OpeningHandoverPipe_1;
                let k = choose|k: int|
                    0 <= k < n && #[trigger] events[k] is NotifyPipe && events[k]->NotifyPipe_0 is Ok
                        && events[k]->NotifyPipe_0->Ok_0.1 == notify;
                assert(0 <= k < m && events[k] is NotifyPipe);
            }
        }
    }
}

/// Whatever happens in the course of an attempt, the process that it starts is the one that was
/// requested: the same program with the same arguments, the socket to inherit, and every environment
/// variable that the user set, except for those of the handover.
pub proof fn law_started_process_is_as_requested(
    phases: Seq<ChildLaunch>,
    events: Seq<LaunchEvent>,
    actions: Seq<LaunchAction>,
    j: int,
    inherited: Map<Seq<u8>, Seq<u8>>,
    key: Seq<u8>,
)
    requires
        launch_trace(phases, events, actions),
        0 <= j < actions.len(),
        actions[j] is Spawn,
    ensures
        ({
            let request = phases[0]->Announcing_0;
            let command = actions[j]->Spawn_0;
            &&& command.program == request.program
            &&& command.args@ == request.args@
            &&& command.inherit == request.restart_fd
            &&& key != crate::environment::encoded("LISTEN_PID"@) && key
                != crate::environment::encoded("OXY_HANDOVER_PIPE"@) && key
                != crate::environment::encoded("OXY_NOTIFY_SOCKET"@) && (request.restart_fd is None
                || key != crate::environment::encoded("OXY_RESTART_SOCKET"@))
                ==> crate::environment::visible(
                inherited,
                crate::environment::env_view(command.envs@),
                key,
            ) == crate::environment::visible(
                inherited,
                crate::environment::env_view(request.user_envs@),
                key,
            )
        }),
        exists|k: int|
            0 <= k < j && #[trigger] events[k] is NotifyPipe && events[k]->NotifyPipe_0 is Ok
                && is_command_for(
                actions[j]->Spawn_0,
                phases[0]->Announcing_0,
                events[k]->NotifyPipe_0->Ok_0.1,
                events[j]->HandoverPipe_0->Ok_0,
            ),
{
    assert(launch_step(phases[j], events[j], phases[j + 1], actions[j]));
    lemma_request_stays(phases, events, actions, j);
    let request = phases[0]->Announcing_0;
    let notify = phases[j]->OpeningHandoverPipe_1;
    let handover = events[j]->HandoverPipe_0->Ok_0;
    crate::environment::law_handover_settings_win(
        inherited,
        crate::environment::env_view(request.user_envs@),
        handover.reader,
        notify.fd,
        request.restart_fd,
    );
}

} // verus!
