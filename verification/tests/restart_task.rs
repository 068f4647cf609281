use shellflip::child::ChildSpawnError;
use shellflip::environment::SocketSource;
use shellflip::error::IoFailure;
use shellflip::restart_coordination_socket::{
    Reply, RestartCoordinationSocket, RestartMessage, RestartResponder, RestartResponse,
};
use shellflip::restart_task::{
    next_restart_request, RequestEvent, RestartError, RestartMode, RestartTask, TaskAction,
    TaskEvent, TaskPhase,
};
use shellflip::{spawn_restart_task, RestartConfig};

const BY_SOCKET: RequestEvent = RequestEvent::Socket(Some(RestartResponder { rpc: Some(9) }));

fn waiting(exit_on_error: bool) -> RestartTask {
    let mut task = RestartTask::new(RestartMode::Fork, exit_on_error);
    assert!(matches!(
        task.step(TaskEvent::Announced(Ok(()))),
        TaskAction::AwaitRequest
    ));
    task
}

/// What is sent to whoever made the request.
fn reply(action: TaskAction) -> Reply {
    match action {
        TaskAction::SendReply(reply) => {
            assert_eq!(reply.connection, 9);
            reply
        }
        other => panic!("{:?}", other),
    }
}

fn child_error() -> Result<u32, ChildSpawnError> {
    Err(ChildSpawnError::ChildError(IoFailure::ChildSilent))
}

#[test]
fn settings_by_default() {
    let config = RestartConfig::default();
    assert!(!config.enabled);
    assert!(config.coordination_socket_path.is_empty());
    assert!(config.environment.is_empty());
    assert!(config.exit_on_error);
}

#[test]
fn a_setup_carries_the_settings_over() {
    let config = RestartConfig {
        enabled: true,
        coordination_socket_path: b"/run/s".to_vec(),
        environment: vec![(b"A".to_vec(), b"b".to_vec())],
        exit_on_error: false,
    };
    let setup = spawn_restart_task(config, RestartMode::Fork, None).unwrap();
    assert_eq!(setup.socket, Some(SocketSource::Bind));
    assert_eq!(setup.coordination_socket_path, b"/run/s");
    assert_eq!(setup.environment, [(b"A".to_vec(), b"b".to_vec())]);
    assert!(matches!(setup.task.phase, TaskPhase::Starting));
    assert_eq!(setup.task.mode, RestartMode::Fork);
    assert!(!setup.task.exit_on_error);
}

#[test]
fn a_socket_is_inherited_if_the_environment_says_so() {
    let config = |enabled| RestartConfig {
        enabled,
        ..Default::default()
    };
    let setup = spawn_restart_task(config(true), RestartMode::Fork, Some("17")).unwrap();
    assert_eq!(setup.socket, Some(SocketSource::Inherit(17)));
    let failed = spawn_restart_task(config(true), RestartMode::Fork, Some("x"));
    assert_eq!(failed.unwrap_err().to_text(), "invalid notify socket fd");
    let setup = spawn_restart_task(config(false), RestartMode::Fork, Some("x")).unwrap();
    assert_eq!(setup.socket, None);
}

#[test]
fn a_failed_announcement_ends_the_task() {
    let mut task = RestartTask::new(RestartMode::Fork, false);
    match task.step(TaskEvent::Announced(Err(IoFailure::ParentNotSignalled))) {
        TaskAction::Resolve(Err(RestartError::Startup(e))) => {
            assert_eq!(e.to_text(), "failed to signal parent to close")
        }
        other => panic!("{:?}", other),
    }
    assert!(matches!(task.phase, TaskPhase::Resolved));
}

#[test]
fn nothing_is_attempted_before_the_announcement() {
    let mut task = RestartTask::new(RestartMode::Fork, true);
    assert!(matches!(
        task.step(TaskEvent::Request(RequestEvent::Signal)),
        TaskAction::Ignore
    ));
    assert!(matches!(task.phase, TaskPhase::Starting));
}

#[test]
fn the_end_of_the_acceptor_ends_the_task() {
    let mut task = waiting(false);
    assert!(matches!(
        task.step(TaskEvent::Request(RequestEvent::Socket(None))),
        TaskAction::Resolve(Err(RestartError::AcceptorTerminated))
    ));
    assert!(matches!(
        task.step(TaskEvent::Request(RequestEvent::Signal)),
        TaskAction::Ignore
    ));
}

#[test]
fn requests() {
    assert_eq!(next_restart_request(RequestEvent::Signal).unwrap().rpc, None);
    assert_eq!(next_restart_request(BY_SOCKET).unwrap().rpc, Some(9));
    assert!(matches!(
        next_restart_request(RequestEvent::Socket(None)),
        Err(RestartError::AcceptorTerminated)
    ));
}

#[test]
fn one_upgrade_at_a_time() {
    let mut task = waiting(false);
    assert!(matches!(
        task.step(TaskEvent::Request(BY_SOCKET)),
        TaskAction::SpawnNewProcess
    ));
    for request in [RequestEvent::Signal, BY_SOCKET, RequestEvent::Socket(None)] {
        assert!(matches!(
            task.step(TaskEvent::Request(request)),
            TaskAction::Ignore
        ));
    }
    assert!(matches!(
        task.step(TaskEvent::StateStored(Ok(1))),
        TaskAction::Ignore
    ));
    assert!(matches!(
        task.step(TaskEvent::ChildSpawned(child_error())),
        TaskAction::SendReply(_)
    ));
    assert!(matches!(
        task.step(TaskEvent::Request(RequestEvent::Signal)),
        TaskAction::Ignore
    ));
    assert!(matches!(
        task.step(TaskEvent::Replied),
        TaskAction::AwaitRequest
    ));
    assert!(matches!(
        task.step(TaskEvent::Request(RequestEvent::Signal)),
        TaskAction::SpawnNewProcess
    ));
}

#[test]
fn a_successful_upgrade_ends_the_task() {
    let mut task = waiting(true);
    task.step(TaskEvent::Request(BY_SOCKET));
    let sent = reply(task.step(TaskEvent::ChildSpawned(Ok(42))));
    assert!(matches!(
        sent.message,
        RestartMessage::Response(RestartResponse::RestartComplete(42))
    ));
    // The requester is told first, then systemd, and then the task resolves.
    assert!(matches!(
        task.step(TaskEvent::MainPidAnnounced),
        TaskAction::Ignore
    ));
    assert!(matches!(
        task.step(TaskEvent::Replied),
        TaskAction::AnnounceMainPid(42)
    ));
    assert!(matches!(task.step(TaskEvent::Replied), TaskAction::Ignore));
    assert!(matches!(
        task.step(TaskEvent::MainPidAnnounced),
        TaskAction::Resolve(Ok(42))
    ));
    assert!(matches!(
        task.step(TaskEvent::Request(BY_SOCKET)),
        TaskAction::Ignore
    ));
}

#[test]
fn nobody_is_told_of_an_upgrade_by_signal() {
    let mut task = waiting(true);
    task.step(TaskEvent::Request(RequestEvent::Signal));
    assert!(matches!(
        task.step(TaskEvent::ChildSpawned(Ok(42))),
        TaskAction::AnnounceMainPid(42)
    ));
    assert!(matches!(
        task.step(TaskEvent::MainPidAnnounced),
        TaskAction::Resolve(Ok(42))
    ));
}

#[test]
fn a_failed_child_ends_the_task_only_if_the_settings_say_so() {
    for exit_on_error in [false, true] {
        let mut task = waiting(exit_on_error);
        task.step(TaskEvent::Request(BY_SOCKET));
        let sent = reply(task.step(TaskEvent::ChildSpawned(child_error())));
        assert_eq!(
            RestartCoordinationSocket::restart_command_reply(sent.message),
            Err("Child failed to start: child failed to notify parent".to_string())
        );
        match task.step(TaskEvent::Replied) {
            TaskAction::Resolve(Err(error)) => {
                assert!(exit_on_error);
                assert_eq!(
                    error.to_text(),
                    "Restart failed: child failed to notify parent"
                );
                assert!(matches!(task.phase, TaskPhase::Resolved));
            }
            TaskAction::AwaitRequest => {
                assert!(!exit_on_error);
                assert!(matches!(task.phase, TaskPhase::Waiting));
            }
            other => panic!("{:?}", other),
        }
    }
}

#[test]
fn without_its_thread_the_task_ends_in_any_case() {
    let mut task = waiting(false);
    task.step(TaskEvent::Request(BY_SOCKET));
    let sent = reply(task.step(TaskEvent::ChildSpawned(Err(
        ChildSpawnError::RestartThreadGone,
    ))));
    assert_eq!(
        RestartCoordinationSocket::restart_command_reply(sent.message),
        Err("Restart thread exited".to_string())
    );
    assert!(matches!(
        task.step(TaskEvent::Replied),
        TaskAction::Resolve(Err(RestartError::RestartThreadGone))
    ));
    assert!(matches!(task.phase, TaskPhase::Resolved));
}
