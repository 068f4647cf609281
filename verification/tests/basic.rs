use sd_notify::NotifyState;
use shellflip::child::{
    ChildLaunch, ChildSpawner, LaunchAction, LaunchEvent, LaunchRequest, SpawnerAction,
    SpawnerEvent,
};
use shellflip::environment::{startup_signalled, StartupAction};
use shellflip::error::IoFailure;
use shellflip::fdstore::{create_handover_memfd, StoredMemory};
use shellflip::generation::{restart_request_line, restart_task_line, AppData};
use shellflip::lifecycle::{receive_from_old_process, HandoverSource};
use shellflip::pipes::{completion_pipes, create_paired_pipes, PipeMode};
use shellflip::restart_coordination_socket::{
    listen_for_restart_events, ConnectionEvent, Reply, RestartCoordinationSocket, RestartMessage,
};
use shellflip::restart_task::{
    RequestEvent, RestartError, RestartTask, TaskAction, TaskEvent,
};
use shellflip::{fixup_systemd_env, startup_complete, RestartConfig};
use std::collections::HashMap;

const NOTIFY_PIPE: [i32; 2] = [10, 11];
const HANDOVER_PIPE: [i32; 2] = [12, 13];

/// A running service, with its environment and what it printed.
struct Process {
    pid: u32,
    env: HashMap<String, String>,
    app: AppData,
    task: RestartTask,
    restart_fd: Option<i32>,
}

fn text(bytes: &[u8]) -> String {
    String::from_utf8(bytes.to_vec()).unwrap()
}

/// Starts a service up to the point where it waits for requests.
fn start(
    pid: u32,
    mut env: HashMap<String, String>,
    handover: Option<&[u8]>,
    enabled: bool,
    stdout: &mut Vec<String>,
) -> Process {
    let source = receive_from_old_process(
        env.get("OXY_HANDOVER_PIPE").map(|s| s.as_str()),
        &Vec::new(),
    );
    assert_eq!(source.is_some(), handover.is_some());
    if handover.is_some() {
        assert_eq!(source, Some(HandoverSource::Pipe(HANDOVER_PIPE[0])));
    }
    let app = AppData::start(handover).unwrap();
    let config = RestartConfig {
        enabled,
        ..Default::default()
    };
    let (listen_pid, setup) = config.try_into_restart_task(
        env.get("LISTEN_PID").map(|s| s.as_str()),
        pid,
        env.get("OXY_RESTART_SOCKET").map(|s| s.as_str()),
    );
    if let Some(value) = listen_pid {
        env.insert("LISTEN_PID".to_string(), value);
    }
    let mut task = setup.unwrap().task;
    stdout.push(app.started_line());

    match startup_complete(env.get("OXY_NOTIFY_SOCKET").map(|s| s.as_str())) {
        StartupAction::SignalParent(fd) => {
            assert_eq!(fd, NOTIFY_PIPE[1]);
            assert!(matches!(startup_signalled(Ok(1)), StartupAction::Ready));
        }
        StartupAction::Ready => assert!(handover.is_none()),
        StartupAction::Fail(e) => panic!("{}", e.to_text()),
    }
    env.remove("OXY_NOTIFY_SOCKET");
    assert!(matches!(
        task.step(TaskEvent::Announced(Ok(()))),
        TaskAction::AwaitRequest
    ));
    Process {
        pid,
        env,
        app,
        task,
        restart_fd: if enabled { Some(5) } else { None },
    }
}

/// Starts the successor of a service, and gives it back if it got ready.
fn launch(
    parent: &Process,
    request: LaunchRequest,
    stdout: &mut Vec<String>,
) -> (Option<Process>, Result<u32, IoFailure>, Vec<&'static str>) {
    let pid = parent.pid + 1;
    let mut done = Vec::new();
    let mut env = parent.env.clone();
    let mut sent = Vec::new();
    let mut child = None;
    let (mut launch, mut action) = ChildLaunch::begin(request);
    loop {
        let event = match action {
            LaunchAction::PreNewProcess => {
                done.push("pre");
                LaunchEvent::Announced
            }
            LaunchAction::OpenNotifyPipe => {
                let (r, w, closed) = completion_pipes(NOTIFY_PIPE);
                assert_eq!(closed, NOTIFY_PIPE[0]);
                LaunchEvent::NotifyPipe(Ok((r, w)))
            }
            LaunchAction::OpenHandoverPipe => {
                let pipes = create_paired_pipes(PipeMode::ParentWrites, HANDOVER_PIPE);
                assert_eq!(pipes.close_on_exec, HANDOVER_PIPE[1]);
                LaunchEvent::HandoverPipe(Ok(pipes))
            }
            LaunchAction::Spawn(command) => {
                done.push("spawn");
                assert_eq!(command.program, "basic");
                assert_eq!(command.args, ["--flag"]);
                assert_eq!(command.inherit, parent.restart_fd);
                for (key, value) in &command.envs {
                    env.insert(text(key), text(value));
                }
                LaunchEvent::Spawned(Ok(pid))
            }
            LaunchAction::SendToNewProcess => {
                let (bytes, result) = parent.app.send_to_new_process();
                sent = bytes;
                LaunchEvent::StateSent(result)
            }
            LaunchAction::ReadNotification => {
                let enabled = parent.restart_fd.is_some();
                child = Some(start(pid, env.clone(), Some(&sent), enabled, stdout));
                LaunchEvent::NotificationRead(Ok(1))
            }
            LaunchAction::NewProcessFailed => {
                done.push("failed");
                LaunchEvent::HandlerTold
            }
            LaunchAction::Kill => {
                done.push("kill");
                LaunchEvent::Killed
            }
            LaunchAction::Finish(result) => return (child, result, done),
            LaunchAction::Ignore => panic!("an event was lost"),
        };
        (launch, action) = launch.step(event);
    }
}

/// What a service prints when its restart task has resolved.
fn task_line(resolution: Result<u32, RestartError>) -> String {
    let resolution = resolution.map(|_| ()).map_err(|e| e.to_text());
    restart_task_line(&resolution)
}

/// What became of a request: the successor, if there is one, what its launch did, what was sent to
/// the requester, what systemd was told, and what the task resolved to.
struct Served {
    child: Option<Process>,
    done: Vec<&'static str>,
    reply: Option<Reply>,
    main_pid: Option<u32>,
    resolution: Result<u32, RestartError>,
}

/// Serves one request, upon which the task resolves.
fn serve(process: &mut Process, request: RequestEvent, stdout: &mut Vec<String>) -> Served {
    let mut action = process.task.step(TaskEvent::Request(request));
    let mut child = None;
    let mut done = Vec::new();
    let mut reply = None;
    let mut main_pid = None;
    loop {
        let event = match action {
            TaskAction::SpawnNewProcess => {
                let mut spawner = ChildSpawner::new(
                    process.restart_fd,
                    vec![(b"OXY_NOTIFY_SOCKET".to_vec(), b"mine".to_vec())],
                );
                let command_line = vec!["basic".to_string(), "--flag".to_string()];
                let request = match spawner.step(SpawnerEvent::Requested(command_line)) {
                    SpawnerAction::Launch(request) => request,
                    other => panic!("{:?}", other),
                };
                let (successor, result, launched) = launch(process, request, stdout);
                child = successor;
                done = launched;
                let handed_over = match spawner.step(SpawnerEvent::Launched(result)) {
                    SpawnerAction::Deliver(result) => result,
                    other => panic!("{:?}", other),
                };
                assert!(matches!(
                    spawner.step(SpawnerEvent::Delivered(true)),
                    SpawnerAction::AwaitRequest
                ));
                TaskEvent::ChildSpawned(ChildSpawner::spawn_new_process(true, Some(handed_over)))
            }
            TaskAction::SendReply(sent) => {
                assert!(reply.is_none() && main_pid.is_none());
                reply = Some(sent);
                TaskEvent::Replied
            }
            TaskAction::AnnounceMainPid(pid) => {
                assert!(main_pid.is_none());
                main_pid = Some(pid);
                TaskEvent::MainPidAnnounced
            }
            TaskAction::Resolve(resolution) => {
                return Served {
                    child,
                    done,
                    reply,
                    main_pid,
                    resolution,
                }
            }
            other => panic!("{:?}", other),
        };
        action = process.task.step(event);
    }
}

#[test]
fn test_restart_on_signal() {
    let mut stdout = Vec::new();
    let env = HashMap::from([("LISTEN_PID".to_string(), "99".to_string())]);
    let mut process = start(100, env, None, false, &mut stdout);
    assert_eq!(stdout.remove(0), "Started with generation 0");
    assert_eq!(process.env["LISTEN_PID"], "99");

    // Try reloading the process every time.
    for i in 1..6 {
        let served = serve(&mut process, RequestEvent::Signal, &mut stdout);
        // This is output from the child process
        assert_eq!(stdout.remove(0), format!("Started with generation {}", i));
        // This is output from the parent process
        assert_eq!(served.done, ["pre", "spawn"]);
        assert!(served.reply.is_none());
        assert_eq!(served.main_pid, Some(100 + i));
        assert!(matches!(served.resolution, Ok(pid) if pid == 100 + i));
        assert_eq!(task_line(served.resolution), "Restart successful");
        process = served.child.unwrap();
        assert_eq!(process.env["LISTEN_PID"], (100 + i).to_string());
        assert!(!process.env.contains_key("OXY_RESTART_SOCKET"));
    }

    // The 6th restart fails; we should see this on stdout
    let served = serve(&mut process, RequestEvent::Signal, &mut stdout);
    assert!(served.child.is_none());
    assert_eq!(served.done, ["pre", "spawn", "kill"]);
    assert_eq!(served.main_pid, None);
    assert_eq!(
        task_line(served.resolution),
        "Restart task failed: Restart failed: The operation completed successfully"
    );
}

#[test]
fn test_restart_coordination_socket() {
    let mut stdout = Vec::new();
    let mut process = start(100, HashMap::new(), None, true, &mut stdout);
    assert_eq!(stdout.remove(0), "Started with generation 0");
    let requester = RestartConfig {
        enabled: true,
        coordination_socket_path: b"/tmp/restarter.sock".to_vec(),
        ..Default::default()
    };

    for i in 1..6 {
        let command = requester.request_restart().unwrap();
        let number = u64::from(i);
        let responder = listen_for_restart_events(&ConnectionEvent::Received(number, command));
        let request = RequestEvent::Socket(Some(responder.unwrap()));
        let served = serve(&mut process, request, &mut stdout);

        let reply = served.reply.unwrap();
        assert_eq!(reply.connection, number);
        let result = RestartCoordinationSocket::restart_command_reply(reply.message);
        assert_eq!(result, Ok(100 + i));
        assert_eq!(restart_request_line(&result), "Restart request succeeded");

        // This is output from the child process
        assert_eq!(stdout.remove(0), format!("Started with generation {}", i));
        // This is output from the parent process
        assert_eq!(task_line(served.resolution), "Restart successful");
        process = served.child.unwrap();
        assert_eq!(process.env["OXY_RESTART_SOCKET"], "5");
    }

    // The 6th restart fails; this should be propagated to the restart invoker
    let command = requester.request_restart().unwrap();
    let responder = listen_for_restart_events(&ConnectionEvent::Received(6, command));
    let request = RequestEvent::Socket(Some(responder.unwrap()));
    let served = serve(&mut process, request, &mut stdout);
    assert!(served.child.is_none());
    let reply = served.reply.unwrap();
    assert_eq!(reply.connection, 6);
    let result = RestartCoordinationSocket::restart_command_reply(reply.message);
    assert!(result.is_err());
    assert_eq!(
        restart_request_line(&result),
        "Restart request failed: Child failed to start: The operation completed successfully"
    );
}

#[test]
fn test_systemd() {
    let app = AppData::start(None).unwrap();
    assert_eq!(app.started_line(), "Started with generation 0");

    let memory = create_handover_memfd();
    assert_eq!(NotifyState::FdStore.to_string(), "FDSTORE=1");
    assert_eq!(
        NotifyState::FdName(&memory.fd_name).to_string(),
        "FDNAME=sf_mem_handover"
    );
    assert_eq!(memory.label, "shellflip_restart");

    let (listen_pid, setup) =
        RestartConfig::default().try_into_systemd_restart_task(None, 100, None);
    assert!(listen_pid.is_none());
    let mut task = setup.unwrap().task;
    assert!(matches!(startup_complete(None), StartupAction::Ready));
    assert!(matches!(
        task.step(TaskEvent::Announced(Ok(()))),
        TaskAction::AwaitRequest
    ));

    // Trigger restart in the process (i.e. a shutdown) and see what it wrote to the memfd
    assert!(matches!(
        task.step(TaskEvent::Request(RequestEvent::Signal)),
        TaskAction::StoreState
    ));
    let (serialized, result) = app.send_to_new_process();
    result.unwrap();
    match task.step(TaskEvent::StateStored(Ok(100))) {
        TaskAction::Resolve(resolution) => {
            assert_eq!(task_line(resolution), "Restart successful")
        }
        other => panic!("{:?}", other),
    }

    // We always write a magic number to the beginning of the data
    assert_eq!(
        u32::from_be_bytes(serialized[0..4].try_into().unwrap()),
        0xCAFEF00D
    );

    // The new instance finds what was stored.
    let stored = vec![
        StoredMemory {
            name: "other".to_string(),
            len: 8,
        },
        StoredMemory {
            name: memory.fd_name,
            len: serialized.len() as u64,
        },
    ];
    assert_eq!(
        receive_from_old_process(None, &stored),
        Some(HandoverSource::Stored(1))
    );
    let next = AppData::start(Some(&serialized)).unwrap();
    assert_eq!(next.started_line(), "Started with generation 1");
}

#[test]
fn a_disabled_socket_cannot_be_asked() {
    let r = RestartConfig::default().request_restart();
    assert_eq!(
        r.err(),
        Some("no restart coordination socket socket defined in config".to_string())
    );
}

#[test]
fn an_unfixed_listen_pid_stays() {
    assert_eq!(fixup_systemd_env(None, 7), None);
    assert_eq!(fixup_systemd_env(Some("12"), 7), None);
    assert_eq!(fixup_systemd_env(Some("auto "), 7), None);
    assert_eq!(fixup_systemd_env(Some("auto"), 7), Some("7".to_string()));
    assert_eq!(
        fixup_systemd_env(Some("auto"), u32::MAX),
        Some("4294967295".to_string())
    );
}

#[test]
fn errors_of_the_task_read_well() {
    let reported = || IoFailure::Reported("no such thing".to_string());
    assert_eq!(RestartError::Startup(reported()).to_text(), "no such thing");
    assert_eq!(
        RestartError::AcceptorTerminated.to_text(),
        "Restart coordinator socket acceptor terminated"
    );
    assert_eq!(
        RestartError::RestartFailed(reported()).to_text(),
        "Restart failed: no such thing"
    );
    assert_eq!(
        RestartError::RestartThreadGone.to_text(),
        "Restart thread exited"
    );
}

#[test]
fn a_reply_is_a_response() {
    let mut task = RestartConfig {
        enabled: true,
        exit_on_error: false,
        ..Default::default()
    }
    .try_into_systemd_restart_task(None, 1, None)
    .1
    .unwrap()
    .task;
    task.step(TaskEvent::Announced(Ok(())));
    let responder = listen_for_restart_events(&ConnectionEvent::Received(
        3,
        RestartCoordinationSocket::send_restart_command(),
    ));
    task.step(TaskEvent::Request(RequestEvent::Socket(responder)));
    let failed = IoFailure::Reported("disk full".to_string());
    match task.step(TaskEvent::StateStored(Err(failed))) {
        TaskAction::SendReply(reply) => {
            assert_eq!(reply.connection, 3);
            assert!(matches!(reply.message, RestartMessage::Response(_)));
            assert_eq!(
                RestartCoordinationSocket::restart_command_reply(reply.message),
                Err("disk full".to_string())
            );
        }
        other => panic!("{:?}", other),
    }
    assert!(matches!(
        task.step(TaskEvent::Replied),
        TaskAction::AwaitRequest
    ));
}
