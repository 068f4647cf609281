use shellflip::child::{
    ChildLaunch, ChildSpawnError, ChildSpawner, LaunchAction, LaunchEvent, LaunchRequest,
    SpawnerAction, SpawnerEvent, SpawnerPhase,
};
use shellflip::error::IoFailure;
use shellflip::pipes::{completion_pipes, create_paired_pipes, PipeMode};

fn reported(text: &str) -> IoFailure {
    IoFailure::Reported(text.to_string())
}

/// An attempt that has come as far as the start of the process.
fn spawning() -> ChildLaunch {
    let request = LaunchRequest::new(vec!["p".to_string()], Vec::new(), Some(3));
    let (launch, action) = ChildLaunch::begin(request);
    assert!(matches!(action, LaunchAction::PreNewProcess));
    let (launch, action) = launch.step(LaunchEvent::Announced);
    assert!(matches!(action, LaunchAction::OpenNotifyPipe));
    let (r, w, _) = completion_pipes([4, 5]);
    let (launch, action) = launch.step(LaunchEvent::NotifyPipe(Ok((r, w))));
    assert!(matches!(action, LaunchAction::OpenHandoverPipe));
    let pipes = create_paired_pipes(PipeMode::ParentWrites, [6, 7]);
    let (launch, action) = launch.step(LaunchEvent::HandoverPipe(Ok(pipes)));
    match action {
        LaunchAction::Spawn(command) => {
            let pair = |k: &str, v: &str| (k.as_bytes().to_vec(), v.as_bytes().to_vec());
            assert_eq!(
                command.envs,
                [
                    pair("LISTEN_PID", "auto"),
                    pair("OXY_HANDOVER_PIPE", "6"),
                    pair("OXY_NOTIFY_SOCKET", "5"),
                    pair("OXY_RESTART_SOCKET", "3"),
                ]
            );
            assert_eq!(command.inherit, Some(3));
            assert!(command.args.is_empty());
        }
        other => panic!("{:?}", other),
    }
    launch
}

fn finished_with(action: LaunchAction) -> Result<u32, String> {
    match action {
        LaunchAction::Finish(result) => result.map_err(|e| e.to_text()),
        other => panic!("{:?}", other),
    }
}

#[test]
fn a_process_that_gets_ready() {
    let (launch, action) = spawning().step(LaunchEvent::Spawned(Ok(9)));
    assert!(matches!(action, LaunchAction::SendToNewProcess));
    let (launch, action) = launch.step(LaunchEvent::StateSent(Ok(())));
    assert!(matches!(action, LaunchAction::ReadNotification));
    let (launch, action) = launch.step(LaunchEvent::NotificationRead(Ok(1)));
    assert_eq!(finished_with(action), Ok(9));
    let (_, action) = launch.step(LaunchEvent::Spawned(Ok(10)));
    assert!(matches!(action, LaunchAction::Ignore));
}

#[test]
fn a_process_that_ends_before_it_is_ready() {
    for (read, message) in [
        (Ok(0), "child failed to notify parent"),
        (Err(reported("broken")), "broken"),
    ] {
        let (launch, _) = spawning().step(LaunchEvent::Spawned(Ok(9)));
        let (launch, _) = launch.step(LaunchEvent::StateSent(Ok(())));
        let (launch, action) = launch.step(LaunchEvent::NotificationRead(read));
        assert!(matches!(action, LaunchAction::NewProcessFailed));
        let (launch, action) = launch.step(LaunchEvent::HandlerTold);
        assert!(matches!(action, LaunchAction::Kill));
        let (_, action) = launch.step(LaunchEvent::Killed);
        assert_eq!(finished_with(action), Err(message.to_string()));
    }
}

#[test]
fn state_that_cannot_be_sent() {
    let (launch, _) = spawning().step(LaunchEvent::Spawned(Ok(9)));
    let (launch, action) = launch.step(LaunchEvent::StateSent(Err(reported("full"))));
    assert!(matches!(action, LaunchAction::Kill));
    let (_, action) = launch.step(LaunchEvent::Killed);
    assert_eq!(finished_with(action), Err("full".to_string()));
}

#[test]
fn a_process_that_cannot_be_started() {
    let (_, action) = spawning().step(LaunchEvent::Spawned(Err(reported("no such file"))));
    assert_eq!(finished_with(action), Err("no such file".to_string()));
}

#[test]
fn pipes_that_cannot_be_made() {
    let request = || LaunchRequest::new(vec!["p".to_string()], Vec::new(), None);
    let (launch, _) = ChildLaunch::begin(request());
    let (launch, _) = launch.step(LaunchEvent::Announced);
    let (_, action) = launch.step(LaunchEvent::NotifyPipe(Err(reported("too many"))));
    assert_eq!(finished_with(action), Err("too many".to_string()));

    let (launch, _) = ChildLaunch::begin(request());
    let (launch, _) = launch.step(LaunchEvent::Announced);
    let (r, w, _) = completion_pipes([4, 5]);
    let (launch, _) = launch.step(LaunchEvent::NotifyPipe(Ok((r, w))));
    let (_, action) = launch.step(LaunchEvent::HandoverPipe(Err(reported("too many"))));
    assert_eq!(finished_with(action), Err("too many".to_string()));
}

#[test]
fn the_command_line_is_split() {
    let line = ["prog", "-a", "-b"].map(String::from).to_vec();
    let request = LaunchRequest::new(line, Vec::new(), None);
    assert_eq!(request.program, "prog");
    assert_eq!(request.args, ["-a", "-b"]);
    assert_eq!(request.restart_fd, None);
}

fn requested() -> SpawnerEvent {
    SpawnerEvent::Requested(["prog", "-a"].map(String::from).to_vec())
}

#[test]
fn the_spawner_serves_one_request_after_the_other() {
    let environment = vec![
        (b"A".to_vec(), b"b".to_vec()),
        (vec![0xff], Vec::new()),
        (b"A".to_vec(), b"c".to_vec()),
    ];
    let mut spawner = ChildSpawner::new(Some(3), environment.clone());
    assert_eq!(spawner.phase, SpawnerPhase::Idle);
    for pid in [1, 2] {
        match spawner.step(requested()) {
            SpawnerAction::Launch(request) => {
                assert_eq!(request.program, "prog");
                assert_eq!(request.args, ["-a"]);
                assert_eq!(request.user_envs, environment);
                assert_eq!(request.restart_fd, Some(3));
            }
            other => panic!("{:?}", other),
        }
        assert!(matches!(spawner.step(requested()), SpawnerAction::Ignore));
        assert!(matches!(
            spawner.step(SpawnerEvent::Delivered(true)),
            SpawnerAction::Ignore
        ));
        match spawner.step(SpawnerEvent::Launched(Ok(pid))) {
            SpawnerAction::Deliver(result) => assert_eq!(result.ok(), Some(pid)),
            other => panic!("{:?}", other),
        }
        assert!(matches!(
            spawner.step(SpawnerEvent::Delivered(true)),
            SpawnerAction::AwaitRequest
        ));
    }
    assert!(matches!(
        spawner.step(SpawnerEvent::RequesterGone),
        SpawnerAction::Exit
    ));
    assert_eq!(spawner.phase, SpawnerPhase::Exited);
    assert!(matches!(spawner.step(requested()), SpawnerAction::Ignore));
}

#[test]
fn the_spawner_panics_when_nobody_takes_the_child() {
    let mut spawner = ChildSpawner::new(None, Vec::new());
    spawner.step(requested());
    spawner.step(SpawnerEvent::Launched(Ok(1)));
    assert!(matches!(
        spawner.step(SpawnerEvent::Delivered(false)),
        SpawnerAction::Panic
    ));
}

#[test]
fn outcomes_of_a_spawn() {
    assert!(matches!(
        ChildSpawner::spawn_new_process(false, Some(Ok(1))),
        Err(ChildSpawnError::RestartThreadGone)
    ));
    assert!(matches!(
        ChildSpawner::spawn_new_process(true, None),
        Err(ChildSpawnError::RestartThreadGone)
    ));
    assert!(matches!(
        ChildSpawner::spawn_new_process(true, Some(Ok(8))),
        Ok(8)
    ));
    let failed = ChildSpawner::spawn_new_process(true, Some(Err(reported("oops"))));
    assert_eq!(
        failed.unwrap_err().to_text(),
        "Child failed to start: oops"
    );
    assert_eq!(
        ChildSpawnError::RestartThreadGone.to_text(),
        "Restart thread exited"
    );
}
