use shellflip::environment::{
    bind_restart_coordination_socket, child_environment, startup_signalled, SocketSource,
    StartupAction,
};
use shellflip::error::IoFailure;
use shellflip::fdstore::{find_handover_memory, StoredMemory};
use shellflip::generation::{AppData, HandoverError};
use shellflip::lifecycle::{receive_from_old_process, HandoverSource};
use shellflip::pipes::{
    clear_cloexec, completion_pipes, create_paired_pipes, fd_string, from_fd_string,
    CompletionReceiver, CompletionSender, PipeMode,
};
use shellflip::startup_complete;
use shellflip::text::{parse_i32, signed_text, unsigned_text};

fn stored(name: &str, len: u64) -> StoredMemory {
    StoredMemory {
        name: name.to_string(),
        len,
    }
}

#[test]
fn descriptors_survive_the_environment() {
    for fd in [0, 1, 9, 10, 42, 1048576, i32::MAX, -1, -10, i32::MIN] {
        assert_eq!(fd_string(fd), fd.to_string());
        assert_eq!(from_fd_string(&fd_string(fd)).unwrap(), fd);
    }
}

#[test]
fn numbers_are_read_like_the_standard_library_does() {
    for text in [
        "", "-", "+", "+5", "-0", "007", "12a", " 1", "1 ", "--1", "+-1", "2147483647",
        "2147483648", "-2147483648", "-2147483649", "99999999999999999999999", "1\u{661}",
        "\u{661}", "0x10", "000000000000000000000000042",
    ] {
        assert_eq!(parse_i32(text), text.parse::<i32>().ok(), "{}", text);
    }
    assert_eq!(signed_text(-305), "-305");
    assert_eq!(unsigned_text(u32::MAX), "4294967295");
}

#[test]
fn a_bad_descriptor_is_bad_input() {
    let e = from_fd_string("three").unwrap_err();
    assert!(e.is_invalid_input());
    assert_eq!(e.to_text(), "invalid notify socket fd");
    assert!(!IoFailure::ChildSilent.is_invalid_input());
}

#[test]
fn pipes_are_closed_on_one_side() {
    let pipes = create_paired_pipes(PipeMode::ParentWrites, [3, 4]);
    assert_eq!((pipes.reader, pipes.writer, pipes.close_on_exec), (3, 4, 4));
    let pipes = create_paired_pipes(PipeMode::ChildWrites, [3, 4]);
    assert_eq!((pipes.reader, pipes.writer, pipes.close_on_exec), (3, 4, 3));
    let (receiver, sender, closed) = completion_pipes([5, 6]);
    assert_eq!((receiver.fd, sender.fd, closed), (5, 6, 5));
}

#[test]
fn close_on_exec_is_cleared() {
    assert_eq!(clear_cloexec(Ok(libc::FD_CLOEXEC)).unwrap(), 0);
    assert_eq!(clear_cloexec(Ok(0)).unwrap(), 0);
    assert_eq!(clear_cloexec(Ok(-1)).unwrap(), 0);
    let failed = clear_cloexec(Err(IoFailure::Reported("EBADF".to_string())));
    assert_eq!(failed.unwrap_err().to_text(), "EBADF");
}

#[test]
fn one_byte_tells_of_the_start() {
    assert!(CompletionReceiver::recv(Ok(1)).is_ok());
    assert_eq!(
        CompletionReceiver::recv(Ok(0)).unwrap_err().to_text(),
        "child failed to notify parent"
    );
    assert!(CompletionSender::send(Ok(1)).is_ok());
    assert_eq!(
        CompletionSender::send(Ok(0)).unwrap_err().to_text(),
        "failed to signal parent to close"
    );
    let lost = || Err(IoFailure::Reported("lost".to_string()));
    assert_eq!(CompletionReceiver::recv(lost()).unwrap_err().to_text(), "lost");
    assert_eq!(CompletionSender::send(lost()).unwrap_err().to_text(), "lost");
}

#[test]
fn announcing_a_start() {
    assert!(matches!(startup_complete(None), StartupAction::Ready));
    assert!(matches!(
        startup_complete(Some("8")),
        StartupAction::SignalParent(8)
    ));
    assert!(matches!(
        startup_complete(Some("")),
        StartupAction::Fail(IoFailure::InvalidFd)
    ));
    assert!(matches!(startup_signalled(Ok(1)), StartupAction::Ready));
    assert!(matches!(
        startup_signalled(Ok(0)),
        StartupAction::Fail(IoFailure::ParentNotSignalled)
    ));
    assert!(matches!(
        startup_signalled(Err(IoFailure::Reported("gone".to_string()))),
        StartupAction::Fail(IoFailure::Reported(_))
    ));
}

#[test]
fn the_settings_of_the_user_come_first() {
    let user = vec![
        (b"LISTEN_PID".to_vec(), b"1".to_vec()),
        (vec![0xff], vec![0xfe]),
    ];
    let envs = child_environment(user.clone(), 6, 7, None);
    assert_eq!(envs[..2], user[..]);
    let last = |key: &[u8]| {
        envs.iter()
            .rev()
            .find(|(k, _)| k == key)
            .map(|(_, v)| v.clone())
    };
    assert_eq!(last(b"LISTEN_PID"), Some(b"auto".to_vec()));
    assert_eq!(last(b"OXY_HANDOVER_PIPE"), Some(b"6".to_vec()));
    assert_eq!(last(b"OXY_NOTIFY_SOCKET"), Some(b"7".to_vec()));
    assert_eq!(last(b"OXY_RESTART_SOCKET"), None);
    assert_eq!(last(&[0xff]), Some(vec![0xfe]));
}

#[test]
fn the_socket_is_bound_or_inherited() {
    assert_eq!(
        bind_restart_coordination_socket(None).unwrap(),
        SocketSource::Bind
    );
    assert_eq!(
        bind_restart_coordination_socket(Some("4")).unwrap(),
        SocketSource::Inherit(4)
    );
    assert!(bind_restart_coordination_socket(Some("4.0")).is_err());
}

#[test]
fn state_comes_from_a_pipe_or_from_the_store() {
    let memory = || vec![stored("sf_mem_handover", 8)];
    assert_eq!(receive_from_old_process(None, &Vec::new()), None);
    assert_eq!(
        receive_from_old_process(Some("12"), &memory()),
        Some(HandoverSource::Pipe(12))
    );
    assert_eq!(receive_from_old_process(Some("zwölf"), &memory()), None);
    assert_eq!(
        receive_from_old_process(None, &memory()),
        Some(HandoverSource::Stored(0))
    );
}

#[test]
fn only_written_memory_of_the_right_name_holds_state() {
    assert_eq!(find_handover_memory(&Vec::new()), None);
    assert_eq!(find_handover_memory(&vec![stored("mem_handover", 8)]), None);
    assert_eq!(find_handover_memory(&vec![stored("sf_mem_handover", 0)]), None);
    assert_eq!(
        find_handover_memory(&vec![
            stored("sf_mem_handover", 0),
            stored("sf_mem_handover", 8),
            stored("sf_mem_handover", 9),
        ]),
        Some(1)
    );
}

#[test]
fn the_generation_is_handed_over() {
    for generation in 0..5 {
        let app = AppData {
            restart_generation: generation,
        };
        let (bytes, result) = app.send_to_new_process();
        assert!(result.is_ok());
        let mut expected = 0xCAFEF00Du32.to_be_bytes().to_vec();
        expected.extend(generation.to_be_bytes());
        assert_eq!(bytes, expected);
        let next = AppData::start(Some(&bytes)).unwrap();
        assert_eq!(next.restart_generation, generation + 1);
    }
    let (bytes, result) = AppData {
        restart_generation: 5,
    }
    .send_to_new_process();
    assert_eq!(bytes, [0xca, 0xfe, 0xf0, 0x0d]);
    assert_eq!(
        result.unwrap_err().to_text(),
        "The operation completed successfully"
    );
}

#[test]
fn state_of_no_use() {
    let magic = [0xca, 0xfe, 0xf0, 0x0d];
    assert_eq!(
        AppData::start(Some(&magic[..3])),
        Err(HandoverError::UnexpectedEnd)
    );
    assert_eq!(
        AppData::start(Some(&magic)),
        Err(HandoverError::UnexpectedEnd)
    );
    assert_eq!(
        AppData::start(Some(&[0, 0, 0, 0])),
        Err(HandoverError::NoMagicNumber)
    );
    assert_eq!(
        HandoverError::NoMagicNumber.to_text(),
        "Expected serialized data to begin with the magic number"
    );
    assert_eq!(
        HandoverError::UnexpectedEnd.to_text(),
        "unexpected end of file"
    );
    let large = [0xca, 0xfe, 0xf0, 0x0d, 0xff, 0xff, 0xff, 0xfe, 1, 2, 3];
    assert_eq!(
        AppData::start(Some(&large)).unwrap().restart_generation,
        u32::MAX
    );
}
