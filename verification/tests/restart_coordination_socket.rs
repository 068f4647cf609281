use shellflip::restart_coordination_socket::{
    listen_for_restart_events, ConnectionEvent, RestartCoordinationSocket, RestartMessage,
    RestartRequest, RestartResponder, RestartResponse, SocketError, MAX_FRAME_LEN,
};

const TRY_RESTART: &[u8] = b"{\"Request\":\"TryRestart\"}";
const COMPLETE: &[u8] = b"{\"Response\":{\"RestartComplete\":42}}";
const FAILED: &[u8] = b"{\"Response\":{\"RestartFailed\":\"huge success\"}}";

/// Carries one message from one end of a connection to the other, a few bytes at a time.
fn deliver(
    from: &RestartCoordinationSocket,
    to: &mut RestartCoordinationSocket,
    message: &[u8],
) -> Vec<u8> {
    let bytes = from.send_message(message).unwrap();
    for chunk in bytes.chunks(3) {
        assert!(to.receive_message().unwrap().is_none());
        to.bytes_received(chunk);
    }
    to.receive_message().unwrap().unwrap()
}

#[test]
fn test_restart_complete() {
    let mut client = RestartCoordinationSocket::new();
    let mut server = RestartCoordinationSocket::new();
    let child_pid = 42;

    let command = RestartCoordinationSocket::send_restart_command();
    assert_eq!(deliver(&client, &mut server, TRY_RESTART), TRY_RESTART);
    assert!(matches!(
        command,
        RestartMessage::Request(RestartRequest::TryRestart)
    ));

    let responder = listen_for_restart_events(&ConnectionEvent::Received(7, command)).unwrap();
    let reply = responder.respond(Ok(child_pid)).unwrap();
    assert_eq!(reply.connection, 7);
    assert!(matches!(
        reply.message,
        RestartMessage::Response(RestartResponse::RestartComplete(42))
    ));
    assert_eq!(deliver(&server, &mut client, COMPLETE), COMPLETE);
    assert_eq!(
        RestartCoordinationSocket::restart_command_reply(reply.message).unwrap(),
        child_pid
    );
}

#[test]
fn test_restart_failed() {
    let mut client = RestartCoordinationSocket::new();
    let mut server = RestartCoordinationSocket::new();
    let error_message = "huge success";

    let command = RestartCoordinationSocket::send_restart_command();
    assert_eq!(deliver(&client, &mut server, TRY_RESTART), TRY_RESTART);
    assert!(matches!(
        command,
        RestartMessage::Request(RestartRequest::TryRestart)
    ));

    let responder = listen_for_restart_events(&ConnectionEvent::Received(7, command)).unwrap();
    let reply = responder.respond(Err(error_message.into())).unwrap();
    assert_eq!(reply.connection, 7);
    assert_eq!(deliver(&server, &mut client, FAILED), FAILED);
    let r = RestartCoordinationSocket::restart_command_reply(reply.message);
    assert_eq!(r.err(), Some(error_message.into()));
}

#[test]
fn a_request_is_no_reply() {
    let r = RestartCoordinationSocket::restart_command_reply(RestartMessage::Request(
        RestartRequest::TryRestart,
    ));
    assert_eq!(r, Err("unexpected message received".to_string()));
}

#[test]
fn a_signal_is_not_answered() {
    assert!(RestartResponder { rpc: None }.respond(Ok(1)).is_none());
    assert!(RestartResponder { rpc: None }
        .respond(Err("no".to_string()))
        .is_none());
}

fn try_restart(connection: u64) -> ConnectionEvent {
    ConnectionEvent::Received(
        connection,
        RestartMessage::Request(RestartRequest::TryRestart),
    )
}

#[test]
fn only_a_restart_command_asks_for_a_restart() {
    assert!(listen_for_restart_events(&ConnectionEvent::AcceptFailed).is_none());
    assert!(listen_for_restart_events(&ConnectionEvent::ConnectionFailed(1)).is_none());
    let response = RestartMessage::Response(RestartResponse::RestartComplete(7));
    assert!(listen_for_restart_events(&ConnectionEvent::Received(2, response)).is_none());
    assert_eq!(
        listen_for_restart_events(&try_restart(3)),
        Some(RestartResponder { rpc: Some(3) })
    );
}

#[test]
fn requests_come_in_accept_order() {
    let events = [
        ConnectionEvent::AcceptFailed,
        try_restart(0),
        ConnectionEvent::ConnectionFailed(1),
        try_restart(2),
        ConnectionEvent::Received(
            3,
            RestartMessage::Response(RestartResponse::RestartFailed(String::new())),
        ),
        ConnectionEvent::AcceptFailed,
        try_restart(4),
    ];
    let connections: Vec<u64> = events
        .iter()
        .filter_map(listen_for_restart_events)
        .map(|responder| responder.rpc.unwrap())
        .collect();
    assert_eq!(connections, [0, 2, 4]);
}

#[test]
fn a_frame_has_a_big_endian_head() {
    let socket = RestartCoordinationSocket::new();
    assert_eq!(socket.send_message(b"").unwrap(), [0, 0, 0, 0]);
    assert_eq!(
        socket.send_message(b"hello").unwrap(),
        [0, 0, 0, 5, b'h', b'e', b'l', b'l', b'o']
    );
    let long = vec![7u8; 0x010203];
    let bytes = socket.send_message(&long).unwrap();
    assert_eq!(&bytes[..4], [0, 1, 2, 3]);
    assert_eq!(&bytes[4..], &long[..]);
}

#[test]
fn a_message_may_be_eight_mebibytes_long() {
    let socket = RestartCoordinationSocket::new();
    assert_eq!(MAX_FRAME_LEN, 8 * 1024 * 1024);
    let longest = vec![1u8; MAX_FRAME_LEN];
    assert_eq!(
        socket.send_message(&longest).unwrap().len(),
        MAX_FRAME_LEN + 4
    );
    let too_long = vec![1u8; MAX_FRAME_LEN + 1];
    assert_eq!(
        socket.send_message(&too_long),
        Err(SocketError::FrameTooBig)
    );
}

#[test]
fn messages_come_out_one_by_one() {
    let sender = RestartCoordinationSocket::new();
    let mut receiver = RestartCoordinationSocket::new();
    let mut bytes = sender.send_message(b"one").unwrap();
    bytes.extend(sender.send_message(b"").unwrap());
    bytes.extend(sender.send_message(b"three").unwrap());
    receiver.bytes_received(&bytes);
    assert_eq!(receiver.receive_message().unwrap().unwrap(), b"one");
    assert_eq!(receiver.receive_message().unwrap().unwrap(), b"");
    assert_eq!(receiver.receive_message().unwrap().unwrap(), b"three");
    assert_eq!(receiver.receive_message(), Ok(None));
    assert_eq!(
        receiver.connection_closed(),
        Err(SocketError::ConnectionClosed)
    );
}

#[test]
fn a_head_that_announces_too_much_is_rejected() {
    let mut receiver = RestartCoordinationSocket::new();
    receiver.bytes_received(&[0, 0x80, 0, 1]);
    assert_eq!(receiver.receive_message(), Err(SocketError::FrameTooBig));
    // The error ends the messages once, and reading goes on after that.
    assert_eq!(
        receiver.receive_message(),
        Err(SocketError::ConnectionClosed)
    );
    assert_eq!(receiver.receive_message(), Ok(None));
    receiver.bytes_received(b"x");
    assert_eq!(receiver.receive_message(), Err(SocketError::FrameTooBig));
    assert_eq!(
        receiver.receive_message(),
        Err(SocketError::ConnectionClosed)
    );
    assert_eq!(receiver.receive_message(), Ok(None));
    assert_eq!(receiver.connection_closed(), Err(SocketError::FrameTooBig));
    assert_eq!(
        receiver.receive_message(),
        Err(SocketError::ConnectionClosed)
    );
    assert_eq!(receiver.receive_message(), Ok(None));
    assert_eq!(
        receiver.connection_closed(),
        Err(SocketError::ConnectionClosed)
    );

    let mut receiver = RestartCoordinationSocket::new();
    receiver.bytes_received(&[0, 0x80, 0, 0]);
    assert_eq!(receiver.receive_message(), Ok(None));
}

#[test]
fn the_end_of_a_connection() {
    let mut receiver = RestartCoordinationSocket::new();
    for _ in 0..2 {
        assert_eq!(receiver.receive_message(), Ok(None));
        assert_eq!(
            receiver.connection_closed(),
            Err(SocketError::ConnectionClosed)
        );
    }

    receiver.bytes_received(&[0, 0, 0]);
    assert_eq!(receiver.receive_message(), Ok(None));
    assert_eq!(
        receiver.connection_closed(),
        Err(SocketError::BytesRemaining)
    );
    assert_eq!(
        receiver.receive_message(),
        Err(SocketError::ConnectionClosed)
    );
    assert_eq!(receiver.receive_message(), Ok(None));

    receiver.bytes_received(&[2]);
    assert_eq!(receiver.receive_message(), Ok(None));
    assert_eq!(
        receiver.connection_closed(),
        Err(SocketError::ConnectionClosed)
    );

    receiver.bytes_received(b"ok");
    assert_eq!(receiver.receive_message(), Ok(Some(b"ok".to_vec())));
    assert_eq!(receiver.receive_message(), Ok(None));
}

#[test]
fn messages_before_the_end_of_a_connection() {
    let sender = RestartCoordinationSocket::new();
    let mut receiver = RestartCoordinationSocket::new();
    let mut bytes = sender.send_message(b"one").unwrap();
    bytes.extend(sender.send_message(b"two").unwrap());
    bytes.push(0);
    receiver.bytes_received(&bytes);
    assert_eq!(receiver.connection_closed(), Ok(b"one".to_vec()));
    assert_eq!(receiver.receive_message(), Ok(Some(b"two".to_vec())));
    assert_eq!(
        receiver.receive_message(),
        Err(SocketError::BytesRemaining)
    );
    assert_eq!(
        receiver.receive_message(),
        Err(SocketError::ConnectionClosed)
    );
}

#[test]
fn a_failed_read_ends_the_messages_once() {
    let mut receiver = RestartCoordinationSocket::new();
    receiver.bytes_received(&[0, 0, 0, 1]);
    assert_eq!(receiver.receive_message(), Ok(None));
    receiver.read_failed();
    assert_eq!(
        receiver.receive_message(),
        Err(SocketError::ConnectionClosed)
    );
    assert_eq!(receiver.receive_message(), Ok(None));
    receiver.bytes_received(b"k");
    assert_eq!(receiver.receive_message(), Ok(Some(b"k".to_vec())));
}

#[test]
fn socket_errors_read_well() {
    assert_eq!(SocketError::FrameTooBig.to_text(), "frame size too big");
    assert_eq!(
        SocketError::BytesRemaining.to_text(),
        "bytes remaining on stream"
    );
    assert_eq!(
        SocketError::ConnectionClosed.to_text(),
        "connection closed while awaiting a message"
    );
}
