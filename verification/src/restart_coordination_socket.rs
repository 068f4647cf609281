//! Communication with a running process over a unix domain socket.
use std::io;
use tokio_util::bytes::BytesMut;
use tokio_util::codec::{Decoder, Encoder, LengthDelimitedCodec};
use vstd::prelude::*;
use vstd::string::*;

verus! {

/// Represents any message that may be sent over the socket.
#[derive(Debug)]
pub enum RestartMessage {
    Request(RestartRequest),
    Response(RestartResponse),
}

/// A request message that expects a response.
#[derive(Debug)]
pub enum RestartRequest {
    TryRestart,
}

/// A response to a request message.
#[derive(Debug)]
pub enum RestartResponse {
    /// Restart completed. The child PID is provided.
    RestartComplete(u32),
    /// Restart failed. The error message is attached.
    RestartFailed(String),
}

/// Why a message could not be sent or received.
#[derive(Debug, Clone, Copy, PartialEq, Eq, Structural)]
pub enum SocketError {
    /// The message is longer than a frame may be.
    FrameTooBig,
    /// The connection ended in the middle of a frame.
    BytesRemaining,
    /// The connection ended where a message was awaited.
    ConnectionClosed,
}

impl SocketError {
    /// How the error reads.
    pub open spec fn message(self) -> Seq<char> {
        match self {
            SocketError::FrameTooBig => "frame size too big"@,
            SocketError::BytesRemaining => "bytes remaining on stream"@,
            SocketError::ConnectionClosed => "connection closed while awaiting a message"@,
        }
    }

    /// How the error reads.
    pub fn to_text(&self) -> (r: String)
        ensures
            r@ == self.message(),
    {
        match self {
            SocketError::FrameTooBig => String::from_str("frame size too big"),
            SocketError::BytesRemaining => String::from_str("bytes remaining on stream"),
            SocketError::ConnectionClosed => String::from_str(
                "connection closed while awaiting a message",
            ),
        }
    }
}

/// The longest payload of a frame, in bytes.
pub const MAX_FRAME_LEN: usize = 8_388_608;

/// The length of a frame's head, in bytes.
pub const FRAME_HEAD_LEN: usize = 4;

/// The head of a frame with a payload of `n` bytes: the length, most significant byte first.
pub open spec fn frame_head(n: nat) -> Seq<u8> {
    seq![
        (n / 16777216) as u8,
        ((n / 65536) % 256) as u8,
        ((n / 256) % 256) as u8,
        (n % 256) as u8,
    ]
}

/// A frame: its head, then its payload.
pub open spec fn frame(payload: Seq<u8>) -> Seq<u8> {
    frame_head(payload.len()) + payload
}

/// The payload length that the head at the start of `buffer` announces.
pub open spec fn announced_len(buffer: Seq<u8>) -> int {
    buffer[0] * 16777216 + buffer[1] * 65536 + buffer[2] * 256 + buffer[3]
}

/// What the start of a byte stream holds.
pub enum Decoded {
    /// Too few bytes for a frame.
    Incomplete,
    /// The head of a frame that is too long.
    TooBig,
    /// A payload, and the bytes after its frame.
    Frame(Seq<u8>, Seq<u8>),
}

/// What the start of `buffer` holds.
pub open spec fn decoded(buffer: Seq<u8>) -> Decoded {
    if buffer.len() < FRAME_HEAD_LEN {
        Decoded::Incomplete
    } else if announced_len(buffer) > MAX_FRAME_LEN {
        Decoded::TooBig
    } else if buffer.len() < FRAME_HEAD_LEN + announced_len(buffer) {
        Decoded::Incomplete
    } else {
        let end = FRAME_HEAD_LEN + announced_len(buffer);
        Decoded::Frame(buffer.subrange(FRAME_HEAD_LEN as int, end), buffer.skip(end))
    }
}

/// `std::io::Error`, in which the codec reports what it rejects.
#[verifier::external_type_specification]
#[verifier::external_body]
pub struct ExIoError(io::Error);

/// `LengthDelimitedCodec::encode` of a codec with the default settings, into an empty buffer:
/// appends the frame of the payload, or rejects a payload that is longer than 8 MiB.
#[verifier::external_body]
fn codec_encode(payload: &[u8]) -> (r: Result<Vec<u8>, io::Error>)
    ensures
        r is Ok <==> payload@.len() <= MAX_FRAME_LEN,
        r is Ok ==> r->Ok_0@ == frame(payload@),
{
    let mut out = BytesMut::new();
    LengthDelimitedCodec::new().encode(payload, &mut out)?;
    Ok(out.to_vec())
}

/// `LengthDelimitedCodec::decode` of a codec with the default settings that has read nothing yet:
/// takes the first frame off the buffer once all of it is there, and rejects a head that announces
/// more than 8 MiB.
#[verifier::external_body]
fn codec_decode(buffer: &[u8]) -> (r: Result<Option<(Vec<u8>, Vec<u8>)>, io::Error>)
    ensures
        r is Err <==> decoded(buffer@) is TooBig,
        r is Ok && r->Ok_0 is None <==> decoded(buffer@) is Incomplete,
        r matches Ok(Some((payload, rest))) ==> decoded(buffer@) == Decoded::Frame(
            payload@,
            rest@,
        ),
{
    let mut rest = BytesMut::from(buffer);
    match LengthDelimitedCodec::new().decode(&mut rest)? {
        Some(payload) => Ok(Some((payload.to_vec(), rest.to_vec()))),
        None => Ok(None),
    }
}

/// `Decoder::decode_eof` of a `LengthDelimitedCodec` with the default settings that has read
/// nothing yet, on a buffer that holds no whole frame: the stream may end before a frame or right
/// behind a head, which the codec has then taken off the buffer, and nowhere else.
#[verifier::external_body]
fn codec_decode_eof(buffer: &[u8]) -> (r: Result<(), io::Error>)
    requires
        decoded(buffer@) is Incomplete,
    ensures
        r is Ok <==> may_end_behind(buffer@),
{
    let mut rest = BytesMut::from(buffer);
    LengthDelimitedCodec::new().decode_eof(&mut rest)?;
    Ok(())
}

/// What has come out of a connection so far, and how far it has been looked at.
pub struct ReceiveState {
    /// The bytes that arrived and do not belong to a message yet.
    pub bytes: Seq<u8>,
    /// Whether the bytes may hold something that has not been looked at.
    pub readable: bool,
    /// Whether the connection has ended behind these bytes.
    pub ended: bool,
    /// Whether an error was reported last.
    pub failed: bool,
}

/// Whether a connection may end behind these bytes, which hold no whole frame: before a frame, or
/// right behind a head.
pub open spec fn may_end_behind(bytes: Seq<u8>) -> bool {
    bytes.len() == 0 || bytes.len() == FRAME_HEAD_LEN
}

/// What an attempt to receive a message gives, and what it leaves: a message, an error, or the need
/// for more bytes. What follows an error is the end of the messages, once; then more bytes are
/// needed.
pub open spec fn received(state: ReceiveState) -> (
    Result<Option<Seq<u8>>, SocketError>,
    ReceiveState,
) {
    if state.failed {
        (
            Err(SocketError::ConnectionClosed),
            ReceiveState { readable: false, failed: false, ..state },
        )
    } else if !state.readable {
        (Ok(None), state)
    } else {
        match decoded(state.bytes) {
            Decoded::Frame(payload, rest) => (
                Ok(Some(payload)),
                ReceiveState { bytes: rest, ..state },
            ),
            Decoded::TooBig => (
                Err(SocketError::FrameTooBig),
                ReceiveState { failed: true, ..state },
            ),
            Decoded::Incomplete => if !state.ended {
                (Ok(None), ReceiveState { readable: false, ..state })
            } else if may_end_behind(state.bytes) {
                (
                    Err(SocketError::ConnectionClosed),
                    ReceiveState { readable: false, ..state },
                )
            } else {
                (Err(SocketError::BytesRemaining), ReceiveState { failed: true, ..state })
            },
        }
    }
}

/// What an attempt to receive a message gives when no more bytes come, and what it leaves.
pub open spec fn received_at_end(state: ReceiveState) -> (
    Result<Option<Seq<u8>>, SocketError>,
    ReceiveState,
) {
    if state.ended && !state.readable && !state.failed {
        (Err(SocketError::ConnectionClosed), state)
    } else {
        received(ReceiveState { readable: true, ended: true, ..state })
    }
}

/// The bytes of a message, if there is one.
pub open spec fn message_view(message: Result<Option<Vec<u8>>, SocketError>) -> Result<
    Option<Seq<u8>>,
    SocketError,
> {
    match message {
        Ok(Some(bytes)) => Ok(Some(bytes@)),
        Ok(None) => Ok(None),
        Err(e) => Err(e),
    }
}

/// Represents the restart coordination socket, used for communicating with a running process.
/// This is used to trigger a restart and receive notification of its completion or failure.
///
/// It turns messages into bytes for a connection and the bytes of a connection into messages.
#[derive(Debug)]
pub struct RestartCoordinationSocket {
    bytes: Vec<u8>,
    readable: bool,
    ended: bool,
    failed: bool,
}

impl View for RestartCoordinationSocket {
    type V = ReceiveState;

    closed spec fn view(&self) -> ReceiveState {
        ReceiveState {
            bytes: self.bytes@,
            readable: self.readable,
            ended: self.ended,
            failed: self.failed,
        }
    }
}

impl RestartCoordinationSocket {
    /// Create a new RestartCoordinationSocket for a connection on which nothing has arrived yet.
    pub fn new() -> (r: Self)
        ensures
            r@ == (ReceiveState {
                bytes: Seq::empty(),
                readable: false,
                ended: false,
                failed: false,
            }),
    {
        RestartCoordinationSocket {
            bytes: Vec::new(),
            readable: false,
            ended: false,
            failed: false,
        }
    }

    /// The bytes that carry a message over the connection.
    pub fn send_message(&self, message: &[u8]) -> (r: Result<Vec<u8>, SocketError>)
        ensures
            r is Ok <==> message@.len() <= MAX_FRAME_LEN,
            r is Ok ==> r->Ok_0@ == frame(message@),
            r is Err ==> r->Err_0 == SocketError::FrameTooBig,
    {
        match codec_encode(message) {
            Ok(bytes) => Ok(bytes),
            Err(_) => Err(SocketError::FrameTooBig),
        }
    }

    /// Takes in bytes that were read from the connection.
    pub fn bytes_received(&mut self, bytes: &[u8])
        ensures
            final(self)@ == (ReceiveState {
                bytes: old(self)@.bytes + bytes@,
                readable: true,
                ended: false,
                ..old(self)@
            }),
    {
        self.bytes.extend_from_slice(bytes);
        self.readable = true;
        self.ended = false;
        assert(self.bytes@ =~= old(self)@.bytes + bytes@);
    }

    /// Takes note that the connection could not be read.
    pub fn read_failed(&mut self)
        ensures
            final(self)@ == (ReceiveState { failed: true, ..old(self)@ }),
    {
        self.failed = true;
    }

    /// The next message from the connection; `None` if more bytes have to be read first.
    pub fn receive_message(&mut self) -> (r: Result<Option<Vec<u8>>, SocketError>)
        ensures
            (message_view(r), final(self)@) == received(old(self)@),
    {
        if self.failed {
            self.readable = false;
            self.failed = false;
            return Err(SocketError::ConnectionClosed);
        }
        if !self.readable {
            return Ok(None);
        }
        match codec_decode(self.bytes.as_slice()) {
            Ok(Some((message, rest))) => {
                self.bytes = rest;
                Ok(Some(message))
            },
            Ok(None) => {
                if !self.ended {
                    self.readable = false;
                    return Ok(None);
                }
                match codec_decode_eof(self.bytes.as_slice()) {
                    Ok(()) => {
                        self.readable = false;
                        Err(SocketError::ConnectionClosed)
                    },
                    Err(_) => {
                        self.failed = true;
                        Err(SocketError::BytesRemaining)
                    },
                }
            },
            Err(_) => {
                self.failed = true;
                Err(SocketError::FrameTooBig)
            },
        }
    }

    /// The next message from the connection if no more bytes can be read from it.
    pub fn connection_closed(&mut self) -> (r: Result<Vec<u8>, SocketError>)
        ensures
            (
                match r {
                    Ok(message) => Ok(Some(message@)),
                    Err(e) => Err(e),
                },
                final(self)@,
            ) == received_at_end(old(self)@),
    {
        if self.ended && !self.readable && !self.failed {
            return Err(SocketError::ConnectionClosed);
        }
        self.readable = true;
        self.ended = true;
        match self.receive_message() {
            Ok(Some(message)) => Ok(message),
            Ok(None) => Err(SocketError::ConnectionClosed),
            Err(e) => Err(e),
        }
    }

    /// The command that asks a running process to restart.
    pub fn send_restart_command() -> (r: RestartMessage)
        ensures
            r == RestartMessage::Request(RestartRequest::TryRestart),
    {
        RestartMessage::Request(RestartRequest::TryRestart)
    }

    /// What the reply to a restart command says: `Ok` with the child pid on success, or an error
    /// if the restart failed for any reason.
    pub fn restart_command_reply(reply: RestartMessage) -> (r: Result<u32, String>)
        ensures
            outcome(r) == told(reply),
    {
        match reply {
            RestartMessage::Response(RestartResponse::RestartComplete(pid)) => Ok(pid),
            RestartMessage::Response(RestartResponse::RestartFailed(reason)) => Err(reason),
            RestartMessage::Request(_) => Err(String::from_str("unexpected message received")),
        }
    }
}

/// Returns the restart completion or error message through the restart coordination socket, if
/// used.
#[derive(Debug, Clone, Copy, PartialEq, Eq, Structural)]
pub struct RestartResponder {
    /// The number of the connection on which the request came, if it came through the restart
    /// coordination socket.
    pub rpc: Option<u64>,
}

/// A message to send to a restart coordination socket client.
#[derive(Debug)]
pub struct Reply {
    /// The number of the connection to send it on.
    pub connection: u64,
    /// The message.
    pub message: RestartMessage,
}

/// An outcome of a restart: the process id of the child, or how the failure reads.
pub open spec fn outcome(result: Result<u32, String>) -> Result<u32, Seq<char>> {
    match result {
        Ok(pid) => Ok(pid),
        Err(reason) => Err(reason@),
    }
}

/// The outcome that a reply to a restart command tells.
pub open spec fn told(reply: RestartMessage) -> Result<u32, Seq<char>> {
    match reply {
        RestartMessage::Response(RestartResponse::RestartComplete(pid)) => Ok(pid),
        RestartMessage::Response(RestartResponse::RestartFailed(reason)) => Err(reason@),
        RestartMessage::Request(_) => Err("unexpected message received"@),
    }
}

/// The message that tells the outcome of a restart.
pub open spec fn telling(result: Result<u32, String>) -> RestartMessage {
    match result {
        Ok(pid) => RestartMessage::Response(RestartResponse::RestartComplete(pid)),
        Err(reason) => RestartMessage::Response(RestartResponse::RestartFailed(reason)),
    }
}

impl RestartResponder {
    /// What to send to the restart coordination socket client, if there is one.
    pub fn respond(self, result: Result<u32, String>) -> (r: Option<Reply>)
        ensures
            r == match self.rpc {
                Some(connection) => Some(Reply { connection, message: telling(result) }),
                None => None,
            },
    {
        let response = match result {
            Ok(pid) => RestartResponse::RestartComplete(pid),
            Err(e) => RestartResponse::RestartFailed(e),
        };
        match self.rpc {
            Some(connection) => Some(
                Reply { connection, message: RestartMessage::Response(response) },
            ),
            None => None,
        }
    }
}

/// What happened on the restart coordination socket of a running process.
#[derive(Debug)]
pub enum ConnectionEvent {
    /// A connection could not be accepted.
    AcceptFailed,
    /// The first message arrived on the connection with this number.
    Received(u64, RestartMessage),
    /// No message could be received on the connection with this number.
    ConnectionFailed(u64),
}

/// Whether a connection asks for a restart.
pub open spec fn asks_for_restart(event: ConnectionEvent) -> bool {
    event matches ConnectionEvent::Received(
        _,
        RestartMessage::Request(RestartRequest::TryRestart),
    )
}

/// The restart that a connection asks for, if it asks for one.
pub open spec fn asked_for(event: ConnectionEvent) -> Option<RestartResponder> {
    match event {
        ConnectionEvent::Received(
            connection,
            RestartMessage::Request(RestartRequest::TryRestart),
        ) => Some(RestartResponder { rpc: Some(connection) }),
        _ => None,
    }
}

/// The restart that a connection asks for, if it asks for one; everything else is dropped.
pub fn listen_for_restart_events(event: &ConnectionEvent) -> (r: Option<RestartResponder>)
    ensures
        r == asked_for(*event),
{
    match event {
        ConnectionEvent::Received(
            connection,
            RestartMessage::Request(RestartRequest::TryRestart),
        ) => Some(RestartResponder { rpc: Some(*connection) }),
        ConnectionEvent::Received(_, RestartMessage::Response(_)) => None,
        ConnectionEvent::AcceptFailed => None,
        ConnectionEvent::ConnectionFailed(_) => None,
    }
}

/// The restarts that a sequence of connections asks for, one after the other.
pub open spec fn all_asked_for(events: Seq<ConnectionEvent>) -> Seq<RestartResponder>
    decreases events.len(),
{
    if events.len() == 0 {
        Seq::empty()
    } else {
        let before = all_asked_for(events.drop_last());
        match asked_for(events.last()) {
            Some(responder) => before.push(responder),
            None => before,
        }
    }
}

/// Whether `at` holds the positions, in order, of the connections that ask for a restart.
pub open spec fn positions_asking(events: Seq<ConnectionEvent>, at: Seq<int>) -> bool {
    &&& forall|k: int| 0 <= k < at.len() ==> 0 <= #[trigger] at[k] < events.len()
    &&& forall|k: int, l: int| 0 <= k < l < at.len() ==> #[trigger] at[k] < #[trigger] at[l]
    &&& forall|k: int| 0 <= k < at.len() ==> asks_for_restart(events[#[trigger] at[k]])
    &&& forall|i: int|
        0 <= i < events.len() && asks_for_restart(#[trigger] events[i]) ==> at.contains(i)
}

proof fn lemma_positions_asking(events: Seq<ConnectionEvent>) -> (at: Seq<int>)
    ensures
        positions_asking(events, at),
        at.len() == all_asked_for(events).len(),
        forall|k: int|
            0 <= k < at.len() ==> asked_for(events[#[trigger] at[k]]) == Some(
                all_asked_for(events)[k],
            ),
    decreases events.len(),
{
    if events.len() == 0 {
        Seq::empty()
    } else {
        let n = events.len() - 1;
        let before = lemma_positions_asking(events.drop_last());
        let at = if asks_for_restart(events[n]) {
            before.push(n)
        } else {
            before
        };
        assert forall|i: int|
            0 <= i < events.len() && asks_for_restart(#[trigger] events[i]) implies at.contains(
            i,
        ) by {
            if i < n {
                assert(events.drop_last()[i] == events[i]);
                let k = choose|k: int| 0 <= k < before.len() && before[k] == i;
                assert(at[k] == i);
            } else {
                assert(at[at.len() - 1] == i);
            }
        }
        at
    }
}

/// Requests are served in the order in which their connections were accepted: each connection that
/// asks for a restart gives exactly one responder, which answers on that connection, and nothing
/// else gives one.
pub proof fn law_requests_come_in_accept_order(events: Seq<ConnectionEvent>)
    ensures
        exists|at: Seq<int>|
            #![trigger positions_asking(events, at)]
            positions_asking(events, at) && at.len() == all_asked_for(events).len() && forall|
                k: int,
            |
                0 <= k < at.len() ==> events[#[trigger] at[k]] is Received && all_asked_for(
                    events,
                )[k].rpc == Some(events[at[k]]->Received_0),
{
    let at = lemma_positions_asking(events);
    assert(positions_asking(events, at));
}

/// Nothing that happens on the restart coordination socket ends the stream of requests: whatever
/// came before, every later request is still served.
pub proof fn law_no_connection_ends_the_stream(
    earlier: Seq<ConnectionEvent>,
    later: Seq<ConnectionEvent>,
)
    ensures
        all_asked_for(earlier + later) == all_asked_for(earlier) + all_asked_for(later),
    decreases later.len(),
{
    if later.len() == 0 {
        assert(earlier + later =~= earlier);
    } else {
        law_no_connection_ends_the_stream(earlier, later.drop_last());
        assert((earlier + later).drop_last() =~= earlier + later.drop_last());
        assert((earlier + later).last() == later.last());
    }
    assert(all_asked_for(earlier + later) =~= all_asked_for(earlier) + all_asked_for(later));
}

/// Whoever asks for a restart over the socket learns its outcome: what the restarting process
/// replies is what the requester is told.
pub proof fn law_requester_learns_outcome(result: Result<u32, String>)
    ensures
        told(telling(result)) == outcome(result),
{
}

proof fn lemma_frame_head(payload: Seq<u8>, rest: Seq<u8>)
    requires
        payload.len() <= MAX_FRAME_LEN,
    ensures
        announced_len(frame(payload) + rest) == payload.len(),
        (frame(payload) + rest).len() >= FRAME_HEAD_LEN,
{
    let n = payload.len();
    assert(n / 16777216 < 256);
    assert((n / 16777216) * 16777216 + ((n / 65536) % 256) * 65536 + ((n / 256) % 256) * 256 + n
        % 256 == n);
}

/// A message that was sent is the message that is received, whatever follows it.
pub proof fn law_sent_message_is_received(payload: Seq<u8>, rest: Seq<u8>, ended: bool)
    requires
        payload.len() <= MAX_FRAME_LEN,
    ensures
        decoded(frame(payload) + rest) == Decoded::Frame(payload, rest),
        received(
            ReceiveState { bytes: frame(payload) + rest, readable: true, ended, failed: false },
        ) == (
            Ok::<Option<Seq<u8>>, SocketError>(Some(payload)),
            ReceiveState { bytes: rest, readable: true, ended, failed: false },
        ),
{
    lemma_frame_head(payload, rest);
    let buffer = frame(payload) + rest;
    let end = FRAME_HEAD_LEN + payload.len();
    assert(buffer.subrange(FRAME_HEAD_LEN as int, end as int) =~= payload);
    assert(buffer.skip(end as int) =~= rest);
}

/// An error is reported once. The next attempt to receive a message reports the end of the
/// messages, and the one after that needs more bytes.
pub proof fn law_error_is_reported_once(state: ReceiveState)
    requires
        received(state).0 is Err,
    ensures
        received(state).0->Err_0 != SocketError::ConnectionClosed ==> received(received(state).1).0
            == Err::<Option<Seq<u8>>, SocketError>(SocketError::ConnectionClosed),
        received(state).0->Err_0 == SocketError::ConnectionClosed ==> received(received(state).1)
            == (Ok::<Option<Seq<u8>>, SocketError>(None), received(state).1),
{
}

/// A connection that stays closed gives no message any more, however often it is asked.
pub proof fn law_closed_connection_stays_closed(state: ReceiveState)
    requires
        received_at_end(state).0 == Err::<Option<Seq<u8>>, SocketError>(
            SocketError::ConnectionClosed,
        ),
        !state.failed,
    ensures
        received_at_end(received_at_end(state).1) == received_at_end(state),
{
}

/// How a connection is cut into reads does not matter: no beginning of a frame is a message or an
/// error, and what has been recognised stays recognised when more bytes arrive.
pub proof fn law_reads_may_be_cut_anywhere(payload: Seq<u8>, buffer: Seq<u8>, more: Seq<u8>)
    ensures
        forall|n: int|
            payload.len() <= MAX_FRAME_LEN && 0 <= n < frame(payload).len() ==> #[trigger] decoded(
                frame(payload).take(n),
            ) is Incomplete,
        decoded(buffer) is TooBig ==> decoded(buffer + more) is TooBig,
        decoded(buffer) matches Decoded::Frame(message, rest) ==> decoded(buffer + more)
            == Decoded::Frame(message, rest + more),
{
    assert forall|n: int|
        payload.len() <= MAX_FRAME_LEN && 0 <= n < frame(payload).len() implies #[trigger] decoded(
        frame(payload).take(n),
    ) is Incomplete by {
        lemma_frame_head(payload, Seq::empty());
        assert(frame(payload) + Seq::<u8>::empty() =~= frame(payload));
    }
    if decoded(buffer) is Frame {
        let end = FRAME_HEAD_LEN + announced_len(buffer);
        let all = buffer + more;
        assert(all.subrange(FRAME_HEAD_LEN as int, end) =~= buffer.subrange(
            FRAME_HEAD_LEN as int,
            end,
        ));
        assert(all.skip(end) =~= buffer.skip(end) + more);
    }
}

/// How an error of the connection reads.
pub proof fn law_socket_errors_read_well(error: &SocketError, text: String)
    requires
        call_ensures(SocketError::to_text, (error,), text),
    ensures
        *error is FrameTooBig ==> text@ == "frame size too big"@,
        *error is BytesRemaining ==> text@ == "bytes remaining on stream"@,
        *error is ConnectionClosed ==> text@ == "connection closed while awaiting a message"@,
{
}

/// A message is sent as its length in four bytes, most significant byte first, followed by the
/// message itself. Only a message of more than eight mebibytes cannot be sent.
pub proof fn law_sent_bytes(
    socket: &RestartCoordinationSocket,
    message: &[u8],
    sent: Result<Vec<u8>, SocketError>,
)
    requires
        call_ensures(RestartCoordinationSocket::send_message, (socket, message), sent),
    ensures
        sent is Err <==> message@.len() > 8388608,
        sent is Err ==> sent->Err_0 is FrameTooBig,
        sent matches Ok(bytes) ==> {
            &&& bytes@.len() == message@.len() + 4
            &&& bytes@[0] * 16777216 + bytes@[1] * 65536 + bytes@[2] * 256 + bytes@[3]
                == message@.len()
            &&& forall|i: int| 0 <= i < message@.len() ==> #[trigger] bytes@[i + 4] == message@[i]
        },
{
    if message@.len() <= 8388608 {
        lemma_frame_head(message@, Seq::empty());
        assert(frame(message@) + Seq::<u8>::empty() =~= frame(message@));
        assert forall|i: int| 0 <= i < message@.len() implies #[trigger] frame(message@)[i + 4]
            == message@[i] by {}
    }
}

/// What arrives is taken in behind what has arrived before, and nothing else changes but that there
/// is something to look at and that the connection goes on. A failed read is only taken note of.
pub proof fn law_arriving_bytes_are_kept(
    fresh: RestartCoordinationSocket,
    socket: &mut RestartCoordinationSocket,
    bytes: &[u8],
    broken: &mut RestartCoordinationSocket,
)
    requires
        call_ensures(RestartCoordinationSocket::new, (), fresh),
        call_ensures(RestartCoordinationSocket::bytes_received, (socket, bytes), ()),
        call_ensures(RestartCoordinationSocket::read_failed, (broken,), ()),
    ensures
        fresh@.bytes.len() == 0,
        !fresh@.readable && !fresh@.ended && !fresh@.failed,
        final(socket)@.bytes == old(socket)@.bytes + bytes@,
        final(socket)@.readable && !final(socket)@.ended,
        final(socket)@.failed == old(socket)@.failed,
        final(broken)@.bytes == old(broken)@.bytes,
        final(broken)@.readable == old(broken)@.readable,
        final(broken)@.ended == old(broken)@.ended,
        final(broken)@.failed,
{
}

/// A message is received once its head and as many bytes as the head announces have arrived, it is
/// exactly these bytes, and it is taken away from what has arrived. A head that announces more than
/// eight mebibytes is an error, whatever follows it.
pub proof fn law_whole_message_is_received(
    socket: &mut RestartCoordinationSocket,
    r: Result<Option<Vec<u8>>, SocketError>,
)
    requires
        old(socket)@.readable,
        !old(socket)@.failed,
        old(socket)@.bytes.len() >= 4,
        call_ensures(RestartCoordinationSocket::receive_message, (socket,), r),
    ensures
        ({
            let bytes = old(socket)@.bytes;
            let len = bytes[0] * 16777216 + bytes[1] * 65536 + bytes[2] * 256 + bytes[3];
            &&& final(socket)@.ended == old(socket)@.ended
            &&& r == Err::<Option<Vec<u8>>, SocketError>(SocketError::FrameTooBig) <==> len
                > 8388608
            &&& len > 8388608 ==> final(socket)@.bytes == bytes && final(socket)@.failed
            &&& r is Ok && r->Ok_0 is Some <==> len <= 8388608 && bytes.len() >= 4 + len
            &&& r matches Ok(Some(message)) ==> {
                &&& message@ == bytes.subrange(4, 4 + len)
                &&& final(socket)@.bytes == bytes.skip(4 + len)
                &&& final(socket)@.readable
                &&& !final(socket)@.failed
            }
        }),
{
}

/// As long as a connection goes on, a message that has not arrived whole is waited for, and nothing
/// that has arrived is lost. When the connection has ended, what has arrived must be nothing or a
/// lone head; anything else is an error.
pub proof fn law_partial_message_is_waited_for(
    socket: &mut RestartCoordinationSocket,
    r: Result<Option<Vec<u8>>, SocketError>,
)
    requires
        old(socket)@.readable,
        !old(socket)@.failed,
        ({
            let bytes = old(socket)@.bytes;
            let len = bytes[0] * 16777216 + bytes[1] * 65536 + bytes[2] * 256 + bytes[3];
            bytes.len() < 4 || len <= 8388608 && bytes.len() < 4 + len
        }),
        call_ensures(RestartCoordinationSocket::receive_message, (socket,), r),
    ensures
        final(socket)@.bytes == old(socket)@.bytes,
        final(socket)@.ended == old(socket)@.ended,
        !old(socket)@.ended ==> r is Ok && r->Ok_0 is None,
        old(socket)@.ended ==> r is Err,
        r matches Err(e) ==> (e is ConnectionClosed <==> old(socket)@.bytes.len() == 0 || old(
            socket,
        )@.bytes.len() == 4),
        r matches Err(e) ==> (e is BytesRemaining <==> old(socket)@.bytes.len() != 0 && old(
            socket,
        )@.bytes.len() != 4),
        final(socket)@.failed <==> r == Err::<Option<Vec<u8>>, SocketError>(
            SocketError::BytesRemaining,
        ),
        !final(socket)@.failed ==> !final(socket)@.readable,
{
}

/// Behind an error the messages end once, and where nothing new has arrived, more bytes are needed.
pub proof fn law_nothing_new_to_receive(
    socket: &mut RestartCoordinationSocket,
    r: Result<Option<Vec<u8>>, SocketError>,
)
    requires
        old(socket)@.failed || !old(socket)@.readable,
        call_ensures(RestartCoordinationSocket::receive_message, (socket,), r),
    ensures
        old(socket)@.failed ==> r is Err && r->Err_0 is ConnectionClosed,
        !old(socket)@.failed ==> r is Ok && r->Ok_0 is None,
        final(socket)@.bytes == old(socket)@.bytes,
        final(socket)@.ended == old(socket)@.ended,
        !final(socket)@.failed,
        !final(socket)@.readable,
{
}

/// The end of a connection leads to the messages that have arrived before it, in the same way as on
/// a connection that goes on; where it was known before, and nothing is left, it is reported again.
pub proof fn law_end_of_connection(
    socket: &mut RestartCoordinationSocket,
    closed: Result<Vec<u8>, SocketError>,
    other: &mut RestartCoordinationSocket,
    received: Result<Option<Vec<u8>>, SocketError>,
)
    requires
        call_ensures(RestartCoordinationSocket::connection_closed, (socket,), closed),
        old(other)@ == (ReceiveState { readable: true, ended: true, ..old(socket)@ }),
        call_ensures(RestartCoordinationSocket::receive_message, (other,), received),
    ensures
        ({
            let known = old(socket)@.ended && !old(socket)@.readable && !old(socket)@.failed;
            &&& known ==> closed is Err && closed->Err_0 is ConnectionClosed
            &&& known ==> final(socket)@ == old(socket)@
            &&& !known ==> match received {
                Ok(Some(message)) => closed is Ok && closed->Ok_0@ == message@,
                Ok(None) => false,
                Err(e) => closed is Err && closed->Err_0 == e,
            }
            &&& !known ==> final(socket)@ == final(other)@
        }),
{
}

/// A message that is sent over a new connection is received there, exactly as it was sent, however
/// the connection cuts it in two; before the second part has arrived there is no message, and
/// behind the message there is nothing.
pub proof fn law_sent_message_arrives(
    sender: &RestartCoordinationSocket,
    message: &[u8],
    sent: Vec<u8>,
    first: &[u8],
    second: &[u8],
    fresh: RestartCoordinationSocket,
    a: &mut RestartCoordinationSocket,
    b: &mut RestartCoordinationSocket,
    c: &mut RestartCoordinationSocket,
    d: &mut RestartCoordinationSocket,
    e: &mut RestartCoordinationSocket,
    early: Result<Option<Vec<u8>>, SocketError>,
    received: Result<Option<Vec<u8>>, SocketError>,
    next: Result<Option<Vec<u8>>, SocketError>,
)
    requires
        call_ensures(RestartCoordinationSocket::send_message, (sender, message), Ok(sent)),
        sent@ == first@ + second@,
        second@.len() > 0,
        call_ensures(RestartCoordinationSocket::new, (), fresh),
        *old(a) == fresh,
        call_ensures(RestartCoordinationSocket::bytes_received, (a, first), ()),
        *old(b) == *final(a),
        call_ensures(RestartCoordinationSocket::receive_message, (b,), early),
        *old(c) == *final(b),
        call_ensures(RestartCoordinationSocket::bytes_received, (c, second), ()),
        *old(d) == *final(c),
        call_ensures(RestartCoordinationSocket::receive_message, (d,), received),
        *old(e) == *final(d),
        call_ensures(RestartCoordinationSocket::receive_message, (e,), next),
    ensures
        early is Ok && early->Ok_0 is None,
        received is Ok && received->Ok_0 is Some,
        received->Ok_0->0@ == message@,
        next is Ok && next->Ok_0 is None,
        final(e)@.bytes.len() == 0,
{
    law_sent_message_is_received(message@, Seq::empty(), false);
    law_reads_may_be_cut_anywhere(message@, Seq::empty(), Seq::empty());
    let n = first@.len() as int;
    assert(frame(message@).take(n) =~= first@);
    assert(decoded(frame(message@).take(n)) is Incomplete);
    assert(Seq::<u8>::empty() + first@ =~= first@);
    assert(frame(message@) + Seq::<u8>::empty() =~= frame(message@));
}

/// A request for a restart that is sent is understood where it arrives, and is answered on the
/// connection on which it came; nothing else that happens on a connection asks for a restart.
pub proof fn law_request_is_understood(
    command: RestartMessage,
    connection: u64,
    event: &ConnectionEvent,
    responder: Option<RestartResponder>,
)
    requires
        call_ensures(RestartCoordinationSocket::send_restart_command, (), command),
        call_ensures(listen_for_restart_events, (event,), responder),
    ensures
        command is Request,
        *event == ConnectionEvent::Received(connection, command) ==> responder is Some
            && responder->0.rpc == Some(connection),
        responder is Some ==> *event is Received && event->Received_1 == command,
        responder matches Some(found) ==> found.rpc == Some(event->Received_0),
{
}

/// Whoever asked for a restart is told its outcome, on the connection on which it asked: what it is
/// told is what the restart came to, with the process id or the reason unchanged. Nobody is told
/// where nobody asked over a connection.
pub proof fn law_outcome_is_told(
    responder: RestartResponder,
    result: Result<u32, String>,
    reply: Option<Reply>,
    told_outcome: Result<u32, String>,
)
    requires
        call_ensures(RestartResponder::respond, (responder, result), reply),
        reply is Some ==> call_ensures(
            RestartCoordinationSocket::restart_command_reply,
            (reply->0.message,),
            told_outcome,
        ),
    ensures
        reply is Some <==> responder.rpc is Some,
        reply is Some ==> {
            &&& responder.rpc == Some(reply->0.connection)
            &&& result matches Ok(pid) ==> reply->0.message == RestartMessage::Response(
                RestartResponse::RestartComplete(pid),
            )
            &&& result matches Err(reason) ==> reply->0.message == RestartMessage::Response(
                RestartResponse::RestartFailed(reason),
            )
            &&& result matches Ok(pid) ==> told_outcome is Ok && told_outcome->Ok_0 == pid
            &&& result matches Err(reason) ==> told_outcome is Err && told_outcome->Err_0@
                == reason@
        },
{
}

/// Only a response tells an outcome: a request in its place is an error.
pub proof fn law_request_is_no_reply(request: RestartRequest, outcome: Result<u32, String>)
    requires
        call_ensures(
            RestartCoordinationSocket::restart_command_reply,
            (RestartMessage::Request(request),),
            outcome,
        ),
    ensures
        outcome is Err,
        outcome->Err_0@ == "unexpected message received"@,
{
}

} // verus!
