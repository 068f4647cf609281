//! Pipes between the old and the new process.
use crate::error::IoFailure;
use crate::text::{parse_i32, signed_text};
use vstd::prelude::*;

verus! {

/// The byte that announces a successful start.
pub const COMPLETION_BYTE: u8 = 0x31;

/// Which side of a pair of pipes the parent keeps.
#[derive(Debug, Clone, Copy, PartialEq, Eq, Structural)]
pub enum PipeMode {
    ParentWrites,
    ChildWrites,
}

/// A pair of pipes, of which one end must be closed when a new program is executed.
#[derive(Debug, Clone, Copy, PartialEq, Eq, Structural)]
pub struct PairedPipes {
    /// The read side.
    pub reader: i32,
    /// The write side.
    pub writer: i32,
    /// The end that the child process must not inherit.
    pub close_on_exec: i32,
}

/// The pair of pipes for a mode, given its two ends.
pub open spec fn paired(mode: PipeMode, reader: i32, writer: i32) -> PairedPipes {
    PairedPipes {
        reader,
        writer,
        close_on_exec: match mode {
            PipeMode::ParentWrites => writer,
            PipeMode::ChildWrites => reader,
        },
    }
}

/// Assigns the ends of a freshly made pipe.
/// `fds` holds the read side, then the write side, and `mode` determines whether the read or the
/// write end will be inherited by the child. How bytes pass from one end to the other is up to the
/// system that made the pipe, and nothing is stated of it.
pub fn create_paired_pipes(mode: PipeMode, fds: [i32; 2]) -> (r: PairedPipes)
    ensures
        r == paired(mode, fds[0], fds[1]),
{
    let close_on_exec: i32 = match mode {
        PipeMode::ParentWrites => fds[1],
        PipeMode::ChildWrites => fds[0],
    };
    PairedPipes { reader: fds[0], writer: fds[1], close_on_exec }
}

/// The end of the notification pipe on which the parent waits.
#[derive(Debug, Clone, Copy, PartialEq, Eq, Structural)]
pub struct CompletionReceiver {
    pub fd: i32,
}

/// The end of the notification pipe on which the child announces that it has started.
#[derive(Debug, Clone, Copy, PartialEq, Eq, Structural)]
pub struct CompletionSender {
    pub fd: i32,
}

/// Assigns the ends of the notification pipe: the child writes, and only the receiver is closed
/// when a new program is executed.
pub fn completion_pipes(fds: [i32; 2]) -> (r: (CompletionReceiver, CompletionSender, i32))
    ensures
        r.0.fd == fds[0],
        r.1.fd == fds[1],
        r.2 == fds[0],
{
    let pipes = create_paired_pipes(PipeMode::ChildWrites, fds);
    (
        CompletionReceiver { fd: pipes.reader },
        CompletionSender { fd: pipes.writer },
        pipes.close_on_exec,
    )
}

impl CompletionReceiver {
    /// Judges a read of one byte: the child has started if and only if the byte arrived.
    pub fn recv(read: Result<usize, IoFailure>) -> (r: Result<(), IoFailure>)
        ensures
            r == match read {
                Ok(count) => if count == 1 {
                    Ok(())
                } else {
                    Err(IoFailure::ChildSilent)
                },
                Err(e) => Err(e),
            },
    {
        match read {
            Ok(count) => if count == 1 {
                Ok(())
            } else {
                Err(IoFailure::ChildSilent)
            },
            Err(e) => Err(e),
        }
    }
}

impl CompletionSender {
    /// Judges a write of one byte: the parent has been told if and only if the byte was taken.
    pub fn send(written: Result<usize, IoFailure>) -> (r: Result<(), IoFailure>)
        ensures
            r == match written {
                Ok(count) => if count == 1 {
                    Ok(())
                } else {
                    Err(IoFailure::ParentNotSignalled)
                },
                Err(e) => Err(e),
            },
    {
        match written {
            Ok(count) => if count == 1 {
                Ok(())
            } else {
                Err(IoFailure::ParentNotSignalled)
            },
            Err(e) => Err(e),
        }
    }
}

/// The text that passes a file descriptor through the environment.
pub fn fd_string(fd: i32) -> (r: String)
    ensures
        r@ == crate::text::decimal(fd as int),
{
    signed_text(fd)
}

/// Reads a file descriptor that was passed through the environment.
pub fn from_fd_string(fd_str: &str) -> (r: Result<i32, IoFailure>)
    ensures
        r == match crate::text::parsed_i32(fd_str@) {
            Some(fd) => Ok(fd),
            None => Err(IoFailure::InvalidFd),
        },
{
    match parse_i32(fd_str) {
        Some(fd) => Ok(fd),
        None => Err(IoFailure::InvalidFd),
    }
}

/// `nix::fcntl::FdFlag`: reads raw descriptor flags with `from_bits_truncate`, takes `FD_CLOEXEC`
/// out with `remove` and gives back the raw `bits`. `FD_CLOEXEC` is the only flag that `FdFlag`
/// knows, and truncation drops every bit that it does not know, so no bit is ever left.
#[verifier::external_body]
fn flags_without_close_on_exec(flags: i32) -> (r: i32)
    ensures
        r == 0,
{
    let mut current_flags = nix::fcntl::FdFlag::from_bits_truncate(flags);
    current_flags.remove(nix::fcntl::FdFlag::FD_CLOEXEC);
    current_flags.bits()
}

/// Given the flags that a descriptor has, tells which flags to set so that a child process can
/// inherit it: none, as close-on-exec is the only one there is. A failed query stays a failure.
pub fn clear_cloexec(current: Result<i32, IoFailure>) -> (r: Result<i32, IoFailure>)
    ensures
        r == match current {
            Ok(flags) => Ok::<i32, IoFailure>(0),
            Err(e) => Err(e),
        },
{
    match current {
        Ok(flags) => Ok(flags_without_close_on_exec(flags)),
        Err(e) => Err(e),
    }
}

/// The end of a pair of pipes that a new program does not inherit is the one on which the parent
/// works, and the child keeps the other one.
pub proof fn law_child_inherits_the_other_end(mode: PipeMode, reader: i32, writer: i32)
    requires
        reader != writer,
    ensures
        mode is ParentWrites ==> paired(mode, reader, writer).close_on_exec == writer && paired(
            mode,
            reader,
            writer,
        ).close_on_exec != reader,
        mode is ChildWrites ==> paired(mode, reader, writer).close_on_exec == reader && paired(
            mode,
            reader,
            writer,
        ).close_on_exec != writer,
{
}

/// A descriptor that was written into the environment is read back as the same descriptor.
pub proof fn law_fd_string_round_trip(fd: i32)
    ensures
        crate::text::parsed_i32(crate::text::decimal(fd as int)) == Some(fd),
{
    crate::text::lemma_signed_text_round_trip(fd);
}

/// The two ends of a pipe keep their sides in either mode, and the end that a new program does not
/// inherit is the write side if the parent writes and the read side if the child writes.
pub proof fn law_ends_of_a_pipe(
    fds: [i32; 2],
    parent_writes: PairedPipes,
    child_writes: PairedPipes,
    notification: (CompletionReceiver, CompletionSender, i32),
)
    requires
        call_ensures(create_paired_pipes, (PipeMode::ParentWrites, fds), parent_writes),
        call_ensures(create_paired_pipes, (PipeMode::ChildWrites, fds), child_writes),
        call_ensures(completion_pipes, (fds,), notification),
    ensures
        parent_writes.reader == fds[0] && child_writes.reader == fds[0],
        parent_writes.writer == fds[1] && child_writes.writer == fds[1],
        parent_writes.close_on_exec == fds[1],
        child_writes.close_on_exec == fds[0],
        notification.0.fd == child_writes.reader,
        notification.1.fd == child_writes.writer,
        notification.2 == child_writes.close_on_exec,
{
}

/// A start has been announced, with the character `1`, if and only if exactly one byte was written,
/// and exactly one byte was read. A failure of the system is passed on as it is.
pub proof fn law_one_byte_announces(
    transferred: Result<usize, IoFailure>,
    received: Result<(), IoFailure>,
    sent: Result<(), IoFailure>,
)
    requires
        call_ensures(CompletionReceiver::recv, (transferred,), received),
        call_ensures(CompletionSender::send, (transferred,), sent),
    ensures
        COMPLETION_BYTE == '1' as int,
        received is Ok <==> transferred is Ok && transferred->Ok_0 == 1,
        sent is Ok <==> received is Ok,
        transferred is Ok && received is Err ==> received->Err_0 is ChildSilent,
        transferred is Ok && sent is Err ==> sent->Err_0 is ParentNotSignalled,
        transferred is Err ==> received->Err_0 == transferred->Err_0 && sent->Err_0
            == transferred->Err_0,
{
}

/// A descriptor is passed through the environment as the text of its number, and read there like
/// any number; what is not a number is bad input.
pub proof fn law_descriptors_are_numbers(
    fd: i32,
    text: String,
    number: String,
    found: &str,
    read: Result<i32, IoFailure>,
    parsed: Option<i32>,
)
    requires
        call_ensures(fd_string, (fd,), text),
        call_ensures(signed_text, (fd,), number),
        call_ensures(from_fd_string, (found,), read),
        call_ensures(parse_i32, (found,), parsed),
    ensures
        text@ == number@,
        found@ == text@ ==> read is Ok && read->Ok_0 == fd,
        read is Ok <==> parsed is Some,
        read is Ok ==> read->Ok_0 == parsed->0,
        read is Err ==> read->Err_0 is InvalidFd,
{
    crate::text::lemma_signed_text_round_trip(fd);
}

/// Whatever flags a descriptor has, none is left that would close it when a program is executed. A
/// failure to get at the flags is passed on as it is.
pub proof fn law_no_flag_is_left(
    current: Result<i32, IoFailure>,
    cleared: Result<i32, IoFailure>,
)
    requires
        call_ensures(clear_cloexec, (current,), cleared),
    ensures
        current is Ok ==> cleared is Ok && cleared->Ok_0 == 0,
        current is Err ==> cleared is Err && cleared->Err_0 == current->Err_0,
{
}

} // verus!
