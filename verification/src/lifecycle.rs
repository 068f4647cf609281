//! Handing over state from the old process to the new one.
use crate::child::{ChildCommand, LaunchRequest};
use crate::environment::ENV_HANDOVER_PIPE;
use crate::fdstore::{find_handover_memory, HandoverMemory, StoredMemory};
use crate::pipes::{from_fd_string, CompletionSender, PairedPipes};
use vstd::prelude::*;

verus! {

/// A default implementation of a lifecycle handler that does nothing in response to lifecycle
/// events: it sends no state.
#[derive(Debug, Clone, Copy, PartialEq, Eq, Structural)]
pub struct NullLifecycleHandler;

/// Where the state of the old process is to be read from.
#[derive(Debug, Clone, Copy, PartialEq, Eq, Structural)]
pub enum HandoverSource {
    /// From this descriptor.
    Pipe(i32),
    /// From the piece of stored memory with this number.
    Stored(usize),
}

/// Whether this is where to read what an old process left: from the pipe that the environment
/// names, if it names one, and otherwise from the first stored memory that holds state.
pub open spec fn is_source(
    handover_fd: Option<Seq<char>>,
    stored: Seq<StoredMemory>,
    source: Option<HandoverSource>,
) -> bool {
    match handover_fd {
        Some(text) => source == match crate::text::parsed_i32(text) {
            Some(fd) => Some(HandoverSource::Pipe(fd)),
            None => None,
        },
        None => match source {
            Some(HandoverSource::Stored(i)) => {
                &&& i < stored.len()
                &&& stored[i as int].holds_state()
                &&& forall|k: int| 0 <= k < i ==> !(#[trigger] stored[k]).holds_state()
            },
            Some(HandoverSource::Pipe(_)) => false,
            None => forall|k: int| 0 <= k < stored.len() ==> !(#[trigger] stored[k]).holds_state(),
        },
    }
}

/// If this process has been spawned due to graceful restart, tells where to read the data that the
/// old process left, given the descriptor that the environment names, if any, and what systemd
/// stored. What is then read there is up to the system that carries or keeps it, and nothing is
/// stated of it.
pub fn receive_from_old_process(
    handover_fd: Option<&str>,
    stored: &Vec<StoredMemory>,
) -> (r: Option<HandoverSource>)
    ensures
        is_source(crate::environment::var_view(handover_fd), stored@, r),
{
    match handover_fd {
        Some(text) => match from_fd_string(text) {
            Ok(fd) => Some(HandoverSource::Pipe(fd)),
            Err(_) => None,
        },
        None => match find_handover_memory(stored) {
            Some(i) => Some(HandoverSource::Stored(i)),
            None => None,
        },
    }
}

/// A process that an old process started reads the state from the pipe that the old process opened
/// for it and writes to, whatever the user put into the environment and whatever is stored.
pub proof fn law_new_process_reads_from_its_parent(
    command: ChildCommand,
    request: LaunchRequest,
    notify: CompletionSender,
    handover: PairedPipes,
    inherited: Map<Seq<u8>, Seq<u8>>,
    text: Seq<char>,
    stored: Seq<StoredMemory>,
    source: Option<HandoverSource>,
)
    requires
        crate::child::is_command_for(command, request, notify, handover),
        crate::environment::visible(
            inherited,
            crate::environment::env_view(command.envs@),
            crate::environment::encoded(ENV_HANDOVER_PIPE@),
        ) == Some(crate::environment::encoded(text)),
        is_source(Some(text), stored, source),
    ensures
        source == Some(HandoverSource::Pipe(handover.reader)),
{
    crate::child::law_new_process_reaches_its_parent(
        command,
        request,
        notify,
        handover,
        inherited,
        text,
    );
}

/// State that a process stored with systemd is found by the instance that systemd starts next,
/// whatever else is stored.
pub proof fn law_stored_state_is_received(
    memory: HandoverMemory,
    stored: Seq<StoredMemory>,
    i: int,
    source: Option<HandoverSource>,
)
    requires
        memory.fd_name@ == crate::fdstore::stored_name(),
        0 <= i < stored.len(),
        stored[i].name@ == memory.fd_name@,
        stored[i].len > 0,
        is_source(None, stored, source),
    ensures
        source matches Some(HandoverSource::Stored(k)) && k <= i
            && stored[k as int].holds_state(),
{
    assert(stored[i].holds_state());
}

/// State is read from the pipe that the environment names, if it names one, and whatever is stored;
/// a name that is not a descriptor gives nothing. Otherwise it is read from the stored memory that
/// holds it, if any does.
pub proof fn law_where_state_is_read(
    text: &str,
    stored: &Vec<StoredMemory>,
    fd: Result<i32, crate::error::IoFailure>,
    found: Option<usize>,
    from_pipe: Option<HandoverSource>,
    from_store: Option<HandoverSource>,
)
    requires
        call_ensures(from_fd_string, (text,), fd),
        call_ensures(find_handover_memory, (stored,), found),
        call_ensures(receive_from_old_process, (Some(text), stored), from_pipe),
        call_ensures(receive_from_old_process, (None, stored), from_store),
    ensures
        fd matches Ok(number) ==> from_pipe == Some(HandoverSource::Pipe(number)),
        fd is Err ==> from_pipe is None,
        found matches Some(i) ==> from_store == Some(HandoverSource::Stored(i)),
        found is None ==> from_store is None,
{
    if let Some(i) = found {
        assert(stored@[i as int].holds_state());
        if let Some(HandoverSource::Stored(k)) = from_store {
            assert(stored@[k as int].holds_state());
        }
    }
}

} // verus!
