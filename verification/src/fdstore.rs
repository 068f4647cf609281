//! Memory that systemd stores between two processes.
use vstd::prelude::*;
use vstd::string::*;

verus! {

/// Begins the name of everything that is stored.
pub const SHELLFLIP_FD_PREFIX: &'static str = "sf_";

/// Names the memory that carries the state of the old process.
pub const SYSTEMD_MEMFD_NAME: &'static str = "mem_handover";

/// The name under which the memory that carries the state of the old process is stored.
pub open spec fn stored_name() -> Seq<char> {
    SHELLFLIP_FD_PREFIX@ + SYSTEMD_MEMFD_NAME@
}

/// Memory for the state of this process, to be created and given to systemd.
#[derive(Debug)]
pub struct HandoverMemory {
    /// What the memory is called on this side.
    pub label: String,
    /// The name under which systemd is to store it.
    pub fd_name: String,
}

/// The memory to create and to give to systemd before the start of this process is announced.
pub fn create_handover_memfd() -> (r: HandoverMemory)
    ensures
        r.label@ == "shellflip_restart"@,
        r.fd_name@ == stored_name(),
{
    HandoverMemory {
        label: String::from_str("shellflip_restart"),
        fd_name: String::from_str(SHELLFLIP_FD_PREFIX).concat(SYSTEMD_MEMFD_NAME),
    }
}

/// Something that systemd stored and passed to this process.
#[derive(Debug)]
pub struct StoredMemory {
    /// The name under which it was stored.
    pub name: String,
    /// How many bytes it holds.
    pub len: u64,
}

impl StoredMemory {
    /// Whether this is state that an old process left behind. Memory that was stored and never
    /// written to comes from a process that did not get to hand over its state.
    pub open spec fn holds_state(self) -> bool {
        self.name@ == stored_name() && self.len > 0
    }
}

/// Whether this is the first piece of stored memory that holds the state of an old process, if any
/// does.
pub open spec fn is_first_state(stored: Seq<StoredMemory>, found: Option<usize>) -> bool {
    match found {
        Some(i) => {
            &&& i < stored.len()
            &&& stored[i as int].holds_state()
            &&& forall|k: int| 0 <= k < i ==> !(#[trigger] stored[k]).holds_state()
        },
        None => forall|k: int| 0 <= k < stored.len() ==> !(#[trigger] stored[k]).holds_state(),
    }
}

/// The first piece of stored memory that holds the state of an old process.
pub fn find_handover_memory(stored: &Vec<StoredMemory>) -> (r: Option<usize>)
    ensures
        is_first_state(stored@, r),
{
    let name = create_handover_memfd().fd_name;
    let mut i: usize = 0;
    while i < stored.len()
        invariant
            i <= stored@.len(),
            name@ == stored_name(),
            forall|k: int| 0 <= k < i ==> !(#[trigger] stored@[k]).holds_state(),
        decreases stored@.len() - i,
    {
        if stored[i].name == name && stored[i].len > 0 {
            return Some(i);
        }
        i = i + 1;
    }
    None
}

/// The memory that a process stores is found by its successor: among everything that is stored, the
/// first piece under that name which was written to, and nothing else.
pub proof fn law_stored_memory_is_found(
    memory: HandoverMemory,
    stored: &Vec<StoredMemory>,
    found: Option<usize>,
    k: int,
)
    requires
        call_ensures(create_handover_memfd, (), memory),
        call_ensures(find_handover_memory, (stored,), found),
        0 <= k < stored@.len(),
    ensures
        memory.label@ == "shellflip_restart"@,
        memory.fd_name@ == "sf_"@ + "mem_handover"@,
        stored@[k].name@ == memory.fd_name@ && stored@[k].len > 0 ==> found is Some && found->0 <= k,
        found matches Some(i) ==> {
            &&& i < stored@.len()
            &&& stored@[i as int].name@ == memory.fd_name@
            &&& stored@[i as int].len > 0
        },
{
    let piece = stored@[k];
    assert(piece.holds_state() <==> piece.name@ == memory.fd_name@ && piece.len > 0);
}

} // verus!
