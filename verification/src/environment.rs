//! The environment variables through which a process hands itself over to its successor.
use crate::error::IoFailure;
use crate::pipes::{fd_string, from_fd_string, CompletionSender};
use crate::text::{unsigned_text, str_equal};
use vstd::prelude::*;
use vstd::string::*;
use vstd::utf8::*;

verus! {

/// Names the write end of the pipe on which a new process announces its start.
pub const ENV_NOTIFY_SOCKET: &'static str = "OXY_NOTIFY_SOCKET";

/// Names the inherited restart coordination socket.
pub const ENV_RESTART_SOCKET: &'static str = "OXY_RESTART_SOCKET";

/// Names the read end of the pipe that carries the state of the old process.
pub const ENV_HANDOVER_PIPE: &'static str = "OXY_HANDOVER_PIPE";

/// Names the process that systemd passed its file descriptors to.
pub const ENV_SYSTEMD_PID: &'static str = "LISTEN_PID";

/// Stands in `LISTEN_PID` until the new process replaces it with its own process id.
pub const REBIND_SYSTEMD_PID: &'static str = "auto";

/// An environment variable and its value, in the encoding of the system.
pub type EnvPair = (Vec<u8>, Vec<u8>);

/// What a list of environment settings says, in order.
pub open spec fn env_view(pairs: Seq<EnvPair>) -> Seq<(Seq<u8>, Seq<u8>)> {
    pairs.map_values(|pair: EnvPair| (pair.0@, pair.1@))
}

/// The encoded form of a name or value.
pub open spec fn encoded(text: Seq<char>) -> Seq<u8> {
    encode_utf8(text)
}

/// The settings that a new process needs to find its predecessor.
pub open spec fn handover_settings(
    handover_fd: i32,
    notify_fd: i32,
    restart_fd: Option<i32>,
) -> Seq<(Seq<u8>, Seq<u8>)> {
    let always = seq![
        (encoded(ENV_SYSTEMD_PID@), encoded(REBIND_SYSTEMD_PID@)),
        (encoded(ENV_HANDOVER_PIPE@), encoded(crate::text::decimal(handover_fd as int))),
        (encoded(ENV_NOTIFY_SOCKET@), encoded(crate::text::decimal(notify_fd as int))),
    ];
    match restart_fd {
        Some(fd) => always.push(
            (encoded(ENV_RESTART_SOCKET@), encoded(crate::text::decimal(fd as int))),
        ),
        None => always,
    }
}

/// The value that a new process finds under `key`: the last setting for it, or else what the old
/// process has there.
pub open spec fn visible(
    inherited: Map<Seq<u8>, Seq<u8>>,
    settings: Seq<(Seq<u8>, Seq<u8>)>,
    key: Seq<u8>,
) -> Option<Seq<u8>>
    decreases settings.len(),
{
    if settings.len() == 0 {
        if inherited.dom().contains(key) {
            Some(inherited[key])
        } else {
            None
        }
    } else if settings.last().0 == key {
        Some(settings.last().1)
    } else {
        visible(inherited, settings.drop_last(), key)
    }
}

fn setting(name: &str, value: &str) -> (r: EnvPair)
    ensures
        r.0@ == encoded(name@),
        r.1@ == encoded(value@),
{
    (name.as_bytes_vec(), value.as_bytes_vec())
}

/// The environment settings of a new process: those of the user first, then those of the handover.
pub fn child_environment(
    user_envs: Vec<EnvPair>,
    handover_fd: i32,
    notify_fd: i32,
    restart_fd: Option<i32>,
) -> (r: Vec<EnvPair>)
    ensures
        env_view(r@) == env_view(user_envs@) + handover_settings(
            handover_fd,
            notify_fd,
            restart_fd,
        ),
{
    let mut envs = user_envs;
    envs.push(setting(ENV_SYSTEMD_PID, REBIND_SYSTEMD_PID));
    envs.push(setting(ENV_HANDOVER_PIPE, fd_string(handover_fd).as_str()));
    envs.push(setting(ENV_NOTIFY_SOCKET, fd_string(notify_fd).as_str()));
    if let Some(fd) = restart_fd {
        envs.push(setting(ENV_RESTART_SOCKET, fd_string(fd).as_str()));
    }
    envs
}

/// Whether a value is what to put into `LISTEN_PID`, if anything, given what is there.
pub open spec fn fixed_up(value: Option<String>, current: Option<Seq<char>>, pid: u32) -> bool {
    &&& value is Some <==> current == Some(REBIND_SYSTEMD_PID@)
    &&& value is Some ==> value->0@ == crate::text::decimal(pid as int)
}

/// What an environment variable holds, if it is set.
pub open spec fn var_view(var: Option<&str>) -> Option<Seq<char>> {
    match var {
        Some(value) => Some(value@),
        None => None,
    }
}

/// What to put into `LISTEN_PID`, if anything, given what is there.
/// A restarting process leaves a special value for its child, which the child replaces with its
/// real process id; any other value stays.
pub fn fixup_systemd_env(current: Option<&str>, pid: u32) -> (r: Option<String>)
    ensures
        fixed_up(r, var_view(current), pid),
{
    match current {
        Some(value) => if str_equal(value, REBIND_SYSTEMD_PID) {
            Some(unsigned_text(pid))
        } else {
            None
        },
        None => None,
    }
}

/// What to do next to announce a successful start.
#[derive(Debug)]
pub enum StartupAction {
    /// Write the completion byte to this descriptor.
    SignalParent(i32),
    /// Forget the descriptor, so that the parent is told only once, and tell the service manager.
    Ready,
    /// Give up.
    Fail(IoFailure),
}

/// The first step of announcing a successful start.
pub open spec fn startup_action(notify_fd: Option<Seq<char>>) -> StartupAction {
    match notify_fd {
        None => StartupAction::Ready,
        Some(text) => match crate::text::parsed_i32(text) {
            Some(fd) => StartupAction::SignalParent(fd),
            None => StartupAction::Fail(IoFailure::InvalidFd),
        },
    }
}

/// The second step of announcing a successful start, after the completion byte was written or not.
pub open spec fn signalled_action(written: Result<usize, IoFailure>) -> StartupAction {
    match written {
        Ok(count) => if count == 1 {
            StartupAction::Ready
        } else {
            StartupAction::Fail(IoFailure::ParentNotSignalled)
        },
        Err(e) => StartupAction::Fail(e),
    }
}

/// What announcing a successful start comes to, given what a write to the parent would give.
pub open spec fn startup_result(
    notify_fd: Option<Seq<char>>,
    written: Result<usize, IoFailure>,
) -> StartupAction {
    match startup_action(notify_fd) {
        StartupAction::SignalParent(_) => signalled_action(written),
        action => action,
    }
}

/// What the environment names as the notification descriptor once an action has been carried out.
pub open spec fn notify_fd_after(action: StartupAction, notify_fd: Option<Seq<char>>) -> Option<
    Seq<char>,
> {
    match action {
        StartupAction::Ready => None,
        _ => notify_fd,
    }
}

/// The first step of announcing a successful start, given the notification descriptor that the
/// environment names, if any.
pub fn startup_complete(notify_fd: Option<&str>) -> (r: StartupAction)
    ensures
        r == startup_action(var_view(notify_fd)),
{
    match notify_fd {
        None => StartupAction::Ready,
        Some(text) => match from_fd_string(text) {
            Ok(fd) => StartupAction::SignalParent(fd),
            Err(e) => StartupAction::Fail(e),
        },
    }
}

/// The second step of announcing a successful start, after the completion byte was written.
pub fn startup_signalled(written: Result<usize, IoFailure>) -> (r: StartupAction)
    ensures
        r == signalled_action(written),
{
    match CompletionSender::send(written) {
        Ok(()) => StartupAction::Ready,
        Err(e) => StartupAction::Fail(e),
    }
}

/// Where the restart coordination socket comes from.
#[derive(Debug, Clone, Copy, PartialEq, Eq, Structural)]
pub enum SocketSource {
    /// Remove what is at the configured path, whether or not that succeeds, and bind there.
    Bind,
    /// Take over the listening socket of the old process.
    Inherit(i32),
}

/// How to get the restart coordination socket, given the descriptor that the environment names,
/// if any.
pub fn bind_restart_coordination_socket(inherited: Option<&str>) -> (r: Result<
    SocketSource,
    IoFailure,
>)
    ensures
        r == match inherited {
            None => Ok(SocketSource::Bind),
            Some(text) => match crate::text::parsed_i32(text@) {
                Some(fd) => Ok(SocketSource::Inherit(fd)),
                None => Err(IoFailure::InvalidFd),
            },
        },
{
    match inherited {
        None => Ok(SocketSource::Bind),
        Some(text) => match from_fd_string(text) {
            Ok(fd) => Ok(SocketSource::Inherit(fd)),
            Err(e) => Err(e),
        },
    }
}

/// The parent is told only once: after a start has been announced successfully, announcing it again
/// goes straight to the service manager. An announcement that failed can be made again, to the same
/// parent.
pub proof fn law_parent_is_told_once(
    notify_fd: Option<Seq<char>>,
    written: Result<usize, IoFailure>,
)
    ensures
        ({
            let result = startup_result(notify_fd, written);
            let next = startup_action(notify_fd_after(result, notify_fd));
            &&& result is Ready || result is Fail
            &&& result is Ready <==> notify_fd is None || startup_action(notify_fd) is SignalParent
                && written == Ok::<usize, IoFailure>(1)
            &&& result is Ready ==> next is Ready
            &&& result is Fail ==> next == startup_action(notify_fd)
        }),
{
}

proof fn lemma_visible_push(
    inherited: Map<Seq<u8>, Seq<u8>>,
    settings: Seq<(Seq<u8>, Seq<u8>)>,
    pair: (Seq<u8>, Seq<u8>),
    key: Seq<u8>,
)
    ensures
        visible(inherited, settings.push(pair), key) == if pair.0 == key {
            Some(pair.1)
        } else {
            visible(inherited, settings, key)
        },
{
    assert(settings.push(pair).drop_last() =~= settings);
}

proof fn lemma_encoded_injective(a: Seq<char>, b: Seq<char>)
    ensures
        encoded(a) == encoded(b) <==> a == b,
{
    encode_utf8_decode_utf8(a);
    encode_utf8_decode_utf8(b);
}

proof fn lemma_names_differ()
    ensures
        encoded(ENV_SYSTEMD_PID@) != encoded(ENV_HANDOVER_PIPE@),
        encoded(ENV_SYSTEMD_PID@) != encoded(ENV_NOTIFY_SOCKET@),
        encoded(ENV_SYSTEMD_PID@) != encoded(ENV_RESTART_SOCKET@),
        encoded(ENV_HANDOVER_PIPE@) != encoded(ENV_NOTIFY_SOCKET@),
        encoded(ENV_HANDOVER_PIPE@) != encoded(ENV_RESTART_SOCKET@),
        encoded(ENV_NOTIFY_SOCKET@) != encoded(ENV_RESTART_SOCKET@),
{
    reveal_strlit("LISTEN_PID");
    reveal_strlit("OXY_HANDOVER_PIPE");
    reveal_strlit("OXY_NOTIFY_SOCKET");
    reveal_strlit("OXY_RESTART_SOCKET");
    lemma_encoded_injective(ENV_SYSTEMD_PID@, ENV_HANDOVER_PIPE@);
    lemma_encoded_injective(ENV_SYSTEMD_PID@, ENV_NOTIFY_SOCKET@);
    lemma_encoded_injective(ENV_SYSTEMD_PID@, ENV_RESTART_SOCKET@);
    lemma_encoded_injective(ENV_HANDOVER_PIPE@, ENV_NOTIFY_SOCKET@);
    lemma_encoded_injective(ENV_HANDOVER_PIPE@, ENV_RESTART_SOCKET@);
    lemma_encoded_injective(ENV_NOTIFY_SOCKET@, ENV_RESTART_SOCKET@);
    assert(ENV_HANDOVER_PIPE@[4] != ENV_NOTIFY_SOCKET@[4]);
}

/// Whatever the user sets and whatever the old process has in its own environment, a new process
/// finds the handover settings, and every other variable as the user left it.
pub proof fn law_handover_settings_win(
    inherited: Map<Seq<u8>, Seq<u8>>,
    user: Seq<(Seq<u8>, Seq<u8>)>,
    handover_fd: i32,
    notify_fd: i32,
    restart_fd: Option<i32>,
)
    ensures
        ({
            let all = user + handover_settings(handover_fd, notify_fd, restart_fd);
            &&& visible(inherited, all, encoded(ENV_SYSTEMD_PID@)) == Some(
                encoded(REBIND_SYSTEMD_PID@),
            )
            &&& visible(inherited, all, encoded(ENV_HANDOVER_PIPE@)) == Some(
                encoded(crate::text::decimal(handover_fd as int)),
            )
            &&& visible(inherited, all, encoded(ENV_NOTIFY_SOCKET@)) == Some(
                encoded(crate::text::decimal(notify_fd as int)),
            )
            &&& restart_fd is Some ==> visible(inherited, all, encoded(ENV_RESTART_SOCKET@))
                == Some(encoded(crate::text::decimal(restart_fd->0 as int)))
            &&& forall|key: Seq<u8>|
                key != encoded(ENV_SYSTEMD_PID@) && key != encoded(ENV_HANDOVER_PIPE@) && key
                    != encoded(ENV_NOTIFY_SOCKET@) && (restart_fd is None || key != encoded(
                    ENV_RESTART_SOCKET@,
                )) ==> #[trigger] visible(inherited, all, key) == visible(inherited, user, key)
        }),
{
    lemma_names_differ();
    let settings = handover_settings(handover_fd, notify_fd, restart_fd);
    let all = user + settings;
    let one = user.push(settings[0]);
    let two = one.push(settings[1]);
    let three = two.push(settings[2]);
    assert forall|key: Seq<u8>| #[trigger]
        visible(inherited, all, key) == if restart_fd is Some && key == encoded(
            ENV_RESTART_SOCKET@,
        ) {
            Some(encoded(crate::text::decimal(restart_fd->0 as int)))
        } else if key == encoded(ENV_NOTIFY_SOCKET@) {
            Some(encoded(crate::text::decimal(notify_fd as int)))
        } else if key == encoded(ENV_HANDOVER_PIPE@) {
            Some(encoded(crate::text::decimal(handover_fd as int)))
        } else if key == encoded(ENV_SYSTEMD_PID@) {
            Some(encoded(REBIND_SYSTEMD_PID@))
        } else {
            visible(inherited, user, key)
        } by {
        lemma_visible_push(inherited, user, settings[0], key);
        lemma_visible_push(inherited, one, settings[1], key);
        lemma_visible_push(inherited, two, settings[2], key);
        match restart_fd {
            Some(fd) => {
                assert(all =~= three.push(settings[3]));
                lemma_visible_push(inherited, three, settings[3], key);
            },
            None => {
                assert(all =~= three);
            },
        }
    }
}

/// A descriptor that the old process put into the environment is the descriptor that the new
/// process reads there, for each of the three descriptors that are passed on.
pub proof fn law_new_process_finds_descriptors(
    inherited: Map<Seq<u8>, Seq<u8>>,
    user: Seq<(Seq<u8>, Seq<u8>)>,
    handover_fd: i32,
    notify_fd: i32,
    restart_fd: Option<i32>,
    text: Seq<char>,
)
    ensures
        ({
            let all = user + handover_settings(handover_fd, notify_fd, restart_fd);
            let found = Some(encoded(text));
            &&& visible(inherited, all, encoded(ENV_HANDOVER_PIPE@)) == found
                ==> crate::text::parsed_i32(text) == Some(handover_fd)
            &&& visible(inherited, all, encoded(ENV_NOTIFY_SOCKET@)) == found
                ==> crate::text::parsed_i32(text) == Some(notify_fd)
            &&& restart_fd is Some && visible(inherited, all, encoded(ENV_RESTART_SOCKET@)) == found
                ==> crate::text::parsed_i32(text) == restart_fd
        }),
{
    law_handover_settings_win(inherited, user, handover_fd, notify_fd, restart_fd);
    lemma_encoded_injective(text, crate::text::decimal(handover_fd as int));
    lemma_encoded_injective(text, crate::text::decimal(notify_fd as int));
    crate::text::lemma_signed_text_round_trip(handover_fd);
    crate::text::lemma_signed_text_round_trip(notify_fd);
    if let Some(fd) = restart_fd {
        lemma_encoded_injective(text, crate::text::decimal(fd as int));
        crate::text::lemma_signed_text_round_trip(fd);
    }
}

/// A new process replaces the process id that systemd passed its descriptors to with its own.
pub proof fn law_new_process_rebinds_listen_pid(
    inherited: Map<Seq<u8>, Seq<u8>>,
    user: Seq<(Seq<u8>, Seq<u8>)>,
    handover_fd: i32,
    notify_fd: i32,
    restart_fd: Option<i32>,
    text: Seq<char>,
    value: Option<String>,
    pid: u32,
)
    requires
        visible(
            inherited,
            user + handover_settings(handover_fd, notify_fd, restart_fd),
            encoded(ENV_SYSTEMD_PID@),
        ) == Some(encoded(text)),
        fixed_up(value, Some(text), pid),
    ensures
        value is Some,
        value->0@ == crate::text::decimal(pid as int),
{
    law_handover_settings_win(inherited, user, handover_fd, notify_fd, restart_fd);
    lemma_encoded_injective(text, REBIND_SYSTEMD_PID@);
}

/// A new process finds in its environment what the user set, except for the variables of the
/// handover. Those name the descriptors that the new process is given, as text, and leave a mark
/// where its process id belongs; the restart coordination socket is the user's business if there is
/// none to pass on.
pub proof fn law_environment_of_new_process(
    user_envs: Vec<EnvPair>,
    handover_fd: i32,
    notify_fd: i32,
    restart_fd: Option<i32>,
    socket_fd: i32,
    envs: Vec<EnvPair>,
    handover: String,
    notify: String,
    socket: String,
    inherited: Map<Seq<u8>, Seq<u8>>,
    key: Seq<u8>,
)
    requires
        call_ensures(child_environment, (user_envs, handover_fd, notify_fd, restart_fd), envs),
        call_ensures(fd_string, (handover_fd,), handover),
        call_ensures(fd_string, (notify_fd,), notify),
        restart_fd is Some ==> restart_fd == Some(socket_fd),
        call_ensures(fd_string, (socket_fd,), socket),
    ensures
        ({
            let found = visible(inherited, env_view(envs@), key);
            if key == encoded("LISTEN_PID"@) {
                found == Some(encoded("auto"@))
            } else if key == encoded("OXY_HANDOVER_PIPE"@) {
                found == Some(encoded(handover@))
            } else if key == encoded("OXY_NOTIFY_SOCKET"@) {
                found == Some(encoded(notify@))
            } else if key == encoded("OXY_RESTART_SOCKET"@) && restart_fd is Some {
                found == Some(encoded(socket@))
            } else {
                found == visible(inherited, env_view(user_envs@), key)
            }
        }),
        envs@.len() == user_envs@.len() + if restart_fd is Some {
            4int
        } else {
            3
        },
        forall|i: int|
            0 <= i < user_envs@.len() ==> (#[trigger] envs@[i]).0@ == user_envs@[i].0@
                && envs@[i].1@ == user_envs@[i].1@,
{
    law_handover_settings_win(
        inherited,
        env_view(user_envs@),
        handover_fd,
        notify_fd,
        restart_fd,
    );
    assert(env_view(envs@).len() == envs@.len());
    assert forall|i: int| 0 <= i < user_envs@.len() implies (#[trigger] envs@[i]).0@
        == user_envs@[i].0@ && envs@[i].1@ == user_envs@[i].1@ by {
        assert(env_view(envs@)[i] == env_view(user_envs@)[i]);
        assert(env_view(envs@)[i] == (envs@[i].0@, envs@[i].1@));
        assert(env_view(user_envs@)[i] == (user_envs@[i].0@, user_envs@[i].1@));
    }
}

/// The mark that a restarting process leaves, and nothing else, is replaced with the process id of
/// the new process, as text.
pub proof fn law_only_the_mark_is_replaced(
    current: Option<&str>,
    pid: u32,
    replacement: Option<String>,
    text: String,
)
    requires
        call_ensures(fixup_systemd_env, (current, pid), replacement),
        call_ensures(unsigned_text, (pid,), text),
    ensures
        replacement is Some <==> current is Some && current->0@ == "auto"@,
        replacement matches Some(value) ==> value@ == text@,
{
}

/// A start is announced to the parent whose descriptor the environment names, and without one it is
/// announced to nobody; a name that is not a descriptor is a failure. The restart coordination
/// socket is taken over and bound by the same rule.
pub proof fn law_named_descriptor_decides(
    text: &str,
    fd: Result<i32, IoFailure>,
    named: StartupAction,
    unnamed: StartupAction,
    inherited: Result<SocketSource, IoFailure>,
    fresh: Result<SocketSource, IoFailure>,
)
    requires
        call_ensures(from_fd_string, (text,), fd),
        call_ensures(startup_complete, (Some(text),), named),
        call_ensures(startup_complete, (None,), unnamed),
        call_ensures(bind_restart_coordination_socket, (Some(text),), inherited),
        call_ensures(bind_restart_coordination_socket, (None,), fresh),
    ensures
        unnamed is Ready,
        fd matches Ok(number) ==> named == StartupAction::SignalParent(number) && inherited == Ok::<
            SocketSource,
            IoFailure,
        >(SocketSource::Inherit(number)),
        fd matches Err(e) ==> named == StartupAction::Fail(e) && inherited == Err::<
            SocketSource,
            IoFailure,
        >(e),
        fresh == Ok::<SocketSource, IoFailure>(SocketSource::Bind),
{
}

/// A start that was announced to a parent is complete if and only if the parent was told.
pub proof fn law_announced_when_parent_was_told(
    written: Result<usize, IoFailure>,
    sent: Result<(), IoFailure>,
    next: StartupAction,
)
    requires
        call_ensures(CompletionSender::send, (written,), sent),
        call_ensures(startup_signalled, (written,), next),
    ensures
        sent is Ok ==> next is Ready,
        sent matches Err(e) ==> next == StartupAction::Fail(e),
{
}

} // verus!
