//! Coordinated shutdown of a group of tasks.
use vstd::prelude::*;

verus! {

/// Receives a shutdown signal, which can be awaited on once using the `on_shutdown` method.
#[derive(Debug, Clone, Copy, PartialEq, Eq, Structural)]
pub enum ShutdownSignal {
    /// Waits for the coordinator of the group with this number.
    WaitingForSignal(u64),
    Signalled,
}

/// Whether a signal resolves when it is polled against a coordinator in this state: when it belongs
/// to that coordinator, and the coordinator has announced a shutdown or is gone.
pub open spec fn signal_resolves(signal: ShutdownSignal, state: ShutdownState) -> bool {
    signal == ShutdownSignal::WaitingForSignal(state.group) && state.announced()
}

/// What becomes of a signal when it is polled.
pub open spec fn signal_polled(signal: ShutdownSignal, state: ShutdownState) -> ShutdownSignal {
    if signal_resolves(signal, state) {
        ShutdownSignal::Signalled
    } else {
        signal
    }
}

impl ShutdownSignal {
    /// Polls for a shutdown signal, which happens once, when the coordinator that the signal
    /// belongs to has announced a shutdown or is gone. The result tells whether the wait is over.
    /// This function can be called multiple times but it will only resolve once,
    /// so it can be used to receive the shutdown signal once.
    pub fn on_shutdown(&mut self, coordinator: &ShutdownCoordinator) -> (r: bool)
        ensures
            r == signal_resolves(*old(self), coordinator@),
            *final(self) == signal_polled(*old(self), coordinator@),
    {
        match *self {
            ShutdownSignal::WaitingForSignal(group) => {
                if group == coordinator.group && coordinator.is_announced() {
                    *self = ShutdownSignal::Signalled;
                    true
                } else {
                    false
                }
            },
            ShutdownSignal::Signalled => false,
        }
    }

    /// Whether the signal can still resolve.
    pub fn is_waiting(&self) -> (r: bool)
        ensures
            r == (self is WaitingForSignal),
    {
        match self {
            ShutdownSignal::WaitingForSignal(_) => true,
            ShutdownSignal::Signalled => false,
        }
    }
}

/// The default implementation of ShutdownSignal will never be signalled.
impl Default for ShutdownSignal {
    fn default() -> (r: Self)
        ensures
            r == ShutdownSignal::Signalled,
    {
        ShutdownSignal::Signalled
    }
}

/// A handle held by an active task, which can be used to receive
/// shutdown notifications and to delay program termination until the
/// task has completed.
#[derive(Debug)]
pub struct ShutdownHandle {
    /// Receives cancellation notifications.
    cancellation_rx: ShutdownSignal,
    /// The group of which the coordinator waits for this handle, if one does.
    group: Option<u64>,
}

impl ShutdownHandle {
    /// The signal that the handle hands out.
    pub closed spec fn signal(self) -> ShutdownSignal {
        self.cancellation_rx
    }

    /// The group of which the coordinator waits for this handle, if one does.
    pub closed spec fn group(self) -> Option<u64> {
        self.group
    }
}

impl Default for ShutdownHandle {
    /// A handle of no coordinator: nobody waits for it, and its signal never resolves.
    fn default() -> (r: Self)
        ensures
            r.signal() == ShutdownSignal::Signalled,
            r.group() is None,
    {
        ShutdownHandle { cancellation_rx: ShutdownSignal::default(), group: None }
    }
}

impl vstd::std_specs::convert::FromSpecImpl<&ShutdownHandle> for ShutdownSignal {
    open spec fn obeys_from_spec() -> bool {
        true
    }

    open spec fn from_spec(handle: &ShutdownHandle) -> Self {
        handle.signal()
    }
}

impl From<&ShutdownHandle> for ShutdownSignal {
    fn from(handle: &ShutdownHandle) -> (r: Self) {
        handle.cancellation_rx
    }
}

/// How far a shutdown has come.
#[derive(Debug, Clone, Copy, PartialEq, Eq, Structural)]
pub enum ShutdownPhase {
    /// Shutdown has not started.
    Running,
    /// Shutdown has started.
    ShuttingDown,
    /// The coordinator is gone, and shutdown never started.
    Abandoned,
}

/// What a coordinator knows: the number of its group, how far shutdown has come, and how many
/// handles are held by tasks.
pub struct ShutdownState {
    pub group: u64,
    pub phase: ShutdownPhase,
    pub held: nat,
}

impl ShutdownState {
    /// Whether the signals of a coordinator resolve.
    pub open spec fn announced(self) -> bool {
        !(self.phase is Running)
    }

    /// Whether a weak handle can be upgraded: while shutdown has not started, and as long as the
    /// coordinator or some task still holds a handle.
    pub open spec fn can_upgrade(self) -> bool {
        match self.phase {
            ShutdownPhase::Running => true,
            ShutdownPhase::ShuttingDown => false,
            ShutdownPhase::Abandoned => self.held > 0,
        }
    }

    /// Whether shutdown has completed.
    pub open spec fn complete(self) -> bool {
        self.phase is ShuttingDown && self.held == 0
    }
}

/// What can happen to a coordinator.
pub enum ShutdownStep {
    Handle,
    Upgrade,
    Release,
    Shutdown,
    Abandon,
}

/// What a coordinator knows after something that is permitted has happened to it.
pub open spec fn coordinator_step(pre: ShutdownState, step: ShutdownStep, post: ShutdownState) -> bool {
    match step {
        ShutdownStep::Handle => pre.phase is Running && post == (ShutdownState {
            held: pre.held + 1,
            ..pre
        }),
        ShutdownStep::Upgrade => post == if pre.can_upgrade() {
            ShutdownState { held: pre.held + 1, ..pre }
        } else {
            pre
        },
        ShutdownStep::Release => pre.held > 0 && post == (ShutdownState {
            held: (pre.held - 1) as nat,
            ..pre
        }),
        ShutdownStep::Shutdown => pre.phase is Running && post == (ShutdownState {
            phase: ShutdownPhase::ShuttingDown,
            ..pre
        }),
        ShutdownStep::Abandon => post == (ShutdownState {
            phase: if pre.phase is Running {
                ShutdownPhase::Abandoned
            } else {
                pre.phase
            },
            ..pre
        }),
    }
}

/// Stands for a ShutdownHandle without delaying shutdown.
#[derive(Debug, Clone, Copy, PartialEq, Eq, Structural)]
pub struct WeakShutdownHandle {
    /// The group that the handle belongs to.
    group: u64,
    /// What receives cancellation notifications once the handle is upgraded.
    cancellation_rx: ShutdownSignal,
}

impl WeakShutdownHandle {
    /// The group that the handle belongs to.
    pub closed spec fn group(self) -> u64 {
        self.group
    }

    /// The signal that the handle hands out once it is upgraded.
    pub closed spec fn signal(self) -> ShutdownSignal {
        self.cancellation_rx
    }
}

/// Coordinates the shutdown process for a group of tasks.
/// This allows the tasks to get notified when a shutdown is requested,
/// and allows the main thread to defer termination until all of the tasks have successfully
/// completed.
#[derive(Debug)]
pub struct ShutdownCoordinator {
    group: u64,
    phase: ShutdownPhase,
    held: usize,
}

impl View for ShutdownCoordinator {
    type V = ShutdownState;

    closed spec fn view(&self) -> ShutdownState {
        ShutdownState { group: self.group, phase: self.phase, held: self.held as nat }
    }
}

impl ShutdownCoordinator {
    /// A coordinator of a group without tasks. The number of the group tells its handles and
    /// signals from those of other groups, which have other numbers.
    pub fn new(group: u64) -> (r: Self)
        ensures
            r@ == (ShutdownState { group, phase: ShutdownPhase::Running, held: 0 }),
    {
        ShutdownCoordinator { group, phase: ShutdownPhase::Running, held: 0 }
    }

    /// Get a ShutdownHandle to be held by a task that needs to be waited on during shutdown.
    pub fn handle(&mut self) -> (r: ShutdownHandle)
        requires
            old(self)@.phase is Running,
            old(self)@.held < usize::MAX,
        ensures
            coordinator_step(old(self)@, ShutdownStep::Handle, final(self)@),
            r.signal() == ShutdownSignal::WaitingForSignal(old(self)@.group),
            r.group() == Some(old(self)@.group),
    {
        self.held = self.held + 1;
        ShutdownHandle {
            cancellation_rx: ShutdownSignal::WaitingForSignal(self.group),
            group: Some(self.group),
        }
    }

    /// Get a ShutdownHandle that can be held by a task that does not need to be waited on, but may
    /// spawn tasks that should be waited on. If the task can upgrade the handle, then shutdown has
    /// not yet started.
    pub fn handle_weak(&self) -> (r: WeakShutdownHandle)
        ensures
            r.signal() == ShutdownSignal::WaitingForSignal(self@.group),
            r.group() == self@.group,
    {
        WeakShutdownHandle {
            group: self.group,
            cancellation_rx: ShutdownSignal::WaitingForSignal(self.group),
        }
    }

    /// Turns a weak handle of this group into one that needs to be waited on during shutdown, if
    /// possible.
    pub fn upgrade(&mut self, weak: WeakShutdownHandle) -> (r: Option<ShutdownHandle>)
        requires
            old(self)@.held < usize::MAX,
            weak.group() == old(self)@.group,
        ensures
            r is Some <==> old(self)@.can_upgrade(),
            r is Some ==> r->0.signal() == weak.signal() && r->0.group() == Some(weak.group()),
            coordinator_step(old(self)@, ShutdownStep::Upgrade, final(self)@),
    {
        let possible: bool = match self.phase {
            ShutdownPhase::Running => true,
            ShutdownPhase::ShuttingDown => false,
            ShutdownPhase::Abandoned => self.held > 0,
        };
        if possible {
            self.held = self.held + 1;
            Some(
                ShutdownHandle { cancellation_rx: weak.cancellation_rx, group: Some(weak.group) },
            )
        } else {
            None
        }
    }

    /// Takes back the handle of a task that has completed: one of this group, or one of none.
    pub fn release(&mut self, handle: ShutdownHandle)
        requires
            handle.group() matches Some(group) ==> group == old(self)@.group && old(self)@.held > 0,
        ensures
            handle.group() is Some ==> coordinator_step(
                old(self)@,
                ShutdownStep::Release,
                final(self)@,
            ),
            handle.group() is None ==> final(self)@ == old(self)@,
    {
        if handle.group.is_some() {
            self.held = self.held - 1;
        }
    }

    /// Whether a handle was given out for this group and can be taken back.
    pub fn awaits(&self, handle: &ShutdownHandle) -> (r: bool)
        ensures
            r == (handle.group() == Some(self@.group) && self@.held > 0),
    {
        match handle.group {
            Some(group) => group == self.group && self.held > 0,
            None => false,
        }
    }

    /// Whether one more handle can be given out without losing count.
    pub fn has_room(&self) -> (r: bool)
        ensures
            r == (self@.held < usize::MAX),
    {
        self.held < usize::MAX
    }

    /// Initiate shutdown. The tasks are told, and `is_complete` tells whether all have completed.
    /// To prevent new connections from being accepted, drop any listening tasks first.
    pub fn shutdown(&mut self)
        requires
            old(self)@.phase is Running,
        ensures
            coordinator_step(old(self)@, ShutdownStep::Shutdown, final(self)@),
    {
        self.phase = ShutdownPhase::ShuttingDown;
    }

    /// Initiate shutdown, and tell how many seconds to wait for its completion at most; `None` if
    /// it has completed at once.
    pub fn shutdown_with_timeout(&mut self, timeout: u64) -> (r: Option<u64>)
        requires
            old(self)@.phase is Running,
        ensures
            coordinator_step(old(self)@, ShutdownStep::Shutdown, final(self)@),
            r == if old(self)@.held == 0 {
                None
            } else {
                Some(timeout)
            },
    {
        self.shutdown();
        if self.is_complete() {
            None
        } else {
            Some(timeout)
        }
    }

    /// Takes note that the coordinator is gone. Tasks that wait for a signal get it; a shutdown
    /// that has started goes on.
    pub fn abandon(&mut self)
        ensures
            coordinator_step(old(self)@, ShutdownStep::Abandon, final(self)@),
    {
        if self.phase == ShutdownPhase::Running {
            self.phase = ShutdownPhase::Abandoned;
        }
    }

    /// Whether tasks that wait for a signal get it.
    pub fn is_announced(&self) -> (r: bool)
        ensures
            r == self@.announced(),
    {
        self.phase != ShutdownPhase::Running
    }

    /// Whether shutdown has started and all tasks have completed.
    pub fn is_complete(&self) -> (r: bool)
        ensures
            r == self@.complete(),
    {
        self.phase == ShutdownPhase::ShuttingDown && self.held == 0
    }
}

impl Default for ShutdownCoordinator {
    /// The coordinator of the group with the number 0.
    fn default() -> (r: Self)
        ensures
            r@ == (ShutdownState { group: 0, phase: ShutdownPhase::Running, held: 0 }),
    {
        Self::new(0)
    }
}

/// What becomes of a signal that is polled again and again, while coordinators are in these states.
pub open spec fn signal_after(signal: ShutdownSignal, polls: Seq<ShutdownState>) -> ShutdownSignal
    decreases polls.len(),
{
    if polls.len() == 0 {
        signal
    } else {
        signal_polled(signal_after(signal, polls.drop_last()), polls.last())
    }
}

/// Whether the poll with number `i` is the one at which a signal resolves.
pub open spec fn resolves_at(signal: ShutdownSignal, polls: Seq<ShutdownState>, i: int) -> bool {
    signal_resolves(signal_after(signal, polls.take(i)), polls[i])
}

proof fn lemma_signalled_stays(signal: ShutdownSignal, polls: Seq<ShutdownState>, i: int, j: int)
    requires
        0 <= i <= j <= polls.len(),
        signal_after(signal, polls.take(i)) is Signalled,
    ensures
        signal_after(signal, polls.take(j)) is Signalled,
    decreases j,
{
    if i < j {
        lemma_signalled_stays(signal, polls, i, j - 1);
        assert(polls.take(j).drop_last() =~= polls.take(j - 1));
    }
}

/// However often a signal is polled, it resolves at most once.
pub proof fn law_signal_resolves_once(
    signal: ShutdownSignal,
    polls: Seq<ShutdownState>,
    i: int,
    j: int,
)
    requires
        0 <= i < polls.len(),
        0 <= j < polls.len(),
        resolves_at(signal, polls, i),
        resolves_at(signal, polls, j),
    ensures
        i == j,
{
    if i < j {
        assert(polls.take(i + 1).drop_last() =~= polls.take(i));
        lemma_signalled_stays(signal, polls, i + 1, j);
    } else if j < i {
        assert(polls.take(j + 1).drop_last() =~= polls.take(j));
        lemma_signalled_stays(signal, polls, j + 1, i);
    }
}

proof fn lemma_waiting_stays(group: u64, polls: Seq<ShutdownState>)
    requires
        forall|k: int|
            0 <= k < polls.len() ==> !(#[trigger] polls[k].announced()) || polls[k].group != group,
    ensures
        signal_after(ShutdownSignal::WaitingForSignal(group), polls)
            == ShutdownSignal::WaitingForSignal(group),
    decreases polls.len(),
{
    if polls.len() > 0 {
        let earlier = polls.drop_last();
        assert forall|k: int| 0 <= k < earlier.len() implies !(
        #[trigger] earlier[k].announced()) || earlier[k].group != group by {
            assert(earlier[k] == polls[k]);
            assert(!polls[k].announced() || polls[k].group != group);
        }
        lemma_waiting_stays(group, earlier);
        assert(!polls[polls.len() - 1].announced() || polls.last().group != group);
    }
}

/// A signal that waits resolves at the first poll after the announcement of its own coordinator;
/// those of others do not count.
pub proof fn law_waiting_signal_resolves_when_announced(
    group: u64,
    polls: Seq<ShutdownState>,
    i: int,
)
    requires
        0 <= i < polls.len(),
        forall|k: int|
            0 <= k < i ==> !(#[trigger] polls[k].announced()) || polls[k].group != group,
    ensures
        resolves_at(ShutdownSignal::WaitingForSignal(group), polls, i) <==> polls[i].announced()
            && polls[i].group == group,
{
    let earlier = polls.take(i);
    assert forall|k: int| 0 <= k < earlier.len() implies !(#[trigger] earlier[k].announced())
        || earlier[k].group != group by {
        assert(!polls[k].announced() || polls[k].group != group);
    }
    lemma_waiting_stays(group, earlier);
}

/// The signal of a handle that belongs to no coordinator never resolves.
pub proof fn law_default_signal_never_resolves(polls: Seq<ShutdownState>, i: int)
    requires
        0 <= i < polls.len(),
    ensures
        !resolves_at(ShutdownSignal::Signalled, polls, i),
{
    assert(polls.take(0) =~= Seq::<ShutdownState>::empty());
    lemma_signalled_stays(ShutdownSignal::Signalled, polls, 0, i);
}

/// A course of a group of tasks, from its beginning.
pub open spec fn coordinator_trace(states: Seq<ShutdownState>, steps: Seq<ShutdownStep>) -> bool {
    &&& states.len() == steps.len() + 1
    &&& states[0].phase is Running
    &&& states[0].held == 0
    &&& forall|i: int|
        #![trigger steps[i]]
        0 <= i < steps.len() ==> coordinator_step(states[i], steps[i], states[i + 1])
}

/// How many handles the first `n` steps gave out.
pub open spec fn given(states: Seq<ShutdownState>, steps: Seq<ShutdownStep>, n: int) -> int
    decreases n,
{
    if n <= 0 {
        0
    } else {
        given(states, steps, n - 1) + if steps[n - 1] is Handle || (steps[n - 1] is Upgrade
            && states[n - 1].can_upgrade()) {
            1int
        } else {
            0
        }
    }
}

/// How many handles the first `n` steps took back.
pub open spec fn returned(steps: Seq<ShutdownStep>, n: int) -> int
    decreases n,
{
    if n <= 0 {
        0
    } else {
        returned(steps, n - 1) + if steps[n - 1] is Release {
            1int
        } else {
            0
        }
    }
}

proof fn lemma_held(states: Seq<ShutdownState>, steps: Seq<ShutdownStep>, n: int)
    requires
        coordinator_trace(states, steps),
        0 <= n < states.len(),
    ensures
        states[n].held == given(states, steps, n) - returned(steps, n),
    decreases n,
{
    if n > 0 {
        lemma_held(states, steps, n - 1);
        assert(coordinator_step(states[n - 1], steps[n - 1], states[n]));
    }
}

/// Shutdown is complete exactly when it has started and every handle that was ever given to a task
/// has come back; without any task it is complete at once.
pub proof fn law_shutdown_waits_for_every_task(
    states: Seq<ShutdownState>,
    steps: Seq<ShutdownStep>,
    n: int,
)
    requires
        coordinator_trace(states, steps),
        0 <= n < states.len(),
    ensures
        states[n].complete() <==> states[n].phase is ShuttingDown && given(states, steps, n)
            == returned(steps, n),
{
    lemma_held(states, steps, n);
}

/// Shutdown is never called off: once it has started no weak handle can be upgraded any more, no
/// more tasks join, and once complete it stays complete.
pub proof fn law_shutdown_only_winds_down(
    states: Seq<ShutdownState>,
    steps: Seq<ShutdownStep>,
    i: int,
    j: int,
)
    requires
        coordinator_trace(states, steps),
        0 <= i <= j < states.len(),
        states[i].phase is ShuttingDown,
    ensures
        states[j].phase is ShuttingDown,
        states[j].announced(),
        !states[j].can_upgrade(),
        states[j].held <= states[i].held,
        states[i].complete() ==> states[j].complete(),
    decreases j,
{
    if i < j {
        law_shutdown_only_winds_down(states, steps, i, j - 1);
        assert(coordinator_step(states[j - 1], steps[j - 1], states[j]));
    }
}

/// A task that can upgrade its weak handle knows that shutdown has not started.
pub proof fn law_upgrade_means_not_started(state: ShutdownState)
    requires
        state.can_upgrade(),
    ensures
        !(state.phase is ShuttingDown),
{
}

/// Whether shutdown was started in one of the first `n` steps.
pub open spec fn started_before(steps: Seq<ShutdownStep>, n: int) -> bool {
    exists|k: int| 0 <= k < n && #[trigger] steps[k] is Shutdown
}

/// Whether the coordinator was abandoned in one of the first `n` steps.
pub open spec fn abandoned_before(steps: Seq<ShutdownStep>, n: int) -> bool {
    exists|k: int| 0 <= k < n && #[trigger] steps[k] is Abandon
}

/// How far shutdown has come follows from what happened: it has started if and only if somebody
/// started it, and nothing else than that and the loss of the coordinator ends the normal run.
pub proof fn law_phase_follows_from_what_happened(
    states: Seq<ShutdownState>,
    steps: Seq<ShutdownStep>,
    n: int,
)
    requires
        coordinator_trace(states, steps),
        0 <= n < states.len(),
    ensures
        states[n].group == states[0].group,
        states[n].phase is Running <==> !started_before(steps, n) && !abandoned_before(steps, n),
        states[n].phase is ShuttingDown <==> started_before(steps, n),
        states[n].phase is Abandoned <==> abandoned_before(steps, n) && !started_before(steps, n),
    decreases n,
{
    if n > 0 {
        let m = n - 1;
        law_phase_follows_from_what_happened(states, steps, m);
        assert(coordinator_step(states[m], steps[m], states[n]));
        if started_before(steps, m) {
            let k = choose|k: int| 0 <= k < m && #[trigger] steps[k] is Shutdown;
            assert(0 <= k < n && steps[k] is Shutdown);
        }
        if abandoned_before(steps, m) {
            let k = choose|k: int| 0 <= k < m && #[trigger] steps[k] is Abandon;
            assert(0 <= k < n && steps[k] is Abandon);
        }
        if started_before(steps, n) && !(steps[m] is Shutdown) {
            let k = choose|k: int| 0 <= k < n && #[trigger] steps[k] is Shutdown;
            assert(0 <= k < m && steps[k] is Shutdown);
        }
        if abandoned_before(steps, n) && !(steps[m] is Abandon) {
            let k = choose|k: int| 0 <= k < n && #[trigger] steps[k] is Abandon;
            assert(0 <= k < m && steps[k] is Abandon);
        }
    }
}

/// Tasks are told to shut down only after shutdown was started or the coordinator was lost, and
/// from then on always; how many tasks there are does not matter.
pub proof fn law_announced_only_after_shutdown_or_loss(
    states: Seq<ShutdownState>,
    steps: Seq<ShutdownStep>,
    n: int,
)
    requires
        coordinator_trace(states, steps),
        0 <= n < states.len(),
    ensures
        states[n].announced() <==> started_before(steps, n) || abandoned_before(steps, n),
{
    law_phase_follows_from_what_happened(states, steps, n);
}

/// A weak handle can be upgraded until shutdown starts, however many handles are held. Without a
/// coordinator it can be upgraded as long as some task still holds a handle.
pub proof fn law_weak_handle_upgrades_until_shutdown(
    states: Seq<ShutdownState>,
    steps: Seq<ShutdownStep>,
    n: int,
)
    requires
        coordinator_trace(states, steps),
        0 <= n < states.len(),
    ensures
        states[n].phase is Running ==> states[n].can_upgrade(),
        states[n].can_upgrade() <==> !started_before(steps, n) && (abandoned_before(steps, n)
            ==> states[n].held > 0),
{
    law_phase_follows_from_what_happened(states, steps, n);
}

/// The handles that tasks hold are counted: each one that is given out and each weak one that is
/// upgraded adds one, each one that comes back takes one away, and nothing else changes the count.
pub proof fn law_handles_are_counted(
    states: Seq<ShutdownState>,
    steps: Seq<ShutdownStep>,
    n: int,
)
    requires
        coordinator_trace(states, steps),
        0 <= n < steps.len(),
    ensures
        states[0].held == 0,
        states[n + 1].held - states[n].held == if steps[n] is Handle {
            1int
        } else if steps[n] is Upgrade && !started_before(steps, n) && (abandoned_before(steps, n)
            ==> states[n].held > 0) {
            1
        } else if steps[n] is Release {
            -1
        } else {
            0
        },
{
    assert(coordinator_step(states[n], steps[n], states[n + 1]));
    law_phase_follows_from_what_happened(states, steps, n);
}

/// Shutdown is complete if and only if it was started and no task holds a handle any more.
pub proof fn law_complete_when_started_and_nothing_held(
    states: Seq<ShutdownState>,
    steps: Seq<ShutdownStep>,
    n: int,
)
    requires
        coordinator_trace(states, steps),
        0 <= n < states.len(),
    ensures
        states[n].complete() <==> started_before(steps, n) && states[n].held == 0,
{
    law_phase_follows_from_what_happened(states, steps, n);
}

/// A new coordinator has told nobody to shut down, waits for nobody, and has not completed.
pub proof fn law_new_coordinator_is_quiet(
    group: u64,
    coordinator: &ShutdownCoordinator,
    announced: bool,
    complete: bool,
)
    requires
        call_ensures(ShutdownCoordinator::new, (group,), *coordinator),
        call_ensures(ShutdownCoordinator::is_announced, (coordinator,), announced),
        call_ensures(ShutdownCoordinator::is_complete, (coordinator,), complete),
    ensures
        !announced,
        !complete,
        coordinator@.group == group,
        coordinator@.held == 0,
        coordinator@.phase is Running,
{
}

/// The coordinator that there is by default is a new one.
pub proof fn law_default_coordinator_is_new(a: ShutdownCoordinator, b: ShutdownCoordinator)
    requires
        call_ensures(<ShutdownCoordinator as Default>::default, (), a),
        call_ensures(ShutdownCoordinator::new, (0,), b),
    ensures
        a@ == b@,
{
}

/// What a coordinator answers follows from what it knows: its tasks are told to shut down if and
/// only if its normal run is over, shutdown is complete if and only if it has started and nobody
/// holds a handle, a handle is awaited if and only if it was given out for this group, and there is
/// room for another handle as long as they can be counted.
pub proof fn law_coordinator_answers(
    coordinator: &ShutdownCoordinator,
    handle: &ShutdownHandle,
    announced: bool,
    complete: bool,
    awaited: bool,
    room: bool,
)
    requires
        call_ensures(ShutdownCoordinator::is_announced, (coordinator,), announced),
        call_ensures(ShutdownCoordinator::is_complete, (coordinator,), complete),
        call_ensures(ShutdownCoordinator::awaits, (coordinator, handle), awaited),
        call_ensures(ShutdownCoordinator::has_room, (coordinator,), room),
    ensures
        announced <==> coordinator@.phase != ShutdownPhase::Running,
        complete <==> coordinator@.phase == ShutdownPhase::ShuttingDown && coordinator@.held == 0,
        awaited <==> handle.group() == Some(coordinator@.group) && coordinator@.held > 0,
        room <==> coordinator@.held < usize::MAX,
        complete ==> announced && !awaited,
{
}

/// A handle that is given out belongs to the coordinator and its signal waits for it; the
/// coordinator counts it, and is otherwise as before.
pub proof fn law_given_handle_is_held(coordinator: &mut ShutdownCoordinator, handle: ShutdownHandle)
    requires
        call_ensures(ShutdownCoordinator::handle, (coordinator,), handle),
    ensures
        handle.group() == Some(old(coordinator)@.group),
        handle.signal() == ShutdownSignal::WaitingForSignal(old(coordinator)@.group),
        final(coordinator)@.held == old(coordinator)@.held + 1,
        final(coordinator)@.phase == old(coordinator)@.phase,
        final(coordinator)@.group == old(coordinator)@.group,
{
}

/// A weak handle gives, when it is upgraded, a handle like the ones that the coordinator gives out
/// itself. That works while shutdown has not started, however many handles are held, and never
/// after it has started.
pub proof fn law_upgrade_gives_a_handle_until_shutdown(
    giver: &ShutdownCoordinator,
    weak: WeakShutdownHandle,
    coordinator: &mut ShutdownCoordinator,
    upgraded: Option<ShutdownHandle>,
)
    requires
        call_ensures(ShutdownCoordinator::handle_weak, (giver,), weak),
        giver@.group == old(coordinator)@.group,
        call_ensures(ShutdownCoordinator::upgrade, (coordinator, weak), upgraded),
    ensures
        weak.group() == giver@.group,
        old(coordinator)@.phase == ShutdownPhase::Running ==> upgraded is Some,
        old(coordinator)@.phase == ShutdownPhase::ShuttingDown ==> upgraded is None,
        old(coordinator)@.phase == ShutdownPhase::Abandoned ==> (upgraded is Some <==> old(
            coordinator,
        )@.held > 0),
        upgraded matches Some(handle) ==> {
            &&& handle.group() == Some(giver@.group)
            &&& handle.signal() == ShutdownSignal::WaitingForSignal(giver@.group)
        },
        final(coordinator)@.held == old(coordinator)@.held + if upgraded is Some {
            1int
        } else {
            0
        },
        final(coordinator)@.phase == old(coordinator)@.phase,
        final(coordinator)@.group == old(coordinator)@.group,
{
}

/// A weak handle that was upgraded can be upgraded again.
pub proof fn law_upgrade_can_be_repeated(
    coordinator: &mut ShutdownCoordinator,
    again: &mut ShutdownCoordinator,
    weak: WeakShutdownHandle,
    first: Option<ShutdownHandle>,
    second: Option<ShutdownHandle>,
)
    requires
        call_ensures(ShutdownCoordinator::upgrade, (coordinator, weak), first),
        *old(again) == *final(coordinator),
        call_ensures(ShutdownCoordinator::upgrade, (again, weak), second),
    ensures
        first is Some <==> second is Some,
{
}

/// Taking a handle back undoes giving it out, whether it was given out by the coordinator or came
/// from a weak handle. A handle of nobody changes nothing.
pub proof fn law_release_undoes_giving_out(
    coordinator: &mut ShutdownCoordinator,
    later: &mut ShutdownCoordinator,
    weak: WeakShutdownHandle,
    handle: ShutdownHandle,
)
    requires
        call_ensures(ShutdownCoordinator::handle, (coordinator,), handle) || call_ensures(
            ShutdownCoordinator::upgrade,
            (coordinator, weak),
            Some(handle),
        ) || {
            &&& call_ensures(<ShutdownHandle as Default>::default, (), handle)
            &&& *final(coordinator) == *old(coordinator)
        },
        *old(later) == *final(coordinator),
        call_ensures(ShutdownCoordinator::release, (later, handle), ()),
    ensures
        final(later)@ == old(coordinator)@,
{
}

/// Starting shutdown tells every task, completes it at once if there are none, and leaves the
/// handles alone. With a time limit the same happens, and there is something to wait for if and
/// only if it has not completed at once.
pub proof fn law_shutdown_starts(
    plain: &mut ShutdownCoordinator,
    limited: &mut ShutdownCoordinator,
    timeout: u64,
    wait: Option<u64>,
    after: &ShutdownCoordinator,
    announced: bool,
    complete: bool,
)
    requires
        *old(plain) == *old(limited),
        call_ensures(ShutdownCoordinator::shutdown, (plain,), ()),
        call_ensures(ShutdownCoordinator::shutdown_with_timeout, (limited, timeout), wait),
        *after == *final(limited),
        call_ensures(ShutdownCoordinator::is_announced, (after,), announced),
        call_ensures(ShutdownCoordinator::is_complete, (after,), complete),
    ensures
        final(plain)@ == final(limited)@,
        final(plain)@.phase == ShutdownPhase::ShuttingDown,
        final(plain)@.held == old(plain)@.held,
        final(plain)@.group == old(plain)@.group,
        announced,
        complete <==> old(plain)@.held == 0,
        complete ==> wait is None,
        !complete ==> wait == Some(timeout),
{
}

/// Losing the coordinator tells every task, never completes a shutdown that has not started, and
/// does not stop one that has.
pub proof fn law_loss_of_coordinator(
    coordinator: &mut ShutdownCoordinator,
    before: &ShutdownCoordinator,
    after: &ShutdownCoordinator,
    was_complete: bool,
    announced: bool,
    complete: bool,
)
    requires
        *before == *old(coordinator),
        call_ensures(ShutdownCoordinator::is_complete, (before,), was_complete),
        call_ensures(ShutdownCoordinator::abandon, (coordinator,), ()),
        *after == *final(coordinator),
        call_ensures(ShutdownCoordinator::is_announced, (after,), announced),
        call_ensures(ShutdownCoordinator::is_complete, (after,), complete),
    ensures
        announced,
        complete == was_complete,
        after@.held == before@.held,
        after@.group == before@.group,
        before@.phase == ShutdownPhase::Running ==> after@.phase == ShutdownPhase::Abandoned,
        before@.phase != ShutdownPhase::Running ==> after@.phase == before@.phase,
{
}

/// A poll tells a task to shut down if and only if its signal was still waiting and the coordinator
/// that it waits for has told its tasks. The signal is used up then, and unchanged otherwise.
pub proof fn law_poll_resolves_when_told(
    signal: &mut ShutdownSignal,
    coordinator: &ShutdownCoordinator,
    announced: bool,
    resolved: bool,
)
    requires
        call_ensures(ShutdownCoordinator::is_announced, (coordinator,), announced),
        call_ensures(ShutdownSignal::on_shutdown, (signal, coordinator), resolved),
    ensures
        resolved <==> announced && *old(signal) == ShutdownSignal::WaitingForSignal(
            coordinator@.group,
        ),
        coordinator@.phase == ShutdownPhase::Running ==> !resolved,
        resolved ==> *final(signal) == ShutdownSignal::Signalled,
        !resolved ==> *final(signal) == *old(signal),
{
}

/// The signal of a handle waits if and only if a coordinator gave the handle out; the signals that
/// there are by default wait for nobody.
pub proof fn law_signals_of_handles(
    coordinator: &mut ShutdownCoordinator,
    given: &ShutdownHandle,
    nobodys: &ShutdownHandle,
    of_given: &ShutdownSignal,
    of_nobodys: &ShutdownSignal,
    by_default: &ShutdownSignal,
    signal: &ShutdownSignal,
    waiting: bool,
)
    requires
        call_ensures(ShutdownCoordinator::handle, (coordinator,), *given),
        call_ensures(<ShutdownHandle as Default>::default, (), *nobodys),
        call_ensures(<ShutdownSignal as From<&ShutdownHandle>>::from, (given,), *of_given),
        call_ensures(<ShutdownSignal as From<&ShutdownHandle>>::from, (nobodys,), *of_nobodys),
        call_ensures(<ShutdownSignal as Default>::default, (), *by_default),
        call_ensures(ShutdownSignal::is_waiting, (signal,), waiting),
    ensures
        *of_given == ShutdownSignal::WaitingForSignal(old(coordinator)@.group),
        *of_nobodys == ShutdownSignal::Signalled,
        *by_default == ShutdownSignal::Signalled,
        nobodys.group() is None,
        waiting <==> *signal != ShutdownSignal::Signalled,
{
}

} // verus!
