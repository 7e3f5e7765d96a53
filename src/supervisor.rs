use vstd::prelude::*;

verus! {

/// Cool-down applied after a disconnection and after a failed connect attempt, in milliseconds.
pub const COOL_DOWN_MS: u64 = 5000;

/// Largest number of access points one diagnostic scan may report.
pub const SCAN_MAX: usize = 10;

/// Station state as the radio reports it.
#[derive(Clone, Copy, Debug, PartialEq, Eq, Structural)]
pub enum StationState {
    NotStarted,
    Started,
    Connected,
    Disconnected,
}

/// Why the supervisor gave up for good.
#[derive(Clone, Copy, Debug, PartialEq, Eq, Structural)]
pub enum FatalCause {
    /// The radio refused the station configuration.
    ConfigRejected,
    /// The radio failed to start.
    StartFailed,
    /// The diagnostic scan after start failed.
    ScanFailed,
}

/// Where the supervisor's loop stands: each phase waits for the outcome of one radio operation.
#[derive(Clone, Copy, Debug, PartialEq, Eq, Structural)]
pub enum Phase {
    /// The station state has been asked for.
    CheckingState,
    /// Connected: waiting for the disconnection event.
    AwaitingDisconnect,
    /// Cool-down after a disconnection; whatever ends it, the station state is asked for anew.
    CoolingDown,
    /// Whether the radio is started has been asked for.
    QueryingStarted,
    /// The station configuration is being applied.
    Configuring,
    /// The radio is being started.
    Starting,
    /// The bounded diagnostic scan runs.
    Scanning,
    /// A connect attempt runs.
    Connecting,
    /// Cool-down after a failed connect attempt; whatever ends it, the loop starts over.
    BackingOff,
    /// Fatal condition: the supervisor does nothing more.
    Halted(FatalCause),
}

/// Outcome of the radio operation that the supervisor asked for.
#[derive(Clone, Copy, Debug, PartialEq, Eq, Structural)]
pub enum Event {
    StationStateIs(StationState),
    DisconnectObserved,
    TimerElapsed,
    StartedIs(bool),
    ConfigApplied(bool),
    StartCompleted(bool),
    ScanCompleted(bool),
    ConnectCompleted(bool),
}

/// Radio operation (or pause) that the supervisor asks its runner to perform next.
#[derive(Clone, Copy, Debug, PartialEq, Eq, Structural)]
pub enum Action {
    QueryStationState,
    WaitForDisconnect,
    Sleep { ms: u64 },
    QueryStarted,
    /// Apply the station-mode configuration built from the fixed credentials.
    ApplyConfig,
    StartRadio,
    Scan { max: usize },
    Connect,
    Halt(FatalCause),
}

/// The phase that follows `p` once the outcome `e` is known. An outcome that the phase
/// does not wait for sends the loop back to asking for the station state.
pub open spec fn next_phase(p: Phase, e: Event) -> Phase {
    match p {
        Phase::Halted(c) => Phase::Halted(c),
        Phase::CheckingState => match e {
            Event::StationStateIs(s) => if s == StationState::Connected {
                Phase::AwaitingDisconnect
            } else {
                Phase::QueryingStarted
            },
            _ => Phase::CheckingState,
        },
        Phase::AwaitingDisconnect => match e {
            Event::DisconnectObserved => Phase::CoolingDown,
            _ => Phase::CheckingState,
        },
        Phase::CoolingDown => Phase::CheckingState,
        Phase::QueryingStarted => match e {
            Event::StartedIs(b) => if b {
                Phase::Connecting
            } else {
                Phase::Configuring
            },
            _ => Phase::CheckingState,
        },
        Phase::Configuring => match e {
            Event::ConfigApplied(ok) => if ok {
                Phase::Starting
            } else {
                Phase::Halted(FatalCause::ConfigRejected)
            },
            _ => Phase::CheckingState,
        },
        Phase::Starting => match e {
            Event::StartCompleted(ok) => if ok {
                Phase::Scanning
            } else {
                Phase::Halted(FatalCause::StartFailed)
            },
            _ => Phase::CheckingState,
        },
        Phase::Scanning => match e {
            Event::ScanCompleted(ok) => if ok {
                Phase::Connecting
            } else {
                Phase::Halted(FatalCause::ScanFailed)
            },
            _ => Phase::CheckingState,
        },
        Phase::Connecting => match e {
            Event::ConnectCompleted(ok) => if ok {
                Phase::CheckingState
            } else {
                Phase::BackingOff
            },
            _ => Phase::CheckingState,
        },
        Phase::BackingOff => Phase::CheckingState,
    }
}

/// The operation that a phase waits on.
pub open spec fn action_of(p: Phase) -> Action {
    match p {
        Phase::CheckingState => Action::QueryStationState,
        Phase::AwaitingDisconnect => Action::WaitForDisconnect,
        Phase::CoolingDown => Action::Sleep { ms: COOL_DOWN_MS },
        Phase::QueryingStarted => Action::QueryStarted,
        Phase::Configuring => Action::ApplyConfig,
        Phase::Starting => Action::StartRadio,
        Phase::Scanning => Action::Scan { max: SCAN_MAX },
        Phase::Connecting => Action::Connect,
        Phase::BackingOff => Action::Sleep { ms: COOL_DOWN_MS },
        Phase::Halted(c) => Action::Halt(c),
    }
}

/// The phase reached from `p` after the outcomes `events`, in order.
pub open spec fn run(p: Phase, events: Seq<Event>) -> Phase
    decreases events.len(),
{
    if events.len() == 0 {
        p
    } else {
        next_phase(run(p, events.drop_last()), events.last())
    }
}

/// The operation issued in answer to the outcome `events[i]`.
pub open spec fn issued(p: Phase, events: Seq<Event>, i: int) -> Action {
    action_of(run(p, events.take(i + 1)))
}

/// The phases between a station-state report other than `Connected` and the connect attempt
/// it leads to: no cool-down, no wait and no other state query lies among them.
pub open spec fn on_connect_path(ph: Phase) -> bool {
    ||| ph == Phase::QueryingStarted
    ||| ph == Phase::Configuring
    ||| ph == Phase::Starting
    ||| ph == Phase::Scanning
    ||| ph == Phase::Connecting
}

/// Whether an outcome is a station-state report other than `Connected`.
pub open spec fn reports_not_connected(e: Event) -> bool {
    e matches Event::StationStateIs(s) && s != StationState::Connected
}

/// A run one outcome longer is one more step.
proof fn lemma_run_step(p: Phase, events: Seq<Event>, i: int)
    requires
        0 <= i < events.len(),
    ensures
        run(p, events.take(i + 1)) == next_phase(run(p, events.take(i)), events[i]),
{
    assert(events.take(i + 1).drop_last() =~= events.take(i));
}

/// A disconnection observed while connected is followed by exactly one cool-down, after
/// which the supervisor re-enters the connect path by asking for the station state anew.
pub proof fn lemma_disconnect_leads_back_to_connect(p: Phase, events: Seq<Event>, i: int)
    requires
        0 <= i < events.len(),
        run(p, events.take(i)) == Phase::AwaitingDisconnect,
        events[i] == Event::DisconnectObserved,
    ensures
        issued(p, events, i) == (Action::Sleep { ms: COOL_DOWN_MS }),
        i + 1 < events.len() && events[i + 1] == Event::TimerElapsed ==> {
            &&& run(p, events.take(i + 2)) == Phase::CheckingState
            &&& issued(p, events, i + 1) == Action::QueryStationState
        },
{
    lemma_run_step(p, events, i);
    if i + 1 < events.len() {
        lemma_run_step(p, events, i + 1);
    }
}

/// A phase on the connect path goes back, through phases on that path only, to a state query
/// answered with a state other than `Connected`; `k` is the index of that answer.
proof fn lemma_connect_path_origin(p: Phase, events: Seq<Event>, i: int) -> (k: int)
    requires
        !on_connect_path(p),
        0 <= i < events.len(),
        on_connect_path(run(p, events.take(i + 1))),
    ensures
        0 <= k <= i,
        run(p, events.take(k)) == Phase::CheckingState,
        reports_not_connected(events[k]),
        forall|j: int| k <= j <= i ==> on_connect_path(#[trigger] run(p, events.take(j + 1))),
    decreases i,
{
    lemma_run_step(p, events, i);
    if run(p, events.take(i)) == Phase::CheckingState {
        i
    } else {
        if i == 0 {
            assert(events.take(0) =~= Seq::<Event>::empty());
        }
        lemma_connect_path_origin(p, events, i - 1)
    }
}

/// No connect call is issued while the station is connected: every `Connect` answers, with
/// no cool-down, wait or other state query in between, a fresh station-state report other
/// than `Connected`. A report of `Connected` itself leads to waiting for the disconnection.
pub proof fn lemma_no_connect_while_connected(p: Phase, events: Seq<Event>, i: int)
    requires
        !on_connect_path(p),
        0 <= i < events.len(),
    ensures
        run(p, events.take(i)) == Phase::CheckingState && events[i] == Event::StationStateIs(
            StationState::Connected,
        ) ==> issued(p, events, i) == Action::WaitForDisconnect,
        issued(p, events, i) == Action::Connect ==> exists|k: int|
            {
                &&& 0 <= k < i
                &&& run(p, events.take(k)) == Phase::CheckingState
                &&& reports_not_connected(#[trigger] events[k])
                &&& forall|j: int|
                    k <= j <= i ==> on_connect_path(#[trigger] run(p, events.take(j + 1)))
            },
{
    lemma_run_step(p, events, i);
    if issued(p, events, i) == Action::Connect {
        let k = lemma_connect_path_origin(p, events, i);
        if k == i {
            assert(run(p, events.take(i + 1)) == Phase::QueryingStarted);
        }
        assert(0 <= k < i);
    }
}

/// Outside configuration and start, a run in which the radio never reports itself stopped
/// never gets there.
proof fn lemma_started_phases(p: Phase, events: Seq<Event>)
    requires
        p !is Configuring,
        p !is Starting,
        forall|j: int| 0 <= j < events.len() ==> #[trigger] events[j] != Event::StartedIs(false),
    ensures
        run(p, events) !is Configuring,
        run(p, events) !is Starting,
    decreases events.len(),
{
    if events.len() > 0 {
        lemma_started_phases(p, events.drop_last());
    }
}

/// While the radio keeps reporting itself started, the supervisor never applies the
/// configuration nor starts the radio again: failed connect attempts are retried without a
/// restart.
pub proof fn lemma_started_radio_not_restarted(p: Phase, events: Seq<Event>)
    requires
        p !is Configuring,
        p !is Starting,
        forall|j: int| 0 <= j < events.len() ==> #[trigger] events[j] != Event::StartedIs(false),
    ensures
        forall|i: int|
            0 <= i < events.len() ==> issued(p, events, i) != Action::StartRadio && issued(
                p,
                events,
                i,
            ) != Action::ApplyConfig,
{
    assert forall|i: int| 0 <= i < events.len() implies issued(p, events, i) != Action::StartRadio
        && issued(p, events, i) != Action::ApplyConfig by {
        let s = events.take(i + 1);
        assert forall|j: int| 0 <= j < s.len() implies #[trigger] s[j] != Event::StartedIs(false) by {
            assert(s[j] == events[j]);
        }
        lemma_started_phases(p, s);
    }
}

/// The node's fatal-error policy: the supervisor parks in a phase that every later
/// outcome leaves unchanged, as a panic parks the whole node.
pub fn panic(cause: FatalCause) -> (r: Phase)
    ensures
        r == Phase::Halted(cause),
        forall|e: Event| next_phase(r, e) == r,
{
    Phase::Halted(cause)
}

impl Phase {
    /// The operation this phase waits on.
    pub fn action(&self) -> (r: Action)
        ensures
            r == action_of(*self),
    {
        match *self {
            Phase::CheckingState => Action::QueryStationState,
            Phase::AwaitingDisconnect => Action::WaitForDisconnect,
            Phase::CoolingDown => Action::Sleep { ms: COOL_DOWN_MS },
            Phase::QueryingStarted => Action::QueryStarted,
            Phase::Configuring => Action::ApplyConfig,
            Phase::Starting => Action::StartRadio,
            Phase::Scanning => Action::Scan { max: SCAN_MAX },
            Phase::Connecting => Action::Connect,
            Phase::BackingOff => Action::Sleep { ms: COOL_DOWN_MS },
            Phase::Halted(c) => Action::Halt(c),
        }
    }

    /// The phase that follows once the outcome `e` is known.
    pub fn next(self, e: Event) -> (r: Phase)
        ensures
            r == next_phase(self, e),
    {
        match self {
            Phase::Halted(c) => panic(c),
            Phase::CheckingState => match e {
                Event::StationStateIs(StationState::Connected) => Phase::AwaitingDisconnect,
                Event::StationStateIs(_) => Phase::QueryingStarted,
                _ => Phase::CheckingState,
            },
            Phase::AwaitingDisconnect => match e {
                Event::DisconnectObserved => Phase::CoolingDown,
                _ => Phase::CheckingState,
            },
            Phase::CoolingDown => Phase::CheckingState,
            Phase::QueryingStarted => match e {
                Event::StartedIs(true) => Phase::Connecting,
                Event::StartedIs(false) => Phase::Configuring,
                _ => Phase::CheckingState,
            },
            Phase::Configuring => match e {
                Event::ConfigApplied(true) => Phase::Starting,
                Event::ConfigApplied(false) => panic(FatalCause::ConfigRejected),
                _ => Phase::CheckingState,
            },
            Phase::Starting => match e {
                Event::StartCompleted(true) => Phase::Scanning,
                Event::StartCompleted(false) => panic(FatalCause::StartFailed),
                _ => Phase::CheckingState,
            },
            Phase::Scanning => match e {
                Event::ScanCompleted(true) => Phase::Connecting,
                Event::ScanCompleted(false) => panic(FatalCause::ScanFailed),
                _ => Phase::CheckingState,
            },
            Phase::Connecting => match e {
                Event::ConnectCompleted(true) => Phase::CheckingState,
                Event::ConnectCompleted(false) => Phase::BackingOff,
                _ => Phase::CheckingState,
            },
            Phase::BackingOff => Phase::CheckingState,
        }
    }
}

/// The connection supervisor: keeps the station connected, retrying forever with a fixed
/// cool-down. It stores only the phase of its loop; every decision re-derives the radio's
/// state from the outcome it is handed.
pub struct Supervisor {
    pub phase: Phase,
}

impl Supervisor {
    /// A supervisor at the top of its loop, about to ask for the station state.
    pub fn new() -> (r: Supervisor)
        ensures
            r.phase == Phase::CheckingState,
            action_of(r.phase) == Action::QueryStationState,
    {
        Supervisor { phase: Phase::CheckingState }
    }

    /// The operation the supervisor waits on now.
    pub fn pending(&self) -> (r: Action)
        ensures
            r == action_of(self.phase),
    {
        self.phase.action()
    }

    /// Takes the outcome of the pending operation and returns the next operation to perform.
    pub fn step(&mut self, e: Event) -> (r: Action)
        ensures
            final(self).phase == next_phase(old(self).phase, e),
            r == action_of(final(self).phase),
    {
        self.phase = self.phase.next(e);
        self.phase.action()
    }

    /// Whether the supervisor has given up for good.
    pub fn is_halted(&self) -> (r: bool)
        ensures
            r == (self.phase is Halted),
    {
        match self.phase {
            Phase::Halted(_) => true,
            _ => false,
        }
    }
}

} // verus!
