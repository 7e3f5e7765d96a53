use vstd::prelude::*;

verus! {

/// Interval between two polls of the network stack, in milliseconds.
pub const POLL_INTERVAL_MS: u64 = 500;

/// What the last poll found missing.
#[derive(Clone, Copy, Debug, PartialEq, Eq, Structural)]
pub enum GateStatus {
    AwaitingLink,
    AwaitingAddress,
    Ready,
}

/// What the waiting task does after a poll.
#[derive(Clone, Copy, Debug, PartialEq, Eq, Structural)]
pub enum GateDecision {
    /// Link and address are both there: dependent tasks may start.
    Proceed,
    /// Sleep for `ms` milliseconds, then poll again.
    PollAgainAfter { ms: u64 },
}

/// Status found by a poll that saw the link state `link_up` and an address if `has_address`.
pub open spec fn status_of(link_up: bool, has_address: bool) -> GateStatus {
    if !link_up {
        GateStatus::AwaitingLink
    } else if !has_address {
        GateStatus::AwaitingAddress
    } else {
        GateStatus::Ready
    }
}

/// The stack-readiness gate: holds dependent tasks back until the link is up and an IPv4
/// address configuration is present, both at the moment of one poll. It has no timeout.
pub struct Gate {
    /// Status found by the last poll.
    pub status: GateStatus,
    /// Time of the current poll, counted from the first one, in milliseconds.
    pub elapsed_ms: u64,
}

/// A `Gate` after a poll that saw `link_up` and `has_address`.
pub open spec fn polled(g: Gate, link_up: bool, has_address: bool) -> Gate {
    let status = status_of(link_up, has_address);
    Gate {
        status,
        elapsed_ms: if status == GateStatus::Ready {
            g.elapsed_ms
        } else if g.elapsed_ms as int + POLL_INTERVAL_MS <= u64::MAX {
            (g.elapsed_ms + POLL_INTERVAL_MS) as u64
        } else {
            u64::MAX
        },
    }
}

/// A fresh `Gate` after the polls `obs` (link up, address present), in order.
pub open spec fn gate_run(obs: Seq<(bool, bool)>) -> Gate
    decreases obs.len(),
{
    if obs.len() == 0 {
        Gate { status: GateStatus::AwaitingLink, elapsed_ms: 0 }
    } else {
        let last = obs.last();
        polled(gate_run(obs.drop_last()), last.0, last.1)
    }
}

impl Gate {
    /// A gate before its first poll, at time zero.
    pub fn new() -> (r: Gate)
        ensures
            r == gate_run(Seq::empty()),
    {
        Gate { status: GateStatus::AwaitingLink, elapsed_ms: 0 }
    }

    /// Records one poll of the stack and says whether to proceed or to poll again later.
    pub fn poll(&mut self, link_up: bool, has_address: bool) -> (r: GateDecision)
        ensures
            *final(self) == polled(*old(self), link_up, has_address),
            r == GateDecision::Proceed <==> link_up && has_address,
            r != GateDecision::Proceed ==> r == (GateDecision::PollAgainAfter {
                ms: POLL_INTERVAL_MS,
            }),
    {
        if !link_up {
            self.status = GateStatus::AwaitingLink;
        } else if !has_address {
            self.status = GateStatus::AwaitingAddress;
        } else {
            self.status = GateStatus::Ready;
            return GateDecision::Proceed;
        }
        self.elapsed_ms = self.elapsed_ms.saturating_add(POLL_INTERVAL_MS);
        GateDecision::PollAgainAfter { ms: POLL_INTERVAL_MS }
    }

    /// Whether the last poll let dependent tasks proceed.
    pub fn is_ready(&self) -> (r: bool)
        ensures
            r == (self.status == GateStatus::Ready),
    {
        self.status == GateStatus::Ready
    }
}

/// Up to the first poll that finds both conditions, each poll adds one interval.
proof fn lemma_gate_waiting(obs: Seq<(bool, bool)>)
    requires
        forall|j: int| 0 <= j < obs.len() ==> !(#[trigger] obs[j].0 && obs[j].1),
        obs.len() * POLL_INTERVAL_MS <= u64::MAX,
    ensures
        gate_run(obs).elapsed_ms == obs.len() * POLL_INTERVAL_MS,
        obs.len() > 0 ==> gate_run(obs).status != GateStatus::Ready,
    decreases obs.len(),
{
    if obs.len() > 0 {
        let rest = obs.drop_last();
        assert forall|j: int| 0 <= j < rest.len() implies !(#[trigger] rest[j].0 && rest[j].1) by {
            assert(rest[j] == obs[j]);
        }
        lemma_gate_waiting(rest);
        assert(obs.last() == obs[obs.len() - 1]);
    }
}

/// Dependent tasks may proceed at a poll if and only if that poll finds the link up
/// and an address present; the first such poll, the i-th, comes `i` intervals after the first.
pub proof fn lemma_gate_proceeds_exactly_when_ready(obs: Seq<(bool, bool)>, i: int)
    requires
        0 <= i < obs.len(),
        forall|j: int| 0 <= j < i ==> !(#[trigger] obs[j].0 && obs[j].1),
        i * POLL_INTERVAL_MS <= u64::MAX,
    ensures
        (gate_run(obs.take(i + 1)).status == GateStatus::Ready) <==> (obs[i].0 && obs[i].1),
        obs[i].0 && obs[i].1 ==> gate_run(obs.take(i + 1)).elapsed_ms == i * POLL_INTERVAL_MS,
{
    let before = obs.take(i);
    assert forall|j: int| 0 <= j < before.len() implies !(#[trigger] before[j].0
        && before[j].1) by {
        assert(before[j] == obs[j]);
    }
    lemma_gate_waiting(before);
    assert(obs.take(i + 1).drop_last() =~= before);
}

} // verus!
