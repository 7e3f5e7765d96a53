use wifi_station::gate::{Gate, GateDecision, GateStatus, POLL_INTERVAL_MS};

#[test]
fn gate_returns_at_first_poll_with_link_and_address() {
    let mut g = Gate::new();
    assert_eq!(g.elapsed_ms, 0);
    assert_eq!(g.poll(false, false), GateDecision::PollAgainAfter { ms: 500 });
    assert_eq!(g.status, GateStatus::AwaitingLink);
    assert_eq!(g.elapsed_ms, 500);
    assert_eq!(g.poll(true, false), GateDecision::PollAgainAfter { ms: 500 });
    assert_eq!(g.status, GateStatus::AwaitingAddress);
    assert_eq!(g.elapsed_ms, 1000);
    assert_eq!(g.poll(true, true), GateDecision::Proceed);
    assert!(g.is_ready());
    assert_eq!(g.elapsed_ms, 1000);
}

#[test]
fn gate_never_proceeds_with_one_condition_missing() {
    let mut g = Gate::new();
    assert_eq!(g.poll(false, true), GateDecision::PollAgainAfter { ms: POLL_INTERVAL_MS });
    assert_eq!(g.status, GateStatus::AwaitingLink);
    assert!(!g.is_ready());
    assert_eq!(g.poll(true, false), GateDecision::PollAgainAfter { ms: POLL_INTERVAL_MS });
    assert!(!g.is_ready());
}

#[test]
fn gate_ready_at_first_poll() {
    let mut g = Gate::new();
    assert_eq!(g.poll(true, true), GateDecision::Proceed);
    assert_eq!(g.elapsed_ms, 0);
}

#[test]
fn gate_elapsed_time_saturates() {
    let mut g = Gate { status: GateStatus::AwaitingLink, elapsed_ms: u64::MAX - 100 };
    g.poll(false, false);
    assert_eq!(g.elapsed_ms, u64::MAX);
}
