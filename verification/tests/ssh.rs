use cmux_linux::ssh::tunnel::{
    backoff_duration, backoff_secs, SshLifecycle, SshOutcome, SshStep, MAX_BACKOFF_SECS,
};
use cmux_linux::ssh::SshEvent;
use cmux_linux::workspace::ConnectionState;
use std::time::Duration;

#[test]
fn test_backoff_duration() {
    assert_eq!(backoff_duration(0), Duration::from_secs(1));
    assert_eq!(backoff_duration(1), Duration::from_secs(2));
    assert_eq!(backoff_duration(2), Duration::from_secs(4));
    assert_eq!(backoff_duration(3), Duration::from_secs(8));
    assert_eq!(backoff_duration(4), Duration::from_secs(16));
    assert_eq!(backoff_duration(5), Duration::from_secs(30));
    assert_eq!(backoff_duration(10), Duration::from_secs(30));
}

#[test]
fn backoff_is_bounded_and_monotone() {
    let mut last = 0;
    for a in [0u32, 1, 2, 3, 4, 5, 6, 31, 32, 1000, u32::MAX] {
        let s = backoff_secs(a);
        assert!(s >= 1 && s <= MAX_BACKOFF_SECS);
        assert!(s >= last);
        last = s;
    }
    assert_eq!(backoff_secs(u32::MAX), 30);
}

fn changed(id: u64, state: ConnectionState) -> Option<SshEvent> {
    Some(SshEvent::StateChanged { workspace_id: id, state })
}

#[test]
fn lifecycle_first_attempt_deploys() {
    let l = SshLifecycle::new(7);
    let (event, step) = l.begin_attempt();
    assert_eq!(event, SshEvent::StateChanged { workspace_id: 7, state: ConnectionState::Reconnecting(0) });
    assert_eq!(step, SshStep::Deploy);
}

#[test]
fn lifecycle_deploy_failure_backs_off_then_connects() {
    let mut l = SshLifecycle::new(3);
    let (e, s) = l.advance(SshOutcome::DeployFailed);
    assert_eq!(e, changed(3, ConnectionState::Disconnected));
    assert_eq!(s, SshStep::Wait { secs: 1 });
    let (e, s) = l.advance(SshOutcome::Waited);
    assert_eq!(e, changed(3, ConnectionState::Reconnecting(1)));
    assert_eq!(s, SshStep::Connect);
    assert_eq!(l.attempt, 1);
    let (e, s) = l.advance(SshOutcome::ConnectFailed);
    assert_eq!(e, changed(3, ConnectionState::Disconnected));
    assert_eq!(s, SshStep::Wait { secs: 2 });
}

#[test]
fn lifecycle_deploy_success_connects() {
    let mut l = SshLifecycle::new(1);
    let (e, s) = l.advance(SshOutcome::Deployed);
    assert_eq!(e, None);
    assert_eq!(s, SshStep::Connect);
    assert_eq!(l.attempt, 0);
}

#[test]
fn lifecycle_connect_resets_attempts() {
    let mut l = SshLifecycle::new(9);
    l.attempt = 6;
    let (e, s) = l.advance(SshOutcome::Connected);
    assert_eq!(e, changed(9, ConnectionState::Connected));
    assert_eq!(s, SshStep::Serve);
    assert_eq!(l.attempt, 0);
    let (e, s) = l.advance(SshOutcome::Closed);
    assert_eq!(e, changed(9, ConnectionState::Disconnected));
    assert_eq!(s, SshStep::Wait { secs: 1 });
    let (e, s) = l.advance(SshOutcome::Waited);
    assert_eq!(e, changed(9, ConnectionState::Reconnecting(1)));
    assert_eq!(s, SshStep::Connect);
}

#[test]
fn lifecycle_backoff_caps_at_thirty_seconds() {
    let mut l = SshLifecycle::new(2);
    l.attempt = 8;
    let (_, s) = l.advance(SshOutcome::ConnectFailed);
    assert_eq!(s, SshStep::Wait { secs: 30 });
}

#[test]
fn reconnect_counts_failures_since_last_connect() {
    // Deploy fails, two connects fail, one succeeds and closes, one more fails.
    let mut l = SshLifecycle::new(5);
    let (first, mut step) = l.begin_attempt();
    let mut events = vec![first];
    let outcomes = [
        SshOutcome::DeployFailed,
        SshOutcome::Waited,
        SshOutcome::ConnectFailed,
        SshOutcome::Waited,
        SshOutcome::Connected,
        SshOutcome::Closed,
        SshOutcome::Waited,
        SshOutcome::ConnectFailed,
        SshOutcome::Waited,
    ];
    let mut waits = Vec::new();
    for o in outcomes {
        if let SshStep::Wait { secs } = step {
            waits.push(secs);
        }
        let (e, s) = l.advance(o);
        assert_ne!(s, SshStep::Deploy);
        if let Some(e) = e {
            events.push(e);
        }
        step = s;
    }
    let states: Vec<ConnectionState> = events
        .iter()
        .map(|SshEvent::StateChanged { workspace_id, state }| {
            assert_eq!(*workspace_id, 5);
            *state
        })
        .collect();
    assert_eq!(
        states,
        vec![
            ConnectionState::Reconnecting(0),
            ConnectionState::Disconnected,
            ConnectionState::Reconnecting(1),
            ConnectionState::Disconnected,
            ConnectionState::Reconnecting(2),
            ConnectionState::Connected,
            ConnectionState::Disconnected,
            ConnectionState::Reconnecting(1),
            ConnectionState::Disconnected,
            ConnectionState::Reconnecting(2),
        ]
    );
    assert_eq!(waits, vec![1, 2, 1, 2]);
}
