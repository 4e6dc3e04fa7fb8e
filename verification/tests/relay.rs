use std::time::Duration;

use basic_tcp_proxy::metrics::{CollectorInput, CollectorOutput};
use basic_tcp_proxy::relay::{
    AcceptError, AcceptorAction, Admission, Connection, DialOutcome, Direction, RelayAction,
    RelayEvent, RelayState, RelayTask, RELAY_BUFFER_SIZE,
};
use basic_tcp_proxy::{
    accept_connection, run_server, AppError, MetricEvent, MetricsCollector, MetricsSnapshot,
    PeerAddr, PeerIp,
};

fn peer(port: u16) -> PeerAddr {
    PeerAddr { ip: PeerIp::V4(0x7f00_0001), port }
}

fn snapshot(active: u64, total: u64, up: u64, down: u64) -> MetricsSnapshot {
    MetricsSnapshot {
        active_connections: active,
        total_connections: total,
        bytes_upstream: up,
        bytes_downstream: down,
    }
}

fn pair(peer: PeerAddr) -> (MetricEvent, Connection) {
    match accept_connection(peer, DialOutcome::Connected) {
        Admission::Paired { opened, connection } => (opened, connection),
        Admission::Refused => panic!("the dial succeeded"),
    }
}

/// Feeds `event` to the collector as the queue would.
fn deliver(collector: &mut MetricsCollector, event: MetricEvent) -> MetricsSnapshot {
    match collector.run(CollectorInput::Event(event)) {
        CollectorOutput::Publish(now) => now,
        other => panic!("unexpected {:?}", other),
    }
}

/// Drives one relay through one event and hands what it reports to the
/// collector.
fn drive(relay: &mut RelayTask, event: RelayEvent, collector: &mut MetricsCollector) -> RelayAction {
    let action = relay.step(event);
    match action {
        RelayAction::Forward { report, .. } => {
            deliver(collector, report);
        }
        RelayAction::Exit { closed: Some(report), .. } => {
            deliver(collector, report);
        }
        _ => {}
    }
    action
}

#[test]
fn the_buffer_is_one_kibibyte() {
    assert_eq!(RELAY_BUFFER_SIZE, 1024);
}

#[test]
fn a_new_relay_is_about_to_read() {
    let relay = RelayTask::new(Direction::Downstream, peer(7));
    assert_eq!(relay.direction(), Direction::Downstream);
    assert_eq!(relay.peer(), peer(7));
    assert_eq!(relay.state(), RelayState::Reading);
}

#[test]
fn a_read_is_reported_and_forwarded_under_its_direction() {
    let mut up = RelayTask::new(Direction::Upstream, peer(7));
    assert_eq!(
        up.step(RelayEvent::Read(9)),
        RelayAction::Forward { report: MetricEvent::BytesUpstream(peer(7), 9), len: 9 }
    );
    assert_eq!(up.state(), RelayState::Writing);
    let mut down = RelayTask::new(Direction::Downstream, peer(7));
    assert_eq!(
        down.step(RelayEvent::Read(1024)),
        RelayAction::Forward { report: MetricEvent::BytesDownstream(peer(7), 1024), len: 1024 }
    );
    assert_eq!(down.state(), RelayState::Writing);
}

#[test]
fn the_next_read_waits_for_the_write() {
    let mut relay = RelayTask::new(Direction::Upstream, peer(7));
    relay.step(RelayEvent::Read(5));
    assert_eq!(relay.step(RelayEvent::Read(6)), RelayAction::Ignored);
    assert_eq!(relay.step(RelayEvent::ShutdownTripped), RelayAction::Ignored);
    assert_eq!(relay.step(RelayEvent::ConnectionTripped), RelayAction::Ignored);
    assert_eq!(relay.state(), RelayState::Writing);
    assert_eq!(relay.step(RelayEvent::Written), RelayAction::Await);
    assert_eq!(relay.state(), RelayState::Reading);
    assert_eq!(
        relay.step(RelayEvent::Read(6)),
        RelayAction::Forward { report: MetricEvent::BytesUpstream(peer(7), 6), len: 6 }
    );
}

#[test]
fn each_terminator_ends_the_upstream_relay_with_one_closing() {
    let closed = Some(MetricEvent::ConnectionClosed(peer(7)));
    let cases = [
        (RelayEvent::Read(0), true),
        (RelayEvent::ReadFailed, true),
        (RelayEvent::ConnectionTripped, false),
        (RelayEvent::ShutdownTripped, true),
    ];
    for (event, trip) in cases {
        let mut relay = RelayTask::new(Direction::Upstream, peer(7));
        assert_eq!(relay.step(event), RelayAction::Exit { trip, closed });
        assert_eq!(relay.state(), RelayState::Done);
    }
    let mut relay = RelayTask::new(Direction::Upstream, peer(7));
    relay.step(RelayEvent::Read(3));
    assert_eq!(relay.step(RelayEvent::WriteFailed), RelayAction::Exit { trip: true, closed });
    assert_eq!(relay.state(), RelayState::Done);
}

#[test]
fn the_downstream_relay_leaves_without_a_closing() {
    let cases = [
        (RelayEvent::Read(0), true),
        (RelayEvent::ReadFailed, true),
        (RelayEvent::ConnectionTripped, false),
        (RelayEvent::ShutdownTripped, true),
    ];
    for (event, trip) in cases {
        let mut relay = RelayTask::new(Direction::Downstream, peer(7));
        assert_eq!(relay.step(event), RelayAction::Exit { trip, closed: None });
        assert_eq!(relay.state(), RelayState::Done);
    }
    let mut relay = RelayTask::new(Direction::Downstream, peer(7));
    relay.step(RelayEvent::Read(3));
    assert_eq!(relay.step(RelayEvent::WriteFailed), RelayAction::Exit { trip: true, closed: None });
}

#[test]
fn a_relay_that_is_done_ignores_everything() {
    let mut relay = RelayTask::new(Direction::Upstream, peer(7));
    relay.step(RelayEvent::Read(0));
    let late = [
        RelayEvent::Read(4),
        RelayEvent::Read(0),
        RelayEvent::ReadFailed,
        RelayEvent::Written,
        RelayEvent::WriteFailed,
        RelayEvent::ConnectionTripped,
        RelayEvent::ShutdownTripped,
    ];
    for event in late {
        assert_eq!(relay.step(event), RelayAction::Ignored);
        assert_eq!(relay.state(), RelayState::Done);
    }
}

#[test]
fn a_write_outcome_without_a_write_is_ignored() {
    let mut relay = RelayTask::new(Direction::Upstream, peer(7));
    assert_eq!(relay.step(RelayEvent::Written), RelayAction::Ignored);
    assert_eq!(relay.step(RelayEvent::WriteFailed), RelayAction::Ignored);
    assert_eq!(relay.state(), RelayState::Reading);
}

#[test]
fn a_successful_dial_pairs_two_fresh_relays_and_reports_the_opening() {
    let (opened, connection) = pair(peer(7));
    assert_eq!(opened, MetricEvent::ConnectionOpened(peer(7)));
    assert_eq!(connection.peer, peer(7));
    assert_eq!(connection.upstream, RelayTask::new(Direction::Upstream, peer(7)));
    assert_eq!(connection.downstream, RelayTask::new(Direction::Downstream, peer(7)));
}

#[test]
fn a_failed_dial_reports_nothing() {
    assert_eq!(accept_connection(peer(7), DialOutcome::Failed), Admission::Refused);
}

#[test]
fn a_failed_dial_leaves_the_counters_alone() {
    let mut collector = MetricsCollector::new(1000, Duration::from_secs(10));
    match accept_connection(peer(7), DialOutcome::Failed) {
        Admission::Paired { opened, .. } => {
            deliver(&mut collector, opened);
        }
        Admission::Refused => {}
    }
    assert_eq!(collector.snapshot().total_connections, 0);
    assert_eq!(collector.snapshot().active_connections, 0);
}

#[test]
fn the_acceptor_dials_for_each_client() {
    assert_eq!(run_server(false, Some(Ok(peer(7)))), AcceptorAction::Dial(peer(7)));
    assert_eq!(run_server(false, None), AcceptorAction::Wait);
}

#[test]
fn shutdown_wins_over_a_client_that_arrived_with_it() {
    assert_eq!(run_server(true, Some(Ok(peer(7)))), AcceptorAction::Stop);
    assert_eq!(run_server(true, None), AcceptorAction::Stop);
    assert_eq!(
        run_server(true, Some(Err(AcceptError::Other("broken".to_string())))),
        AcceptorAction::Stop
    );
}

#[test]
fn the_acceptor_retries_when_resources_are_short_and_fails_otherwise() {
    assert!(AcceptError::DescriptorsExhausted.is_temporary());
    assert!(AcceptError::MemoryExhausted.is_temporary());
    assert!(!AcceptError::Other("x".to_string()).is_temporary());
    assert_eq!(run_server(false, Some(Err(AcceptError::DescriptorsExhausted))), AcceptorAction::Retry);
    assert_eq!(run_server(false, Some(Err(AcceptError::MemoryExhausted))), AcceptorAction::Retry);
    assert_eq!(
        run_server(false, Some(Err(AcceptError::Other("invalid argument".to_string())))),
        AcceptorAction::Fail(AppError::Socket("invalid argument".to_string()))
    );
}

#[test]
fn echo_round_trip_is_counted_once_in_each_direction() {
    let payload = b"test data";
    let mut collector = MetricsCollector::new(1000, Duration::from_secs(10));
    let (opened, mut connection) = pair(peer(7));
    assert_eq!(deliver(&mut collector, opened), snapshot(1, 1, 0, 0));

    // The client writes, the target echoes.
    let action = drive(&mut connection.upstream, RelayEvent::Read(payload.len()), &mut collector);
    let to_target = match action {
        RelayAction::Forward { len, .. } => payload[..len].to_vec(),
        other => panic!("unexpected {:?}", other),
    };
    assert_eq!(to_target, payload.to_vec());
    assert_eq!(
        drive(&mut connection.upstream, RelayEvent::Written, &mut collector),
        RelayAction::Await
    );
    let action =
        drive(&mut connection.downstream, RelayEvent::Read(to_target.len()), &mut collector);
    let to_client = match action {
        RelayAction::Forward { len, .. } => to_target[..len].to_vec(),
        other => panic!("unexpected {:?}", other),
    };
    assert_eq!(to_client, Vec::from(payload));
    drive(&mut connection.downstream, RelayEvent::Written, &mut collector);
    assert_eq!(collector.snapshot(), snapshot(1, 1, 9, 9));

    // The client closes its side: the upstream relay sees the end of the
    // stream and trips the token, the downstream relay follows.
    let action = drive(&mut connection.upstream, RelayEvent::Read(0), &mut collector);
    assert_eq!(
        action,
        RelayAction::Exit { trip: true, closed: Some(MetricEvent::ConnectionClosed(peer(7))) }
    );
    let action = drive(&mut connection.downstream, RelayEvent::ConnectionTripped, &mut collector);
    assert_eq!(action, RelayAction::Exit { trip: false, closed: None });

    let last = collector.snapshot();
    println!("Proxy metrics: {:?}", last);
    assert_eq!(last.total_connections, 1);
    assert_eq!(last.active_connections, 0);
    assert_eq!(last.bytes_upstream, payload.len() as u64);
    assert_eq!(last.bytes_downstream, payload.len() as u64);
}

#[test]
fn the_target_closing_first_still_closes_the_account_once() {
    let mut collector = MetricsCollector::new(1000, Duration::from_secs(10));
    let (opened, mut connection) = pair(peer(7));
    deliver(&mut collector, opened);
    let action = drive(&mut connection.downstream, RelayEvent::Read(0), &mut collector);
    assert_eq!(action, RelayAction::Exit { trip: true, closed: None });
    assert_eq!(collector.snapshot(), snapshot(1, 1, 0, 0));
    let action = drive(&mut connection.upstream, RelayEvent::ConnectionTripped, &mut collector);
    assert_eq!(
        action,
        RelayAction::Exit { trip: false, closed: Some(MetricEvent::ConnectionClosed(peer(7))) }
    );
    assert_eq!(collector.snapshot(), snapshot(0, 1, 0, 0));
}

#[test]
fn shutdown_ends_an_idle_connection() {
    let mut collector = MetricsCollector::new(1000, Duration::from_secs(10));
    let (opened, mut connection) = pair(peer(7));
    deliver(&mut collector, opened);
    assert_eq!(collector.snapshot().active_connections, 1);
    let up = drive(&mut connection.upstream, RelayEvent::ShutdownTripped, &mut collector);
    let down = drive(&mut connection.downstream, RelayEvent::ShutdownTripped, &mut collector);
    assert_eq!(
        up,
        RelayAction::Exit { trip: true, closed: Some(MetricEvent::ConnectionClosed(peer(7))) }
    );
    assert_eq!(down, RelayAction::Exit { trip: true, closed: None });
    assert_eq!(connection.upstream.state(), RelayState::Done);
    assert_eq!(connection.downstream.state(), RelayState::Done);
    assert_eq!(collector.snapshot().active_connections, 0);
    assert_eq!(collector.run(CollectorInput::Closed), CollectorOutput::Finish(snapshot(0, 1, 0, 0)));
}

/// Sends `size` bytes from the client through to the target and back, in
/// reads of at most the buffer size.
fn echo_through(connection: &mut Connection, size: usize, collector: &mut MetricsCollector) {
    let mut left = size;
    while left > 0 {
        let chunk = left.min(RELAY_BUFFER_SIZE);
        for relay in [&mut connection.upstream, &mut connection.downstream] {
            let action = drive(relay, RelayEvent::Read(chunk), collector);
            assert!(matches!(action, RelayAction::Forward { len, .. } if len == chunk));
            assert_eq!(drive(relay, RelayEvent::Written, collector), RelayAction::Await);
        }
        left -= chunk;
    }
}

#[test]
fn two_clients_at_once_are_both_counted() {
    let mut collector = MetricsCollector::new(1000, Duration::from_secs(10));
    let (opened_a, mut a) = pair(peer(1));
    let (opened_b, mut b) = pair(peer(2));
    deliver(&mut collector, opened_a);
    deliver(&mut collector, opened_b);
    // Interleave the two connections chunk by chunk.
    echo_through(&mut b, 1024, &mut collector);
    echo_through(&mut a, 1024, &mut collector);
    echo_through(&mut b, 1024, &mut collector);
    let now = collector.snapshot();
    assert_eq!(now.total_connections, 2);
    assert_eq!(now.active_connections, 2);
    assert!(now.bytes_upstream >= 3072);
    assert!(now.bytes_downstream >= 3072);
    assert_eq!(now.bytes_upstream, 3072);
    assert_eq!(now.bytes_downstream, 3072);
    drive(&mut a.upstream, RelayEvent::Read(0), &mut collector);
    drive(&mut a.downstream, RelayEvent::ConnectionTripped, &mut collector);
    drive(&mut b.downstream, RelayEvent::ReadFailed, &mut collector);
    drive(&mut b.upstream, RelayEvent::ConnectionTripped, &mut collector);
    assert_eq!(collector.snapshot(), snapshot(0, 2, 3072, 3072));
}
