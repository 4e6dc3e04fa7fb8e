use basic_tcp_proxy::proxy::{Proxy, ProxyAction, ProxyEvent, ProxyPhase, FORCED_EXIT_STATUS};
use basic_tcp_proxy::{AppError, Config, PeerAddr, PeerIp};

fn listener() -> PeerAddr {
    PeerAddr { ip: PeerIp::V4(0x7f00_0001), port: 8080 }
}

fn bound() -> Proxy {
    let (proxy, addr) = Proxy::bind(Config::default(), listener());
    assert_eq!(addr, listener());
    proxy
}

fn running() -> Proxy {
    let mut proxy = bound();
    proxy.run(ProxyEvent::Start);
    proxy
}

#[test]
fn bind_keeps_settings_and_address() {
    let mut config = Config::default();
    config.grace_period_secs = 5;
    config.target_addr = "10.0.0.1:9000".to_string();
    let (proxy, addr) = Proxy::bind(config.clone(), listener());
    assert_eq!(addr, listener());
    assert_eq!(proxy.local_addr(), listener());
    assert_eq!(proxy.phase(), ProxyPhase::Bound);
    assert_eq!(*proxy.config(), config);
}

#[test]
fn start_brings_the_components_up_in_order() {
    let mut proxy = bound();
    assert_eq!(
        proxy.run(ProxyEvent::Start),
        vec![
            ProxyAction::SpawnAggregator,
            ProxyAction::SpawnHttpResponder,
            ProxyAction::SpawnAcceptor,
            ProxyAction::InstallSignalHandler,
        ]
    );
    assert_eq!(proxy.phase(), ProxyPhase::Running);
    assert_eq!(proxy.run(ProxyEvent::Start), vec![]);
    assert_eq!(proxy.phase(), ProxyPhase::Running);
}

#[test]
fn nothing_but_start_moves_a_bound_proxy() {
    let mut proxy = bound();
    assert_eq!(proxy.run(ProxyEvent::Interrupt), vec![]);
    assert_eq!(proxy.shutdown(), vec![]);
    assert_eq!(proxy.run(ProxyEvent::RelaysDrained), vec![]);
    assert_eq!(proxy.run(ProxyEvent::WatchdogFired), vec![]);
    assert_eq!(proxy.phase(), ProxyPhase::Bound);
}

#[test]
fn graceful_shutdown_drains_in_order() {
    let mut proxy = running();
    assert_eq!(
        proxy.run(ProxyEvent::Interrupt),
        vec![
            ProxyAction::TripShutdown,
            ProxyAction::StartWatchdog { grace_secs: 60 },
            ProxyAction::JoinAcceptor,
        ]
    );
    assert_eq!(proxy.phase(), ProxyPhase::Stopping);
    assert_eq!(proxy.run(ProxyEvent::AcceptorStopped(Ok(()))), vec![ProxyAction::JoinRelays]);
    assert_eq!(proxy.phase(), ProxyPhase::Draining);
    assert_eq!(
        proxy.run(ProxyEvent::RelaysDrained),
        vec![
            ProxyAction::ReleaseEventSender,
            ProxyAction::JoinAggregator,
            ProxyAction::JoinHttpResponder,
        ]
    );
    assert_eq!(proxy.phase(), ProxyPhase::Finishing);
    assert_eq!(proxy.run(ProxyEvent::AggregatorExited(Ok(()))), vec![]);
    assert_eq!(proxy.phase(), ProxyPhase::Finishing);
    assert_eq!(
        proxy.run(ProxyEvent::HttpStopped(Ok(()))),
        vec![
            ProxyAction::LogTerminalSnapshot,
            ProxyAction::CancelWatchdog,
            ProxyAction::Finish(Ok(())),
        ]
    );
    assert_eq!(proxy.phase(), ProxyPhase::Complete);
}

#[test]
fn the_responder_may_stop_before_the_aggregator() {
    let mut proxy = running();
    proxy.shutdown();
    proxy.run(ProxyEvent::AcceptorStopped(Ok(())));
    proxy.run(ProxyEvent::RelaysDrained);
    assert_eq!(proxy.run(ProxyEvent::HttpStopped(Ok(()))), vec![]);
    assert_eq!(proxy.run(ProxyEvent::HttpStopped(Ok(()))), vec![]);
    assert_eq!(
        proxy.run(ProxyEvent::AggregatorExited(Ok(()))),
        vec![
            ProxyAction::LogTerminalSnapshot,
            ProxyAction::CancelWatchdog,
            ProxyAction::Finish(Ok(())),
        ]
    );
}

#[test]
fn shutdown_works_like_the_token() {
    let mut by_call = running();
    let mut by_event = running();
    assert_eq!(by_call.shutdown(), by_event.run(ProxyEvent::ShutdownTripped));
    assert_eq!(by_call.phase(), ProxyPhase::Stopping);
    assert_eq!(by_event.phase(), ProxyPhase::Stopping);
    assert_eq!(by_call.shutdown(), vec![]);
    assert_eq!(by_call.phase(), ProxyPhase::Stopping);
}

#[test]
fn the_grace_period_comes_from_the_settings() {
    let mut config = Config::default();
    config.grace_period_secs = 3;
    let (mut proxy, _) = Proxy::bind(config, listener());
    proxy.run(ProxyEvent::Start);
    assert_eq!(
        proxy.shutdown(),
        vec![
            ProxyAction::TripShutdown,
            ProxyAction::StartWatchdog { grace_secs: 3 },
            ProxyAction::JoinAcceptor,
        ]
    );
}

#[test]
fn a_broken_acceptor_starts_the_shutdown_and_its_error_is_the_result() {
    let mut proxy = running();
    assert_eq!(
        proxy.run(ProxyEvent::AcceptorStopped(Err(AppError::Socket("bad listener".to_string())))),
        vec![
            ProxyAction::TripShutdown,
            ProxyAction::StartWatchdog { grace_secs: 60 },
            ProxyAction::JoinRelays,
        ]
    );
    assert_eq!(proxy.phase(), ProxyPhase::Draining);
    proxy.run(ProxyEvent::RelaysDrained);
    proxy.run(ProxyEvent::HttpStopped(Err(AppError::Hyper("later".to_string()))));
    assert_eq!(
        proxy.run(ProxyEvent::AggregatorExited(Ok(()))),
        vec![
            ProxyAction::LogTerminalSnapshot,
            ProxyAction::CancelWatchdog,
            ProxyAction::Finish(Err(AppError::Socket("bad listener".to_string()))),
        ]
    );
}

#[test]
fn a_failed_task_is_reported_at_the_end_of_the_drain() {
    let mut proxy = running();
    proxy.shutdown();
    proxy.run(ProxyEvent::AcceptorStopped(Ok(())));
    proxy.run(ProxyEvent::RelaysDrained);
    proxy.run(ProxyEvent::AggregatorExited(Err(AppError::TaskJoin("panicked".to_string()))));
    assert_eq!(
        proxy.run(ProxyEvent::HttpStopped(Ok(()))),
        vec![
            ProxyAction::LogTerminalSnapshot,
            ProxyAction::CancelWatchdog,
            ProxyAction::Finish(Err(AppError::TaskJoin("panicked".to_string()))),
        ]
    );
}

#[test]
fn the_watchdog_forces_the_exit_in_every_phase_of_the_shutdown() {
    let forced = vec![ProxyAction::ForceExit { status: 0 }];
    assert_eq!(FORCED_EXIT_STATUS, 0);

    let mut stopping = running();
    stopping.shutdown();
    assert_eq!(stopping.run(ProxyEvent::WatchdogFired), forced);
    assert_eq!(stopping.phase(), ProxyPhase::Forced);

    let mut draining = running();
    draining.shutdown();
    draining.run(ProxyEvent::AcceptorStopped(Ok(())));
    assert_eq!(draining.run(ProxyEvent::WatchdogFired), forced);
    assert_eq!(draining.phase(), ProxyPhase::Forced);

    let mut finishing = running();
    finishing.shutdown();
    finishing.run(ProxyEvent::AcceptorStopped(Ok(())));
    finishing.run(ProxyEvent::RelaysDrained);
    finishing.run(ProxyEvent::AggregatorExited(Ok(())));
    assert_eq!(finishing.run(ProxyEvent::WatchdogFired), forced);
    assert_eq!(finishing.phase(), ProxyPhase::Forced);
}

#[test]
fn the_watchdog_means_nothing_before_the_shutdown() {
    let mut proxy = running();
    assert_eq!(proxy.run(ProxyEvent::WatchdogFired), vec![]);
    assert_eq!(proxy.phase(), ProxyPhase::Running);
}

fn every_event() -> Vec<ProxyEvent> {
    vec![
        ProxyEvent::Start,
        ProxyEvent::Interrupt,
        ProxyEvent::ShutdownTripped,
        ProxyEvent::AcceptorStopped(Ok(())),
        ProxyEvent::AcceptorStopped(Err(AppError::Socket("late".to_string()))),
        ProxyEvent::RelaysDrained,
        ProxyEvent::AggregatorExited(Ok(())),
        ProxyEvent::HttpStopped(Err(AppError::Hyper("late".to_string()))),
        ProxyEvent::WatchdogFired,
    ]
}

#[test]
fn nothing_follows_a_complete_drain() {
    let mut proxy = running();
    proxy.shutdown();
    proxy.run(ProxyEvent::AcceptorStopped(Ok(())));
    proxy.run(ProxyEvent::RelaysDrained);
    proxy.run(ProxyEvent::AggregatorExited(Ok(())));
    proxy.run(ProxyEvent::HttpStopped(Ok(())));
    assert_eq!(proxy.phase(), ProxyPhase::Complete);
    for event in every_event() {
        assert_eq!(proxy.run(event), vec![]);
        assert_eq!(proxy.phase(), ProxyPhase::Complete);
    }
}

#[test]
fn nothing_follows_a_forced_exit() {
    let mut proxy = running();
    proxy.shutdown();
    proxy.run(ProxyEvent::WatchdogFired);
    for event in every_event() {
        assert_eq!(proxy.run(event), vec![]);
        assert_eq!(proxy.phase(), ProxyPhase::Forced);
    }
}

#[test]
fn the_relays_are_waited_for_only_after_the_acceptor() {
    let mut proxy = running();
    proxy.shutdown();
    assert_eq!(proxy.run(ProxyEvent::RelaysDrained), vec![]);
    assert_eq!(proxy.run(ProxyEvent::AggregatorExited(Ok(()))), vec![]);
    assert_eq!(proxy.run(ProxyEvent::HttpStopped(Ok(()))), vec![]);
    assert_eq!(proxy.phase(), ProxyPhase::Stopping);
}

#[test]
fn each_error_has_its_message() {
    let detail = || "boom".to_string();
    assert_eq!(AppError::Socket(detail()).message(), "Socket error: boom");
    assert_eq!(AppError::Hyper(detail()).message(), "Hyper error: boom");
    assert_eq!(AppError::Http(detail()).message(), "HTTP error: boom");
    assert_eq!(AppError::Json(detail()).message(), "JSON error: boom");
    assert_eq!(AppError::TaskJoin(detail()).message(), "IO error: boom");
    assert_eq!(AppError::Parse(detail()).message(), "Failded to parse address: boom");
    assert_eq!(AppError::Unexpected(detail()).message(), "Unexpected error: boom");
}
