use basic_tcp_proxy::echo_server;
use basic_tcp_proxy::load_tester;
use basic_tcp_proxy::load_tester::config::{
    default_connections, default_duration, default_message_size,
};
use basic_tcp_proxy::Config;

#[test]
fn the_proxy_defaults() {
    let config = Config::default();
    assert_eq!(config.listen_addr, "127.0.0.1:0");
    assert_eq!(config.target_addr, "127.0.0.1:0");
    assert_eq!(config.metrics_addr, "127.0.0.1:0");
    assert_eq!(config.grace_period_secs, 60);
    assert_eq!(config.metrics_log_interval_secs, 10);
    assert_eq!(config.channel_buffer_size, 1000);
}

#[test]
fn a_copy_of_the_settings_is_equal() {
    let mut config = Config::default();
    config.listen_addr = "0.0.0.0:7000".to_string();
    config.channel_buffer_size = 8;
    assert_eq!(config.clone(), config);
}

#[test]
fn the_echo_server_defaults() {
    assert_eq!(echo_server::Config::default().listen_addr, "127.0.0.1:8081");
}

#[test]
fn the_load_tester_defaults() {
    let config = load_tester::Config::default();
    assert_eq!(config.target_addr, "127.0.0.1:8080");
    assert_eq!(config.connections, 10);
    assert_eq!(config.duration_secs, 30);
    assert_eq!(config.message_size, 1024);
    assert!(config.scenarios.is_empty());
    assert!(!config.is_matrix_mode());
}

#[test]
fn the_scenario_defaults() {
    assert_eq!(default_connections(), 10);
    assert_eq!(default_duration(), 10);
    assert_eq!(default_message_size(), 1024);
}

#[test]
fn scenarios_make_a_matrix() {
    let mut config = load_tester::Config::default();
    config.scenarios.push(load_tester::Scenario {
        name: "small".to_string(),
        connections: default_connections(),
        duration_secs: default_duration(),
        message_size: default_message_size(),
    });
    assert!(config.is_matrix_mode());
    let copy = config.clone();
    assert_eq!(copy.scenarios.len(), 1);
    assert_eq!(copy.scenarios[0].name, "small");
}
