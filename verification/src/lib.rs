//! Decision logic of a bidirectional TCP relay proxy with live telemetry.
//!
//! Every function here is a pure step: it takes the state of one component
//! and what just happened to it, and answers with the next state and what the
//! caller has to do. Sockets, timers and tasks stay with the caller.

pub mod config;
pub mod echo_server;
pub mod http_server;
pub mod load_tester;
pub mod metrics;
pub mod peer;
pub mod proxy;
pub mod relay;
pub mod text;

pub use config::Config;
pub use http_server::{handle_http_request, http_server, MetricsResponse};
pub use metrics::{MetricEvent, MetricsCollector, MetricsSnapshot};
pub use peer::{PeerAddr, PeerIp};
pub use proxy::AppError;
pub use relay::{accept_connection, run_server};
