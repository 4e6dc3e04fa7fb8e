//! A load generator for the proxy: its settings, what a worker counts, and
//! how the results are put into words.

pub mod config;
pub mod report;
pub mod worker;

pub use config::{Config, Scenario};
pub use report::{format_bytes, truncate, Totals};
pub use worker::{request_message, run_worker, WorkerAction, WorkerEvent, WorkerStats};
