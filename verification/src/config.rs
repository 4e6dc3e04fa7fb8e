//! The proxy's settings.

use vstd::prelude::*;
use vstd::string::StringExecFns;

verus! {

/// Where the proxy listens and dials, and how it paces its housekeeping.
/// Made once when the process starts and not changed afterwards.
#[derive(Debug, PartialEq, Eq)]
pub struct Config {
    /// Where the proxy accepts clients.
    pub listen_addr: String,
    /// Where the proxy dials.
    pub target_addr: String,
    /// Where the HTTP responder binds.
    pub metrics_addr: String,
    /// How long a graceful shutdown may take before the process exits anyway.
    pub grace_period_secs: u64,
    /// How often the aggregator logs the counters.
    pub metrics_log_interval_secs: u64,
    /// How many metric events may wait for the aggregator.
    pub channel_buffer_size: usize,
}

impl Default for Config {
    fn default() -> (config: Config)
        ensures
            config.listen_addr@ == "127.0.0.1:0"@,
            config.target_addr@ == "127.0.0.1:0"@,
            config.metrics_addr@ == "127.0.0.1:0"@,
            config.grace_period_secs == 60,
            config.metrics_log_interval_secs == 10,
            config.channel_buffer_size == 1000,
    {
        Config {
            listen_addr: String::from_str("127.0.0.1:0"),
            target_addr: String::from_str("127.0.0.1:0"),
            metrics_addr: String::from_str("127.0.0.1:0"),
            grace_period_secs: 60,
            metrics_log_interval_secs: 10,
            channel_buffer_size: 1000,
        }
    }
}

impl Clone for Config {
    fn clone(&self) -> (copy: Config)
        ensures
            copy == *self,
    {
        Config {
            listen_addr: self.listen_addr.clone(),
            target_addr: self.target_addr.clone(),
            metrics_addr: self.metrics_addr.clone(),
            grace_period_secs: self.grace_period_secs,
            metrics_log_interval_secs: self.metrics_log_interval_secs,
            channel_buffer_size: self.channel_buffer_size,
        }
    }
}

} // verus!
