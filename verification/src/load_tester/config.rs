//! The load generator's settings.

use vstd::prelude::*;
use vstd::string::StringExecFns;

verus! {

/// One run of a matrix of runs.
#[derive(Debug, Clone)]
pub struct Scenario {
    pub name: String,
    pub connections: usize,
    pub duration_secs: u64,
    pub message_size: usize,
}

/// The number of connections of a scenario that names none.
pub fn default_connections() -> (connections: usize)
    ensures
        connections == 10,
{
    10
}

/// The duration, in seconds, of a scenario that names none.
pub fn default_duration() -> (seconds: u64)
    ensures
        seconds == 10,
{
    10
}

/// The message size, in bytes, of a scenario that names none.
pub fn default_message_size() -> (bytes: usize)
    ensures
        bytes == 1024,
{
    1024
}

/// What to load and how: a single run, or one run for each scenario if
/// there are any.
#[derive(Debug, Clone)]
pub struct Config {
    pub target_addr: String,
    pub connections: usize,
    pub duration_secs: u64,
    pub message_size: usize,
    pub scenarios: Vec<Scenario>,
}

impl Default for Config {
    fn default() -> (config: Config)
        ensures
            config.target_addr@ == "127.0.0.1:8080"@,
            config.connections == 10,
            config.duration_secs == 30,
            config.message_size == 1024,
            config.scenarios@.len() == 0,
    {
        Config {
            target_addr: String::from_str("127.0.0.1:8080"),
            connections: 10,
            duration_secs: 30,
            message_size: 1024,
            scenarios: Vec::new(),
        }
    }
}

impl Config {
    /// Whether the scenarios are to be run, one after the other, instead of
    /// the single run.
    pub fn is_matrix_mode(&self) -> (matrix: bool)
        ensures
            matrix == (self.scenarios@.len() > 0),
    {
        !self.scenarios.is_empty()
    }
}

} // verus!
