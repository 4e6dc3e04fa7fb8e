//! The echo server's settings.

use vstd::prelude::*;
use vstd::string::StringExecFns;

verus! {

/// Where the echo server listens.
#[derive(Debug, Clone)]
pub struct Config {
    pub listen_addr: String,
}

impl Default for Config {
    fn default() -> (config: Config)
        ensures
            config.listen_addr@ == "127.0.0.1:8081"@,
    {
        Config { listen_addr: String::from_str("127.0.0.1:8081") }
    }
}

} // verus!
