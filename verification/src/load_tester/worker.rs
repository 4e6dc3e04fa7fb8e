//! What one worker of the load generator counts, and how it goes on after
//! each exchange.
//!
//! A worker connects, then sends its message and waits for the echo again
//! and again until it is told to stop. A failed exchange is counted and
//! answered with one new connection; if that cannot be made, the worker
//! gives up.

use std::time::Duration;

use vstd::prelude::*;

verus! {

/// What one worker has counted.
#[derive(Debug)]
pub struct WorkerStats {
    pub requests: u64,
    pub bytes_sent: u64,
    pub bytes_received: u64,
    pub latencies: Vec<Duration>,
    pub errors: u64,
}

/// The model of `WorkerStats`: the counts as unbounded numbers.
pub struct StatsModel {
    pub requests: nat,
    pub bytes_sent: nat,
    pub bytes_received: nat,
    pub latencies: Seq<Duration>,
    pub errors: nat,
}

impl View for WorkerStats {
    type V = StatsModel;

    open spec fn view(&self) -> StatsModel {
        StatsModel {
            requests: self.requests as nat,
            bytes_sent: self.bytes_sent as nat,
            bytes_received: self.bytes_received as nat,
            latencies: self.latencies@,
            errors: self.errors as nat,
        }
    }
}

impl Default for WorkerStats {
    fn default() -> (stats: WorkerStats)
        ensures
            stats@ == StatsModel::zero(),
    {
        WorkerStats {
            requests: 0,
            bytes_sent: 0,
            bytes_received: 0,
            latencies: Vec::new(),
            errors: 0,
        }
    }
}

/// What the driver reports to a worker.
#[derive(Debug, Clone, Copy)]
pub enum WorkerEvent {
    /// The first connection is made.
    Connected,
    /// The first connection could not be made.
    ConnectFailed,
    /// The worker is told to stop.
    Shutdown,
    /// The message went out and its echo came back.
    Exchanged { sent: usize, received: usize, latency: Duration },
    /// Sending or receiving failed.
    ExchangeFailed,
    /// A new connection replaces the failed one.
    Reconnected,
    /// No new connection could be made.
    ReconnectFailed,
}

/// What the worker does next.
#[derive(Debug, Clone, Copy, PartialEq, Eq, Structural)]
pub enum WorkerAction {
    /// Send the message and wait for its echo, unless told to stop first.
    Exchange,
    /// Connect anew.
    Reconnect,
    /// Return what was counted.
    Stop,
}

impl StatsModel {
    /// Nothing counted yet.
    pub open spec fn zero() -> StatsModel {
        StatsModel {
            requests: 0,
            bytes_sent: 0,
            bytes_received: 0,
            latencies: Seq::empty(),
            errors: 0,
        }
    }

    /// Every count fits 64 bits.
    pub open spec fn fits(self) -> bool {
        &&& self.requests <= u64::MAX
        &&& self.bytes_sent <= u64::MAX
        &&& self.bytes_received <= u64::MAX
        &&& self.errors <= u64::MAX
    }

    /// The counts after `event`, and what the worker does next.
    pub open spec fn step(self, event: WorkerEvent) -> (StatsModel, WorkerAction) {
        match event {
            WorkerEvent::Connected | WorkerEvent::Reconnected => (self, WorkerAction::Exchange),
            WorkerEvent::ConnectFailed => (
                StatsModel { errors: self.errors + 1, ..self },
                WorkerAction::Stop,
            ),
            WorkerEvent::Shutdown | WorkerEvent::ReconnectFailed => (self, WorkerAction::Stop),
            WorkerEvent::Exchanged { sent, received, latency } => (
                StatsModel {
                    requests: self.requests + 1,
                    bytes_sent: self.bytes_sent + sent as nat,
                    bytes_received: self.bytes_received + received as nat,
                    latencies: self.latencies.push(latency),
                    ..self
                },
                WorkerAction::Exchange,
            ),
            WorkerEvent::ExchangeFailed => (
                StatsModel { errors: self.errors + 1, ..self },
                WorkerAction::Reconnect,
            ),
        }
    }
}

impl WorkerStats {
    /// Whether the counts have room for `event`.
    pub fn has_room_for(&self, event: &WorkerEvent) -> (yes: bool)
        ensures
            yes == self@.step(*event).0.fits(),
    {
        match event {
            WorkerEvent::ConnectFailed => self.errors < u64::MAX,
            WorkerEvent::ExchangeFailed => self.errors < u64::MAX,
            WorkerEvent::Exchanged { sent, received, latency: _ } => self.requests < u64::MAX
                && *sent as u64 <= u64::MAX - self.bytes_sent && *received as u64 <= u64::MAX
                - self.bytes_received,
            _ => true,
        }
    }
}

/// The message that a worker sends: `message_size` times the letter `x`.
pub fn request_message(message_size: usize) -> (message: Vec<u8>)
    ensures
        message@ == Seq::new(message_size as nat, |i: int| 120u8),
{
    let mut message: Vec<u8> = Vec::new();
    while message.len() < message_size
        invariant
            message.len() <= message_size,
            message@ == Seq::new(message.len() as nat, |i: int| 120u8),
        decreases message_size - message.len(),
    {
        message.push(120u8);
        assert(message@ =~= Seq::new(message.len() as nat, |i: int| 120u8));
    }
    message
}

/// Takes one event of a worker's run into `stats` and says how the worker
/// goes on.
///
/// A finished exchange counts one request, its bytes and its latency. A
/// failed exchange and a failed first connection count one error each; a
/// failed reconnection counts nothing more.
pub fn run_worker(stats: &mut WorkerStats, event: WorkerEvent) -> (action: WorkerAction)
    requires
        old(stats)@.step(event).0.fits(),
    ensures
        (final(stats)@, action) == old(stats)@.step(event),
{
    match event {
        WorkerEvent::Connected => WorkerAction::Exchange,
        WorkerEvent::Reconnected => WorkerAction::Exchange,
        WorkerEvent::ConnectFailed => {
            stats.errors = stats.errors + 1;
            WorkerAction::Stop
        },
        WorkerEvent::Shutdown => WorkerAction::Stop,
        WorkerEvent::ReconnectFailed => WorkerAction::Stop,
        WorkerEvent::Exchanged { sent, received, latency } => {
            stats.requests = stats.requests + 1;
            stats.bytes_sent = stats.bytes_sent + sent as u64;
            stats.bytes_received = stats.bytes_received + received as u64;
            stats.latencies.push(latency);
            WorkerAction::Exchange
        },
        WorkerEvent::ExchangeFailed => {
            stats.errors = stats.errors + 1;
            WorkerAction::Reconnect
        },
    }
}

} // verus!
