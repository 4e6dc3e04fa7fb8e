//! The orchestrator: start-up order, graceful shutdown and the forced exit.

use vstd::prelude::*;
use vstd::string::StringExecFns;

use crate::config::Config;
use crate::peer::PeerAddr;

verus! {

/// What can go wrong in the proxy. Each variant carries the text of the
/// error that caused it.
#[derive(Debug, PartialEq, Eq)]
pub enum AppError {
    Socket(String),
    Hyper(String),
    Http(String),
    Json(String),
    TaskJoin(String),
    Parse(String),
    Unexpected(String),
}

impl AppError {
    /// The text of the error that caused this one.
    pub open spec fn detail(self) -> Seq<char> {
        match self {
            AppError::Socket(detail) => detail@,
            AppError::Hyper(detail) => detail@,
            AppError::Http(detail) => detail@,
            AppError::Json(detail) => detail@,
            AppError::TaskJoin(detail) => detail@,
            AppError::Parse(detail) => detail@,
            AppError::Unexpected(detail) => detail@,
        }
    }

    /// What stands before the detail in the message of each variant.
    pub open spec fn prefix(self) -> Seq<char> {
        match self {
            AppError::Socket(_) => "Socket error: "@,
            AppError::Hyper(_) => "Hyper error: "@,
            AppError::Http(_) => "HTTP error: "@,
            AppError::Json(_) => "JSON error: "@,
            AppError::TaskJoin(_) => "IO error: "@,
            AppError::Parse(_) => "Failded to parse address: "@,
            AppError::Unexpected(_) => "Unexpected error: "@,
        }
    }

    /// The message of this error: the variant's prefix, then the detail.
    pub fn message(&self) -> (text: String)
        ensures
            text@ == self.prefix() + self.detail(),
    {
        match self {
            AppError::Socket(detail) => String::from_str("Socket error: ").concat(detail),
            AppError::Hyper(detail) => String::from_str("Hyper error: ").concat(detail),
            AppError::Http(detail) => String::from_str("HTTP error: ").concat(detail),
            AppError::Json(detail) => String::from_str("JSON error: ").concat(detail),
            AppError::TaskJoin(detail) => String::from_str("IO error: ").concat(detail),
            AppError::Parse(detail) => String::from_str("Failded to parse address: ").concat(
                detail,
            ),
            AppError::Unexpected(detail) => String::from_str("Unexpected error: ").concat(detail),
        }
    }
}

/// The status with which the process leaves when the grace period runs out.
pub const FORCED_EXIT_STATUS: i32 = 0;

/// How far the orchestrator has come. The phases follow each other in the
/// order written here; `Complete` and `Forced` are the two ends.
#[derive(Debug, Clone, Copy, PartialEq, Eq, Structural)]
pub enum ProxyPhase {
    /// The listeners are open; nothing runs yet.
    Bound,
    /// Aggregator, HTTP responder and acceptor run; the signal handler is in.
    Running,
    /// Shutdown has begun; waiting for the acceptor to stop.
    Stopping,
    /// Waiting for the relays of all connections to leave.
    Draining,
    /// The event sender is released; waiting for the aggregator and for the
    /// HTTP responder.
    Finishing,
    /// The drain is complete.
    Complete,
    /// The grace period ran out before the drain was complete.
    Forced,
}

/// What the driver reports to the orchestrator.
#[derive(Debug, PartialEq, Eq)]
pub enum ProxyEvent {
    /// The proxy is asked to run.
    Start,
    /// The interrupt signal arrived.
    Interrupt,
    /// The global shutdown token was tripped.
    ShutdownTripped,
    /// The acceptor returned.
    AcceptorStopped(Result<(), AppError>),
    /// Every relay task has returned.
    RelaysDrained,
    /// The aggregator task has returned.
    AggregatorExited(Result<(), AppError>),
    /// The HTTP responder has returned.
    HttpStopped(Result<(), AppError>),
    /// The grace period is over.
    WatchdogFired,
}

/// What the driver has to do, one after the other.
#[derive(Debug, PartialEq, Eq)]
pub enum ProxyAction {
    SpawnAggregator,
    SpawnHttpResponder,
    SpawnAcceptor,
    InstallSignalHandler,
    /// Trip the global shutdown token.
    TripShutdown,
    /// Start the timer that forces the exit after `grace_secs` seconds.
    StartWatchdog { grace_secs: u64 },
    /// Wait for the acceptor and report `AcceptorStopped`.
    JoinAcceptor,
    /// Wait for all relay tasks and report `RelaysDrained`.
    JoinRelays,
    /// Drop the orchestrator's sender of metric events, so that the queue
    /// closes once the last relay has dropped its own.
    ReleaseEventSender,
    /// Wait for the aggregator and report `AggregatorExited`.
    JoinAggregator,
    /// Wait for the HTTP responder and report `HttpStopped`.
    JoinHttpResponder,
    /// Log the snapshot that is in the broadcast slot now: it is the last.
    LogTerminalSnapshot,
    /// Stop the timer that forces the exit.
    CancelWatchdog,
    /// Return from the run with this result.
    Finish(Result<(), AppError>),
    /// Leave the process at once with `status`.
    ForceExit { status: i32 },
}

/// The model of a `Proxy`.
pub struct ProxyModel {
    pub config: Config,
    pub local_addr: PeerAddr,
    pub phase: ProxyPhase,
    /// The first failure that a task reported, until it is handed out.
    pub failure: Option<AppError>,
    pub aggregator_exited: bool,
    pub http_stopped: bool,
}

impl ProxyPhase {
    /// The place of a phase in the order of phases.
    pub open spec fn rank(self) -> nat {
        match self {
            ProxyPhase::Bound => 0,
            ProxyPhase::Running => 1,
            ProxyPhase::Stopping => 2,
            ProxyPhase::Draining => 3,
            ProxyPhase::Finishing => 4,
            ProxyPhase::Complete => 5,
            ProxyPhase::Forced => 5,
        }
    }

    /// Shutdown has begun and has not ended.
    pub open spec fn shutting_down(self) -> bool {
        self == ProxyPhase::Stopping || self == ProxyPhase::Draining || self
            == ProxyPhase::Finishing
    }

    /// Nothing follows this phase.
    pub open spec fn ended(self) -> bool {
        self == ProxyPhase::Complete || self == ProxyPhase::Forced
    }
}

/// The failure to remember: the one already noted, or else that of `result`.
pub open spec fn noted(failure: Option<AppError>, result: Result<(), AppError>) -> Option<
    AppError,
> {
    match (failure, result) {
        (Some(first), _) => Some(first),
        (None, Err(error)) => Some(error),
        (None, Ok(_)) => None,
    }
}

/// The result of a run that noted `failure`.
pub open spec fn outcome(failure: Option<AppError>) -> Result<(), AppError> {
    match failure {
        Some(error) => Err(error),
        None => Ok(()),
    }
}

impl ProxyModel {
    /// The orchestrator of a proxy that has just opened its listener.
    pub open spec fn fresh(config: Config, local_addr: PeerAddr) -> ProxyModel {
        ProxyModel {
            config,
            local_addr,
            phase: ProxyPhase::Bound,
            failure: None,
            aggregator_exited: false,
            http_stopped: false,
        }
    }

    /// What starts the components, in this order.
    pub open spec fn startup() -> Seq<ProxyAction> {
        seq![
            ProxyAction::SpawnAggregator,
            ProxyAction::SpawnHttpResponder,
            ProxyAction::SpawnAcceptor,
            ProxyAction::InstallSignalHandler,
        ]
    }

    /// The order to start the timer of the forced exit.
    pub open spec fn watchdog(self) -> ProxyAction {
        ProxyAction::StartWatchdog { grace_secs: self.config.grace_period_secs }
    }

    /// What ends a drain that noted `failure`.
    pub open spec fn completion(failure: Option<AppError>) -> Seq<ProxyAction> {
        seq![
            ProxyAction::LogTerminalSnapshot,
            ProxyAction::CancelWatchdog,
            ProxyAction::Finish(outcome(failure)),
        ]
    }

    /// The model after the aggregator (`aggregator`) or the HTTP responder
    /// has returned with `result` during the last phase of the drain, and
    /// what to do then: the drain is complete once both have returned.
    pub open spec fn joined(self, aggregator: bool, result: Result<(), AppError>) -> (
        ProxyModel,
        Seq<ProxyAction>,
    ) {
        let failure = noted(self.failure, result);
        let aggregator_exited = self.aggregator_exited || aggregator;
        let http_stopped = self.http_stopped || !aggregator;
        if aggregator_exited && http_stopped {
            (
                ProxyModel {
                    phase: ProxyPhase::Complete,
                    failure: None,
                    aggregator_exited,
                    http_stopped,
                    ..self
                },
                Self::completion(failure),
            )
        } else {
            (ProxyModel { failure, aggregator_exited, http_stopped, ..self }, Seq::empty())
        }
    }

    /// One transition: the next state and the driver's orders.
    pub open spec fn step(self, event: ProxyEvent) -> (ProxyModel, Seq<ProxyAction>) {
        match (self.phase, event) {
            (ProxyPhase::Bound, ProxyEvent::Start) => (
                ProxyModel { phase: ProxyPhase::Running, ..self },
                Self::startup(),
            ),
            (ProxyPhase::Running, ProxyEvent::Interrupt)
            | (ProxyPhase::Running, ProxyEvent::ShutdownTripped) => (
                ProxyModel { phase: ProxyPhase::Stopping, ..self },
                seq![ProxyAction::TripShutdown, self.watchdog(), ProxyAction::JoinAcceptor],
            ),
            (ProxyPhase::Running, ProxyEvent::AcceptorStopped(result)) => (
                ProxyModel {
                    phase: ProxyPhase::Draining,
                    failure: noted(self.failure, result),
                    ..self
                },
                seq![ProxyAction::TripShutdown, self.watchdog(), ProxyAction::JoinRelays],
            ),
            (ProxyPhase::Stopping, ProxyEvent::AcceptorStopped(result)) => (
                ProxyModel {
                    phase: ProxyPhase::Draining,
                    failure: noted(self.failure, result),
                    ..self
                },
                seq![ProxyAction::JoinRelays],
            ),
            (ProxyPhase::Draining, ProxyEvent::RelaysDrained) => (
                ProxyModel { phase: ProxyPhase::Finishing, ..self },
                seq![
                    ProxyAction::ReleaseEventSender,
                    ProxyAction::JoinAggregator,
                    ProxyAction::JoinHttpResponder,
                ],
            ),
            (ProxyPhase::Finishing, ProxyEvent::AggregatorExited(result)) => if self.aggregator_exited {
                (self, Seq::empty())
            } else {
                self.joined(true, result)
            },
            (ProxyPhase::Finishing, ProxyEvent::HttpStopped(result)) => if self.http_stopped {
                (self, Seq::empty())
            } else {
                self.joined(false, result)
            },
            (ProxyPhase::Stopping, ProxyEvent::WatchdogFired)
            | (ProxyPhase::Draining, ProxyEvent::WatchdogFired)
            | (ProxyPhase::Finishing, ProxyEvent::WatchdogFired) => (
                ProxyModel { phase: ProxyPhase::Forced, failure: None, ..self },
                seq![ProxyAction::ForceExit { status: FORCED_EXIT_STATUS }],
            ),
            _ => (self, Seq::empty()),
        }
    }

    /// The orchestrator after a run of events, first to last.
    pub open spec fn run(self, events: Seq<ProxyEvent>) -> ProxyModel
        decreases events.len(),
    {
        if events.len() == 0 {
            self
        } else {
            self.run(events.drop_last()).step(events.last()).0
        }
    }

    /// All orders given along a run of events, in order.
    pub open spec fn orders(self, events: Seq<ProxyEvent>) -> Seq<ProxyAction>
        decreases events.len(),
    {
        if events.len() == 0 {
            Seq::empty()
        } else {
            self.orders(events.drop_last()) + self.run(events.drop_last()).step(events.last()).1
        }
    }
}

/// The top-level coordinator of the proxy.
#[derive(Debug)]
pub struct Proxy {
    config: Config,
    local_addr: PeerAddr,
    phase: ProxyPhase,
    failure: Option<AppError>,
    aggregator_exited: bool,
    http_stopped: bool,
}

impl View for Proxy {
    type V = ProxyModel;

    closed spec fn view(&self) -> ProxyModel {
        ProxyModel {
            config: self.config,
            local_addr: self.local_addr,
            phase: self.phase,
            failure: self.failure,
            aggregator_exited: self.aggregator_exited,
            http_stopped: self.http_stopped,
        }
    }
}

impl Proxy {
    /// The orchestrator of a proxy whose listener is open at `local_addr`,
    /// together with that address.
    pub fn bind(config: Config, local_addr: PeerAddr) -> (bound: (Proxy, PeerAddr))
        ensures
            bound.1 == local_addr,
            bound.0@ == ProxyModel::fresh(config, local_addr),
    {
        (
            Proxy {
                config,
                local_addr,
                phase: ProxyPhase::Bound,
                failure: None,
                aggregator_exited: false,
                http_stopped: false,
            },
            local_addr,
        )
    }

    pub fn config(&self) -> (config: &Config)
        ensures
            *config == self@.config,
    {
        &self.config
    }

    pub fn local_addr(&self) -> (addr: PeerAddr)
        ensures
            addr == self@.local_addr,
    {
        self.local_addr
    }

    pub fn phase(&self) -> (phase: ProxyPhase)
        ensures
            phase == self@.phase,
    {
        self.phase
    }

    /// Takes one event and gives the driver its orders.
    ///
    /// `Start` brings up the aggregator, the HTTP responder and the acceptor
    /// and installs the signal handler, in this order. The interrupt signal,
    /// the shutdown token or the return of the acceptor begin the shutdown:
    /// the token is tripped and the watchdog started at once. Then the relays
    /// are waited for, then the event sender is released, then the aggregator
    /// and the HTTP responder are waited for, and at last the final snapshot
    /// is logged, the watchdog stopped and the run finished with the first
    /// failure that any task reported. If the watchdog fires before that, the
    /// process is told to leave at once. An event that the phase does not wait
    /// for changes nothing and orders nothing.
    pub fn run(&mut self, event: ProxyEvent) -> (orders: Vec<ProxyAction>)
        ensures
            (final(self)@, orders@) == old(self)@.step(event),
    {
        match (self.phase, event) {
            (ProxyPhase::Bound, ProxyEvent::Start) => {
                self.phase = ProxyPhase::Running;
                vec![
                    ProxyAction::SpawnAggregator,
                    ProxyAction::SpawnHttpResponder,
                    ProxyAction::SpawnAcceptor,
                    ProxyAction::InstallSignalHandler,
                ]
            },
            (ProxyPhase::Running, ProxyEvent::Interrupt) => self.graceful_shutdown(),
            (ProxyPhase::Running, ProxyEvent::ShutdownTripped) => self.graceful_shutdown(),
            (ProxyPhase::Running, ProxyEvent::AcceptorStopped(result)) => {
                self.note(result);
                self.phase = ProxyPhase::Draining;
                vec![
                    ProxyAction::TripShutdown,
                    self.start_force_timeout_task(),
                    ProxyAction::JoinRelays,
                ]
            },
            (ProxyPhase::Stopping, ProxyEvent::AcceptorStopped(result)) => {
                self.note(result);
                self.phase = ProxyPhase::Draining;
                vec![ProxyAction::JoinRelays]
            },
            (ProxyPhase::Draining, ProxyEvent::RelaysDrained) => {
                self.phase = ProxyPhase::Finishing;
                vec![
                    ProxyAction::ReleaseEventSender,
                    ProxyAction::JoinAggregator,
                    ProxyAction::JoinHttpResponder,
                ]
            },
            (ProxyPhase::Finishing, ProxyEvent::AggregatorExited(result)) => {
                if self.aggregator_exited {
                    Vec::new()
                } else {
                    self.note(result);
                    self.aggregator_exited = true;
                    self.complete_if_joined()
                }
            },
            (ProxyPhase::Finishing, ProxyEvent::HttpStopped(result)) => {
                if self.http_stopped {
                    Vec::new()
                } else {
                    self.note(result);
                    self.http_stopped = true;
                    self.complete_if_joined()
                }
            },
            (ProxyPhase::Stopping, ProxyEvent::WatchdogFired)
            | (ProxyPhase::Draining, ProxyEvent::WatchdogFired)
            | (ProxyPhase::Finishing, ProxyEvent::WatchdogFired) => {
                self.phase = ProxyPhase::Forced;
                self.failure = None;
                vec![ProxyAction::ForceExit { status: FORCED_EXIT_STATUS }]
            },
            _ => Vec::new(),
        }
    }

    /// Asks for a graceful shutdown, as the shutdown token does.
    pub fn shutdown(&mut self) -> (orders: Vec<ProxyAction>)
        ensures
            (final(self)@, orders@) == old(self)@.step(ProxyEvent::ShutdownTripped),
    {
        self.run(ProxyEvent::ShutdownTripped)
    }

    /// Begins the shutdown of a running proxy.
    fn graceful_shutdown(&mut self) -> (orders: Vec<ProxyAction>)
        requires
            old(self).phase == ProxyPhase::Running,
        ensures
            (final(self)@, orders@) == old(self)@.step(ProxyEvent::ShutdownTripped),
    {
        self.phase = ProxyPhase::Stopping;
        vec![ProxyAction::TripShutdown, self.start_force_timeout_task(), ProxyAction::JoinAcceptor]
    }

    /// The order to start the timer that forces the exit when the grace
    /// period is over.
    fn start_force_timeout_task(&self) -> (order: ProxyAction)
        ensures
            order == self@.watchdog(),
    {
        ProxyAction::StartWatchdog { grace_secs: self.config.grace_period_secs }
    }

    /// Remembers the failure of `result` unless one is remembered already.
    fn note(&mut self, result: Result<(), AppError>)
        ensures
            final(self)@ == (ProxyModel {
                failure: noted(old(self)@.failure, result),
                ..old(self)@
            }),
    {
        if self.failure.is_none() {
            if let Err(error) = result {
                self.failure = Some(error);
            }
        }
    }

    /// Ends the drain if both the aggregator and the HTTP responder have
    /// returned.
    fn complete_if_joined(&mut self) -> (orders: Vec<ProxyAction>)
        ensures
            old(self).aggregator_exited && old(self).http_stopped ==> final(self)@ == (ProxyModel {
                phase: ProxyPhase::Complete,
                failure: None,
                ..old(self)@
            }) && orders@ == ProxyModel::completion(old(self)@.failure),
            !(old(self).aggregator_exited && old(self).http_stopped) ==> final(self)@ == old(self)@
                && orders@ == Seq::<ProxyAction>::empty(),
    {
        if self.aggregator_exited && self.http_stopped {
            self.phase = ProxyPhase::Complete;
            let result = match self.failure.take() {
                Some(error) => Err(error),
                None => Ok(()),
            };
            vec![ProxyAction::LogTerminalSnapshot, ProxyAction::CancelWatchdog, ProxyAction::Finish(result)]
        } else {
            Vec::new()
        }
    }
}

/// Whether one of `events` is of the kind `wanted`.
pub open spec fn occurred(events: Seq<ProxyEvent>, wanted: spec_fn(ProxyEvent) -> bool) -> bool
    decreases events.len(),
{
    events.len() > 0 && (wanted(events.last()) || occurred(events.drop_last(), wanted))
}

/// The report that every relay has returned.
pub open spec fn relays_drained() -> spec_fn(ProxyEvent) -> bool {
    |event: ProxyEvent| event is RelaysDrained
}

/// A report that the aggregator has returned.
pub open spec fn aggregator_exited() -> spec_fn(ProxyEvent) -> bool {
    |event: ProxyEvent| event is AggregatorExited
}

/// A report that the HTTP responder has returned.
pub open spec fn http_stopped() -> spec_fn(ProxyEvent) -> bool {
    |event: ProxyEvent| event is HttpStopped
}

/// The orchestrator never goes back to an earlier phase: once shutdown has
/// begun it is not undone, and settings and address stay what they were.
pub proof fn lemma_never_goes_back(start: ProxyModel, events: Seq<ProxyEvent>)
    ensures
        start.phase.rank() <= start.run(events).phase.rank(),
        start.run(events).config == start.config,
        start.run(events).local_addr == start.local_addr,
    decreases events.len(),
{
    if events.len() > 0 {
        lemma_never_goes_back(start, events.drop_last());
    }
}

/// After the drain is complete, and after a forced exit, no event changes
/// the orchestrator and none makes it give an order.
pub proof fn lemma_ended_is_silent(start: ProxyModel, events: Seq<ProxyEvent>)
    requires
        start.phase.ended(),
    ensures
        start.run(events) == start,
        start.orders(events) == Seq::<ProxyAction>::empty(),
    decreases events.len(),
{
    if events.len() > 0 {
        lemma_ended_is_silent(start, events.drop_last());
    }
}

/// The watchdog wins over the drain: whenever it fires between the beginning
/// of the shutdown and its end, the one order is to leave the process at once
/// with status zero, and nothing follows.
pub proof fn lemma_watchdog_overrides_drain(model: ProxyModel)
    requires
        model.phase.shutting_down(),
    ensures
        model.step(ProxyEvent::WatchdogFired).1 == seq![
            ProxyAction::ForceExit { status: 0 },
        ],
        model.step(ProxyEvent::WatchdogFired).0.phase == ProxyPhase::Forced,
{
}

/// The drain is complete only after every relay has returned, and after the
/// aggregator and the HTTP responder have returned too.
pub proof fn lemma_complete_only_after_drain(
    config: Config,
    local_addr: PeerAddr,
    events: Seq<ProxyEvent>,
)
    requires
        ProxyModel::fresh(config, local_addr).run(events).phase == ProxyPhase::Complete,
    ensures
        occurred(events, relays_drained()),
        occurred(events, aggregator_exited()),
        occurred(events, http_stopped()),
{
    lemma_drain_is_witnessed(ProxyModel::fresh(config, local_addr), events);
}

proof fn lemma_drain_is_witnessed(start: ProxyModel, events: Seq<ProxyEvent>)
    requires
        start.phase == ProxyPhase::Bound,
        !start.aggregator_exited,
        !start.http_stopped,
    ensures
        ({
            let end = start.run(events);
            &&& end.phase == ProxyPhase::Finishing || end.phase == ProxyPhase::Complete
                ==> occurred(events, relays_drained())
            &&& end.aggregator_exited ==> occurred(events, aggregator_exited())
            &&& end.http_stopped ==> occurred(events, http_stopped())
            &&& end.phase == ProxyPhase::Complete ==> end.aggregator_exited && end.http_stopped
        }),
    decreases events.len(),
{
    if events.len() > 0 {
        lemma_drain_is_witnessed(start, events.drop_last());
    }
}

} // verus!
