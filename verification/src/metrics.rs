//! Connection and byte counters, and the events that drive them.

use std::time::Duration;

use vstd::prelude::*;
use vstd::string::StringExecFns;

use crate::peer::PeerAddr;
use crate::text::{decimal, decimal_string};

verus! {

/// What a relay or the acceptor reports to the aggregator.
#[derive(Debug, Clone, Copy, PartialEq, Eq, Structural)]
pub enum MetricEvent {
    ConnectionOpened(PeerAddr),
    ConnectionClosed(PeerAddr),
    BytesUpstream(PeerAddr, u64),
    BytesDownstream(PeerAddr, u64),
}

/// The counters as unbounded numbers: the model of a `MetricsSnapshot`.
pub struct Counters {
    pub active: nat,
    pub total: nat,
    pub upstream: nat,
    pub downstream: nat,
}

impl Counters {
    /// No counter has been touched yet.
    pub open spec fn zero() -> Counters {
        Counters { active: 0, total: 0, upstream: 0, downstream: 0 }
    }

    /// No more connections are active than were ever opened.
    pub open spec fn wf(self) -> bool {
        self.active <= self.total
    }

    /// Every counter fits the 64 bits of a snapshot field.
    pub open spec fn fits(self) -> bool {
        &&& self.active <= u64::MAX
        &&& self.total <= u64::MAX
        &&& self.upstream <= u64::MAX
        &&& self.downstream <= u64::MAX
    }

    /// The counters after one event.
    pub open spec fn apply(self, event: MetricEvent) -> Counters {
        match event {
            MetricEvent::ConnectionOpened(_) => Counters {
                active: self.active + 1,
                total: self.total + 1,
                ..self
            },
            MetricEvent::ConnectionClosed(_) => Counters {
                active: if self.active == 0 { 0 } else { (self.active - 1) as nat },
                ..self
            },
            MetricEvent::BytesUpstream(_, n) => Counters {
                upstream: self.upstream + n as nat,
                ..self
            },
            MetricEvent::BytesDownstream(_, n) => Counters {
                downstream: self.downstream + n as nat,
                ..self
            },
        }
    }

    /// The snapshot that holds these counters, if they fit.
    pub open spec fn snapshot(self) -> MetricsSnapshot {
        MetricsSnapshot {
            active_connections: self.active as u64,
            total_connections: self.total as u64,
            bytes_upstream: self.upstream as u64,
            bytes_downstream: self.downstream as u64,
        }
    }

    /// The counters after a run of events, first to last.
    pub open spec fn replay(self, events: Seq<MetricEvent>) -> Counters
        decreases events.len(),
    {
        if events.len() == 0 {
            self
        } else {
            self.replay(events.drop_last()).apply(events.last())
        }
    }
}

/// The sum of `weight` over `events`.
pub open spec fn tally(events: Seq<MetricEvent>, weight: spec_fn(MetricEvent) -> nat) -> nat
    decreases events.len(),
{
    if events.len() == 0 {
        0
    } else {
        tally(events.drop_last(), weight) + weight(events.last())
    }
}

/// One for a report that a connection with `peer` opened, zero for the rest.
pub open spec fn opening_of(peer: PeerAddr) -> spec_fn(MetricEvent) -> nat {
    |e: MetricEvent| if e == MetricEvent::ConnectionOpened(peer) { 1nat } else { 0nat }
}

/// One for a report that a connection with `peer` closed, zero for the rest.
pub open spec fn closing_of(peer: PeerAddr) -> spec_fn(MetricEvent) -> nat {
    |e: MetricEvent| if e == MetricEvent::ConnectionClosed(peer) { 1nat } else { 0nat }
}

/// One for a report that a connection opened, zero for the rest.
pub open spec fn any_opening() -> spec_fn(MetricEvent) -> nat {
    |e: MetricEvent| if e is ConnectionOpened { 1nat } else { 0nat }
}

/// The bytes of a report of upstream traffic, zero for the rest.
pub open spec fn bytes_up() -> spec_fn(MetricEvent) -> nat {
    |e: MetricEvent|
        match e {
            MetricEvent::BytesUpstream(_, n) => n as nat,
            _ => 0nat,
        }
}

/// The bytes of a report of downstream traffic, zero for the rest.
pub open spec fn bytes_down() -> spec_fn(MetricEvent) -> nat {
    |e: MetricEvent|
        match e {
            MetricEvent::BytesDownstream(_, n) => n as nat,
            _ => 0nat,
        }
}

/// How many times `events` reports a connection with `peer` opened.
pub open spec fn opened_count(events: Seq<MetricEvent>, peer: PeerAddr) -> nat {
    tally(events, opening_of(peer))
}

/// How many times `events` reports a connection with `peer` closed.
pub open spec fn closed_count(events: Seq<MetricEvent>, peer: PeerAddr) -> nat {
    tally(events, closing_of(peer))
}

/// How many connections `events` reports opened, whatever the peer.
pub open spec fn openings(events: Seq<MetricEvent>) -> nat {
    tally(events, any_opening())
}

/// The bytes that `events` reports as sent upstream.
pub open spec fn upstream_bytes(events: Seq<MetricEvent>) -> nat {
    tally(events, bytes_up())
}

/// The bytes that `events` reports as sent downstream.
pub open spec fn downstream_bytes(events: Seq<MetricEvent>) -> nat {
    tally(events, bytes_down())
}

/// A tally over two runs of events, one after the other, is the sum of the
/// two tallies.
pub proof fn lemma_tally_concat(
    first: Seq<MetricEvent>,
    second: Seq<MetricEvent>,
    weight: spec_fn(MetricEvent) -> nat,
)
    ensures
        tally(first + second, weight) == tally(first, weight) + tally(second, weight),
    decreases second.len(),
{
    if second.len() == 0 {
        assert(first + second =~= first);
    } else {
        assert((first + second).drop_last() =~= first + second.drop_last());
        lemma_tally_concat(first, second.drop_last(), weight);
    }
}

/// Replaying two runs of events, one after the other, is replaying the second
/// on what the first left.
pub proof fn lemma_replay_concat(
    start: Counters,
    first: Seq<MetricEvent>,
    second: Seq<MetricEvent>,
)
    ensures
        start.replay(first + second) == start.replay(first).replay(second),
    decreases second.len(),
{
    if second.len() == 0 {
        assert(first + second =~= first);
    } else {
        assert((first + second).drop_last() =~= first + second.drop_last());
        lemma_replay_concat(start, first, second.drop_last());
    }
}

/// Whatever the events, the counters stay well formed, and the total of
/// connections and the two byte counters never go down.
pub proof fn lemma_replay_monotonic(start: Counters, events: Seq<MetricEvent>)
    requires
        start.wf(),
    ensures
        start.replay(events).wf(),
        start.total <= start.replay(events).total,
        start.upstream <= start.replay(events).upstream,
        start.downstream <= start.replay(events).downstream,
    decreases events.len(),
{
    if events.len() > 0 {
        lemma_replay_monotonic(start, events.drop_last());
    }
}

/// Of two snapshots taken along one run of events, after `i` and after `j`
/// events, both are well formed and the later one has at least the total and
/// the byte counts of the earlier one.
pub proof fn lemma_snapshots_ordered(start: Counters, events: Seq<MetricEvent>, i: int, j: int)
    requires
        start.wf(),
        0 <= i <= j <= events.len(),
    ensures
        start.replay(events.take(i)).wf(),
        start.replay(events.take(j)).wf(),
        start.replay(events.take(i)).total <= start.replay(events.take(j)).total,
        start.replay(events.take(i)).upstream <= start.replay(events.take(j)).upstream,
        start.replay(events.take(i)).downstream <= start.replay(events.take(j)).downstream,
{
    let between = events.subrange(i, j);
    assert(events.take(j) =~= events.take(i) + between);
    lemma_replay_concat(start, events.take(i), between);
    lemma_replay_monotonic(start, events.take(i));
    lemma_replay_monotonic(start.replay(events.take(i)), between);
}

/// The counters grow by exactly what the events report: the total by the
/// openings, each byte counter by the sum of the bytes of its direction.
pub proof fn lemma_replay_counts(start: Counters, events: Seq<MetricEvent>)
    ensures
        start.replay(events).total == start.total + openings(events),
        start.replay(events).upstream == start.upstream + upstream_bytes(events),
        start.replay(events).downstream == start.downstream + downstream_bytes(events),
    decreases events.len(),
{
    if events.len() > 0 {
        lemma_replay_counts(start, events.drop_last());
    }
}

/// Each byte report that reaches the aggregator is in the counter of its
/// direction at the end of the run, whatever else was reported.
pub proof fn lemma_report_is_counted(start: Counters, events: Seq<MetricEvent>, k: int)
    requires
        0 <= k < events.len(),
    ensures
        events[k] matches MetricEvent::BytesUpstream(_, n) ==> start.replay(events).upstream
            >= start.upstream + n,
        events[k] matches MetricEvent::BytesDownstream(_, n) ==> start.replay(
            events,
        ).downstream >= start.downstream + n,
    decreases events.len(),
{
    lemma_replay_counts(start, events.drop_last());
    if k < events.len() - 1 {
        lemma_report_is_counted(start, events.drop_last(), k);
    }
}

/// The aggregate counters at one instant.
#[derive(Debug, Clone, Copy, PartialEq, Eq, Structural)]
pub struct MetricsSnapshot {
    pub active_connections: u64,
    pub total_connections: u64,
    pub bytes_upstream: u64,
    pub bytes_downstream: u64,
}

impl View for MetricsSnapshot {
    type V = Counters;

    open spec fn view(&self) -> Counters {
        Counters {
            active: self.active_connections as nat,
            total: self.total_connections as nat,
            upstream: self.bytes_upstream as nat,
            downstream: self.bytes_downstream as nat,
        }
    }
}

impl Default for MetricsSnapshot {
    fn default() -> (snapshot: MetricsSnapshot)
        ensures
            snapshot@ == Counters::zero(),
    {
        MetricsSnapshot {
            active_connections: 0,
            total_connections: 0,
            bytes_upstream: 0,
            bytes_downstream: 0,
        }
    }
}

impl MetricsSnapshot {
    /// The four counters as text: on each line a name, a space and the
    /// counter in decimal; no line break after the last line.
    pub open spec fn plain_text(self) -> Seq<char> {
        "connections_active "@ + decimal(self.active_connections as nat)
            + "\nconnections_total "@ + decimal(self.total_connections as nat)
            + "\nbytes_upstream "@ + decimal(self.bytes_upstream as nat)
            + "\nbytes_downstream "@ + decimal(self.bytes_downstream as nat)
    }

    /// Renders the counters as four lines of plain text.
    pub fn to_plain_text(&self) -> (text: String)
        ensures
            text@ == self.plain_text(),
    {
        let active = decimal_string(self.active_connections);
        let total = decimal_string(self.total_connections);
        let upstream = decimal_string(self.bytes_upstream);
        let downstream = decimal_string(self.bytes_downstream);
        String::from_str("connections_active ").concat(active.as_str()).concat(
            "\nconnections_total ",
        ).concat(total.as_str()).concat("\nbytes_upstream ").concat(upstream.as_str()).concat(
            "\nbytes_downstream ",
        ).concat(downstream.as_str())
    }

    /// Whether the counters have room for `event`.
    pub fn has_room_for(&self, event: &MetricEvent) -> (yes: bool)
        ensures
            yes == self@.apply(*event).fits(),
    {
        match event {
            MetricEvent::ConnectionOpened(_) => self.active_connections < u64::MAX
                && self.total_connections < u64::MAX,
            MetricEvent::ConnectionClosed(_) => true,
            MetricEvent::BytesUpstream(_, n) => *n <= u64::MAX - self.bytes_upstream,
            MetricEvent::BytesDownstream(_, n) => *n <= u64::MAX - self.bytes_downstream,
        }
    }

    /// Folds one event into the counters.
    pub fn record(&mut self, event: MetricEvent)
        requires
            old(self)@.apply(event).fits(),
        ensures
            final(self)@ == old(self)@.apply(event),
    {
        match event {
            MetricEvent::ConnectionOpened(_) => {
                self.active_connections = self.active_connections + 1;
                self.total_connections = self.total_connections + 1;
            },
            MetricEvent::ConnectionClosed(_) => {
                self.active_connections = self.active_connections.saturating_sub(1);
            },
            MetricEvent::BytesUpstream(_, n) => {
                self.bytes_upstream = self.bytes_upstream + n;
            },
            MetricEvent::BytesDownstream(_, n) => {
                self.bytes_downstream = self.bytes_downstream + n;
            },
        }
    }
}

/// What reaches the aggregator.
#[derive(Debug, Clone, Copy, PartialEq, Eq, Structural)]
pub enum CollectorInput {
    /// An event came out of the queue.
    Event(MetricEvent),
    /// The queue is closed: every sender is gone.
    Closed,
    /// The log timer ticked.
    Tick,
}

/// What the aggregator's driver has to do next.
#[derive(Debug, Clone, Copy, PartialEq, Eq, Structural)]
pub enum CollectorOutput {
    /// Put this snapshot in the broadcast slot.
    Publish(MetricsSnapshot),
    /// Log this snapshot.
    Log(MetricsSnapshot),
    /// Put this last snapshot in the broadcast slot and leave the loop.
    Finish(MetricsSnapshot),
    /// The aggregator has left its loop already: nothing to do.
    Stopped,
}

/// The model of a `MetricsCollector`.
pub struct CollectorModel {
    pub counters: Counters,
    pub finished: bool,
    pub buffer_size: usize,
    pub log_interval: Duration,
}

impl CollectorModel {
    /// Whether the aggregator can take `input`: an event must leave every
    /// counter within 64 bits.
    pub open spec fn accepts(self, input: CollectorInput) -> bool {
        !self.finished ==> (input matches CollectorInput::Event(event)
            ==> self.counters.apply(event).fits())
    }

    /// One turn of the aggregator's loop.
    pub open spec fn step(self, input: CollectorInput) -> (CollectorModel, CollectorOutput) {
        if self.finished {
            (self, CollectorOutput::Stopped)
        } else {
            match input {
                CollectorInput::Event(event) => {
                    let counters = self.counters.apply(event);
                    (
                        CollectorModel { counters, ..self },
                        CollectorOutput::Publish(counters.snapshot()),
                    )
                },
                CollectorInput::Closed => (
                    CollectorModel { finished: true, ..self },
                    CollectorOutput::Finish(self.counters.snapshot()),
                ),
                CollectorInput::Tick => (self, CollectorOutput::Log(self.counters.snapshot())),
            }
        }
    }

    /// The aggregator after a run of inputs, first to last.
    pub open spec fn run(self, inputs: Seq<CollectorInput>) -> CollectorModel
        decreases inputs.len(),
    {
        if inputs.len() == 0 {
            self
        } else {
            self.run(inputs.drop_last()).step(inputs.last()).0
        }
    }
}

/// The single writer of the counters: it folds the events of the queue into
/// its snapshot and says after each one what to publish.
#[derive(Debug)]
pub struct MetricsCollector {
    state: MetricsSnapshot,
    log_interval: Duration,
    buffer_size: usize,
    finished: bool,
}

impl View for MetricsCollector {
    type V = CollectorModel;

    closed spec fn view(&self) -> CollectorModel {
        CollectorModel {
            counters: self.state@,
            finished: self.finished,
            buffer_size: self.buffer_size,
            log_interval: self.log_interval,
        }
    }
}

impl MetricsCollector {
    /// No more connections are active than were ever opened.
    #[verifier::type_invariant]
    spec fn well_formed(self) -> bool {
        self.state@.wf()
    }

    /// A collector with all counters at zero, for a queue of `buffer_size`
    /// events and a log line every `log_interval`.
    pub fn new(buffer_size: usize, log_interval: Duration) -> (collector: MetricsCollector)
        requires
            buffer_size > 0,
        ensures
            collector@ == (CollectorModel {
                counters: Counters::zero(),
                finished: false,
                buffer_size,
                log_interval,
            }),
    {
        MetricsCollector {
            state: MetricsSnapshot::default(),
            log_interval,
            buffer_size,
            finished: false,
        }
    }

    /// How many events the queue in front of this collector holds.
    pub fn buffer_size(&self) -> (size: usize)
        ensures
            size == self@.buffer_size,
    {
        self.buffer_size
    }

    /// How often the counters are logged.
    pub fn log_interval(&self) -> (interval: Duration)
        ensures
            interval == self@.log_interval,
    {
        self.log_interval
    }

    /// The counters as they stand.
    pub fn snapshot(&self) -> (snapshot: MetricsSnapshot)
        ensures
            snapshot@ == self@.counters,
            snapshot@.wf(),
    {
        proof {
            use_type_invariant(self);
        }
        self.state
    }

    /// Whether the collector has left its loop.
    pub fn is_finished(&self) -> (finished: bool)
        ensures
            finished == self@.finished,
    {
        self.finished
    }

    /// Whether `run` can take `input`.
    pub fn accepts(&self, input: &CollectorInput) -> (yes: bool)
        ensures
            yes == self@.accepts(*input),
    {
        match input {
            CollectorInput::Event(event) => self.finished || self.state.has_room_for(event),
            _ => true,
        }
    }

    /// One turn of the loop: an event is folded into the counters and the new
    /// snapshot is to be published; a tick asks for a log line; the end of the
    /// queue asks for a last publication and ends the loop. After that the
    /// collector answers `Stopped` and its counters stay as they are.
    pub fn run(&mut self, input: CollectorInput) -> (output: CollectorOutput)
        requires
            old(self)@.accepts(input),
        ensures
            (final(self)@, output) == old(self)@.step(input),
            final(self)@.counters.wf(),
    {
        proof {
            use_type_invariant(&*self);
        }
        if self.finished {
            return CollectorOutput::Stopped;
        }
        match input {
            CollectorInput::Event(event) => {
                self.handle_event(event);
                CollectorOutput::Publish(self.state)
            },
            CollectorInput::Closed => {
                self.finished = true;
                CollectorOutput::Finish(self.state)
            },
            CollectorInput::Tick => CollectorOutput::Log(self.state),
        }
    }

    /// Folds one event into the counters: an opening adds one to the active
    /// and to the total connections, a closing takes one from the active ones
    /// and stops at zero, and bytes are added to the counter of their
    /// direction.
    fn handle_event(&mut self, event: MetricEvent)
        requires
            old(self)@.counters.apply(event).fits(),
        ensures
            final(self)@ == (CollectorModel {
                counters: old(self)@.counters.apply(event),
                ..old(self)@
            }),
            final(self).state == final(self)@.counters.snapshot(),
    {
        proof {
            use_type_invariant(&*self);
        }
        let mut state = self.state;
        state.record(event);
        self.state = state;
    }
}

/// Every snapshot that the aggregator hands out is well formed, and a later
/// one has at least the total and the byte counts of an earlier one.
pub proof fn lemma_collector_monotonic(start: CollectorModel, inputs: Seq<CollectorInput>)
    requires
        start.counters.wf(),
    ensures
        start.run(inputs).counters.wf(),
        start.counters.total <= start.run(inputs).counters.total,
        start.counters.upstream <= start.run(inputs).counters.upstream,
        start.counters.downstream <= start.run(inputs).counters.downstream,
        start.finished ==> start.run(inputs).finished,
    decreases inputs.len(),
{
    if inputs.len() > 0 {
        lemma_collector_monotonic(start, inputs.drop_last());
    }
}

/// Once the aggregator has left its loop, nothing changes its counters and it
/// asks for no publication any more.
pub proof fn lemma_collector_stays_finished(start: CollectorModel, inputs: Seq<CollectorInput>)
    requires
        start.finished,
    ensures
        start.run(inputs) == start,
        forall|input: CollectorInput| #[trigger]
            start.run(inputs).step(input) == (start, CollectorOutput::Stopped),
    decreases inputs.len(),
{
    if inputs.len() > 0 {
        lemma_collector_stays_finished(start, inputs.drop_last());
    }
}

} // verus!
