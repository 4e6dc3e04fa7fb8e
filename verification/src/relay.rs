//! One direction of a connection: the copy loop as a state machine.
//!
//! A relay waits for one of three things (a read from its source, the token
//! of its connection, the global shutdown token), forwards what it read to its
//! sink, and leaves when either stream or either token says so. The driver
//! performs the reads and writes and reports each outcome to `RelayTask::step`,
//! which answers with what to do next.

use vstd::prelude::*;

use crate::metrics::{
    bytes_down, bytes_up, closed_count, closing_of, downstream_bytes, lemma_replay_counts,
    lemma_tally_concat, opened_count, opening_of, tally, upstream_bytes, Counters, MetricEvent,
};
use crate::peer::PeerAddr;
use crate::proxy::AppError;

verus! {

/// The size of a relay's scratch buffer, in bytes.
pub const RELAY_BUFFER_SIZE: usize = 1024;

/// Which way a relay copies.
#[derive(Debug, Clone, Copy, PartialEq, Eq, Structural)]
pub enum Direction {
    /// From the client to the target.
    Upstream,
    /// From the target back to the client.
    Downstream,
}

/// Where a relay stands in its loop.
#[derive(Debug, Clone, Copy, PartialEq, Eq, Structural)]
pub enum RelayState {
    /// Waiting for a read or for one of the two tokens.
    Reading,
    /// Writing what was read; nothing interrupts this.
    Writing,
    /// Out of the loop, for good.
    Done,
}

/// What the driver reports to a relay.
#[derive(Debug, Clone, Copy, PartialEq, Eq, Structural)]
pub enum RelayEvent {
    /// The read returned this many bytes; zero is the orderly end of the stream.
    Read(usize),
    /// The read returned an error.
    ReadFailed,
    /// The write went through in full.
    Written,
    /// The write returned an error.
    WriteFailed,
    /// The token of this connection was tripped, by the other direction.
    ConnectionTripped,
    /// The global shutdown token was tripped.
    ShutdownTripped,
}

/// What the driver has to do next.
#[derive(Debug, Clone, Copy, PartialEq, Eq, Structural)]
pub enum RelayAction {
    /// Wait for the next read or token.
    Await,
    /// Report `report`, then write the first `len` bytes of the buffer in full.
    Forward { report: MetricEvent, len: usize },
    /// Leave the loop: trip the connection token first if `trip` says so, and
    /// report `closed` if there is one.
    Exit { trip: bool, closed: Option<MetricEvent> },
    /// The event has no meaning in the relay's state: nothing changed, and the
    /// driver goes on as before.
    Ignored,
}

/// The model of a `RelayTask`.
pub struct RelayModel {
    pub direction: Direction,
    pub peer: PeerAddr,
    pub state: RelayState,
}

impl RelayModel {
    /// A relay that has not read anything yet.
    pub open spec fn fresh(direction: Direction, peer: PeerAddr) -> RelayModel {
        RelayModel { direction, peer, state: RelayState::Reading }
    }

    /// The event by which this relay reports `n` forwarded bytes.
    pub open spec fn bytes_event(self, n: usize) -> MetricEvent {
        match self.direction {
            Direction::Upstream => MetricEvent::BytesUpstream(self.peer, n as u64),
            Direction::Downstream => MetricEvent::BytesDownstream(self.peer, n as u64),
        }
    }

    /// What this relay reports when it leaves: the upstream relay closes the
    /// connection's account, the downstream relay says nothing.
    pub open spec fn closing_event(self) -> Option<MetricEvent> {
        match self.direction {
            Direction::Upstream => Some(MetricEvent::ConnectionClosed(self.peer)),
            Direction::Downstream => None,
        }
    }

    /// This relay, out of its loop.
    pub open spec fn finished(self) -> RelayModel {
        RelayModel { state: RelayState::Done, ..self }
    }

    /// Whether `event` is one that the relay's state waits for.
    pub open spec fn expects(self, event: RelayEvent) -> bool {
        match self.state {
            RelayState::Reading => event != RelayEvent::Written && event
                != RelayEvent::WriteFailed,
            RelayState::Writing => event == RelayEvent::Written || event
                == RelayEvent::WriteFailed,
            RelayState::Done => false,
        }
    }

    /// One transition: the next state and the driver's next action.
    pub open spec fn step(self, event: RelayEvent) -> (RelayModel, RelayAction) {
        if !self.expects(event) {
            (self, RelayAction::Ignored)
        } else {
            match event {
                RelayEvent::Read(n) => if n == 0 {
                    (self.finished(), RelayAction::Exit { trip: true, closed: self.closing_event() })
                } else {
                    (
                        RelayModel { state: RelayState::Writing, ..self },
                        RelayAction::Forward { report: self.bytes_event(n), len: n },
                    )
                },
                RelayEvent::Written => (
                    RelayModel { state: RelayState::Reading, ..self },
                    RelayAction::Await,
                ),
                RelayEvent::ConnectionTripped => (
                    self.finished(),
                    RelayAction::Exit { trip: false, closed: self.closing_event() },
                ),
                RelayEvent::ReadFailed | RelayEvent::WriteFailed | RelayEvent::ShutdownTripped => (
                    self.finished(),
                    RelayAction::Exit { trip: true, closed: self.closing_event() },
                ),
            }
        }
    }

    /// The relay after a run of events, first to last.
    pub open spec fn run(self, events: Seq<RelayEvent>) -> RelayModel
        decreases events.len(),
    {
        if events.len() == 0 {
            self
        } else {
            self.run(events.drop_last()).step(events.last()).0
        }
    }

    /// The driver's actions along a run of events, one for each event.
    pub open spec fn actions(self, events: Seq<RelayEvent>) -> Seq<RelayAction>
        decreases events.len(),
    {
        if events.len() == 0 {
            Seq::empty()
        } else {
            self.actions(events.drop_last()).push(
                self.run(events.drop_last()).step(events.last()).1,
            )
        }
    }

    /// Everything the relay reports along a run of events, in order.
    pub open spec fn emitted(self, events: Seq<RelayEvent>) -> Seq<MetricEvent> {
        reported(self.actions(events))
    }
}

/// What one action reports: nothing or one event.
pub open spec fn reported_by(action: RelayAction) -> Seq<MetricEvent> {
    match action {
        RelayAction::Forward { report, .. } => seq![report],
        RelayAction::Exit { closed: Some(report), .. } => seq![report],
        _ => Seq::empty(),
    }
}

/// What a run of actions reports, in order.
pub open spec fn reported(actions: Seq<RelayAction>) -> Seq<MetricEvent>
    decreases actions.len(),
{
    if actions.len() == 0 {
        Seq::empty()
    } else {
        reported(actions.drop_last()) + reported_by(actions.last())
    }
}

/// One direction of a connection.
#[derive(Debug, PartialEq, Eq)]
pub struct RelayTask {
    direction: Direction,
    peer: PeerAddr,
    state: RelayState,
}

impl View for RelayTask {
    type V = RelayModel;

    closed spec fn view(&self) -> RelayModel {
        RelayModel { direction: self.direction, peer: self.peer, state: self.state }
    }
}

impl RelayTask {
    /// A relay for one direction of the connection with `peer`, about to read.
    pub fn new(direction: Direction, peer: PeerAddr) -> (task: RelayTask)
        ensures
            task@ == RelayModel::fresh(direction, peer),
    {
        RelayTask { direction, peer, state: RelayState::Reading }
    }

    pub fn direction(&self) -> (direction: Direction)
        ensures
            direction == self@.direction,
    {
        self.direction
    }

    pub fn peer(&self) -> (peer: PeerAddr)
        ensures
            peer == self@.peer,
    {
        self.peer
    }

    pub fn state(&self) -> (state: RelayState)
        ensures
            state == self@.state,
    {
        self.state
    }

    /// Takes one event and says what to do next.
    ///
    /// A non-empty read is reported and forwarded; the next read is asked for
    /// only after the write is through. The end of the stream, a failed read
    /// or write and the shutdown token trip the connection token and end the
    /// loop; the connection token just ends it. The upstream relay reports the
    /// connection closed as it leaves, whatever made it leave.
    pub fn step(&mut self, event: RelayEvent) -> (action: RelayAction)
        ensures
            (final(self)@, action) == old(self)@.step(event),
    {
        match (self.state, event) {
            (RelayState::Reading, RelayEvent::Read(n)) => {
                if n == 0 {
                    self.leave(true)
                } else {
                    self.state = RelayState::Writing;
                    RelayAction::Forward { report: self.bytes_event(n), len: n }
                }
            },
            (RelayState::Reading, RelayEvent::ConnectionTripped) => self.leave(false),
            (RelayState::Reading, RelayEvent::ReadFailed) => self.leave(true),
            (RelayState::Reading, RelayEvent::ShutdownTripped) => self.leave(true),
            (RelayState::Writing, RelayEvent::Written) => {
                self.state = RelayState::Reading;
                RelayAction::Await
            },
            (RelayState::Writing, RelayEvent::WriteFailed) => self.leave(true),
            _ => RelayAction::Ignored,
        }
    }

    fn bytes_event(&self, n: usize) -> (event: MetricEvent)
        ensures
            event == self@.bytes_event(n),
    {
        match self.direction {
            Direction::Upstream => MetricEvent::BytesUpstream(self.peer, n as u64),
            Direction::Downstream => MetricEvent::BytesDownstream(self.peer, n as u64),
        }
    }

    fn leave(&mut self, trip: bool) -> (action: RelayAction)
        ensures
            final(self)@ == old(self)@.finished(),
            action == (RelayAction::Exit { trip, closed: old(self)@.closing_event() }),
    {
        self.state = RelayState::Done;
        let closed = match self.direction {
            Direction::Upstream => Some(MetricEvent::ConnectionClosed(self.peer)),
            Direction::Downstream => None,
        };
        RelayAction::Exit { trip, closed }
    }
}

/// The two relays of one accepted connection, ready to be started.
#[derive(Debug, PartialEq, Eq)]
pub struct Connection {
    pub peer: PeerAddr,
    pub upstream: RelayTask,
    pub downstream: RelayTask,
}

/// How the dial to the target went.
#[derive(Debug, Clone, Copy, PartialEq, Eq, Structural)]
pub enum DialOutcome {
    Connected,
    Failed,
}

/// What becomes of an accepted client.
#[derive(Debug, PartialEq, Eq)]
pub enum Admission {
    /// The target answered: report `opened`, split both streams, make a token
    /// for the connection and start its two relays.
    Paired { opened: MetricEvent, connection: Connection },
    /// The target did not answer: close the client's stream. Nothing is
    /// reported, and the acceptor goes on.
    Refused,
}

/// Decides what becomes of the client `peer` once the dial to the target has
/// returned. A connection is reported as opened if and only if the dial
/// succeeded.
pub fn accept_connection(peer: PeerAddr, dial: DialOutcome) -> (admission: Admission)
    ensures
        dial == DialOutcome::Failed <==> admission == Admission::Refused,
        dial == DialOutcome::Connected ==> (admission matches Admission::Paired {
            opened,
            connection,
        } && opened == MetricEvent::ConnectionOpened(peer) && connection.peer == peer
            && connection.upstream@ == RelayModel::fresh(Direction::Upstream, peer)
            && connection.downstream@ == RelayModel::fresh(Direction::Downstream, peer)),
{
    match dial {
        DialOutcome::Connected => Admission::Paired {
            opened: MetricEvent::ConnectionOpened(peer),
            connection: Connection {
                peer,
                upstream: RelayTask::new(Direction::Upstream, peer),
                downstream: RelayTask::new(Direction::Downstream, peer),
            },
        },
        DialOutcome::Failed => Admission::Refused,
    }
}

/// Why the listener could not hand out a connection.
#[derive(Debug, PartialEq, Eq)]
pub enum AcceptError {
    /// The process or the system has no file descriptor left.
    DescriptorsExhausted,
    /// The system has no memory or buffer space left for the socket.
    MemoryExhausted,
    /// Anything else, with the text of the error.
    Other(String),
}

impl AcceptError {
    /// Whether the listener may work again once resources are freed.
    pub open spec fn temporary(self) -> bool {
        !(self is Other)
    }

    /// Whether the listener may work again once resources are freed.
    pub fn is_temporary(&self) -> (yes: bool)
        ensures
            yes == self.temporary(),
    {
        match self {
            AcceptError::DescriptorsExhausted => true,
            AcceptError::MemoryExhausted => true,
            AcceptError::Other(_) => false,
        }
    }
}

/// What the acceptor does next.
#[derive(Debug, PartialEq, Eq)]
pub enum AcceptorAction {
    /// Stop accepting and return; connections in flight are left alone.
    Stop,
    /// Nothing happened: keep waiting.
    Wait,
    /// A client is here: dial the target, then ask `accept_connection`.
    Dial(PeerAddr),
    /// The listener is short of resources for now: accept again.
    Retry,
    /// The listener is broken: give up and hand the error to the orchestrator.
    Fail(AppError),
}

/// One turn of the accept loop: `shutdown_tripped` says whether the global
/// shutdown token is tripped, `accepted` what the listener returned, if it
/// returned. Shutdown wins over a client that arrived at the same moment.
pub fn run_server(shutdown_tripped: bool, accepted: Option<Result<PeerAddr, AcceptError>>) -> (action:
    AcceptorAction)
    ensures
        shutdown_tripped ==> action == AcceptorAction::Stop,
        !shutdown_tripped ==> match accepted {
            None => action == AcceptorAction::Wait,
            Some(Ok(peer)) => action == AcceptorAction::Dial(peer),
            Some(Err(error)) => if error.temporary() {
                action == AcceptorAction::Retry
            } else {
                error matches AcceptError::Other(detail) && action == AcceptorAction::Fail(
                    AppError::Socket(detail),
                )
            },
        },
{
    if shutdown_tripped {
        return AcceptorAction::Stop;
    }
    match accepted {
        None => AcceptorAction::Wait,
        Some(Ok(peer)) => AcceptorAction::Dial(peer),
        Some(Err(error)) => {
            if error.is_temporary() {
                AcceptorAction::Retry
            } else {
                match error {
                    AcceptError::Other(detail) => AcceptorAction::Fail(AppError::Socket(detail)),
                    _ => AcceptorAction::Retry,
                }
            }
        },
    }
}

/// The bytes that `actions` order written.
pub open spec fn forwarded(actions: Seq<RelayAction>) -> nat
    decreases actions.len(),
{
    if actions.len() == 0 {
        0
    } else {
        forwarded(actions.drop_last()) + match actions.last() {
            RelayAction::Forward { len, .. } => len as nat,
            _ => 0nat,
        }
    }
}

/// The events of a relay that reads one chunk after the other and sees each
/// write go through: for each length in `chunks`, a read of that length and a
/// finished write.
pub open spec fn copy_events(chunks: Seq<usize>) -> Seq<RelayEvent>
    decreases chunks.len(),
{
    if chunks.len() == 0 {
        Seq::empty()
    } else {
        copy_events(chunks.drop_last()).push(RelayEvent::Read(chunks.last())).push(
            RelayEvent::Written,
        )
    }
}

/// What a relay that reads the chunks of `lengths` answers when all goes well:
/// for each chunk, the order to report and write it, then the order to wait
/// for the next.
pub open spec fn copy_actions(relay: RelayModel, lengths: Seq<usize>) -> Seq<RelayAction>
    decreases lengths.len(),
{
    if lengths.len() == 0 {
        Seq::empty()
    } else {
        copy_actions(relay, lengths.drop_last()).push(
            RelayAction::Forward { report: relay.bytes_event(lengths.last()), len: lengths.last() },
        ).push(RelayAction::Await)
    }
}

/// What the sink has received once the driver has carried out `actions`, if
/// the source delivered `chunks`: each order to forward is for the chunk read
/// just before it, and writes that chunk's first `len` bytes.
pub open spec fn delivered(actions: Seq<RelayAction>, chunks: Seq<Seq<u8>>) -> Seq<u8>
    decreases actions.len(),
{
    if actions.len() == 0 {
        Seq::empty()
    } else {
        match actions.last() {
            RelayAction::Forward { len, .. } => if chunks.len() == 0 {
                delivered(actions.drop_last(), chunks)
            } else {
                delivered(actions.drop_last(), chunks.drop_last()) + chunks.last().subrange(
                    0,
                    len as int,
                )
            },
            _ => delivered(actions.drop_last(), chunks),
        }
    }
}

/// The lengths of `chunks`.
pub open spec fn lengths_of(chunks: Seq<Seq<u8>>) -> Seq<usize> {
    Seq::new(chunks.len(), |i: int| chunks[i].len() as usize)
}

/// A relay keeps its direction and its peer, and once it is done it stays
/// done.
pub proof fn lemma_run_keeps_identity(start: RelayModel, events: Seq<RelayEvent>)
    ensures
        start.run(events).direction == start.direction,
        start.run(events).peer == start.peer,
        start.state == RelayState::Done ==> start.run(events) == start,
    decreases events.len(),
{
    if events.len() > 0 {
        lemma_run_keeps_identity(start, events.drop_last());
    }
}

/// A relay that is done answers every event with `Ignored`, reports nothing
/// and does not change.
pub proof fn lemma_done_is_silent(start: RelayModel, events: Seq<RelayEvent>)
    requires
        start.state == RelayState::Done,
    ensures
        start.run(events) == start,
        start.emitted(events) == Seq::<MetricEvent>::empty(),
        forall|i: int| 0 <= i < events.len() ==> start.actions(events)[i] == RelayAction::Ignored,
        start.actions(events).len() == events.len(),
    decreases events.len(),
{
    if events.len() > 0 {
        let before = events.drop_last();
        lemma_done_is_silent(start, before);
        assert(start.actions(events).drop_last() =~= start.actions(before));
    }
}

/// Along any run of events a relay never reports a connection opened, and it
/// reports the connection with its peer closed exactly once if it is the
/// upstream relay and the run takes it out of its loop, and never otherwise.
pub proof fn lemma_closes_once(start: RelayModel, events: Seq<RelayEvent>, peer: PeerAddr)
    ensures
        opened_count(start.emitted(events), peer) == 0,
        closed_count(start.emitted(events), peer) == if peer == start.peer && start.direction
            == Direction::Upstream && start.state != RelayState::Done && start.run(events).state
            == RelayState::Done {
            1nat
        } else {
            0nat
        },
    decreases events.len(),
{
    if events.len() > 0 {
        let before = events.drop_last();
        let last = start.run(before).step(events.last()).1;
        lemma_closes_once(start, before, peer);
        lemma_run_keeps_identity(start, before);
        assert(start.actions(events).drop_last() =~= start.actions(before));
        lemma_tally_concat(start.emitted(before), reported_by(last), opening_of(peer));
        lemma_tally_concat(start.emitted(before), reported_by(last), closing_of(peer));
        lemma_tally_single(last, opening_of(peer));
        lemma_tally_single(last, closing_of(peer));
    }
}

/// The tally of what one action reports.
proof fn lemma_tally_single(action: RelayAction, weight: spec_fn(MetricEvent) -> nat)
    ensures
        tally(reported_by(action), weight) == match action {
            RelayAction::Forward { report, .. } => weight(report),
            RelayAction::Exit { closed: Some(report), .. } => weight(report),
            _ => 0nat,
        },
{
    let reports = reported_by(action);
    assert(tally(Seq::<MetricEvent>::empty(), weight) == 0);
    if reports.len() > 0 {
        assert(reports.drop_last() =~= Seq::<MetricEvent>::empty());
    }
}

/// For a connection whose dial succeeded and whose two relays have both left
/// their loops, the acceptor and the relays together have reported exactly one
/// opening and exactly one closing of the connection with its peer.
pub proof fn lemma_connection_opens_and_closes_once(
    peer: PeerAddr,
    upstream_events: Seq<RelayEvent>,
    downstream_events: Seq<RelayEvent>,
)
    requires
        RelayModel::fresh(Direction::Upstream, peer).run(upstream_events).state
            == RelayState::Done,
        RelayModel::fresh(Direction::Downstream, peer).run(downstream_events).state
            == RelayState::Done,
    ensures
        ({
            let reports = seq![MetricEvent::ConnectionOpened(peer)] + RelayModel::fresh(
                Direction::Upstream,
                peer,
            ).emitted(upstream_events) + RelayModel::fresh(Direction::Downstream, peer).emitted(
                downstream_events,
            );
            opened_count(reports, peer) == 1 && closed_count(reports, peer) == 1
        }),
{
    let opening = seq![MetricEvent::ConnectionOpened(peer)];
    let up = RelayModel::fresh(Direction::Upstream, peer).emitted(upstream_events);
    let down = RelayModel::fresh(Direction::Downstream, peer).emitted(downstream_events);
    lemma_closes_once(RelayModel::fresh(Direction::Upstream, peer), upstream_events, peer);
    lemma_closes_once(RelayModel::fresh(Direction::Downstream, peer), downstream_events, peer);
    assert(opening.drop_last() =~= Seq::<MetricEvent>::empty());
    assert(tally(Seq::<MetricEvent>::empty(), opening_of(peer)) == 0);
    assert(tally(Seq::<MetricEvent>::empty(), closing_of(peer)) == 0);
    assert(tally(opening, opening_of(peer)) == 1);
    assert(tally(opening, closing_of(peer)) == 0);
    lemma_tally_concat(opening, up, opening_of(peer));
    lemma_tally_concat(opening, up, closing_of(peer));
    lemma_tally_concat(opening + up, down, opening_of(peer));
    lemma_tally_concat(opening + up, down, closing_of(peer));
}

/// A relay reports exactly the bytes that it orders written, under its own
/// direction, and none under the other.
pub proof fn lemma_reports_match_forwards(start: RelayModel, events: Seq<RelayEvent>)
    ensures
        start.direction == Direction::Upstream ==> upstream_bytes(start.emitted(events))
            == forwarded(start.actions(events)) && downstream_bytes(start.emitted(events)) == 0,
        start.direction == Direction::Downstream ==> downstream_bytes(start.emitted(events))
            == forwarded(start.actions(events)) && upstream_bytes(start.emitted(events)) == 0,
    decreases events.len(),
{
    if events.len() > 0 {
        let before = events.drop_last();
        let last = start.run(before).step(events.last()).1;
        lemma_reports_match_forwards(start, before);
        lemma_run_keeps_identity(start, before);
        assert(start.actions(events).drop_last() =~= start.actions(before));
        lemma_tally_concat(start.emitted(before), reported_by(last), bytes_up());
        lemma_tally_concat(start.emitted(before), reported_by(last), bytes_down());
        lemma_tally_single(last, bytes_up());
        lemma_tally_single(last, bytes_down());
    }
}

/// When every report of a relay reaches the aggregator, the byte counter of
/// the relay's direction grows by exactly the bytes that the relay orders
/// written, and the counter of the other direction stays as it is.
pub proof fn lemma_forwarded_bytes_are_counted(
    counters: Counters,
    start: RelayModel,
    events: Seq<RelayEvent>,
)
    ensures
        start.direction == Direction::Upstream ==> counters.replay(start.emitted(events)).upstream
            == counters.upstream + forwarded(start.actions(events)) && counters.replay(
            start.emitted(events),
        ).downstream == counters.downstream,
        start.direction == Direction::Downstream ==> counters.replay(
            start.emitted(events),
        ).downstream == counters.downstream + forwarded(start.actions(events))
            && counters.replay(start.emitted(events)).upstream == counters.upstream,
{
    lemma_reports_match_forwards(start, events);
    lemma_replay_counts(counters, start.emitted(events));
}

/// A relay that reads non-empty chunks and sees each write go through orders
/// each chunk reported and written in full before it waits for the next read,
/// and is ready to read again at the end.
pub proof fn lemma_copies_every_chunk(start: RelayModel, lengths: Seq<usize>)
    requires
        start.state == RelayState::Reading,
        forall|i: int| 0 <= i < lengths.len() ==> lengths[i] > 0,
    ensures
        start.run(copy_events(lengths)) == start,
        start.actions(copy_events(lengths)) == copy_actions(start, lengths),
    decreases lengths.len(),
{
    if lengths.len() > 0 {
        let before = lengths.drop_last();
        let read = RelayEvent::Read(lengths.last());
        lemma_copies_every_chunk(start, before);
        let events = copy_events(lengths);
        let after_read = copy_events(before).push(read);
        assert(events.drop_last() =~= after_read);
        assert(after_read.drop_last() =~= copy_events(before));
        assert(start.run(after_read) == RelayModel { state: RelayState::Writing, ..start });
        assert(start.actions(after_read) =~= copy_actions(start, before).push(
            RelayAction::Forward { report: start.bytes_event(lengths.last()), len: lengths.last() },
        ));
        assert(start.run(events) =~= start);
        assert(start.actions(events) =~= copy_actions(start, lengths));
    }
}

/// Bytes arrive in order: if the source delivers `chunks`, none of them empty,
/// and every write goes through, the sink receives the chunks' bytes, each
/// chunk in full and in the order in which they were read.
pub proof fn lemma_delivers_in_order(start: RelayModel, chunks: Seq<Seq<u8>>)
    requires
        start.state == RelayState::Reading,
        forall|i: int| 0 <= i < chunks.len() ==> 0 < (#[trigger] chunks[i]).len() <= usize::MAX,
    ensures
        delivered(start.actions(copy_events(lengths_of(chunks))), chunks) == chunks.flatten(),
    decreases chunks.len(),
{
    lemma_copies_every_chunk(start, lengths_of(chunks));
    lemma_copy_delivers(start, chunks);
}

proof fn lemma_copy_delivers(relay: RelayModel, chunks: Seq<Seq<u8>>)
    requires
        forall|i: int| 0 <= i < chunks.len() ==> (#[trigger] chunks[i]).len() <= usize::MAX,
    ensures
        delivered(copy_actions(relay, lengths_of(chunks)), chunks) == chunks.flatten(),
    decreases chunks.len(),
{
    let lengths = lengths_of(chunks);
    if chunks.len() == 0 {
        assert(chunks.flatten() =~= Seq::<u8>::empty());
    } else {
        let before = chunks.drop_last();
        lemma_copy_delivers(relay, before);
        assert(lengths.drop_last() =~= lengths_of(before));
        let actions = copy_actions(relay, lengths);
        let forward = RelayAction::Forward {
            report: relay.bytes_event(lengths.last()),
            len: lengths.last(),
        };
        let upto = copy_actions(relay, lengths_of(before)).push(forward);
        assert(actions.drop_last() =~= upto);
        assert(upto.drop_last() =~= copy_actions(relay, lengths_of(before)));
        assert(chunks.last().subrange(0, lengths.last() as int) =~= chunks.last());
        assert(delivered(actions, chunks) == delivered(upto, chunks));
        assert(chunks =~= before.push(chunks.last()));
        before.lemma_flatten_push(chunks.last());
    }
}

} // verus!
