//! The relay engine: two copy loops, one for each direction, that forward
//! what they read until their source ends or fails.
//!
//! As in the negotiator, no I/O is done here. A loop's driver reports what
//! its read gave as a [`CopyEvent`]; the loop says whether to write the
//! bytes through or to stop. A failed write is reported like a failed read.
//! The two loops know nothing of each other: the relay is over when both
//! have stopped, each for its own reason.

use crate::error::ProtocolError;
use vstd::prelude::*;

verus! {

/// One of the two ways in which bytes travel.
#[derive(Clone, Copy, Debug, PartialEq, Eq, Structural)]
pub enum Direction {
    ClientToUpstream,
    UpstreamToClient,
}

impl Direction {
    /// The other direction.
    pub open spec fn spec_opposite(self) -> Direction {
        match self {
            Direction::ClientToUpstream => Direction::UpstreamToClient,
            Direction::UpstreamToClient => Direction::ClientToUpstream,
        }
    }

    /// The other direction.
    #[verifier::when_used_as_spec(spec_opposite)]
    pub fn opposite(self) -> (other: Direction)
        ensures
            other == self.spec_opposite(),
    {
        match self {
            Direction::ClientToUpstream => Direction::UpstreamToClient,
            Direction::UpstreamToClient => Direction::ClientToUpstream,
        }
    }
}

/// What the driver of a copy loop reports.
#[derive(Debug, PartialEq, Eq)]
pub enum CopyEvent {
    /// A read from the source gave these bytes; none means that the source
    /// has reached its end.
    Read(Vec<u8>),
    /// A read from the source or a write to the sink failed.
    Failed,
}

/// A report as a mathematical value.
pub ghost enum CopyEventView {
    Read(Seq<u8>),
    Failed,
}

impl View for CopyEvent {
    type V = CopyEventView;

    open spec fn view(&self) -> CopyEventView {
        match self {
            CopyEvent::Read(bytes) => CopyEventView::Read(bytes@),
            CopyEvent::Failed => CopyEventView::Failed,
        }
    }
}

/// What a copy loop asks its driver to do.
#[derive(Debug, PartialEq, Eq)]
pub enum CopyAction {
    /// Write all of these bytes to the sink, then read again.
    Forward(Vec<u8>),
    /// Read and write no more: the loop is over.
    Stop,
}

/// A request to the driver as a mathematical value.
pub ghost enum CopyActionView {
    Forward(Seq<u8>),
    Stop,
}

impl View for CopyAction {
    type V = CopyActionView;

    open spec fn view(&self) -> CopyActionView {
        match self {
            CopyAction::Forward(bytes) => CopyActionView::Forward(bytes@),
            CopyAction::Stop => CopyActionView::Stop,
        }
    }
}

impl CopyActionView {
    /// The bytes that the action puts on the sink.
    pub open spec fn payload(self) -> Seq<u8> {
        match self {
            CopyActionView::Forward(bytes) => bytes,
            CopyActionView::Stop => Seq::empty(),
        }
    }
}

/// The state of one copy loop.
#[derive(Clone, Copy, Debug, PartialEq, Eq, Structural)]
pub enum CopyLoop {
    /// Reading and forwarding.
    Running,
    /// Over, because the source reached its end.
    Ended,
    /// Over, because a read or a write failed.
    Failed,
}

impl CopyLoop {
    /// Whether the loop is over.
    pub open spec fn spec_is_finished(self) -> bool {
        self != CopyLoop::Running
    }

    /// The error to report for the loop: `RelayIoError` where it failed,
    /// none where it runs or ended with its source.
    pub open spec fn spec_error(self) -> Option<ProtocolError> {
        if self == CopyLoop::Failed {
            Some(ProtocolError::RelayIoError)
        } else {
            None
        }
    }

    /// The state after `event`, and what the driver is to do. A running
    /// loop forwards the bytes of a read as they are; it stops when the
    /// read gave nothing or when something failed. A loop that is over
    /// stays as it is and forwards nothing.
    pub open spec fn transition(self, event: CopyEventView) -> (CopyLoop, CopyActionView) {
        match self {
            CopyLoop::Running => match event {
                CopyEventView::Read(bytes) => if bytes.len() == 0 {
                    (CopyLoop::Ended, CopyActionView::Stop)
                } else {
                    (CopyLoop::Running, CopyActionView::Forward(bytes))
                },
                CopyEventView::Failed => (CopyLoop::Failed, CopyActionView::Stop),
            },
            _ => (self, CopyActionView::Stop),
        }
    }

    /// A loop at its start.
    pub fn new() -> (state: CopyLoop)
        ensures
            state == CopyLoop::Running,
    {
        CopyLoop::Running
    }

    /// Takes what the driver reports and says what to do next.
    pub fn step(self, event: CopyEvent) -> (r: (CopyLoop, CopyAction))
        ensures
            (r.0, r.1@) == self.transition(event@),
    {
        match self {
            CopyLoop::Running => match event {
                CopyEvent::Read(bytes) => if bytes.len() == 0 {
                    (CopyLoop::Ended, CopyAction::Stop)
                } else {
                    (CopyLoop::Running, CopyAction::Forward(bytes))
                },
                CopyEvent::Failed => (CopyLoop::Failed, CopyAction::Stop),
            },
            CopyLoop::Ended => (CopyLoop::Ended, CopyAction::Stop),
            CopyLoop::Failed => (CopyLoop::Failed, CopyAction::Stop),
        }
    }

    /// Whether the loop is over.
    #[verifier::when_used_as_spec(spec_is_finished)]
    pub fn is_finished(self) -> (b: bool)
        ensures
            b == self.spec_is_finished(),
    {
        match self {
            CopyLoop::Running => false,
            _ => true,
        }
    }

    /// The error to report for the loop, if it failed.
    #[verifier::when_used_as_spec(spec_error)]
    pub fn error(self) -> (error: Option<ProtocolError>)
        ensures
            error == self.spec_error(),
    {
        match self {
            CopyLoop::Failed => Some(ProtocolError::RelayIoError),
            _ => None,
        }
    }
}

/// The two copy loops of one connection.
#[derive(Clone, Copy, Debug, PartialEq, Eq, Structural)]
pub struct RelayPair {
    pub client_to_upstream: CopyLoop,
    pub upstream_to_client: CopyLoop,
}

impl RelayPair {
    /// The loop of the given direction.
    pub open spec fn spec_state_of(self, direction: Direction) -> CopyLoop {
        match direction {
            Direction::ClientToUpstream => self.client_to_upstream,
            Direction::UpstreamToClient => self.upstream_to_client,
        }
    }

    /// Two loops at their start.
    pub open spec fn spec_new() -> RelayPair {
        RelayPair { client_to_upstream: CopyLoop::Running, upstream_to_client: CopyLoop::Running }
    }

    /// The relay is over when both loops are, and not before.
    pub open spec fn spec_is_complete(self) -> bool {
        self.client_to_upstream.is_finished() && self.upstream_to_client.is_finished()
    }

    /// The pair after `event` in the loop of `direction`, and what that
    /// loop's driver is to do. The loop of the other direction is left as
    /// it is.
    pub open spec fn transition(self, direction: Direction, event: CopyEventView) -> (
        RelayPair,
        CopyActionView,
    ) {
        let next = self.spec_state_of(direction).transition(event);
        match direction {
            Direction::ClientToUpstream => (
                RelayPair { client_to_upstream: next.0, ..self },
                next.1,
            ),
            Direction::UpstreamToClient => (
                RelayPair { upstream_to_client: next.0, ..self },
                next.1,
            ),
        }
    }

    /// Two loops at their start.
    #[verifier::when_used_as_spec(spec_new)]
    pub fn new() -> (pair: RelayPair)
        ensures
            pair == RelayPair::spec_new(),
    {
        RelayPair { client_to_upstream: CopyLoop::Running, upstream_to_client: CopyLoop::Running }
    }

    /// The loop of the given direction.
    #[verifier::when_used_as_spec(spec_state_of)]
    pub fn state_of(self, direction: Direction) -> (state: CopyLoop)
        ensures
            state == self.spec_state_of(direction),
    {
        match direction {
            Direction::ClientToUpstream => self.client_to_upstream,
            Direction::UpstreamToClient => self.upstream_to_client,
        }
    }

    /// Takes what the driver of one loop reports and says what that driver
    /// is to do next.
    pub fn step(self, direction: Direction, event: CopyEvent) -> (r: (RelayPair, CopyAction))
        ensures
            (r.0, r.1@) == self.transition(direction, event@),
            r.0.state_of(direction.opposite()) == self.state_of(direction.opposite()),
    {
        match direction {
            Direction::ClientToUpstream => {
                let (next, action) = self.client_to_upstream.step(event);
                (
                    RelayPair {
                        client_to_upstream: next,
                        upstream_to_client: self.upstream_to_client,
                    },
                    action,
                )
            },
            Direction::UpstreamToClient => {
                let (next, action) = self.upstream_to_client.step(event);
                (
                    RelayPair {
                        client_to_upstream: self.client_to_upstream,
                        upstream_to_client: next,
                    },
                    action,
                )
            },
        }
    }

    /// Whether the relay is over: both loops have stopped, whether at the
    /// end of their source or on a failure.
    #[verifier::when_used_as_spec(spec_is_complete)]
    pub fn is_complete(self) -> (b: bool)
        ensures
            b == self.spec_is_complete(),
    {
        self.client_to_upstream.is_finished() && self.upstream_to_client.is_finished()
    }
}

/// Whether the event is one that stops a running loop: a read that gave
/// nothing, or a failure.
pub open spec fn stops_loop(event: CopyEventView) -> bool {
    event matches CopyEventView::Read(bytes) ==> bytes.len() == 0
}

/// The state of a loop that was in `state` and then saw `events`.
pub open spec fn loop_after(state: CopyLoop, events: Seq<CopyEventView>) -> CopyLoop
    decreases events.len(),
{
    if events.len() == 0 {
        state
    } else {
        loop_after(state.transition(events[0]).0, events.drop_first())
    }
}

/// All that a loop puts on its sink while it sees `events`, in the order in
/// which it is written.
pub open spec fn forwarded(state: CopyLoop, events: Seq<CopyEventView>) -> Seq<u8>
    decreases events.len(),
{
    if events.len() == 0 {
        Seq::empty()
    } else {
        state.transition(events[0]).1.payload() + forwarded(
            state.transition(events[0]).0,
            events.drop_first(),
        )
    }
}

/// The events of a source that gives `chunks`, one read for each.
pub open spec fn reads_of(chunks: Seq<Seq<u8>>) -> Seq<CopyEventView> {
    Seq::new(chunks.len(), |i: int| CopyEventView::Read(chunks[i]))
}

/// A loop that is over stays over and puts nothing more on its sink,
/// whatever is reported to it.
pub proof fn finished_loop_is_silent(state: CopyLoop, events: Seq<CopyEventView>)
    requires
        state.is_finished(),
    ensures
        loop_after(state, events) == state,
        forwarded(state, events) == Seq::<u8>::empty(),
    decreases events.len(),
{
    if events.len() > 0 {
        finished_loop_is_silent(state, events.drop_first());
    }
}

/// What a loop forwards is what its source gave: every chunk that was read
/// before the source ended or something failed, whole, once, and in the
/// order of the reads. Nothing that is reported after that adds to it.
pub proof fn forwarding_is_faithful(
    chunks: Seq<Seq<u8>>,
    end: CopyEventView,
    after: Seq<CopyEventView>,
)
    requires
        forall|i: int| 0 <= i < chunks.len() ==> (#[trigger] chunks[i]).len() > 0,
        stops_loop(end),
    ensures
        forwarded(CopyLoop::Running, reads_of(chunks)) == chunks.flatten(),
        loop_after(CopyLoop::Running, reads_of(chunks)) == CopyLoop::Running,
        forwarded(CopyLoop::Running, reads_of(chunks) + seq![end] + after) == chunks.flatten(),
        loop_after(CopyLoop::Running, reads_of(chunks) + seq![end] + after).is_finished(),
    decreases chunks.len(),
{
    let alone = reads_of(chunks);
    let all = reads_of(chunks) + seq![end] + after;
    if chunks.len() == 0 {
        assert(all.drop_first() =~= after);
        finished_loop_is_silent(CopyLoop::Running.transition(end).0, after);
    } else {
        let rest = chunks.drop_first();
        assert(alone.drop_first() =~= reads_of(rest));
        assert(all.drop_first() =~= reads_of(rest) + seq![end] + after);
        forwarding_is_faithful(rest, end, after);
    }
}

/// The pair after a sequence of steps, each an event in one direction.
pub open spec fn pair_after(pair: RelayPair, steps: Seq<(Direction, CopyEventView)>) -> RelayPair
    decreases steps.len(),
{
    if steps.len() == 0 {
        pair
    } else {
        pair_after(pair.transition(steps[0].0, steps[0].1).0, steps.drop_first())
    }
}

/// All that the pair puts on the sink of `direction` during those steps.
pub open spec fn pair_forwarded(
    pair: RelayPair,
    steps: Seq<(Direction, CopyEventView)>,
    direction: Direction,
) -> Seq<u8>
    decreases steps.len(),
{
    if steps.len() == 0 {
        Seq::empty()
    } else {
        let next = pair.transition(steps[0].0, steps[0].1);
        let rest = pair_forwarded(next.0, steps.drop_first(), direction);
        if steps[0].0 == direction {
            next.1.payload() + rest
        } else {
            rest
        }
    }
}

/// The events of one direction among the steps, in their order.
pub open spec fn events_of(steps: Seq<(Direction, CopyEventView)>, direction: Direction) -> Seq<
    CopyEventView,
>
    decreases steps.len(),
{
    if steps.len() == 0 {
        Seq::empty()
    } else if steps[0].0 == direction {
        seq![steps[0].1] + events_of(steps.drop_first(), direction)
    } else {
        events_of(steps.drop_first(), direction)
    }
}

/// The two directions do not touch each other. However the events of the
/// two loops are interleaved, the state of each loop and what it forwards
/// are those of a loop that saw its own events alone.
pub proof fn directions_are_independent(
    pair: RelayPair,
    steps: Seq<(Direction, CopyEventView)>,
    direction: Direction,
)
    ensures
        pair_after(pair, steps).state_of(direction) == loop_after(
            pair.state_of(direction),
            events_of(steps, direction),
        ),
        pair_forwarded(pair, steps, direction) == forwarded(
            pair.state_of(direction),
            events_of(steps, direction),
        ),
    decreases steps.len(),
{
    if steps.len() > 0 {
        let next = pair.transition(steps[0].0, steps[0].1).0;
        directions_are_independent(next, steps.drop_first(), direction);
        if steps[0].0 == direction {
            assert(events_of(steps, direction).drop_first() =~= events_of(
                steps.drop_first(),
                direction,
            ));
        }
    }
}

/// What a client sends to an upstream that echoes comes back to it. Let the
/// reads from the client give `sent`, and let the reads from the upstream
/// give `echoed`, which chunk by chunk may differ from `sent` but as a whole
/// is what the relay has put on the upstream. Then, however the two
/// directions are interleaved, what the relay puts on the client's side is
/// `sent`, byte for byte: nothing lost, nothing added, nothing out of order.
pub proof fn echo_comes_back(
    steps: Seq<(Direction, CopyEventView)>,
    sent: Seq<Seq<u8>>,
    echoed: Seq<Seq<u8>>,
)
    requires
        forall|i: int| 0 <= i < sent.len() ==> (#[trigger] sent[i]).len() > 0,
        forall|i: int| 0 <= i < echoed.len() ==> (#[trigger] echoed[i]).len() > 0,
        events_of(steps, Direction::ClientToUpstream) == reads_of(sent),
        events_of(steps, Direction::UpstreamToClient) == reads_of(echoed),
        echoed.flatten() == pair_forwarded(RelayPair::new(), steps, Direction::ClientToUpstream),
    ensures
        pair_forwarded(RelayPair::new(), steps, Direction::UpstreamToClient) == sent.flatten(),
{
    directions_are_independent(RelayPair::new(), steps, Direction::ClientToUpstream);
    directions_are_independent(RelayPair::new(), steps, Direction::UpstreamToClient);
    forwarding_is_faithful(sent, CopyEventView::Failed, Seq::empty());
    forwarding_is_faithful(echoed, CopyEventView::Failed, Seq::empty());
}

/// A direction whose source has ended, or that has failed, does not stop
/// the other one. Whatever happens in the direction `ended`, the loop of the
/// other direction keeps running, the relay is not over, and the next bytes
/// read in the other direction are forwarded in full.
pub proof fn half_close_keeps_other_direction(
    pair: RelayPair,
    ended: Direction,
    events: Seq<CopyEventView>,
    data: Seq<u8>,
)
    requires
        pair.state_of(ended.opposite()) == CopyLoop::Running,
        data.len() > 0,
    ensures
        ({
            let steps = Seq::new(events.len(), |i: int| (ended, events[i]));
            let later = pair_after(pair, steps);
            &&& later.state_of(ended) == loop_after(pair.state_of(ended), events)
            &&& later.state_of(ended.opposite()) == CopyLoop::Running
            &&& !later.is_complete()
            &&& later.transition(ended.opposite(), CopyEventView::Read(data)) == (
                later,
                CopyActionView::Forward(data),
            )
        }),
{
    let steps = Seq::new(events.len(), |i: int| (ended, events[i]));
    lemma_events_of_one_direction(events, ended);
    directions_are_independent(pair, steps, ended);
    directions_are_independent(pair, steps, ended.opposite());
}

/// Steps that are all in one direction hold that direction's events and
/// none of the other's.
proof fn lemma_events_of_one_direction(events: Seq<CopyEventView>, direction: Direction)
    ensures
        events_of(Seq::new(events.len(), |i: int| (direction, events[i])), direction) == events,
        events_of(
            Seq::new(events.len(), |i: int| (direction, events[i])),
            direction.opposite(),
        ) == Seq::<CopyEventView>::empty(),
    decreases events.len(),
{
    let steps = Seq::new(events.len(), |i: int| (direction, events[i]));
    if events.len() > 0 {
        let rest = events.drop_first();
        lemma_events_of_one_direction(rest, direction);
        assert(steps.drop_first() =~= Seq::new(rest.len(), |i: int| (direction, rest[i])));
    }
}

/// The relay is over as soon as the second loop stops: where one direction
/// is over already, the event that stops the other completes the relay.
pub proof fn relay_completes_with_second_loop(
    pair: RelayPair,
    last: Direction,
    end: CopyEventView,
)
    requires
        pair.state_of(last.opposite()).is_finished(),
        stops_loop(end),
    ensures
        pair.transition(last, end).0.is_complete(),
        pair.transition(last, end).1 == CopyActionView::Stop,
{
}

} // verus!
