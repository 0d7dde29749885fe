//! The handshake negotiator: the sequence of reads, replies and the dial
//! that takes one client connection from its first byte to the relay.
//!
//! The negotiator does no I/O. It names the next thing to do as an
//! [`Action`]; its driver does that and reports how it went as an
//! [`Outcome`]; [`Negotiator::step`] then names the next action. In every
//! state one outcome lets the handshake go on. Any other outcome is the
//! failure of what was pending, and closes the connection.

use crate::address::{connect_target, resolve, DestinationAddress, DestinationAddressView};
use crate::error::ProtocolError;
use crate::wire::{
    decode_hostname, decode_ipv4, decode_port, domain_field, encode_method_selection,
    encode_success_reply, greeting_bytes, greeting_is_read_back, greeting_methods,
    method_selection, port_of, request_bytes, request_defect, request_is_read_back,
    request_length, request_of, success_reply, check_header, ClientGreetingView,
    ConnectRequestView, ADDRESS_TYPE_DOMAIN, ADDRESS_TYPE_IPV4, COMMAND_CONNECT,
};
use vstd::prelude::*;
use vstd::utf8::{decode_utf8, valid_utf8};

verus! {

/// The five stages that a connection passes through, in this order. A
/// connection may skip from any stage to `Closed`; it never goes back.
#[derive(Clone, Copy, Debug, PartialEq, Eq, Structural)]
pub enum Stage {
    AwaitGreeting,
    AwaitRequest,
    Connecting,
    Relaying,
    Closed,
}

impl Stage {
    /// The place of the stage in the order of stages.
    pub open spec fn rank(self) -> nat {
        match self {
            Stage::AwaitGreeting => 0,
            Stage::AwaitRequest => 1,
            Stage::Connecting => 2,
            Stage::Relaying => 3,
            Stage::Closed => 4,
        }
    }
}

/// How the action that the negotiator asked for went.
#[derive(Debug, PartialEq, Eq)]
pub enum Outcome {
    /// The read that was asked for gave these bytes.
    Received(Vec<u8>),
    /// The send, the dial or the relay that was asked for is done.
    Completed,
    /// What was asked for failed, or the stream ended before a read was
    /// served.
    Failed,
}

/// An outcome as a mathematical value.
pub ghost enum OutcomeView {
    Received(Seq<u8>),
    Completed,
    Failed,
}

impl View for Outcome {
    type V = OutcomeView;

    open spec fn view(&self) -> OutcomeView {
        match self {
            Outcome::Received(bytes) => OutcomeView::Received(bytes@),
            Outcome::Completed => OutcomeView::Completed,
            Outcome::Failed => OutcomeView::Failed,
        }
    }
}

impl OutcomeView {
    /// The bytes of a read; none where the outcome is not a read.
    pub open spec fn bytes(self) -> Seq<u8> {
        match self {
            OutcomeView::Received(bytes) => bytes,
            _ => Seq::empty(),
        }
    }

    /// Whether the outcome is a read of exactly `count` bytes.
    pub open spec fn delivers(self, count: int) -> bool {
        self is Received && self.bytes().len() == count
    }

    /// Whether the outcome is a read of at most `count` bytes.
    pub open spec fn delivers_up_to(self, count: int) -> bool {
        self is Received && self.bytes().len() <= count
    }
}

/// What the driver is to do next.
#[derive(Debug, PartialEq, Eq)]
pub enum Action {
    /// Read exactly this many bytes from the client.
    ReadExact(usize),
    /// Make one read of at most this many bytes from the client.
    ReadUpTo(usize),
    /// Write all of these bytes to the client.
    Send(Vec<u8>),
    /// Open the upstream connection to this target.
    Connect(String),
    /// Hand both streams to the relay.
    Relay,
    /// Release the streams; the connection is over.
    Close,
}

/// An action as a mathematical value.
pub ghost enum ActionView {
    ReadExact(usize),
    ReadUpTo(usize),
    Send(Seq<u8>),
    Connect(Seq<char>),
    Relay,
    Close,
}

impl View for Action {
    type V = ActionView;

    open spec fn view(&self) -> ActionView {
        match self {
            Action::ReadExact(count) => ActionView::ReadExact(*count),
            Action::ReadUpTo(count) => ActionView::ReadUpTo(*count),
            Action::Send(bytes) => ActionView::Send(bytes@),
            Action::Connect(target) => ActionView::Connect(target@),
            Action::Relay => ActionView::Relay,
            Action::Close => ActionView::Close,
        }
    }
}

/// The state of one handshake: what the negotiator is waiting for.
#[derive(Debug, PartialEq, Eq)]
pub enum Negotiator {
    /// Waiting for the two header bytes of the greeting.
    GreetingHeader,
    /// Waiting for the method list, of which `announced` bytes were
    /// announced.
    GreetingMethods { announced: u8 },
    /// Waiting for the method selection to be written.
    MethodSelection,
    /// Waiting for the four header bytes of the request.
    RequestHeader,
    /// Waiting for the four octets of an IPv4 destination.
    Ipv4Address,
    /// Waiting for the length byte of a domain name.
    DomainLength,
    /// Waiting for the `length` bytes of a domain name.
    DomainName { length: u8 },
    /// Waiting for the two bytes of the port.
    Port { address: DestinationAddress },
    /// Waiting for the upstream connection to be opened.
    Dial,
    /// Waiting for the success reply to be written.
    SuccessReply,
    /// Waiting for the relay to finish.
    Relaying,
    /// Over. `error` says why, unless the relay ran and finished.
    Closed { error: Option<ProtocolError> },
}

/// A negotiator state as a mathematical value.
pub ghost enum NegotiatorView {
    GreetingHeader,
    GreetingMethods { announced: u8 },
    MethodSelection,
    RequestHeader,
    Ipv4Address,
    DomainLength,
    DomainName { length: u8 },
    Port { address: DestinationAddressView },
    Dial,
    SuccessReply,
    Relaying,
    Closed { error: Option<ProtocolError> },
}

impl View for Negotiator {
    type V = NegotiatorView;

    open spec fn view(&self) -> NegotiatorView {
        match self {
            Negotiator::GreetingHeader => NegotiatorView::GreetingHeader,
            Negotiator::GreetingMethods { announced } => NegotiatorView::GreetingMethods {
                announced: *announced,
            },
            Negotiator::MethodSelection => NegotiatorView::MethodSelection,
            Negotiator::RequestHeader => NegotiatorView::RequestHeader,
            Negotiator::Ipv4Address => NegotiatorView::Ipv4Address,
            Negotiator::DomainLength => NegotiatorView::DomainLength,
            Negotiator::DomainName { length } => NegotiatorView::DomainName { length: *length },
            Negotiator::Port { address } => NegotiatorView::Port { address: address@ },
            Negotiator::Dial => NegotiatorView::Dial,
            Negotiator::SuccessReply => NegotiatorView::SuccessReply,
            Negotiator::Relaying => NegotiatorView::Relaying,
            Negotiator::Closed { error } => NegotiatorView::Closed { error: *error },
        }
    }
}

impl NegotiatorView {
    /// The stage that the state belongs to. Sending the method selection
    /// still belongs to the greeting, sending the success reply to the
    /// connecting.
    pub open spec fn stage(self) -> Stage {
        match self {
            NegotiatorView::GreetingHeader => Stage::AwaitGreeting,
            NegotiatorView::GreetingMethods { .. } => Stage::AwaitGreeting,
            NegotiatorView::MethodSelection => Stage::AwaitGreeting,
            NegotiatorView::RequestHeader => Stage::AwaitRequest,
            NegotiatorView::Ipv4Address => Stage::AwaitRequest,
            NegotiatorView::DomainLength => Stage::AwaitRequest,
            NegotiatorView::DomainName { .. } => Stage::AwaitRequest,
            NegotiatorView::Port { .. } => Stage::AwaitRequest,
            NegotiatorView::Dial => Stage::Connecting,
            NegotiatorView::SuccessReply => Stage::Connecting,
            NegotiatorView::Relaying => Stage::Relaying,
            NegotiatorView::Closed { .. } => Stage::Closed,
        }
    }

    /// The error that closed the connection, if one did.
    pub open spec fn error(self) -> Option<ProtocolError> {
        match self {
            NegotiatorView::Closed { error } => error,
            _ => None,
        }
    }

    /// How far along the handshake the state lies: its place on the way
    /// from the greeting header to the closed connection. The two ways of
    /// reading a destination run side by side.
    pub open spec fn progress(self) -> nat {
        match self {
            NegotiatorView::GreetingHeader => 0,
            NegotiatorView::GreetingMethods { .. } => 1,
            NegotiatorView::MethodSelection => 2,
            NegotiatorView::RequestHeader => 3,
            NegotiatorView::Ipv4Address => 4,
            NegotiatorView::DomainLength => 4,
            NegotiatorView::DomainName { .. } => 5,
            NegotiatorView::Port { .. } => 6,
            NegotiatorView::Dial => 7,
            NegotiatorView::SuccessReply => 8,
            NegotiatorView::Relaying => 9,
            NegotiatorView::Closed { .. } => 10,
        }
    }
}

/// The state and the action with which a connection is given up.
pub open spec fn closed_with(error: ProtocolError) -> (NegotiatorView, ActionView) {
    (NegotiatorView::Closed { error: Some(error) }, ActionView::Close)
}

/// The state that follows `state` on `outcome`, and the action to take then.
pub open spec fn transition(state: NegotiatorView, outcome: OutcomeView) -> (
    NegotiatorView,
    ActionView,
) {
    let bytes = outcome.bytes();
    match state {
        NegotiatorView::GreetingHeader => if outcome.delivers(2) {
            (
                NegotiatorView::GreetingMethods { announced: bytes[1] },
                ActionView::ReadUpTo(bytes[1] as usize),
            )
        } else {
            closed_with(ProtocolError::IncompleteFrame)
        },
        NegotiatorView::GreetingMethods { announced } => if outcome.delivers_up_to(
            announced as int,
        ) {
            (NegotiatorView::MethodSelection, ActionView::Send(method_selection()))
        } else {
            closed_with(ProtocolError::IncompleteFrame)
        },
        NegotiatorView::MethodSelection => if outcome is Completed {
            (NegotiatorView::RequestHeader, ActionView::ReadExact(4))
        } else {
            closed_with(ProtocolError::ReplyWriteFailed)
        },
        NegotiatorView::RequestHeader => if !outcome.delivers(4) {
            closed_with(ProtocolError::IncompleteFrame)
        } else if bytes[3] != ADDRESS_TYPE_IPV4 && bytes[3] != ADDRESS_TYPE_DOMAIN {
            closed_with(ProtocolError::UnsupportedAddressType)
        } else if bytes[1] != COMMAND_CONNECT {
            closed_with(ProtocolError::UnsupportedCommand)
        } else if bytes[3] == ADDRESS_TYPE_IPV4 {
            (NegotiatorView::Ipv4Address, ActionView::ReadExact(4))
        } else {
            (NegotiatorView::DomainLength, ActionView::ReadExact(1))
        },
        NegotiatorView::Ipv4Address => if outcome.delivers(4) {
            (
                NegotiatorView::Port { address: DestinationAddressView::IPv4(bytes) },
                ActionView::ReadExact(2),
            )
        } else {
            closed_with(ProtocolError::IncompleteFrame)
        },
        NegotiatorView::DomainLength => if outcome.delivers(1) {
            (
                NegotiatorView::DomainName { length: bytes[0] },
                ActionView::ReadExact(bytes[0] as usize),
            )
        } else {
            closed_with(ProtocolError::IncompleteFrame)
        },
        NegotiatorView::DomainName { length } => if !outcome.delivers(length as int) {
            closed_with(ProtocolError::IncompleteFrame)
        } else if valid_utf8(bytes) {
            (
                NegotiatorView::Port {
                    address: DestinationAddressView::DomainName(decode_utf8(bytes)),
                },
                ActionView::ReadExact(2),
            )
        } else {
            closed_with(ProtocolError::MalformedHostname)
        },
        NegotiatorView::Port { address } => if outcome.delivers(2) {
            (
                NegotiatorView::Dial,
                ActionView::Connect(connect_target(address, port_of(bytes[0], bytes[1]))),
            )
        } else {
            closed_with(ProtocolError::IncompleteFrame)
        },
        NegotiatorView::Dial => if outcome is Completed {
            (NegotiatorView::SuccessReply, ActionView::Send(success_reply()))
        } else {
            closed_with(ProtocolError::UpstreamConnectFailed)
        },
        NegotiatorView::SuccessReply => if outcome is Completed {
            (NegotiatorView::Relaying, ActionView::Relay)
        } else {
            closed_with(ProtocolError::ReplyWriteFailed)
        },
        NegotiatorView::Relaying => (NegotiatorView::Closed { error: None }, ActionView::Close),
        NegotiatorView::Closed { error } => (NegotiatorView::Closed { error }, ActionView::Close),
    }
}

/// The bytes of a read of exactly `count` bytes; `None` for any other
/// outcome.
fn received_exactly(outcome: Outcome, count: usize) -> (r: Option<Vec<u8>>)
    ensures
        r is Some <==> outcome@.delivers(count as int),
        r matches Some(bytes) ==> bytes@ == outcome@.bytes(),
{
    match outcome {
        Outcome::Received(bytes) => if bytes.len() == count {
            Some(bytes)
        } else {
            None
        },
        _ => None,
    }
}

/// Whether the outcome says that the pending action is done.
fn completed(outcome: Outcome) -> (b: bool)
    ensures
        b == (outcome@ is Completed),
{
    match outcome {
        Outcome::Completed => true,
        _ => false,
    }
}

/// Gives the connection up with `error`.
fn close(error: ProtocolError) -> (r: (Negotiator, Action))
    ensures
        (r.0@, r.1@) == closed_with(error),
{
    (Negotiator::Closed { error: Some(error) }, Action::Close)
}

impl Negotiator {
    /// The state in which a connection starts, and the first action: to
    /// read the two header bytes of the greeting.
    pub fn start() -> (r: (Negotiator, Action))
        ensures
            r.0@ == NegotiatorView::GreetingHeader,
            r.1@ == ActionView::ReadExact(2),
    {
        (Negotiator::GreetingHeader, Action::ReadExact(2))
    }

    /// Takes the outcome of the pending action and gives the next state and
    /// the next action.
    pub fn step(self, outcome: Outcome) -> (r: (Negotiator, Action))
        ensures
            (r.0@, r.1@) == transition(self@, outcome@),
    {
        match self {
            Negotiator::GreetingHeader => match received_exactly(outcome, 2) {
                Some(bytes) => {
                    let announced = bytes[1];
                    (Negotiator::GreetingMethods { announced }, Action::ReadUpTo(announced as usize))
                },
                None => close(ProtocolError::IncompleteFrame),
            },
            Negotiator::GreetingMethods { announced } => match outcome {
                Outcome::Received(bytes) => if bytes.len() <= announced as usize {
                    (Negotiator::MethodSelection, Action::Send(encode_method_selection()))
                } else {
                    close(ProtocolError::IncompleteFrame)
                },
                _ => close(ProtocolError::IncompleteFrame),
            },
            Negotiator::MethodSelection => if completed(outcome) {
                (Negotiator::RequestHeader, Action::ReadExact(4))
            } else {
                close(ProtocolError::ReplyWriteFailed)
            },
            Negotiator::RequestHeader => match received_exactly(outcome, 4) {
                Some(bytes) => match check_header(bytes[1], bytes[3]) {
                    Ok(()) => if bytes[3] == ADDRESS_TYPE_IPV4 {
                        (Negotiator::Ipv4Address, Action::ReadExact(4))
                    } else {
                        (Negotiator::DomainLength, Action::ReadExact(1))
                    },
                    Err(error) => close(error),
                },
                None => close(ProtocolError::IncompleteFrame),
            },
            Negotiator::Ipv4Address => match received_exactly(outcome, 4) {
                Some(bytes) => {
                    let address = decode_ipv4(bytes.as_slice());
                    (Negotiator::Port { address }, Action::ReadExact(2))
                },
                None => close(ProtocolError::IncompleteFrame),
            },
            Negotiator::DomainLength => match received_exactly(outcome, 1) {
                Some(bytes) => {
                    let length = bytes[0];
                    (Negotiator::DomainName { length }, Action::ReadExact(length as usize))
                },
                None => close(ProtocolError::IncompleteFrame),
            },
            Negotiator::DomainName { length } => match received_exactly(outcome, length as usize) {
                Some(bytes) => match decode_hostname(bytes.as_slice()) {
                    Ok(address) => (Negotiator::Port { address }, Action::ReadExact(2)),
                    Err(error) => close(error),
                },
                None => close(ProtocolError::IncompleteFrame),
            },
            Negotiator::Port { address } => match received_exactly(outcome, 2) {
                Some(bytes) => {
                    let port = decode_port(bytes[0], bytes[1]);
                    (Negotiator::Dial, Action::Connect(resolve(&address, port)))
                },
                None => close(ProtocolError::IncompleteFrame),
            },
            Negotiator::Dial => if completed(outcome) {
                (Negotiator::SuccessReply, Action::Send(encode_success_reply()))
            } else {
                close(ProtocolError::UpstreamConnectFailed)
            },
            Negotiator::SuccessReply => if completed(outcome) {
                (Negotiator::Relaying, Action::Relay)
            } else {
                close(ProtocolError::ReplyWriteFailed)
            },
            Negotiator::Relaying => (Negotiator::Closed { error: None }, Action::Close),
            Negotiator::Closed { error } => (Negotiator::Closed { error }, Action::Close),
        }
    }

    /// The stage that the connection is in.
    pub fn stage(&self) -> (stage: Stage)
        ensures
            stage == self@.stage(),
    {
        match self {
            Negotiator::GreetingHeader => Stage::AwaitGreeting,
            Negotiator::GreetingMethods { .. } => Stage::AwaitGreeting,
            Negotiator::MethodSelection => Stage::AwaitGreeting,
            Negotiator::RequestHeader => Stage::AwaitRequest,
            Negotiator::Ipv4Address => Stage::AwaitRequest,
            Negotiator::DomainLength => Stage::AwaitRequest,
            Negotiator::DomainName { .. } => Stage::AwaitRequest,
            Negotiator::Port { .. } => Stage::AwaitRequest,
            Negotiator::Dial => Stage::Connecting,
            Negotiator::SuccessReply => Stage::Connecting,
            Negotiator::Relaying => Stage::Relaying,
            Negotiator::Closed { .. } => Stage::Closed,
        }
    }

    /// The error that closed the connection, if one did.
    pub fn error(&self) -> (error: Option<ProtocolError>)
        ensures
            error == self@.error(),
    {
        match self {
            Negotiator::Closed { error } => *error,
            _ => None,
        }
    }
}

/// The state that is reached from `state` when the pending actions turn out
/// as `outcomes` say, one after the other.
pub open spec fn state_after(state: NegotiatorView, outcomes: Seq<OutcomeView>) -> NegotiatorView
    decreases outcomes.len(),
{
    if outcomes.len() == 0 {
        state
    } else {
        state_after(transition(state, outcomes[0]).0, outcomes.drop_first())
    }
}

/// The actions that the negotiator names on that way, one for each outcome.
pub open spec fn actions_after(state: NegotiatorView, outcomes: Seq<OutcomeView>) -> Seq<
    ActionView,
>
    decreases outcomes.len(),
{
    if outcomes.len() == 0 {
        Seq::empty()
    } else {
        seq![transition(state, outcomes[0]).1] + actions_after(
            transition(state, outcomes[0]).0,
            outcomes.drop_first(),
        )
    }
}

/// Whether a run of actions asks for nothing but to close.
pub open spec fn only_closes(actions: Seq<ActionView>) -> bool {
    forall|i: int| 0 <= i < actions.len() ==> actions[i] == ActionView::Close
}

/// A run that starts with `first` is one step on `first`, then the run of
/// the rest from where that step leads.
proof fn lemma_run_unfolds(state: NegotiatorView, first: OutcomeView, later: Seq<OutcomeView>)
    ensures
        state_after(state, seq![first] + later) == state_after(transition(state, first).0, later),
        actions_after(state, seq![first] + later) == seq![transition(state, first).1]
            + actions_after(transition(state, first).0, later),
{
    assert((seq![first] + later).drop_first() =~= later);
}

/// Once closed, a connection stays closed with the error it was closed
/// with, and whatever is reported to the negotiator after that, it asks for
/// nothing but to close: no reply is sent and no relay is started.
pub proof fn closed_is_final(error: Option<ProtocolError>, outcomes: Seq<OutcomeView>)
    ensures
        state_after((NegotiatorView::Closed { error }), outcomes) == (NegotiatorView::Closed {
            error,
        }),
        actions_after((NegotiatorView::Closed { error }), outcomes).len() == outcomes.len(),
        only_closes(actions_after((NegotiatorView::Closed { error }), outcomes)),
    decreases outcomes.len(),
{
    if outcomes.len() > 0 {
        closed_is_final(error, outcomes.drop_first());
    }
}

/// What follows when a step closes the connection: the run ends in the
/// closed state and asks for nothing but to close.
proof fn lemma_closing_step(
    state: NegotiatorView,
    first: OutcomeView,
    later: Seq<OutcomeView>,
    error: ProtocolError,
)
    requires
        transition(state, first) == closed_with(error),
    ensures
        state_after(state, seq![first] + later) == (NegotiatorView::Closed {
            error: Some(error),
        }),
        only_closes(actions_after(state, seq![first] + later)),
{
    lemma_run_unfolds(state, first, later);
    closed_is_final(Some(error), later);
}

/// Every greeting is answered with the same two bytes, version 5 and "no
/// authentication": whatever version byte the header carries, whatever
/// number of methods it announces, and whichever methods then arrive, be it
/// all that were announced or fewer.
pub proof fn greeting_is_answered_with_no_authentication(header: Seq<u8>, methods: Seq<u8>)
    requires
        header.len() == 2,
        methods.len() <= header[1],
    ensures
        state_after(
            NegotiatorView::GreetingHeader,
            seq![OutcomeView::Received(header), OutcomeView::Received(methods)],
        ) == NegotiatorView::MethodSelection,
        actions_after(
            NegotiatorView::GreetingHeader,
            seq![OutcomeView::Received(header), OutcomeView::Received(methods)],
        ) == seq![ActionView::ReadUpTo(header[1] as usize), ActionView::Send(seq![5u8, 0u8])],
{
    let first = OutcomeView::Received(header);
    let second = OutcomeView::Received(methods);
    let waiting = NegotiatorView::GreetingMethods { announced: header[1] };
    assert(seq![first, second] =~= seq![first] + seq![second]);
    lemma_run_unfolds(NegotiatorView::GreetingHeader, first, seq![second]);
    lemma_run_unfolds(waiting, second, Seq::empty());
    assert(actions_after(NegotiatorView::GreetingHeader, seq![first, second]) =~= seq![
        ActionView::ReadUpTo(header[1] as usize),
        ActionView::Send(seq![5u8, 0u8]),
    ]);
}

/// A request whose address type is neither IPv4 nor domain name closes the
/// connection with `UnsupportedAddressType` as soon as its header is read.
/// Whatever is reported afterwards, the negotiator asks for nothing but to
/// close: no success reply is sent and no relay is started.
pub proof fn unsupported_address_type_closes(header: Seq<u8>, later: Seq<OutcomeView>)
    requires
        header.len() == 4,
        header[3] != ADDRESS_TYPE_IPV4,
        header[3] != ADDRESS_TYPE_DOMAIN,
    ensures
        state_after(NegotiatorView::RequestHeader, seq![OutcomeView::Received(header)] + later)
            == (NegotiatorView::Closed { error: Some(ProtocolError::UnsupportedAddressType) }),
        only_closes(
            actions_after(
                NegotiatorView::RequestHeader,
                seq![OutcomeView::Received(header)] + later,
            ),
        ),
{
    lemma_closing_step(
        NegotiatorView::RequestHeader,
        OutcomeView::Received(header),
        later,
        ProtocolError::UnsupportedAddressType,
    );
}

/// A request whose command is not CONNECT closes the connection with
/// `UnsupportedCommand` as soon as its header is read, where its address
/// type is a supported one. Whatever is reported afterwards, the negotiator
/// asks for nothing but to close: the destination is not read, no dial is
/// made, no success reply is sent and no relay is started.
pub proof fn unsupported_command_closes(header: Seq<u8>, later: Seq<OutcomeView>)
    requires
        header.len() == 4,
        header[3] == ADDRESS_TYPE_IPV4 || header[3] == ADDRESS_TYPE_DOMAIN,
        header[1] != COMMAND_CONNECT,
    ensures
        state_after(NegotiatorView::RequestHeader, seq![OutcomeView::Received(header)] + later)
            == (NegotiatorView::Closed { error: Some(ProtocolError::UnsupportedCommand) }),
        only_closes(
            actions_after(
                NegotiatorView::RequestHeader,
                seq![OutcomeView::Received(header)] + later,
            ),
        ),
{
    lemma_closing_step(
        NegotiatorView::RequestHeader,
        OutcomeView::Received(header),
        later,
        ProtocolError::UnsupportedCommand,
    );
}

/// The connection is closed for its command only at the request header, and
/// only where the command is not CONNECT: no other step gives that error.
pub proof fn only_the_command_is_unsupported_command(state: NegotiatorView, outcome: OutcomeView)
    requires
        !(state is Closed),
    ensures
        transition(state, outcome) == closed_with(ProtocolError::UnsupportedCommand) <==> ({
            &&& state is RequestHeader
            &&& outcome.delivers(4)
            &&& (outcome.bytes()[3] == ADDRESS_TYPE_IPV4 || outcome.bytes()[3]
                == ADDRESS_TYPE_DOMAIN)
            &&& outcome.bytes()[1] != COMMAND_CONNECT
        }),
{
}

/// A domain name whose bytes are not valid UTF-8 closes the connection with
/// `MalformedHostname` as soon as the name is read, and nothing but closing
/// follows.
pub proof fn malformed_hostname_closes(name: Seq<u8>, later: Seq<OutcomeView>)
    requires
        name.len() <= 255,
        !valid_utf8(name),
    ensures
        state_after(
            (NegotiatorView::DomainName { length: name.len() as u8 }),
            seq![OutcomeView::Received(name)] + later,
        ) == (NegotiatorView::Closed { error: Some(ProtocolError::MalformedHostname) }),
        only_closes(
            actions_after(
                (NegotiatorView::DomainName { length: name.len() as u8 }),
                seq![OutcomeView::Received(name)] + later,
            ),
        ),
{
    lemma_closing_step(
        NegotiatorView::DomainName { length: name.len() as u8 },
        OutcomeView::Received(name),
        later,
        ProtocolError::MalformedHostname,
    );
}

/// A dial that does not complete closes the connection with
/// `UpstreamConnectFailed`, and nothing but closing follows: the client gets
/// no success reply and no relay is started.
pub proof fn failed_dial_closes(outcome: OutcomeView, later: Seq<OutcomeView>)
    requires
        !(outcome is Completed),
    ensures
        state_after(NegotiatorView::Dial, seq![outcome] + later) == (NegotiatorView::Closed {
            error: Some(ProtocolError::UpstreamConnectFailed),
        }),
        only_closes(actions_after(NegotiatorView::Dial, seq![outcome] + later)),
{
    lemma_closing_step(
        NegotiatorView::Dial,
        outcome,
        later,
        ProtocolError::UpstreamConnectFailed,
    );
}

/// The stages are passed in their order: a step stays in its stage, moves
/// to the next one, or closes the connection. It never goes back, and it
/// never skips a stage but to close.
pub proof fn stages_only_advance(state: NegotiatorView, outcome: OutcomeView)
    ensures
        ({
            let before = state.stage();
            let after = transition(state, outcome).0.stage();
            ||| after == before
            ||| after.rank() == before.rank() + 1
            ||| after == Stage::Closed
        }),
        transition(state, outcome).0.stage().rank() >= state.stage().rank(),
{
}

/// Nothing is tried twice: every step leads to a state further along, until
/// the connection is closed, and there it stays.
pub proof fn every_step_makes_progress(state: NegotiatorView, outcome: OutcomeView)
    ensures
        !(state is Closed) ==> transition(state, outcome).0.progress() > state.progress(),
        state is Closed ==> transition(state, outcome).0 == state,
{
}

/// Every connection comes to its end: from the first read of the greeting,
/// ten outcomes at most lead to the closed state, and from a later state as
/// many fewer as the state lies further along.
pub proof fn handshake_ends(state: NegotiatorView, outcomes: Seq<OutcomeView>)
    requires
        outcomes.len() >= 10 - state.progress(),
    ensures
        state_after(state, outcomes) is Closed,
    decreases outcomes.len(),
{
    if outcomes.len() > 0 {
        every_step_makes_progress(state, outcomes[0]);
        handshake_ends(transition(state, outcomes[0]).0, outcomes.drop_first());
    }
}

/// The success reply is sent only on a dial that completed, and the relay
/// is started only on a success reply that was written. The one other thing
/// ever sent is the method selection, in answer to a greeting.
pub proof fn replies_are_earned(state: NegotiatorView, outcome: OutcomeView)
    ensures
        transition(state, outcome).1 is Relay ==> state is SuccessReply && outcome is Completed,
        transition(state, outcome).1 matches ActionView::Send(bytes) ==> ({
            ||| state is Dial && outcome is Completed && bytes == success_reply()
            ||| state is GreetingMethods && outcome is Received && bytes == method_selection()
        }),
        transition(state, outcome).1 is Connect ==> state is Port && outcome is Received,
{
}

/// How an action goes for a driver whose client has sent `stream` and
/// nothing more, and whose writes succeed: the outcome, and what is left of
/// the stream. An exact read takes its bytes from the front, or fails where
/// too few are left; the other read takes what is there, up to its count.
/// There is no outcome for a dial, a relay or a close: there the handshake
/// over the stream is at its end.
pub open spec fn served(action: ActionView, stream: Seq<u8>) -> Option<(OutcomeView, Seq<u8>)> {
    match action {
        ActionView::ReadExact(count) => Some(
            if stream.len() < count {
                (OutcomeView::Failed, stream)
            } else {
                (OutcomeView::Received(stream.take(count as int)), stream.skip(count as int))
            },
        ),
        ActionView::ReadUpTo(count) => Some(
            if stream.len() < count {
                (OutcomeView::Received(stream), Seq::empty())
            } else {
                (OutcomeView::Received(stream.take(count as int)), stream.skip(count as int))
            },
        ),
        ActionView::Send(_) => Some((OutcomeView::Completed, stream)),
        _ => None,
    }
}

/// Where the handshake gets over a stream: the negotiator is stepped with
/// the outcomes that `served` gives, from `state` with `action` pending,
/// until it asks to dial, to relay or to close. The result is the state, the
/// action then pending, and what is left of the stream.
pub open spec fn handshake_over(state: NegotiatorView, action: ActionView, stream: Seq<u8>) -> (
    NegotiatorView,
    ActionView,
    Seq<u8>,
)
    decreases 10 - state.progress(),
{
    if state is Closed {
        (state, action, stream)
    } else {
        match served(action, stream) {
            Some((outcome, rest)) => handshake_over(
                transition(state, outcome).0,
                transition(state, outcome).1,
                rest,
            ),
            None => (state, action, stream),
        }
    }
}

/// Reading a request field by field gives what decoding it in one piece
/// gives. Where `stream` starts with a request, the negotiator gets to the
/// dial, the target it asks for is that of the decoded destination and
/// port, and the stream is left where the request ends. Where it does not,
/// the connection is closed with the error that the decoder names.
pub proof fn request_reads_agree_with_decoder(stream: Seq<u8>)
    ensures
        ({
            let end = handshake_over(
                NegotiatorView::RequestHeader,
                ActionView::ReadExact(4),
                stream,
            );
            match request_defect(stream) {
                Some(error) => (end.0, end.1) == closed_with(error),
                None => {
                    &&& end.0 == NegotiatorView::Dial
                    &&& end.1 == ActionView::Connect(
                        connect_target(request_of(stream).address, request_of(stream).port),
                    )
                    &&& end.2 == stream.skip(request_length(stream))
                },
            }
        }),
{
    reveal_with_fuel(handshake_over, 5);
    if stream.len() >= 5 && stream[3] == ADDRESS_TYPE_DOMAIN && stream.len() >= 5 + stream[4] {
        assert(stream.skip(4).skip(1).take(stream[4] as int) =~= domain_field(stream));
    }
}

/// The handshake over a stream does what the two decoders say. A stream too
/// short for the greeting header closes the connection with
/// `IncompleteFrame`. Otherwise the greeting takes its header and the
/// methods that are there, the method selection is sent, and what follows
/// is read as the request: the negotiator asks to dial the target of the
/// request that the decoder finds there, and leaves the stream where that
/// request ends, or it closes the connection with the decoder's error.
pub proof fn handshake_agrees_with_decoders(stream: Seq<u8>)
    ensures
        ({
            let end = handshake_over(
                NegotiatorView::GreetingHeader,
                ActionView::ReadExact(2),
                stream,
            );
            let request = stream.skip(2 + greeting_methods(stream).len() as int);
            if stream.len() < 2 {
                (end.0, end.1) == closed_with(ProtocolError::IncompleteFrame)
            } else {
                match request_defect(request) {
                    Some(error) => (end.0, end.1) == closed_with(error),
                    None => {
                        &&& end.0 == NegotiatorView::Dial
                        &&& end.1 == ActionView::Connect(
                            connect_target(request_of(request).address, request_of(request).port),
                        )
                        &&& end.2 == request.skip(request_length(request))
                    },
                }
            }
        }),
{
    reveal_with_fuel(handshake_over, 4);
    if stream.len() >= 2 {
        let request = stream.skip(2 + greeting_methods(stream).len() as int);
        if stream.len() - 2 < stream[1] {
            assert(request =~= Seq::<u8>::empty());
        } else {
            assert(stream.skip(2).skip(stream[1] as int) =~= request);
        }
        request_reads_agree_with_decoder(request);
    }
}

/// A client that sends a whole greeting and a whole request for CONNECT is
/// taken to the dial of the destination it named, and what it sent after the request is
/// left untouched for the relay.
pub proof fn well_formed_client_is_connected(
    greeting: ClientGreetingView,
    request: ConnectRequestView,
    payload: Seq<u8>,
)
    requires
        greeting.methods.len() <= 255,
        request.wf(),
    ensures
        handshake_over(
            NegotiatorView::GreetingHeader,
            ActionView::ReadExact(2),
            greeting_bytes(greeting) + request_bytes(request) + payload,
        ) == (
            NegotiatorView::Dial,
            ActionView::Connect(connect_target(request.address, request.port)),
            payload,
        ),
{
    let stream = greeting_bytes(greeting) + request_bytes(request) + payload;
    let after_greeting = request_bytes(request) + payload;
    greeting_is_read_back(greeting, after_greeting);
    assert(stream.skip(2 + greeting.methods.len() as int) =~= after_greeting);
    request_is_read_back(request, payload);
    handshake_agrees_with_decoders(stream);
}

/// What is written to the client while the handshake runs over a stream, up
/// to where `handshake_over` stops.
pub open spec fn written_over(state: NegotiatorView, action: ActionView, stream: Seq<u8>) -> Seq<
    u8,
>
    decreases 10 - state.progress(),
{
    if state is Closed {
        Seq::empty()
    } else {
        match served(action, stream) {
            Some((outcome, rest)) => {
                let written = match action {
                    ActionView::Send(bytes) => bytes,
                    _ => Seq::empty(),
                };
                written + written_over(
                    transition(state, outcome).0,
                    transition(state, outcome).1,
                    rest,
                )
            },
            None => Seq::empty(),
        }
    }
}

/// Nothing is written to the client while its request is read.
proof fn lemma_request_is_read_in_silence(stream: Seq<u8>)
    ensures
        written_over(NegotiatorView::RequestHeader, ActionView::ReadExact(4), stream)
            == Seq::<u8>::empty(),
{
    reveal_with_fuel(written_over, 5);
    assert(written_over(NegotiatorView::RequestHeader, ActionView::ReadExact(4), stream)
        =~= Seq::<u8>::empty());
}

/// Up to the dial, the client is sent the method selection and nothing
/// else, however the handshake ends; a client that does not even send a
/// greeting header is sent nothing. So a client whose request is turned
/// away, or cut short, has had the two bytes `05 00` and no success reply.
pub proof fn handshake_writes_the_selection_only(stream: Seq<u8>)
    ensures
        stream.len() < 2 ==> written_over(
            NegotiatorView::GreetingHeader,
            ActionView::ReadExact(2),
            stream,
        ) == Seq::<u8>::empty(),
        stream.len() >= 2 ==> written_over(
            NegotiatorView::GreetingHeader,
            ActionView::ReadExact(2),
            stream,
        ) == seq![5u8, 0u8],
{
    reveal_with_fuel(written_over, 4);
    if stream.len() >= 2 {
        let after_header = stream.skip(2);
        let request = if after_header.len() < stream[1] {
            Seq::<u8>::empty()
        } else {
            after_header.skip(stream[1] as int)
        };
        lemma_request_is_read_in_silence(request);
        assert(written_over(NegotiatorView::GreetingHeader, ActionView::ReadExact(2), stream)
            =~= seq![5u8, 0u8]);
    }
}

/// A client that greets and then asks for a command other than CONNECT, of
/// a supported address type, is turned away with `UnsupportedCommand` when
/// the header of its request is read: whatever destination and port follow,
/// no dial is asked for.
pub proof fn other_command_is_turned_away(
    greeting: ClientGreetingView,
    header: Seq<u8>,
    rest: Seq<u8>,
)
    requires
        greeting.methods.len() <= 255,
        header.len() == 4,
        header[3] == ADDRESS_TYPE_IPV4 || header[3] == ADDRESS_TYPE_DOMAIN,
        header[1] != COMMAND_CONNECT,
    ensures
        ({
            let end = handshake_over(
                NegotiatorView::GreetingHeader,
                ActionView::ReadExact(2),
                greeting_bytes(greeting) + header + rest,
            );
            (end.0, end.1) == closed_with(ProtocolError::UnsupportedCommand)
        }),
{
    let stream = greeting_bytes(greeting) + header + rest;
    let after_greeting = header + rest;
    greeting_is_read_back(greeting, after_greeting);
    handshake_agrees_with_decoders(stream);
}

} // verus!
