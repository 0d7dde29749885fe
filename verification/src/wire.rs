//! The wire codec: the client's greeting and request are decoded from bytes,
//! the two replies are fixed byte strings.
//!
//! A decoder takes the bytes that the client has delivered so far, reads one
//! frame from their start and says how many bytes the frame took. Fields are
//! examined in the order in which they arrive, so the first defect met on the
//! way decides the error.

use crate::address::{DestinationAddress, DestinationAddressView};
use crate::error::ProtocolError;
use vstd::prelude::*;
use vstd::slice::{slice_subrange, slice_to_vec};
use vstd::string::StringSliceAdditionalSpecFns;
use vstd::utf8::{
    decode_utf8, decode_utf8_encode_utf8, encode_utf8, encode_utf8_decode_utf8,
    encode_utf8_valid_utf8, valid_utf8,
};

verus! {

/// The protocol version that the replies carry.
pub const SOCKS_VERSION: u8 = 5;

/// The method "no authentication required", the only one offered.
pub const NO_AUTHENTICATION: u8 = 0;

/// The command CONNECT, the only one that has a meaning here.
pub const COMMAND_CONNECT: u8 = 1;

/// The reply code "succeeded".
pub const REPLY_SUCCEEDED: u8 = 0;

/// The address type of four IPv4 octets.
pub const ADDRESS_TYPE_IPV4: u8 = 1;

/// The address type of a length-prefixed domain name.
pub const ADDRESS_TYPE_DOMAIN: u8 = 3;

/// The first message of a client: its version and the authentication
/// methods it offers.
#[derive(Debug, PartialEq, Eq)]
pub struct ClientGreeting {
    pub version: u8,
    pub methods: Vec<u8>,
}

/// A greeting as a mathematical value.
pub ghost struct ClientGreetingView {
    pub version: u8,
    pub methods: Seq<u8>,
}

impl View for ClientGreeting {
    type V = ClientGreetingView;

    open spec fn view(&self) -> ClientGreetingView {
        ClientGreetingView { version: self.version, methods: self.methods@ }
    }
}

impl Clone for ClientGreeting {
    fn clone(&self) -> (copy: Self)
        ensures
            copy@ == self@,
    {
        ClientGreeting { version: self.version, methods: self.methods.clone() }
    }
}

impl ClientGreeting {
    /// The number of methods fits the one byte that announces it.
    pub open spec fn wf(&self) -> bool {
        self.methods@.len() <= 255
    }

    /// Whether the greeting carries the version that a SOCKS5 client sends.
    /// Decoding does not check it, and the negotiator answers every
    /// greeting; this is for a caller that wants other versions turned away.
    pub fn has_socks_version(&self) -> (b: bool)
        ensures
            b == (self.version == SOCKS_VERSION),
    {
        self.version == SOCKS_VERSION
    }
}

/// The second message of a client: where it wants to be connected to.
#[derive(Debug, PartialEq, Eq)]
pub struct ConnectRequest {
    pub version: u8,
    pub command: u8,
    pub reserved: u8,
    pub address: DestinationAddress,
    pub port: u16,
}

/// A request as a mathematical value.
pub ghost struct ConnectRequestView {
    pub version: u8,
    pub command: u8,
    pub reserved: u8,
    pub address: DestinationAddressView,
    pub port: u16,
}

impl View for ConnectRequest {
    type V = ConnectRequestView;

    open spec fn view(&self) -> ConnectRequestView {
        ConnectRequestView {
            version: self.version,
            command: self.command,
            reserved: self.reserved,
            address: self.address@,
            port: self.port,
        }
    }
}

impl Clone for ConnectRequest {
    fn clone(&self) -> (copy: Self)
        ensures
            copy@ == self@,
    {
        ConnectRequest {
            version: self.version,
            command: self.command,
            reserved: self.reserved,
            address: self.address.clone(),
            port: self.port,
        }
    }
}

impl ConnectRequestView {
    /// The request asks for CONNECT, and its destination is one that a
    /// request can carry.
    pub open spec fn wf(self) -> bool {
        self.command == COMMAND_CONNECT && self.address.wf()
    }
}

impl ConnectRequest {
    /// Whether the request is one that decoding gives.
    pub open spec fn wf(&self) -> bool {
        self@.wf()
    }

    /// The address type under which the destination travels on the wire.
    pub fn address_type(&self) -> (tag: u8)
        ensures
            self.address@ is IPv4 ==> tag == ADDRESS_TYPE_IPV4,
            self.address@ is DomainName ==> tag == ADDRESS_TYPE_DOMAIN,
    {
        match self.address {
            DestinationAddress::IPv4(_) => ADDRESS_TYPE_IPV4,
            DestinationAddress::DomainName(_) => ADDRESS_TYPE_DOMAIN,
        }
    }
}

/// The method list that a greeting yields from the bytes delivered: what
/// follows the two header bytes, up to the announced count. Where fewer
/// bytes than announced have arrived, the list is what has arrived.
pub open spec fn greeting_methods(bytes: Seq<u8>) -> Seq<u8>
    recommends
        bytes.len() >= 2,
{
    if bytes.len() - 2 < bytes[1] {
        bytes.subrange(2, bytes.len() as int)
    } else {
        bytes.subrange(2, 2 + bytes[1])
    }
}

/// The greeting at the start of `bytes`.
pub open spec fn greeting_of(bytes: Seq<u8>) -> ClientGreetingView
    recommends
        bytes.len() >= 2,
{
    ClientGreetingView { version: bytes[0], methods: greeting_methods(bytes) }
}

/// Decodes the greeting at the start of `bytes`. It fails only where the two
/// header bytes are not both there. The version byte is handed on as it
/// came; a short method list is accepted as it is.
pub fn decode_greeting(bytes: &[u8]) -> (r: Result<(ClientGreeting, usize), ProtocolError>)
    ensures
        r is Ok <==> bytes@.len() >= 2,
        r matches Err(e) ==> e == ProtocolError::IncompleteFrame,
        r matches Ok((greeting, used)) ==> ({
            &&& greeting@ == greeting_of(bytes@)
            &&& greeting.wf()
            &&& used == 2 + greeting.methods@.len()
        }),
{
    if bytes.len() < 2 {
        return Err(ProtocolError::IncompleteFrame);
    }
    let announced = bytes[1] as usize;
    let arrived = bytes.len() - 2;
    let taken = if arrived < announced {
        arrived
    } else {
        announced
    };
    let methods = slice_to_vec(slice_subrange(bytes, 2, 2 + taken));
    Ok((ClientGreeting { version: bytes[0], methods }, 2 + taken))
}

/// The reply to every greeting: version 5, no authentication required.
pub open spec fn method_selection() -> Seq<u8> {
    seq![SOCKS_VERSION, NO_AUTHENTICATION]
}

/// Encodes the method selection.
pub fn encode_method_selection() -> (reply: Vec<u8>)
    ensures
        reply@ == method_selection(),
{
    let reply = vec![SOCKS_VERSION, NO_AUTHENTICATION];
    reply
}

/// The reply to a request whose destination was reached: "succeeded", bound
/// to 0.0.0.0 port 80. The bound address is a placeholder and says nothing
/// of the socket that was opened; clients only need the reply to be well
/// formed.
pub open spec fn success_reply() -> Seq<u8> {
    seq![SOCKS_VERSION, REPLY_SUCCEEDED, 0u8, ADDRESS_TYPE_IPV4, 0u8, 0u8, 0u8, 0u8, 0u8, 0x50u8]
}

/// The success reply is ten bytes that read as a reply should: version 5,
/// "succeeded", a zero reserved byte, and an IPv4 address and a port, which
/// are 0.0.0.0 and 80.
pub proof fn success_reply_is_well_formed()
    ensures
        success_reply().len() == 10,
        success_reply()[0] == SOCKS_VERSION,
        success_reply()[1] == REPLY_SUCCEEDED,
        success_reply()[2] == 0,
        success_reply()[3] == ADDRESS_TYPE_IPV4,
        success_reply().subrange(4, 8) == seq![0u8, 0u8, 0u8, 0u8],
        port_of(success_reply()[8], success_reply()[9]) == 80,
{
}

/// Encodes the success reply.
pub fn encode_success_reply() -> (reply: Vec<u8>)
    ensures
        reply@ == success_reply(),
{
    let reply = vec![
        SOCKS_VERSION,
        REPLY_SUCCEEDED,
        0u8,
        ADDRESS_TYPE_IPV4,
        0u8,
        0u8,
        0u8,
        0u8,
        0u8,
        0x50u8,
    ];
    reply
}

/// The port that two bytes in network order stand for.
pub open spec fn port_of(high: u8, low: u8) -> u16 {
    (high * 256 + low) as u16
}

/// Decodes a port from its two bytes, the high one first.
pub fn decode_port(high: u8, low: u8) -> (port: u16)
    ensures
        port == port_of(high, low),
{
    (high as u16) * 256 + (low as u16)
}

/// Decodes four address bytes into an IPv4 destination.
pub(crate) fn decode_ipv4(bytes: &[u8]) -> (address: DestinationAddress)
    requires
        bytes@.len() == 4,
    ensures
        address@ == DestinationAddressView::IPv4(bytes@),
        address.wf(),
{
    let octets = [bytes[0], bytes[1], bytes[2], bytes[3]];
    assert(octets@ =~= bytes@);
    DestinationAddress::IPv4(octets)
}

/// Decodes the bytes of a domain name. It fails exactly where they are not
/// valid UTF-8.
pub fn decode_hostname(bytes: &[u8]) -> (r: Result<DestinationAddress, ProtocolError>)
    ensures
        r is Ok <==> valid_utf8(bytes@),
        r matches Err(e) ==> e == ProtocolError::MalformedHostname,
        r matches Ok(address) ==> ({
            &&& address@ == DestinationAddressView::DomainName(decode_utf8(bytes@))
            &&& encode_utf8(decode_utf8(bytes@)) == bytes@
        }),
{
    match core::str::from_utf8(bytes) {
        Ok(text) => {
            proof {
                encode_utf8_decode_utf8(text@);
            }
            Ok(DestinationAddress::DomainName(text.to_owned()))
        },
        Err(_) => Err(ProtocolError::MalformedHostname),
    }
}

/// What the header of a request asks for that is not served, if anything:
/// an address type other than IPv4 and domain name, or, with one of these,
/// a command other than CONNECT.
pub open spec fn header_defect(command: u8, address_type: u8) -> Option<ProtocolError> {
    if address_type != ADDRESS_TYPE_IPV4 && address_type != ADDRESS_TYPE_DOMAIN {
        Some(ProtocolError::UnsupportedAddressType)
    } else if command != COMMAND_CONNECT {
        Some(ProtocolError::UnsupportedCommand)
    } else {
        None
    }
}

/// Checks the command and the address type of a request header. The
/// address type is looked at first, so a request of an unsupported address
/// type is turned away as such whatever its command.
pub fn check_header(command: u8, address_type: u8) -> (r: Result<(), ProtocolError>)
    ensures
        r is Ok <==> header_defect(command, address_type) is None,
        r matches Err(e) ==> header_defect(command, address_type) == Some(e),
{
    if address_type != ADDRESS_TYPE_IPV4 && address_type != ADDRESS_TYPE_DOMAIN {
        Err(ProtocolError::UnsupportedAddressType)
    } else if command != COMMAND_CONNECT {
        Err(ProtocolError::UnsupportedCommand)
    } else {
        Ok(())
    }
}

/// The bytes of the domain name in a request of that address type.
pub open spec fn domain_field(bytes: Seq<u8>) -> Seq<u8>
    recommends
        bytes.len() >= 5 + bytes[4],
{
    bytes.subrange(5, 5 + bytes[4])
}

/// What keeps the start of `bytes` from being a request, if anything does.
/// The fields are taken in their order on the wire: the four header bytes,
/// which must name a supported address type and the command CONNECT; then
/// four octets, or a length byte and as many bytes of name, which must be
/// UTF-8; then the two bytes of the port.
pub open spec fn request_defect(bytes: Seq<u8>) -> Option<ProtocolError> {
    if bytes.len() < 4 {
        Some(ProtocolError::IncompleteFrame)
    } else if header_defect(bytes[1], bytes[3]) is Some {
        header_defect(bytes[1], bytes[3])
    } else if bytes[3] == ADDRESS_TYPE_IPV4 {
        if bytes.len() < 10 {
            Some(ProtocolError::IncompleteFrame)
        } else {
            None
        }
    } else {
        if bytes.len() < 5 || bytes.len() < 5 + bytes[4] {
            Some(ProtocolError::IncompleteFrame)
        } else if !valid_utf8(domain_field(bytes)) {
            Some(ProtocolError::MalformedHostname)
        } else if bytes.len() < 7 + bytes[4] {
            Some(ProtocolError::IncompleteFrame)
        } else {
            None
        }
    }
}

/// The number of bytes that the request at the start of `bytes` takes.
pub open spec fn request_length(bytes: Seq<u8>) -> int
    recommends
        request_defect(bytes) is None,
{
    if bytes[3] == ADDRESS_TYPE_IPV4 {
        10
    } else {
        7 + bytes[4]
    }
}

/// The destination in the request at the start of `bytes`.
pub open spec fn request_address(bytes: Seq<u8>) -> DestinationAddressView
    recommends
        request_defect(bytes) is None,
{
    if bytes[3] == ADDRESS_TYPE_IPV4 {
        DestinationAddressView::IPv4(bytes.subrange(4, 8))
    } else {
        DestinationAddressView::DomainName(decode_utf8(domain_field(bytes)))
    }
}

/// The request at the start of `bytes`.
pub open spec fn request_of(bytes: Seq<u8>) -> ConnectRequestView
    recommends
        request_defect(bytes) is None,
{
    ConnectRequestView {
        version: bytes[0],
        command: bytes[1],
        reserved: bytes[2],
        address: request_address(bytes),
        port: port_of(bytes[request_length(bytes) - 2], bytes[request_length(bytes) - 1]),
    }
}

/// Decodes the request at the start of `bytes`.
///
/// It fails with `UnsupportedAddressType` where the address type is neither
/// IPv4 nor domain name, with `UnsupportedCommand` where the command is not
/// CONNECT, with `MalformedHostname` where the name is not UTF-8, and with
/// `IncompleteFrame` where a field is cut short. Version and reserved byte
/// are handed on as they came.
pub fn decode_request(bytes: &[u8]) -> (r: Result<(ConnectRequest, usize), ProtocolError>)
    ensures
        r is Ok <==> request_defect(bytes@) is None,
        r matches Err(e) ==> request_defect(bytes@) == Some(e),
        r matches Ok((request, used)) ==> ({
            &&& request@ == request_of(bytes@)
            &&& request.wf()
            &&& used == request_length(bytes@)
        }),
        bytes@.len() >= 4 && bytes@[3] != ADDRESS_TYPE_IPV4 && bytes@[3] != ADDRESS_TYPE_DOMAIN
            ==> r matches Err(ProtocolError::UnsupportedAddressType),
        bytes@.len() >= 4 && (bytes@[3] == ADDRESS_TYPE_IPV4 || bytes@[3] == ADDRESS_TYPE_DOMAIN)
            && bytes@[1] != COMMAND_CONNECT ==> r matches Err(ProtocolError::UnsupportedCommand),
        bytes@.len() >= 5 && bytes@[1] == COMMAND_CONNECT && bytes@[3] == ADDRESS_TYPE_DOMAIN
            && bytes@.len() >= 5 + bytes@[4] && !valid_utf8(domain_field(bytes@)) ==> r matches Err(
            ProtocolError::MalformedHostname,
        ),
{
    if bytes.len() < 4 {
        return Err(ProtocolError::IncompleteFrame);
    }
    let address_type = bytes[3];
    match check_header(bytes[1], address_type) {
        Ok(()) => {},
        Err(e) => {
            return Err(e);
        },
    }
    let (address, port_at) = if address_type == ADDRESS_TYPE_IPV4 {
        if bytes.len() < 8 {
            return Err(ProtocolError::IncompleteFrame);
        }
        (decode_ipv4(slice_subrange(bytes, 4, 8)), 8usize)
    } else {
        if bytes.len() < 5 {
            return Err(ProtocolError::IncompleteFrame);
        }
        let length = bytes[4] as usize;
        if bytes.len() < 5 + length {
            return Err(ProtocolError::IncompleteFrame);
        }
        match decode_hostname(slice_subrange(bytes, 5, 5 + length)) {
            Ok(address) => (address, 5 + length),
            Err(e) => {
                return Err(e);
            },
        }
    };
    if bytes.len() < port_at + 2 {
        return Err(ProtocolError::IncompleteFrame);
    }
    let port = decode_port(bytes[port_at], bytes[port_at + 1]);
    let request = ConnectRequest {
        version: bytes[0],
        command: bytes[1],
        reserved: bytes[2],
        address,
        port,
    };
    Ok((request, port_at + 2))
}

/// A greeting as it travels: the version, the number of methods, the
/// methods.
pub open spec fn greeting_bytes(greeting: ClientGreetingView) -> Seq<u8> {
    seq![greeting.version, greeting.methods.len() as u8] + greeting.methods
}

/// The two bytes that carry a port, the high one first.
pub open spec fn port_bytes(port: u16) -> Seq<u8> {
    seq![(port / 256) as u8, (port % 256) as u8]
}

/// The bytes that carry a destination: its address type, then the four
/// octets, or the length of the name and the name in UTF-8.
pub open spec fn address_bytes(address: DestinationAddressView) -> Seq<u8> {
    match address {
        DestinationAddressView::IPv4(octets) => seq![ADDRESS_TYPE_IPV4] + octets,
        DestinationAddressView::DomainName(name) => seq![
            ADDRESS_TYPE_DOMAIN,
            encode_utf8(name).len() as u8,
        ] + encode_utf8(name),
    }
}

/// A request as it travels: version, command, reserved byte, destination,
/// port.
pub open spec fn request_bytes(request: ConnectRequestView) -> Seq<u8> {
    seq![request.version, request.command, request.reserved] + address_bytes(request.address)
        + port_bytes(request.port)
}

/// A greeting that is sent whole is decoded to what was sent, whatever
/// follows it.
pub proof fn greeting_is_read_back(greeting: ClientGreetingView, tail: Seq<u8>)
    requires
        greeting.methods.len() <= 255,
    ensures
        (greeting_bytes(greeting) + tail).len() >= 2,
        greeting_of(greeting_bytes(greeting) + tail) == greeting,
{
    assert(greeting_methods(greeting_bytes(greeting) + tail) =~= greeting.methods);
}

/// Two bytes in network order stand for the port that they were made from.
pub proof fn port_is_read_back(port: u16)
    ensures
        port_of(port_bytes(port)[0], port_bytes(port)[1]) == port,
{
}

/// A request for CONNECT that is sent whole is decoded to what was sent,
/// whatever follows it: decoding finds no defect, gives back every field,
/// and takes as many bytes as the request has.
pub proof fn request_is_read_back(request: ConnectRequestView, tail: Seq<u8>)
    requires
        request.wf(),
    ensures
        request_defect(request_bytes(request) + tail) is None,
        request_of(request_bytes(request) + tail) == request,
        request_length(request_bytes(request) + tail) == request_bytes(request).len(),
{
    let bytes = request_bytes(request) + tail;
    port_is_read_back(request.port);
    match request.address {
        DestinationAddressView::IPv4(octets) => {
            assert(bytes.subrange(4, 8) =~= octets);
        },
        DestinationAddressView::DomainName(name) => {
            assert(domain_field(bytes) =~= encode_utf8(name));
            encode_utf8_valid_utf8(name);
            encode_utf8_decode_utf8(name);
        },
    }
}

/// Nothing but a request's own bytes decodes to it: where decoding finds no
/// defect, the bytes that it took are the wire form of the request that it
/// gave, and that request is well formed.
pub proof fn request_has_one_wire_form(bytes: Seq<u8>)
    requires
        request_defect(bytes) is None,
    ensures
        request_of(bytes).wf(),
        bytes.take(request_length(bytes)) == request_bytes(request_of(bytes)),
{
    if bytes[3] == ADDRESS_TYPE_DOMAIN {
        decode_utf8_encode_utf8(domain_field(bytes));
    }
}

/// A request is turned away for its command exactly where its header is
/// there, its address type is a supported one, and its command is not
/// CONNECT. So no command but CONNECT is ever served, and CONNECT is never
/// turned away as a command.
pub proof fn command_other_than_connect_is_unsupported(bytes: Seq<u8>)
    ensures
        request_defect(bytes) == Some(ProtocolError::UnsupportedCommand) <==> ({
            &&& bytes.len() >= 4
            &&& (bytes[3] == ADDRESS_TYPE_IPV4 || bytes[3] == ADDRESS_TYPE_DOMAIN)
            &&& bytes[1] != COMMAND_CONNECT
        }),
        request_defect(bytes) is None ==> bytes[1] == COMMAND_CONNECT,
{
}

} // verus!
