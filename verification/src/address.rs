//! Destinations, and the connect target that each one resolves to.

use crate::decimal::{decimal, push_decimal};
use vstd::prelude::*;
use vstd::utf8::encode_utf8;

verus! {

/// The destination that a request names: four IPv4 octets, or a host name
/// that is looked up when the connection is opened.
#[derive(Debug, PartialEq, Eq)]
pub enum DestinationAddress {
    IPv4([u8; 4]),
    DomainName(String),
}

/// A destination as a mathematical value.
pub ghost enum DestinationAddressView {
    IPv4(Seq<u8>),
    DomainName(Seq<char>),
}

impl DestinationAddressView {
    /// An IPv4 destination has four octets; a name fits the one-byte length
    /// prefix that carries it on the wire.
    pub open spec fn wf(self) -> bool {
        match self {
            DestinationAddressView::IPv4(octets) => octets.len() == 4,
            DestinationAddressView::DomainName(name) => encode_utf8(name).len() <= 255,
        }
    }
}

impl View for DestinationAddress {
    type V = DestinationAddressView;

    open spec fn view(&self) -> DestinationAddressView {
        match self {
            DestinationAddress::IPv4(octets) => DestinationAddressView::IPv4(octets@),
            DestinationAddress::DomainName(name) => DestinationAddressView::DomainName(name@),
        }
    }
}

impl Clone for DestinationAddress {
    fn clone(&self) -> (copy: Self)
        ensures
            copy@ == self@,
    {
        match self {
            DestinationAddress::IPv4(octets) => DestinationAddress::IPv4(*octets),
            DestinationAddress::DomainName(name) => DestinationAddress::DomainName(name.clone()),
        }
    }
}

impl DestinationAddress {
    /// Whether the destination can be carried in a request.
    pub open spec fn wf(&self) -> bool {
        self@.wf()
    }
}

/// Four octets in dotted-decimal notation.
pub open spec fn dotted_decimal(octets: Seq<u8>) -> Seq<char>
    recommends
        octets.len() == 4,
{
    decimal(octets[0] as nat) + seq!['.'] + decimal(octets[1] as nat) + seq!['.'] + decimal(
        octets[2] as nat,
    ) + seq!['.'] + decimal(octets[3] as nat)
}

/// The host part of a connect target: the octets in dotted-decimal notation,
/// or the name as it is.
pub open spec fn host_text(address: DestinationAddressView) -> Seq<char> {
    match address {
        DestinationAddressView::IPv4(octets) => dotted_decimal(octets),
        DestinationAddressView::DomainName(name) => name,
    }
}

/// The connect target of a destination and a port: host, a colon, and the
/// port in decimal.
pub open spec fn connect_target(address: DestinationAddressView, port: u16) -> Seq<char> {
    host_text(address) + seq![':'] + decimal(port as nat)
}

/// Builds the string that the upstream connection is opened to.
pub fn resolve(address: &DestinationAddress, port: u16) -> (target: String)
    ensures
        target@ == connect_target(address@, port),
{
    let mut target = match address {
        DestinationAddress::IPv4(octets) => {
            let mut host = String::new();
            push_decimal(&mut host, octets[0] as u16);
            host.push('.');
            push_decimal(&mut host, octets[1] as u16);
            host.push('.');
            push_decimal(&mut host, octets[2] as u16);
            host.push('.');
            push_decimal(&mut host, octets[3] as u16);
            host
        },
        DestinationAddress::DomainName(name) => name.clone(),
    };
    target.push(':');
    push_decimal(&mut target, port);
    target
}

} // verus!
