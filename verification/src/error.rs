//! The ways in which handling one connection can fail.

use vstd::prelude::*;

verus! {

/// Why a connection was given up. Every error ends the connection it
/// arose on and nothing else.
#[derive(Clone, Copy, Debug, PartialEq, Eq, Structural)]
pub enum ProtocolError {
    /// A field of fixed size could not be read in full.
    IncompleteFrame,
    /// The command of a request is not CONNECT.
    UnsupportedCommand,
    /// The address type of a request is neither IPv4 nor domain name.
    UnsupportedAddressType,
    /// The bytes of a domain name are not valid UTF-8.
    MalformedHostname,
    /// The connection to the destination could not be opened.
    UpstreamConnectFailed,
    /// A reply of the handshake could not be written to the client.
    ReplyWriteFailed,
    /// A read or a write failed while bytes were being forwarded.
    RelayIoError,
}

} // verus!
