use vstd::prelude::*;

pub mod socks5;

verus! {

/// The proxy protocols that a client connection can speak.
#[derive(Clone, Copy, Debug, PartialEq, Eq, Structural)]
pub enum ProxyProtocol {
    Socks5,
}

/// Why the first byte of a client connection was not accepted.
#[derive(Clone, Copy, Debug, PartialEq, Eq, Structural)]
pub enum ProtocolError {
    /// The first byte belongs to no protocol this proxy speaks.
    Unrecognized(u8),
}

/// The protocol that a connection whose first byte is `first` speaks, if any.
pub open spec fn protocol_of(first: u8) -> Option<ProxyProtocol> {
    if first == 5 {
        Some(ProxyProtocol::Socks5)
    } else {
        None
    }
}

/// Classifies a client connection by its first byte (peeked, not consumed).
/// A SOCKS5 client opens with its version byte, `0x05`.
pub fn identify_protocol(first: u8) -> (r: Result<ProxyProtocol, ProtocolError>)
    ensures
        match protocol_of(first) {
            Some(p) => r == Ok::<ProxyProtocol, ProtocolError>(p),
            None => r == Err::<ProxyProtocol, ProtocolError>(ProtocolError::Unrecognized(first)),
        },
{
    if first == 5 {
        Ok(ProxyProtocol::Socks5)
    } else {
        Err(ProtocolError::Unrecognized(first))
    }
}

/// A connection is SOCKS5 exactly when its first byte is the SOCKS version
/// byte 5.
pub proof fn socks5_identified_by_version_byte(first: u8)
    ensures
        protocol_of(first) == Some(ProxyProtocol::Socks5) <==> first == 5,
        protocol_of(first) is None <==> first != 5,
{
}

/// The first byte classifies a connection as SOCKS5 exactly when the
/// greeting that starts with it passes the version check.
pub proof fn identified_iff_version_accepted(b: Seq<u8>)
    requires
        b.len() >= 1,
    ensures
        protocol_of(b[0]) is Some <==> !(socks5::greeting_spec(b) is BadVersion),
{
}

} // verus!
