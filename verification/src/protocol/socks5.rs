//! The two client messages that open a SOCKS5 (RFC 1928) session, read as
//! the server reads them: piece by piece, never past the end of a message.
//!
//! Each `*_status` function looks at the bytes read so far and says either how
//! many more bytes the next read must take, or what the message decided.
use vstd::prelude::*;
use vstd::utf8::{decode_utf8, valid_utf8};

use crate::address::{Address, AddressView, SocketAddr, SocketAddrView};
use crate::text::utf8_text;

verus! {

/// Protocol version byte of SOCKS5.
pub const SOCKS_VERSION: u8 = 5;

/// Method byte: no authentication required.
pub const METHOD_NO_AUTH: u8 = 0;

/// Method byte: none of the offered methods is acceptable.
pub const METHOD_NONE_ACCEPTABLE: u8 = 0xFF;

/// Request command byte: CONNECT.
pub const CMD_CONNECT: u8 = 1;

/// Address type byte: IPv4 address.
pub const ATYP_IPV4: u8 = 1;

/// Address type byte: domain name.
pub const ATYP_DOMAIN: u8 = 3;

/// Address type byte: IPv6 address.
pub const ATYP_IPV6: u8 = 4;

/// What the bytes of the greeting (version, method count, methods) read so
/// far decide.
#[derive(Clone, Copy, Debug, PartialEq, Eq, Structural)]
pub enum GreetingStatus {
    /// The next read must take exactly this many bytes.
    NeedBytes(usize),
    /// The client does not speak SOCKS5: its version byte.
    BadVersion(u8),
    /// The client offered no "no authentication" method: refuse, then close.
    NoAcceptableMethod,
    /// The client offered "no authentication": accept it.
    Accepted,
}

/// Length of a complete greeting whose method count is `n`.
pub open spec fn greeting_len(n: u8) -> int {
    2 + n
}

/// What the greeting bytes `b` read so far decide.
pub open spec fn greeting_spec(b: Seq<u8>) -> GreetingStatus {
    if b.len() < 1 {
        GreetingStatus::NeedBytes(1)
    } else if b[0] != SOCKS_VERSION {
        GreetingStatus::BadVersion(b[0])
    } else if b.len() < 2 {
        GreetingStatus::NeedBytes(1)
    } else if b.len() < greeting_len(b[1]) {
        GreetingStatus::NeedBytes((greeting_len(b[1]) - b.len()) as usize)
    } else if b.subrange(2, greeting_len(b[1]) as int).contains(METHOD_NO_AUTH) {
        GreetingStatus::Accepted
    } else {
        GreetingStatus::NoAcceptableMethod
    }
}

/// Reads the greeting bytes received so far.
pub fn greeting_status(buf: &[u8]) -> (r: GreetingStatus)
    ensures
        r == greeting_spec(buf@),
{
    if buf.len() < 1 {
        return GreetingStatus::NeedBytes(1);
    }
    if buf[0] != SOCKS_VERSION {
        return GreetingStatus::BadVersion(buf[0]);
    }
    if buf.len() < 2 {
        return GreetingStatus::NeedBytes(1);
    }
    let total: usize = 2 + buf[1] as usize;
    if buf.len() < total {
        return GreetingStatus::NeedBytes(total - buf.len());
    }
    let ghost methods = buf@.subrange(2, total as int);
    let mut i: usize = 2;
    while i < total
        invariant
            2 <= i <= total,
            buf@[0] == SOCKS_VERSION,
            total == greeting_len(buf@[1]),
            total <= buf@.len(),
            methods == buf@.subrange(2, total as int),
            forall|j: int| 2 <= j < i ==> buf@[j] != METHOD_NO_AUTH,
        decreases total - i,
    {
        if buf[i] == METHOD_NO_AUTH {
            assert(methods[i - 2] == METHOD_NO_AUTH);
            assert(methods.contains(METHOD_NO_AUTH));
            return GreetingStatus::Accepted;
        }
        i = i + 1;
    }
    assert(!methods.contains(METHOD_NO_AUTH)) by {
        assert forall|k: int| 0 <= k < methods.len() implies methods[k] != METHOD_NO_AUTH by {
            assert(methods[k] == buf@[k + 2]);
        }
    }
    GreetingStatus::NoAcceptableMethod
}

/// The server's method-selection message: version, chosen method.
pub open spec fn method_selection(method: u8) -> Seq<u8> {
    seq![SOCKS_VERSION, method]
}

/// The bytes the server sends once a greeting is decided: the selection of
/// "no authentication", or the refusal of every offered method; nothing when
/// the version was wrong or the greeting is not complete.
pub fn greeting_reply(status: GreetingStatus) -> (r: Option<Vec<u8>>)
    ensures
        match status {
            GreetingStatus::Accepted => r matches Some(v) && v@ == method_selection(METHOD_NO_AUTH),
            GreetingStatus::NoAcceptableMethod => r matches Some(v) && v@ == method_selection(
                METHOD_NONE_ACCEPTABLE,
            ),
            _ => r is None,
        },
{
    match status {
        GreetingStatus::Accepted => {
            let v = vec![SOCKS_VERSION, METHOD_NO_AUTH];
            assert(v@ =~= method_selection(METHOD_NO_AUTH));
            Some(v)
        },
        GreetingStatus::NoAcceptableMethod => {
            let v = vec![SOCKS_VERSION, METHOD_NONE_ACCEPTABLE];
            assert(v@ =~= method_selection(METHOD_NONE_ACCEPTABLE));
            Some(v)
        },
        _ => None,
    }
}

/// The reply that tells the client its CONNECT succeeded: version, success,
/// reserved, and a bound address of IPv4 0.0.0.0 port 0.
pub open spec fn connect_success_reply() -> Seq<u8> {
    seq![5u8, 0u8, 0u8, 1u8, 0u8, 0u8, 0u8, 0u8, 0u8, 0u8]
}

/// Builds the CONNECT success reply.
pub fn connect_reply() -> (r: Vec<u8>)
    ensures
        r@ == connect_success_reply(),
{
    let v = vec![5u8, 0u8, 0u8, 1u8, 0u8, 0u8, 0u8, 0u8, 0u8, 0u8];
    assert(v@ =~= connect_success_reply());
    v
}

/// What the bytes of the request (version, command, reserved, address type,
/// address, port) read so far decide.
#[derive(Clone, Debug)]
pub enum RequestStatus {
    /// The next read must take exactly this many bytes.
    NeedBytes(usize),
    /// The client does not speak SOCKS5: its version byte.
    BadVersion(u8),
    /// The command is not CONNECT: the command byte.
    UnsupportedCommand(u8),
    /// The address type is none of IPv4, domain name, IPv6: its byte.
    UnsupportedAddressType(u8),
    /// The domain name is not valid UTF-8.
    InvalidDomainName,
    /// The request is complete and asks to connect to this target.
    Complete(Address),
}

/// Mathematical model of [`RequestStatus`].
pub enum RequestStatusView {
    NeedBytes(nat),
    BadVersion(u8),
    UnsupportedCommand(u8),
    UnsupportedAddressType(u8),
    InvalidDomainName,
    Complete(AddressView),
}

impl View for RequestStatus {
    type V = RequestStatusView;

    open spec fn view(&self) -> RequestStatusView {
        match self {
            RequestStatus::NeedBytes(n) => RequestStatusView::NeedBytes(*n as nat),
            RequestStatus::BadVersion(v) => RequestStatusView::BadVersion(*v),
            RequestStatus::UnsupportedCommand(c) => RequestStatusView::UnsupportedCommand(*c),
            RequestStatus::UnsupportedAddressType(a) => RequestStatusView::UnsupportedAddressType(
                *a,
            ),
            RequestStatus::InvalidDomainName => RequestStatusView::InvalidDomainName,
            RequestStatus::Complete(a) => RequestStatusView::Complete(a@),
        }
    }
}

/// A port sent in network byte order.
pub open spec fn port_of(hi: u8, lo: u8) -> u16 {
    (hi * 256 + lo) as u16
}

/// What a numeric address of `len` octets, from offset 4 on, decides.
pub open spec fn numeric_request_spec(b: Seq<u8>, len: int) -> RequestStatusView {
    if b.len() < 4 + len {
        RequestStatusView::NeedBytes((4 + len - b.len()) as nat)
    } else if b.len() < 6 + len {
        RequestStatusView::NeedBytes((6 + len - b.len()) as nat)
    } else {
        let ip = b.subrange(4, 4 + len);
        let port = port_of(b[4 + len], b[5 + len]);
        RequestStatusView::Complete(
            AddressView::SocketAddr(
                if len == 4 {
                    SocketAddrView::V4(ip, port)
                } else {
                    SocketAddrView::V6(ip, port, 0, 0)
                },
            ),
        )
    }
}

/// The domain name bytes of a request whose name length byte is `b[4]`.
pub open spec fn domain_bytes(b: Seq<u8>) -> Seq<u8> {
    b.subrange(5, 5 + b[4])
}

/// What a domain-name address, from offset 4 on, decides.
pub open spec fn domain_request_spec(b: Seq<u8>) -> RequestStatusView {
    if b.len() < 5 {
        RequestStatusView::NeedBytes(1)
    } else if b.len() < 5 + b[4] {
        RequestStatusView::NeedBytes((5 + b[4] - b.len()) as nat)
    } else if !valid_utf8(domain_bytes(b)) {
        RequestStatusView::InvalidDomainName
    } else if b.len() < 7 + b[4] {
        RequestStatusView::NeedBytes((7 + b[4] - b.len()) as nat)
    } else {
        RequestStatusView::Complete(
            AddressView::DomainName(
                decode_utf8(domain_bytes(b)),
                port_of(b[5 + b[4]], b[6 + b[4]]),
            ),
        )
    }
}

/// What the request bytes `b` read so far decide. The fixed header is read a
/// byte at a time; an address is read whole, then its two-byte port.
pub open spec fn request_spec(b: Seq<u8>) -> RequestStatusView {
    if b.len() < 1 {
        RequestStatusView::NeedBytes(1)
    } else if b[0] != SOCKS_VERSION {
        RequestStatusView::BadVersion(b[0])
    } else if b.len() < 2 {
        RequestStatusView::NeedBytes(1)
    } else if b[1] != CMD_CONNECT {
        RequestStatusView::UnsupportedCommand(b[1])
    } else if b.len() < 4 {
        RequestStatusView::NeedBytes(1)
    } else if b[3] == ATYP_IPV4 {
        numeric_request_spec(b, 4)
    } else if b[3] == ATYP_DOMAIN {
        domain_request_spec(b)
    } else if b[3] == ATYP_IPV6 {
        numeric_request_spec(b, 16)
    } else {
        RequestStatusView::UnsupportedAddressType(b[3])
    }
}

/// The port stored big-endian at `buf[i]`, `buf[i + 1]`.
fn port_at(buf: &[u8], i: usize) -> (r: u16)
    requires
        i + 1 < buf@.len(),
    ensures
        r == port_of(buf@[i as int], buf@[i + 1]),
{
    let hi = buf[i] as u16;
    let lo = buf[i + 1] as u16;
    hi * 256 + lo
}

/// The bytes `buf[start..end]` as a vector.
fn copy_range(buf: &[u8], start: usize, end: usize) -> (r: Vec<u8>)
    requires
        start <= end <= buf@.len(),
    ensures
        r@ == buf@.subrange(start as int, end as int),
{
    let mut v: Vec<u8> = Vec::new();
    let mut i: usize = start;
    while i < end
        invariant
            start <= i <= end <= buf@.len(),
            v@ == buf@.subrange(start as int, i as int),
        decreases end - i,
    {
        v.push(buf[i]);
        i = i + 1;
        assert(v@ =~= buf@.subrange(start as int, i as int));
    }
    v
}

/// Reads a complete IPv4 address at offset 4.
fn ipv4_at(buf: &[u8]) -> (r: [u8; 4])
    requires
        8 <= buf@.len(),
    ensures
        r@ == buf@.subrange(4, 8),
{
    let ip: [u8; 4] = [buf[4], buf[5], buf[6], buf[7]];
    assert(ip@ =~= buf@.subrange(4, 8));
    ip
}

/// Reads a complete IPv6 address at offset 4.
fn ipv6_at(buf: &[u8]) -> (r: [u8; 16])
    requires
        20 <= buf@.len(),
    ensures
        r@ == buf@.subrange(4, 20),
{
    let ip: [u8; 16] = [
        buf[4],
        buf[5],
        buf[6],
        buf[7],
        buf[8],
        buf[9],
        buf[10],
        buf[11],
        buf[12],
        buf[13],
        buf[14],
        buf[15],
        buf[16],
        buf[17],
        buf[18],
        buf[19],
    ];
    assert(ip@ =~= buf@.subrange(4, 20));
    ip
}

/// Reads the request bytes received so far.
pub fn request_status(buf: &[u8]) -> (r: RequestStatus)
    ensures
        r@ == request_spec(buf@),
{
    let len = buf.len();
    if len < 1 {
        return RequestStatus::NeedBytes(1);
    }
    if buf[0] != SOCKS_VERSION {
        return RequestStatus::BadVersion(buf[0]);
    }
    if len < 2 {
        return RequestStatus::NeedBytes(1);
    }
    if buf[1] != CMD_CONNECT {
        return RequestStatus::UnsupportedCommand(buf[1]);
    }
    if len < 4 {
        return RequestStatus::NeedBytes(1);
    }
    let atyp = buf[3];
    if atyp == ATYP_IPV4 {
        if len < 8 {
            return RequestStatus::NeedBytes(8 - len);
        }
        if len < 10 {
            return RequestStatus::NeedBytes(10 - len);
        }
        let ip = ipv4_at(buf);
        let port = port_at(buf, 8);
        RequestStatus::Complete(Address::SocketAddr(SocketAddr::V4(ip, port)))
    } else if atyp == ATYP_DOMAIN {
        if len < 5 {
            return RequestStatus::NeedBytes(1);
        }
        let name_len = buf[4] as usize;
        if len < 5 + name_len {
            return RequestStatus::NeedBytes(5 + name_len - len);
        }
        let name_bytes = copy_range(buf, 5, 5 + name_len);
        match utf8_text(name_bytes) {
            None => RequestStatus::InvalidDomainName,
            Some(name) => {
                if len < 7 + name_len {
                    return RequestStatus::NeedBytes(7 + name_len - len);
                }
                let port = port_at(buf, 5 + name_len);
                RequestStatus::Complete(Address::DomainName(name, port))
            },
        }
    } else if atyp == ATYP_IPV6 {
        if len < 20 {
            return RequestStatus::NeedBytes(20 - len);
        }
        if len < 22 {
            return RequestStatus::NeedBytes(22 - len);
        }
        let ip = ipv6_at(buf);
        let port = port_at(buf, 20);
        RequestStatus::Complete(Address::SocketAddr(SocketAddr::V6(ip, port, 0, 0)))
    } else {
        RequestStatus::UnsupportedAddressType(atyp)
    }
}

/// A decided greeting stays decided: the bytes that follow it on the
/// connection never change what it decided, so the server never needs to
/// read past the greeting.
pub proof fn greeting_decision_is_final(b: Seq<u8>, more: Seq<u8>)
    requires
        !(greeting_spec(b) is NeedBytes),
    ensures
        greeting_spec(b + more) == greeting_spec(b),
{
    let c = b + more;
    assert(c[0] == b[0]);
    if b.len() >= 2 {
        assert(c[1] == b[1]);
        if b[0] == SOCKS_VERSION && b.len() >= greeting_len(b[1]) {
            assert(c.subrange(2, greeting_len(b[1])) =~= b.subrange(2, greeting_len(b[1])));
        }
    }
}

/// A greeting asks for at least one byte at a time and is decided within
/// 257 bytes: two header bytes and at most 255 methods.
pub proof fn greeting_is_bounded(b: Seq<u8>)
    ensures
        greeting_spec(b) matches GreetingStatus::NeedBytes(n) ==> 1 <= n && b.len() + n <= 257,
        b.len() >= 257 ==> !(greeting_spec(b) is NeedBytes),
{
}

/// A decided request stays decided: the bytes that follow it on the
/// connection (the data to forward) never change what it decided, so the
/// server never reads past the request.
pub proof fn request_decision_is_final(b: Seq<u8>, more: Seq<u8>)
    requires
        !(request_spec(b) is NeedBytes),
    ensures
        request_spec(b + more) == request_spec(b),
{
    let c = b + more;
    assert(c[0] == b[0]);
    if b.len() >= 2 {
        assert(c[1] == b[1]);
    }
    if b.len() >= 4 {
        assert(c[3] == b[3]);
        if b[3] == ATYP_IPV4 && b.len() >= 10 {
            assert(c.subrange(4, 8) =~= b.subrange(4, 8));
            assert(c[8] == b[8] && c[9] == b[9]);
        }
        if b[3] == ATYP_IPV6 && b.len() >= 22 {
            assert(c.subrange(4, 20) =~= b.subrange(4, 20));
            assert(c[20] == b[20] && c[21] == b[21]);
        }
        if b[3] == ATYP_DOMAIN && b.len() >= 5 {
            assert(c[4] == b[4]);
            if b.len() >= 5 + b[4] {
                assert(domain_bytes(c) =~= domain_bytes(b));
                if b.len() >= 7 + b[4] {
                    assert(c[5 + b[4]] == b[5 + b[4]]);
                    assert(c[6 + b[4]] == b[6 + b[4]]);
                }
            }
        }
    }
}

/// The reserved byte of a request is read and ignored: whatever it holds,
/// the request decides the same.
pub proof fn request_ignores_reserved_byte(b: Seq<u8>, x: u8)
    requires
        b.len() >= 3,
    ensures
        request_spec(b.update(2, x)) == request_spec(b),
{
    let c = b.update(2, x);
    assert(c[0] == b[0] && c[1] == b[1]);
    if b.len() >= 4 {
        assert(c[3] == b[3]);
    }
    if b.len() >= 8 {
        assert(c.subrange(4, 8) =~= b.subrange(4, 8));
    }
    if b.len() >= 10 {
        assert(c[8] == b[8] && c[9] == b[9]);
    }
    if b.len() >= 20 {
        assert(c.subrange(4, 20) =~= b.subrange(4, 20));
    }
    if b.len() >= 22 {
        assert(c[20] == b[20] && c[21] == b[21]);
    }
    if b.len() >= 5 {
        assert(c[4] == b[4]);
        if b.len() >= 5 + b[4] {
            assert(domain_bytes(c) =~= domain_bytes(b));
        }
        if b.len() >= 7 + b[4] {
            assert(c[5 + b[4]] == b[5 + b[4]]);
            assert(c[6 + b[4]] == b[6 + b[4]]);
        }
    }
}

/// A request asks for at least one byte at a time and is decided within
/// 262 bytes: four header bytes, a length byte, a 255-byte name and a port.
pub proof fn request_is_bounded(b: Seq<u8>)
    ensures
        request_spec(b) matches RequestStatusView::NeedBytes(n) ==> 1 <= n && b.len() + n <= 262,
        b.len() >= 262 ==> !(request_spec(b) is NeedBytes),
{
}

/// Why a SOCKS5 negotiation failed.
#[derive(Clone, Debug)]
pub enum Socks5Error {
    /// The client's version byte is not 5.
    BadVersion(u8),
    /// The client offered no "no authentication" method: the methods it
    /// offered.
    NoAcceptableMethod(Vec<u8>),
    /// The request's command is not CONNECT.
    UnsupportedCommand(u8),
    /// The request's address type is unknown.
    UnsupportedAddressType(u8),
    /// The requested domain name is not valid UTF-8.
    InvalidDomainName,
}

/// Mathematical model of [`Socks5Error`].
pub enum Socks5ErrorView {
    BadVersion(u8),
    NoAcceptableMethod(Seq<u8>),
    UnsupportedCommand(u8),
    UnsupportedAddressType(u8),
    InvalidDomainName,
}

impl View for Socks5Error {
    type V = Socks5ErrorView;

    open spec fn view(&self) -> Socks5ErrorView {
        match self {
            Socks5Error::BadVersion(v) => Socks5ErrorView::BadVersion(*v),
            Socks5Error::NoAcceptableMethod(m) => Socks5ErrorView::NoAcceptableMethod(m@),
            Socks5Error::UnsupportedCommand(c) => Socks5ErrorView::UnsupportedCommand(*c),
            Socks5Error::UnsupportedAddressType(t) => Socks5ErrorView::UnsupportedAddressType(*t),
            Socks5Error::InvalidDomainName => Socks5ErrorView::InvalidDomainName,
        }
    }
}

/// The methods that a greeting whose method count is `b[1]` offers.
pub open spec fn greeting_methods(b: Seq<u8>) -> Seq<u8> {
    b.subrange(2, greeting_len(b[1]))
}

/// Where a negotiation stands.
#[derive(Clone, Copy, Debug, PartialEq, Eq, Structural)]
pub enum Phase {
    /// Reading the greeting.
    Greeting,
    /// Reading the request.
    Request,
    /// Over: the target is known, or the negotiation failed.
    Over,
}

/// What the connection must do next for the negotiation.
#[derive(Clone, Debug)]
pub enum NegotiationStep {
    /// Read exactly this many bytes from the client and feed them.
    Read(usize),
    /// Write these bytes to the client, then read exactly this many bytes
    /// and feed them.
    ReplyThenRead(Vec<u8>, usize),
    /// Write the reply, if any, to the client; the negotiation failed.
    Fail(Option<Vec<u8>>, Socks5Error),
    /// The client asks to connect to this target.
    Done(Address),
}

/// Mathematical model of [`NegotiationStep`].
pub enum NegotiationStepView {
    Read(nat),
    ReplyThenRead(Seq<u8>, nat),
    Fail(Option<Seq<u8>>, Socks5ErrorView),
    Done(AddressView),
}

impl View for NegotiationStep {
    type V = NegotiationStepView;

    open spec fn view(&self) -> NegotiationStepView {
        match self {
            NegotiationStep::Read(n) => NegotiationStepView::Read(*n as nat),
            NegotiationStep::ReplyThenRead(r, n) => NegotiationStepView::ReplyThenRead(r@, *n as nat),
            NegotiationStep::Fail(r, e) => NegotiationStepView::Fail(
                match r {
                    Some(v) => Some(v@),
                    None => None,
                },
                e@,
            ),
            NegotiationStep::Done(a) => NegotiationStepView::Done(a@),
        }
    }
}

/// The step, the next phase and the bytes kept, once the current message
/// of a negotiation in `phase` has read the bytes `b`.
pub open spec fn negotiation_spec(phase: Phase, b: Seq<u8>) -> (NegotiationStepView, Phase, Seq<u8>) {
    if phase == Phase::Greeting {
        match greeting_spec(b) {
            GreetingStatus::NeedBytes(n) => (NegotiationStepView::Read(n as nat), Phase::Greeting, b),
            GreetingStatus::Accepted => (
                NegotiationStepView::ReplyThenRead(method_selection(METHOD_NO_AUTH), 1),
                Phase::Request,
                Seq::empty(),
            ),
            GreetingStatus::NoAcceptableMethod => (
                NegotiationStepView::Fail(
                    Some(method_selection(METHOD_NONE_ACCEPTABLE)),
                    Socks5ErrorView::NoAcceptableMethod(greeting_methods(b)),
                ),
                Phase::Over,
                b,
            ),
            GreetingStatus::BadVersion(v) => (
                NegotiationStepView::Fail(None, Socks5ErrorView::BadVersion(v)),
                Phase::Over,
                b,
            ),
        }
    } else {
        match request_spec(b) {
            RequestStatusView::NeedBytes(n) => (NegotiationStepView::Read(n), Phase::Request, b),
            RequestStatusView::Complete(a) => (NegotiationStepView::Done(a), Phase::Over, b),
            RequestStatusView::BadVersion(v) => (
                NegotiationStepView::Fail(None, Socks5ErrorView::BadVersion(v)),
                Phase::Over,
                b,
            ),
            RequestStatusView::UnsupportedCommand(c) => (
                NegotiationStepView::Fail(None, Socks5ErrorView::UnsupportedCommand(c)),
                Phase::Over,
                b,
            ),
            RequestStatusView::UnsupportedAddressType(t) => (
                NegotiationStepView::Fail(None, Socks5ErrorView::UnsupportedAddressType(t)),
                Phase::Over,
                b,
            ),
            RequestStatusView::InvalidDomainName => (
                NegotiationStepView::Fail(None, Socks5ErrorView::InvalidDomainName),
                Phase::Over,
                b,
            ),
        }
    }
}

/// The opening exchange of a SOCKS5 session, driven by the bytes the server
/// reads: the greeting, then the CONNECT request.
pub struct Socks5Negotiation {
    phase: Phase,
    buf: Vec<u8>,
}

impl Socks5Negotiation {
    /// The phase of the negotiation.
    pub closed spec fn phase(&self) -> Phase {
        self.phase
    }

    /// The bytes of the current message read so far.
    pub closed spec fn pending(&self) -> Seq<u8> {
        self.buf@
    }

    /// A negotiation that has read nothing yet.
    pub fn new() -> (r: Socks5Negotiation)
        ensures
            r.phase() == Phase::Greeting,
            r.pending() == Seq::<u8>::empty(),
    {
        Socks5Negotiation { phase: Phase::Greeting, buf: Vec::new() }
    }

    /// Whether the negotiation is over, so that nothing more may be fed.
    pub fn is_over(&self) -> (r: bool)
        ensures
            r == (self.phase() == Phase::Over),
    {
        self.phase == Phase::Over
    }

    /// Takes the bytes just read (nothing, to begin) and says what to do
    /// next. The greeting decides first: on acceptance the server replies
    /// and reads the request, which then decides the target.
    pub fn feed(&mut self, input: &[u8]) -> (step: NegotiationStep)
        requires
            old(self).phase() != Phase::Over,
        ensures
            (step@, final(self).phase(), final(self).pending()) == negotiation_spec(
                old(self).phase(),
                old(self).pending() + input@,
            ),
    {
        let mut i: usize = 0;
        let ghost start = self.buf@;
        while i < input.len()
            invariant
                0 <= i <= input@.len(),
                self.buf@ == start + input@.subrange(0, i as int),
                self.phase == old(self).phase,
            decreases input@.len() - i,
        {
            self.buf.push(input[i]);
            i = i + 1;
            assert(self.buf@ =~= start + input@.subrange(0, i as int));
        }
        assert(input@.subrange(0, input@.len() as int) =~= input@);
        if self.phase == Phase::Greeting {
            match greeting_status(self.buf.as_slice()) {
                GreetingStatus::NeedBytes(n) => NegotiationStep::Read(n),
                GreetingStatus::Accepted => {
                    self.phase = Phase::Request;
                    self.buf = Vec::new();
                    let reply = greeting_reply(GreetingStatus::Accepted);
                    NegotiationStep::ReplyThenRead(reply.unwrap(), 1)
                },
                GreetingStatus::NoAcceptableMethod => {
                    self.phase = Phase::Over;
                    let reply = greeting_reply(GreetingStatus::NoAcceptableMethod);
                    let methods = copy_range(self.buf.as_slice(), 2, 2 + self.buf[1] as usize);
                    NegotiationStep::Fail(reply, Socks5Error::NoAcceptableMethod(methods))
                },
                GreetingStatus::BadVersion(v) => {
                    self.phase = Phase::Over;
                    NegotiationStep::Fail(None, Socks5Error::BadVersion(v))
                },
            }
        } else {
            match request_status(self.buf.as_slice()) {
                RequestStatus::NeedBytes(n) => NegotiationStep::Read(n),
                RequestStatus::Complete(a) => {
                    self.phase = Phase::Over;
                    NegotiationStep::Done(a)
                },
                RequestStatus::BadVersion(v) => {
                    self.phase = Phase::Over;
                    NegotiationStep::Fail(None, Socks5Error::BadVersion(v))
                },
                RequestStatus::UnsupportedCommand(c) => {
                    self.phase = Phase::Over;
                    NegotiationStep::Fail(None, Socks5Error::UnsupportedCommand(c))
                },
                RequestStatus::UnsupportedAddressType(t) => {
                    self.phase = Phase::Over;
                    NegotiationStep::Fail(None, Socks5Error::UnsupportedAddressType(t))
                },
                RequestStatus::InvalidDomainName => {
                    self.phase = Phase::Over;
                    NegotiationStep::Fail(None, Socks5Error::InvalidDomainName)
                },
            }
        }
    }
}

/// A message whose every proper prefix is still undecided and which itself
/// is decided: exactly one greeting, as a client sends it.
pub open spec fn is_whole_greeting(g: Seq<u8>) -> bool {
    &&& !(greeting_spec(g) is NeedBytes)
    &&& forall|k: int| 0 <= k < g.len() ==> (#[trigger] greeting_spec(g.take(k))) is NeedBytes
}

/// Exactly one request, as a client sends it.
pub open spec fn is_whole_request(r: Seq<u8>) -> bool {
    &&& !(request_spec(r) is NeedBytes)
    &&& forall|k: int| 0 <= k < r.len() ==> (#[trigger] request_spec(r.take(k))) is NeedBytes
}

/// Runs a negotiation over the byte stream `s` the way the server does:
/// `pending` holds the current message's bytes, `pos` is how far the
/// stream has been read, and the next feed takes the `k` bytes asked for.
/// Gives the final step and how many bytes were read in all; a stream that
/// ends too early leaves the last read unanswered.
pub open spec fn negotiate_stream(
    phase: Phase,
    pending: Seq<u8>,
    s: Seq<u8>,
    pos: nat,
    k: nat,
) -> (NegotiationStepView, nat)
    decreases 2 * (s.len() - pos) + (if k == 0 {
        1int
    } else {
        0int
    }),
{
    if phase == Phase::Over || pos + k > s.len() {
        (NegotiationStepView::Read(k), pos)
    } else {
        let b = pending + s.subrange(pos as int, (pos + k) as int);
        let (step, next_phase, kept) = negotiation_spec(phase, b);
        proof {
            greeting_is_bounded(b);
            request_is_bounded(b);
        }
        match step {
            NegotiationStepView::Read(n) => negotiate_stream(next_phase, kept, s, pos + k, n),
            NegotiationStepView::ReplyThenRead(_, n) => negotiate_stream(
                next_phase,
                kept,
                s,
                pos + k,
                n,
            ),
            _ => (step, pos + k),
        }
    }
}

/// A greeting prefix that asks for more bytes never asks past the end of
/// the greeting it begins.
proof fn greeting_read_stays_inside(g: Seq<u8>, k: int)
    requires
        !(greeting_spec(g) is NeedBytes),
        0 <= k <= g.len(),
    ensures
        greeting_spec(g.take(k)) matches GreetingStatus::NeedBytes(n) ==> k + n <= g.len(),
{
    let p = g.take(k);
    if p.len() >= 1 {
        assert(p[0] == g[0]);
    }
    if p.len() >= 2 {
        assert(p[1] == g[1]);
    }
}

/// A request prefix that asks for more bytes never asks past the end of the
/// request it begins.
proof fn request_read_stays_inside(r: Seq<u8>, k: int)
    requires
        !(request_spec(r) is NeedBytes),
        0 <= k <= r.len(),
    ensures
        request_spec(r.take(k)) matches RequestStatusView::NeedBytes(n) ==> k + n <= r.len(),
{
    let p = r.take(k);
    if p.len() >= 1 {
        assert(p[0] == r[0]);
    }
    if p.len() >= 2 {
        assert(p[1] == r[1]);
    }
    if p.len() >= 4 {
        assert(p[3] == r[3]);
    }
    if p.len() >= 5 {
        assert(p[4] == r[4]);
        if p.len() >= 5 + p[4] {
            assert(domain_bytes(p) =~= domain_bytes(r));
        }
    }
}

/// The greeting phase of a run: from any point inside a whole accepted
/// greeting, the run goes on exactly as the request phase begun right after
/// the greeting.
proof fn greeting_phase_runs_to_its_end(g: Seq<u8>, t: Seq<u8>, pos: nat, k: nat)
    requires
        is_whole_greeting(g),
        pos + k <= g.len(),
        pos < g.len() || k > 0,
    ensures
        negotiate_stream(Phase::Greeting, g.take(pos as int), g + t, pos, k) == ({
            let (step, _, _) = negotiation_spec(Phase::Greeting, g);
            if greeting_spec(g) == GreetingStatus::Accepted {
                negotiate_stream(Phase::Request, Seq::empty(), g + t, g.len(), 1)
            } else {
                (step, g.len())
            }
        }),
    decreases 2 * (g.len() - pos) + (if k == 0 {
        1int
    } else {
        0int
    }),
{
    let s = g + t;
    let b = g.take(pos as int) + s.subrange(pos as int, (pos + k) as int);
    assert(b =~= g.take((pos + k) as int));
    greeting_is_bounded(b);
    request_is_bounded(b);
    if pos + k < g.len() {
        assert(greeting_spec(g.take((pos + k) as int)) is NeedBytes);
        greeting_read_stays_inside(g, (pos + k) as int);
        let n = greeting_spec(b)->NeedBytes_0;
        greeting_phase_runs_to_its_end(g, t, pos + k, n as nat);
    } else {
        assert(b =~= g);
    }
}

/// The request phase of a run: from any point inside a whole request, the
/// run ends with the request's decision, having read exactly to its end.
proof fn request_phase_runs_to_its_end(
    prefix: Seq<u8>,
    r: Seq<u8>,
    t: Seq<u8>,
    pos: nat,
    k: nat,
)
    requires
        is_whole_request(r),
        pos + k <= r.len(),
        pos < r.len() || k > 0,
    ensures
        negotiate_stream(Phase::Request, r.take(pos as int), prefix + r + t, prefix.len() + pos, k)
            == (negotiation_spec(Phase::Request, r).0, prefix.len() + r.len()),
    decreases 2 * (r.len() - pos) + (if k == 0 {
        1int
    } else {
        0int
    }),
{
    let s = prefix + r + t;
    let o = prefix.len();
    let b = r.take(pos as int) + s.subrange((o + pos) as int, (o + pos + k) as int);
    assert(b =~= r.take((pos + k) as int));
    greeting_is_bounded(b);
    request_is_bounded(b);
    if pos + k < r.len() {
        assert(request_spec(r.take((pos + k) as int)) is NeedBytes);
        request_read_stays_inside(r, (pos + k) as int);
        let n = request_spec(b)->NeedBytes_0;
        request_phase_runs_to_its_end(prefix, r, t, pos + k, n);
    } else {
        assert(b =~= r);
    }
}

/// Over a stream that opens with a whole greeting that the server accepts
/// and a whole request, whatever follows, a negotiation ends with the
/// request's decision (the target, or why it is refused) after reading
/// exactly the greeting and the request: none of the data that follows.
/// A greeting that is refused ends it right after the greeting.
pub proof fn negotiation_reads_exactly_its_messages(g: Seq<u8>, r: Seq<u8>, rest: Seq<u8>)
    requires
        is_whole_greeting(g),
        greeting_spec(g) == GreetingStatus::Accepted ==> is_whole_request(r),
    ensures
        negotiate_stream(Phase::Greeting, Seq::empty(), g + r + rest, 0, 0) == (
        if greeting_spec(g) == GreetingStatus::Accepted {
            (negotiation_spec(Phase::Request, r).0, g.len() + r.len())
        } else {
            (negotiation_spec(Phase::Greeting, g).0, g.len())
        }),
{
    let s = g + r + rest;
    assert(s == g + (r + rest)) by {
        assert(s =~= g + (r + rest));
    }
    assert(g.len() >= 1) by {
        if g.len() == 0 {
            assert(g =~= Seq::<u8>::empty());
        }
    }
    assert(g.take(0) =~= Seq::<u8>::empty());
    greeting_phase_runs_to_its_end(g, r + rest, 0, 0);
    if greeting_spec(g) == GreetingStatus::Accepted {
        assert(r.len() >= 1) by {
            if r.len() == 0 {
                assert(r =~= Seq::<u8>::empty());
            }
        }
        assert(r.take(0) =~= Seq::<u8>::empty());
        request_phase_runs_to_its_end(g, r, rest, 0, 1);
    }
}

/// The bytes of a complete greeting from a SOCKS5 client: version 5, a
/// method count `b[1]`, and at least that many method bytes.
pub open spec fn complete_socks5_greeting(b: Seq<u8>) -> bool {
    b.len() >= 2 && b[0] == 5 && b.len() >= 2 + b[1]
}

/// A complete greeting is accepted exactly when "no authentication" (0x00)
/// is among its offered methods, at any position, and refused otherwise.
pub proof fn greeting_accepts_exactly_when_no_auth_offered(b: Seq<u8>)
    requires
        complete_socks5_greeting(b),
    ensures
        greeting_spec(b) == GreetingStatus::Accepted <==> exists|j: int|
            2 <= j < 2 + b[1] && #[trigger] b[j] == 0,
        greeting_spec(b) == GreetingStatus::NoAcceptableMethod <==> !exists|j: int|
            2 <= j < 2 + b[1] && #[trigger] b[j] == 0,
{
    let methods = b.subrange(2, 2 + b[1]);
    if exists|j: int| 2 <= j < 2 + b[1] && #[trigger] b[j] == 0 {
        let j = choose|j: int| 2 <= j < 2 + b[1] && #[trigger] b[j] == 0;
        assert(methods[j - 2] == 0);
        assert(methods.contains(0));
    } else {
        assert(!methods.contains(0)) by {
            assert forall|k: int| 0 <= k < methods.len() implies methods[k] != 0 by {
                assert(methods[k] == b[k + 2]);
            }
        }
    }
}

/// A greeting is refused for its version as soon as its first byte is not
/// 5, and is undecided while its method bytes are not all there.
pub proof fn greeting_version_and_length(b: Seq<u8>)
    ensures
        b.len() >= 1 && b[0] != 5 ==> greeting_spec(b) == GreetingStatus::BadVersion(b[0]),
        b.len() >= 1 && b[0] == 5 && (b.len() < 2 || b.len() < 2 + b[1]) ==> greeting_spec(
            b,
        ) is NeedBytes,
        b.len() == 0 ==> greeting_spec(b) == GreetingStatus::NeedBytes(1),
        b.len() >= 2 && b[0] == 5 && b.len() < 2 + b[1] ==> greeting_spec(b)
            == GreetingStatus::NeedBytes((2 + b[1] - b.len()) as usize),
{
}

/// The selection message sent for an accepted greeting is `[5, 0]`, and for
/// a refused one `[5, 0xFF]`.
pub proof fn method_selection_bytes()
    ensures
        method_selection(METHOD_NO_AUTH) == seq![5u8, 0u8],
        method_selection(METHOD_NONE_ACCEPTABLE) == seq![5u8, 0xFFu8],
{
}

/// The header of a CONNECT request from a SOCKS5 client: version 5,
/// command 1, any reserved byte, and the address type `atyp`.
pub open spec fn connect_header(b: Seq<u8>, atyp: u8) -> bool {
    b.len() >= 4 && b[0] == 5 && b[1] == 1 && b[3] == atyp
}

/// A complete IPv4 CONNECT request asks for the four address bytes that
/// follow its header, at the port that the next two bytes give in network
/// byte order (high byte first).
pub proof fn ipv4_request_decodes_its_bytes(b: Seq<u8>)
    requires
        connect_header(b, 1),
        b.len() >= 10,
    ensures
        request_spec(b) matches RequestStatusView::Complete(
            AddressView::SocketAddr(SocketAddrView::V4(ip, port)),
        ) && ip == b.subrange(4, 8) && port as int == b[8] as int * 256 + b[9] as int,
{
}

/// A complete IPv6 CONNECT request asks for the sixteen address bytes that
/// follow its header, at the port that the next two bytes give in network
/// byte order, with no flow information and no scope.
pub proof fn ipv6_request_decodes_its_bytes(b: Seq<u8>)
    requires
        connect_header(b, 4),
        b.len() >= 22,
    ensures
        request_spec(b) matches RequestStatusView::Complete(
            AddressView::SocketAddr(SocketAddrView::V6(ip, port, flow, scope)),
        ) && ip == b.subrange(4, 20) && port as int == b[20] as int * 256 + b[21] as int && flow
            == 0 && scope == 0,
{
}

/// A complete domain-name CONNECT request whose name is valid UTF-8 asks
/// for the text those name bytes encode, at the port that the two bytes
/// after the name give in network byte order; one whose name is not valid
/// UTF-8 is refused as soon as the name is read.
pub proof fn domain_request_decodes_its_bytes(b: Seq<u8>)
    requires
        connect_header(b, 3),
        b.len() >= 5,
        b.len() >= 5 + b[4],
    ensures
        valid_utf8(b.subrange(5, 5 + b[4])) && b.len() >= 7 + b[4] ==> (request_spec(b)
            matches RequestStatusView::Complete(AddressView::DomainName(name, port)) && name
            == decode_utf8(b.subrange(5, 5 + b[4])) && port as int == b[5 + b[4]] as int * 256
            + b[6 + b[4]] as int),
        !valid_utf8(b.subrange(5, 5 + b[4])) ==> request_spec(b)
            == RequestStatusView::InvalidDomainName,
{
}

/// A request is refused for its version when its first byte is not 5, for
/// its command when its second is not CONNECT, and for its address type
/// when its fourth is none of 1, 3 and 4.
pub proof fn request_refusals(b: Seq<u8>)
    ensures
        b.len() >= 1 && b[0] != 5 ==> request_spec(b) == RequestStatusView::BadVersion(b[0]),
        b.len() >= 2 && b[0] == 5 && b[1] != 1 ==> request_spec(b)
            == RequestStatusView::UnsupportedCommand(b[1]),
        b.len() >= 4 && b[0] == 5 && b[1] == 1 && b[3] != 1 && b[3] != 3 && b[3] != 4
            ==> request_spec(b) == RequestStatusView::UnsupportedAddressType(b[3]),
{
}

/// A request is complete only once all its bytes are there: a CONNECT
/// header, then a whole address and its port.
pub proof fn request_complete_only_when_whole(b: Seq<u8>)
    ensures
        request_spec(b) is Complete ==> {
            &&& b.len() >= 4 && b[0] == 5 && b[1] == 1
            &&& (b[3] == 1 && b.len() >= 10) || (b[3] == 4 && b.len() >= 22) || (b[3] == 3
                && b.len() >= 5 && b.len() >= 7 + b[4])
        },
{
}

/// In the request phase a negotiation ends with exactly the target that
/// the request bytes decode to, and with exactly the refusal they give; in
/// the greeting phase an accepted greeting is answered with `[5, 0]` and
/// moves on to a one-byte read of the request.
pub proof fn negotiation_follows_its_messages(b: Seq<u8>)
    ensures
        request_spec(b) matches RequestStatusView::Complete(a) ==> negotiation_spec(
            Phase::Request,
            b,
        ) == (NegotiationStepView::Done(a), Phase::Over, b),
        request_spec(b) matches RequestStatusView::NeedBytes(n) ==> negotiation_spec(
            Phase::Request,
            b,
        ) == (NegotiationStepView::Read(n), Phase::Request, b),
        request_spec(b) matches RequestStatusView::BadVersion(v) ==> negotiation_spec(
            Phase::Request,
            b,
        ).0 == NegotiationStepView::Fail(None, Socks5ErrorView::BadVersion(v)),
        request_spec(b) matches RequestStatusView::UnsupportedCommand(c) ==> negotiation_spec(
            Phase::Request,
            b,
        ).0 == NegotiationStepView::Fail(None, Socks5ErrorView::UnsupportedCommand(c)),
        request_spec(b) matches RequestStatusView::UnsupportedAddressType(t) ==> negotiation_spec(
            Phase::Request,
            b,
        ).0 == NegotiationStepView::Fail(None, Socks5ErrorView::UnsupportedAddressType(t)),
        request_spec(b) == RequestStatusView::InvalidDomainName ==> negotiation_spec(
            Phase::Request,
            b,
        ).0 == NegotiationStepView::Fail(None, Socks5ErrorView::InvalidDomainName),
        greeting_spec(b) == GreetingStatus::Accepted ==> negotiation_spec(Phase::Greeting, b) == (
            NegotiationStepView::ReplyThenRead(seq![5u8, 0u8], 1),
            Phase::Request,
            Seq::<u8>::empty(),
        ),
        greeting_spec(b) == GreetingStatus::NoAcceptableMethod ==> negotiation_spec(
            Phase::Greeting,
            b,
        ).0 == NegotiationStepView::Fail(
            Some(seq![5u8, 0xFFu8]),
            Socks5ErrorView::NoAcceptableMethod(b.subrange(2, 2 + b[1])),
        ),
{
}

/// A negotiation in its request phase, fed a complete IPv4 CONNECT
/// request, ends with the four address bytes and the big-endian port that
/// follow the header: the target the client asked for.
pub proof fn negotiation_connects_to_requested_ipv4(b: Seq<u8>)
    requires
        connect_header(b, 1),
        b.len() >= 10,
    ensures
        negotiation_spec(Phase::Request, b).0 matches NegotiationStepView::Done(
            AddressView::SocketAddr(SocketAddrView::V4(ip, port)),
        ) && ip == b.subrange(4, 8) && port as int == b[8] as int * 256 + b[9] as int,
{
    ipv4_request_decodes_its_bytes(b);
    negotiation_follows_its_messages(b);
}

} // verus!
